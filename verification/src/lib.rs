//! Verified control logic for a small hardware exerciser.
//!
//! The library models and verifies the decision-making core of a display
//! pipeline driven through the atomic mode-setting interface (resource
//! selection, buffer lifecycle, test-pattern painting, planar framebuffer
//! layout, atomic transaction assembly and commit semantics) together with
//! the ioctl request encoding of a small PWM control protocol.  All actual
//! kernel traffic is performed by an unverified front end that feeds plain
//! values into these functions and carries their decisions out.

pub mod buffer;
pub mod catalog;
pub mod errors;
pub mod fb;
pub mod ioctl;
pub mod pwm;
pub mod sim;
pub mod transaction;
