//! Planar framebuffer adapter: the per-plane geometry metadata that
//! registers a pixel buffer as a scan-out source.
//!
//! This is pure data transformation.  Up to four planes can be described;
//! this design uses a single-plane layout, so only the first slot of each
//! array is populated, and the unused slots are explicitly absent (`None`
//! handles), never zero-valued handles the kernel could mistake for valid
//! planes.

use vstd::prelude::*;

use crate::buffer::{PixelBuffer, PixelFormat};

verus! {

/// Wraps a pixel buffer with the plane geometry needed to register it as
/// a framebuffer.
#[derive(Clone, Copy, Debug, PartialEq, Eq, Structural)]
pub struct PlanarFramebuffer {
    /// The buffer being described.
    pub buffer: PixelBuffer,
}

impl PlanarFramebuffer {
    /// Describes `buffer` as a single-plane scan-out source.
    pub fn from_buffer(buffer: &PixelBuffer) -> (r: PlanarFramebuffer)
        ensures
            r.buffer == *buffer,
    {
        PlanarFramebuffer { buffer: *buffer }
    }

    /// Gives back the wrapped buffer.
    pub fn into_buffer(self) -> (r: PixelBuffer)
        ensures
            r == self.buffer,
    {
        self.buffer
    }

    /// Size of the framebuffer in pixels.
    pub fn size(&self) -> (r: (u32, u32))
        ensures
            r.0 == self.buffer.width as u32,
            r.1 == self.buffer.height as u32,
    {
        (self.buffer.width as u32, self.buffer.height as u32)
    }

    /// Pixel format of the framebuffer.
    pub fn format(&self) -> (r: PixelFormat)
        ensures
            r == self.buffer.format,
    {
        self.buffer.format
    }

    /// Layout modifier: fixed to absent, no tiling or compression
    /// modifiers are negotiated in this design.
    pub fn modifier(&self) -> (r: Option<u64>)
        ensures
            r is None,
    {
        None
    }

    /// Per-plane pitches: the buffer's pitch in the first slot, zero in
    /// the unused slots.
    pub fn pitches(&self) -> (r: [u32; 4])
        ensures
            r[0] == self.buffer.pitch,
            r[1] == 0,
            r[2] == 0,
            r[3] == 0,
    {
        [self.buffer.pitch, 0, 0, 0]
    }

    /// Per-plane buffer handles: the buffer's handle in the first slot,
    /// explicitly absent in the unused slots.
    pub fn handles(&self) -> (r: [Option<u32>; 4])
        ensures
            r[0] == Some(self.buffer.handle),
            r[1] is None,
            r[2] is None,
            r[3] is None,
    {
        [Some(self.buffer.handle), None, None, None]
    }

    /// Per-plane byte offsets: all zero, single-plane layout only.
    pub fn offsets(&self) -> (r: [u32; 4])
        ensures
            r[0] == 0,
            r[1] == 0,
            r[2] == 0,
            r[3] == 0,
    {
        [0, 0, 0, 0]
    }
}

} // verus!
