//! Resource catalog: connectors, CRTCs, planes, and the selection policies
//! of the display pipeline.
//!
//! Each type is a plain-value snapshot of what the kernel reports for one
//! display object; the unverified front end fills them from a fresh query
//! and hands them in.  Selection never retries and never falls back beyond
//! the stated policy: exhausting it is a terminal failure.

use vstd::prelude::*;

use crate::errors::HwError;

verus! {

/// Connection state a connector reports.
#[derive(Clone, Copy, Debug, PartialEq, Eq, Structural)]
pub enum ConnectionState {
    /// A display is attached.
    Connected,
    /// No display is attached.
    Disconnected,
    /// The driver cannot tell.
    Unknown,
}

/// One display mode a connector advertises.
#[derive(Clone, Copy, Debug, PartialEq, Eq, Structural)]
pub struct DisplayMode {
    /// Horizontal resolution in pixels.
    pub width: u16,
    /// Vertical resolution in pixels.
    pub height: u16,
    /// Vertical refresh rate in Hz.
    pub refresh: u32,
}

/// Snapshot of one physical output port.
#[derive(Clone, Debug)]
pub struct Connector {
    /// Kernel object handle.
    pub handle: u32,
    /// Whether a display is attached.
    pub state: ConnectionState,
    /// Advertised modes, in the kernel's preference order.
    pub modes: Vec<DisplayMode>,
}

/// Snapshot of one display pipeline stage.
#[derive(Clone, Copy, Debug, PartialEq, Eq, Structural)]
pub struct Crtc {
    /// Kernel object handle.
    pub handle: u32,
}

/// Kind of a scan-out plane.
#[derive(Clone, Copy, Debug, PartialEq, Eq, Structural)]
pub enum PlaneKind {
    /// A general compositing layer.
    Overlay,
    /// The main scan-out layer of a pipeline.
    Primary,
    /// A hardware cursor layer.
    Cursor,
}

/// Snapshot of one scan-out plane.
#[derive(Clone, Copy, Debug, PartialEq, Eq, Structural)]
pub struct Plane {
    /// Kernel object handle.
    pub handle: u32,
    /// Kind of the plane.
    pub kind: PlaneKind,
    /// Bitmask over CRTC enumeration indices: bit `i` set means the plane
    /// may attach to the CRTC at index `i`.
    pub possible_crtcs: u32,
}

/// Decodes the kernel's numeric plane-type code.
pub fn plane_kind_from_code(code: u64) -> (r: Option<PlaneKind>)
    ensures
        code == 0 ==> r == Some(PlaneKind::Overlay),
        code == 1 ==> r == Some(PlaneKind::Primary),
        code == 2 ==> r == Some(PlaneKind::Cursor),
        code > 2 ==> r is None,
{
    if code == 0 {
        Some(PlaneKind::Overlay)
    } else if code == 1 {
        Some(PlaneKind::Primary)
    } else if code == 2 {
        Some(PlaneKind::Cursor)
    } else {
        None
    }
}

/// Whether some connector in the snapshot reports an attached display.
pub open spec fn spec_some_connected(connectors: Seq<Connector>) -> bool {
    exists|j: int| 0 <= j < connectors.len() && connectors[j].state is Connected
}

/// Selects the first connector that reports an attached display.
///
/// Returns its index in enumeration order; fails with
/// `NoDisplayAttachedError` exactly when no connector is connected.
pub fn select_connected(connectors: &Vec<Connector>) -> (r: Result<usize, HwError>)
    ensures
        match r {
            Ok(i) => 0 <= i < connectors@.len() && connectors@[i as int].state is Connected
                && (forall|j: int| 0 <= j < i ==> !(connectors@[j].state is Connected)),
            Err(e) => e == HwError::NoDisplayAttachedError && !spec_some_connected(connectors@),
        },
{
    let n = connectors.len();
    let mut i: usize = 0;
    while i < n
        invariant
            n == connectors@.len(),
            0 <= i <= n,
            forall|j: int| 0 <= j < i ==> !(connectors@[j].state is Connected),
        decreases n - i,
    {
        if connectors[i].state == ConnectionState::Connected {
            return Ok(i);
        }
        i += 1;
    }
    Err(HwError::NoDisplayAttachedError)
}

/// Selects the first (highest-preference) mode the connector advertises;
/// fails with `NoModeAvailableError` exactly when the mode list is empty.
pub fn select_mode(connector: &Connector) -> (r: Result<DisplayMode, HwError>)
    ensures
        connector.modes@.len() > 0 ==> r == Ok::<DisplayMode, HwError>(connector.modes@[0]),
        connector.modes@.len() == 0 ==> r == Err::<DisplayMode, HwError>(
            HwError::NoModeAvailableError,
        ),
{
    if connector.modes.len() > 0 {
        Ok(connector.modes[0])
    } else {
        Err(HwError::NoModeAvailableError)
    }
}

/// Whether bit `i` of a possible-CRTC mask is set.  Indices outside the
/// 32-bit mask are never set.
pub open spec fn spec_mask_bit(mask: u32, i: int) -> bool {
    0 <= i < 32 && (mask >> (i as u32)) & 1 == 1
}

/// The handles of the CRTCs a plane may attach to: the plane's bitmask
/// intersected against CRTC enumeration indices, in enumeration order.
pub open spec fn spec_compatible_crtcs(mask: u32, crtcs: Seq<Crtc>) -> Seq<u32>
    decreases crtcs.len(),
{
    if crtcs.len() == 0 {
        Seq::empty()
    } else {
        let prefix = spec_compatible_crtcs(mask, crtcs.drop_last());
        if spec_mask_bit(mask, crtcs.len() - 1) {
            prefix.push(crtcs.last().handle)
        } else {
            prefix
        }
    }
}

/// Computes the set of CRTCs a plane is eligible for.  This intersection,
/// not a kernel call, determines eligibility; it must be recomputed
/// whenever the CRTC enumeration changes.
pub fn compatible_crtcs(plane: &Plane, crtcs: &Vec<Crtc>) -> (r: Vec<u32>)
    ensures
        r@ == spec_compatible_crtcs(plane.possible_crtcs, crtcs@),
{
    let mask = plane.possible_crtcs;
    let n = crtcs.len();
    let mut r: Vec<u32> = Vec::new();
    let mut i: usize = 0;
    while i < n
        invariant
            n == crtcs@.len(),
            0 <= i <= n,
            r@ == spec_compatible_crtcs(mask, crtcs@.take(i as int)),
        decreases n - i,
    {
        proof {
            assert(crtcs@.take(i as int + 1).drop_last() =~= crtcs@.take(i as int));
            assert(crtcs@.take(i as int + 1).last() == crtcs@[i as int]);
        }
        if i < 32 && (mask >> (i as u32)) & 1 == 1 {
            r.push(crtcs[i].handle);
        }
        i += 1;
    }
    proof {
        assert(crtcs@.take(n as int) =~= crtcs@);
    }
    r
}

/// Whether the plane may attach to the CRTC with handle `crtc_handle`,
/// as determined by the bitmask intersection.
pub open spec fn spec_plane_compatible(plane: Plane, crtcs: Seq<Crtc>, crtc_handle: u32) -> bool {
    exists|i: int|
        0 <= i < crtcs.len() && spec_mask_bit(plane.possible_crtcs, i as int) && crtcs[i].handle
            == crtc_handle
}

/// Decides eligibility of one plane for the chosen CRTC.
pub fn plane_compatible(plane: &Plane, crtcs: &Vec<Crtc>, crtc_handle: u32) -> (r: bool)
    ensures
        r == spec_plane_compatible(*plane, crtcs@, crtc_handle),
{
    let n = crtcs.len();
    let mut i: usize = 0;
    while i < n
        invariant
            n == crtcs@.len(),
            0 <= i <= n,
            forall|j: int|
                0 <= j < i ==> !(spec_mask_bit(plane.possible_crtcs, j) && crtcs@[j].handle
                    == crtc_handle),
        decreases n - i,
    {
        if i < 32 && (plane.possible_crtcs >> (i as u32)) & 1 == 1 && crtcs[i].handle
            == crtc_handle {
            proof {
                assert(spec_mask_bit(plane.possible_crtcs, i as int) && crtcs@[i as int].handle
                    == crtc_handle);
            }
            return true;
        }
        i += 1;
    }
    false
}

/// Handle of the first plane, in enumeration order, that is eligible for
/// the chosen CRTC and whose "is Primary" status equals `want_primary`.
pub open spec fn spec_first_plane(
    planes: Seq<Plane>,
    crtcs: Seq<Crtc>,
    crtc_handle: u32,
    want_primary: bool,
) -> Option<u32>
    decreases planes.len(),
{
    if planes.len() == 0 {
        None
    } else {
        let found = spec_first_plane(planes.drop_last(), crtcs, crtc_handle, want_primary);
        if found is Some {
            found
        } else {
            let p = planes.last();
            if spec_plane_compatible(p, crtcs, crtc_handle) && ((p.kind is Primary)
                == want_primary) {
                Some(p.handle)
            } else {
                None
            }
        }
    }
}

/// Selection policy for the scan-out plane: prefer the first Primary-kind
/// plane among those eligible for the chosen CRTC; if none is Primary,
/// fall back to the first eligible plane found (enumeration order breaks
/// ties); `None` when no plane is eligible at all.
pub open spec fn spec_select_plane(planes: Seq<Plane>, crtcs: Seq<Crtc>, crtc_handle: u32) -> Option<
    u32,
> {
    match spec_first_plane(planes, crtcs, crtc_handle, true) {
        Some(h) => Some(h),
        None => spec_first_plane(planes, crtcs, crtc_handle, false),
    }
}

/// Selects the scan-out plane for the chosen CRTC under the policy of
/// [`spec_select_plane`].
pub fn select_plane(planes: &Vec<Plane>, crtcs: &Vec<Crtc>, crtc_handle: u32) -> (r: Option<u32>)
    ensures
        r == spec_select_plane(planes@, crtcs@, crtc_handle),
{
    let n = planes.len();
    let mut first_primary: Option<u32> = None;
    let mut first_fallback: Option<u32> = None;
    let mut i: usize = 0;
    while i < n
        invariant
            n == planes@.len(),
            0 <= i <= n,
            first_primary == spec_first_plane(planes@.take(i as int), crtcs@, crtc_handle, true),
            first_fallback == spec_first_plane(planes@.take(i as int), crtcs@, crtc_handle, false),
        decreases n - i,
    {
        proof {
            assert(planes@.take(i as int + 1).drop_last() =~= planes@.take(i as int));
            assert(planes@.take(i as int + 1).last() == planes@[i as int]);
        }
        let p = planes[i];
        if plane_compatible(&p, crtcs, crtc_handle) {
            if p.kind == PlaneKind::Primary {
                if first_primary.is_none() {
                    first_primary = Some(p.handle);
                }
            } else {
                if first_fallback.is_none() {
                    first_fallback = Some(p.handle);
                }
            }
        }
        i += 1;
    }
    proof {
        assert(planes@.take(n as int) =~= planes@);
    }
    match first_primary {
        Some(h) => Some(h),
        None => first_fallback,
    }
}

/// Plane selection is deterministic: on equal snapshots (same enumeration
/// order, same kind assignment, same masks) and the same chosen CRTC, the
/// policy picks the same plane.
pub proof fn lemma_select_plane_deterministic(
    planes1: Seq<Plane>,
    crtcs1: Seq<Crtc>,
    crtc_handle1: u32,
    planes2: Seq<Plane>,
    crtcs2: Seq<Crtc>,
    crtc_handle2: u32,
)
    requires
        planes1 == planes2,
        crtcs1 == crtcs2,
        crtc_handle1 == crtc_handle2,
    ensures
        spec_select_plane(planes1, crtcs1, crtc_handle1) == spec_select_plane(
            planes2,
            crtcs2,
            crtc_handle2,
        ),
{
}

} // verus!
