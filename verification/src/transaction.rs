//! Atomic transaction builder: property resolution and assembly of the
//! one indivisible commit that links connector, CRTC and plane.
//!
//! Property handles must come from a fresh query against the very device
//! handle the commit goes to; the unverified front end translates the
//! kernel's property-name strings into [`PropName`] and hands the
//! `(name, handle)` pairs in.  Resolution is all-or-nothing: a missing
//! required name fails the whole resolution, never yielding a partial
//! mapping.

use vstd::prelude::*;

use crate::errors::HwError;

verus! {

/// The property names the fixed display pipeline depends on.
#[derive(Clone, Copy, Debug, PartialEq, Eq, Structural)]
pub enum PropName {
    /// "CRTC_ID" on a connector or plane.
    CrtcId,
    /// "MODE_ID" on a CRTC.
    ModeId,
    /// "ACTIVE" on a CRTC.
    Active,
    /// "FB_ID" on a plane.
    FbId,
    /// "SRC_X" on a plane.
    SrcX,
    /// "SRC_Y" on a plane.
    SrcY,
    /// "SRC_W" on a plane.
    SrcW,
    /// "SRC_H" on a plane.
    SrcH,
    /// "CRTC_X" on a plane.
    CrtcX,
    /// "CRTC_Y" on a plane.
    CrtcY,
    /// "CRTC_W" on a plane.
    CrtcW,
    /// "CRTC_H" on a plane.
    CrtcH,
    /// "type" on a plane.
    Kind,
}

/// A property value, in the shapes the kernel interface distinguishes.
#[derive(Clone, Copy, Debug, PartialEq, Eq)]
pub enum PropertyValue {
    /// A CRTC object reference, possibly absent.
    Crtc(Option<u32>),
    /// A blob object reference.
    Blob(u64),
    /// A boolean property.
    Boolean(bool),
    /// A framebuffer object reference, possibly absent.
    Framebuffer(Option<u32>),
    /// An unsigned range property.
    UnsignedRange(u64),
    /// A signed range property.
    SignedRange(i64),
}

/// Handle of the first pair carrying `name`, in query order.
pub open spec fn spec_find_property(props: Seq<(PropName, u64)>, name: PropName) -> Option<u64>
    decreases props.len(),
{
    if props.len() == 0 {
        None
    } else {
        let found = spec_find_property(props.drop_last(), name);
        if found is Some {
            found
        } else if props.last().0 == name {
            Some(props.last().1)
        } else {
            None
        }
    }
}

/// Looks up the handle of the first property carrying `name` in a fresh
/// property snapshot of one object.
pub fn find_property(props: &Vec<(PropName, u64)>, name: PropName) -> (r: Option<u64>)
    ensures
        r == spec_find_property(props@, name),
{
    let n = props.len();
    let mut i: usize = 0;
    let mut found: Option<u64> = None;
    while i < n
        invariant
            n == props@.len(),
            0 <= i <= n,
            found == spec_find_property(props@.take(i as int), name),
        decreases n - i,
    {
        proof {
            assert(props@.take(i as int + 1).drop_last() =~= props@.take(i as int));
            assert(props@.take(i as int + 1).last() == props@[i as int]);
        }
        if found.is_none() && props[i].0 == name {
            found = Some(props[i].1);
        }
        i += 1;
    }
    proof {
        assert(props@.take(n as int) =~= props@);
    }
    found
}

/// Reads the plane kind out of a plane's property snapshot: the value of
/// the first "type" property, decoded; absent or out of range means the
/// kind cannot be established.
pub fn plane_kind_of(props: &Vec<(PropName, u64)>) -> (r: Option<crate::catalog::PlaneKind>)
    ensures
        match spec_find_property(props@, PropName::Kind) {
            Some(code) => {
                &&& code == 0 ==> r == Some(crate::catalog::PlaneKind::Overlay)
                &&& code == 1 ==> r == Some(crate::catalog::PlaneKind::Primary)
                &&& code == 2 ==> r == Some(crate::catalog::PlaneKind::Cursor)
                &&& code > 2 ==> r is None
            },
            None => r is None,
        },
{
    match find_property(props, PropName::Kind) {
        Some(code) => crate::catalog::plane_kind_from_code(code),
        None => None,
    }
}

/// Whether every required name occurs in the snapshot.
pub open spec fn spec_all_present(props: Seq<(PropName, u64)>, required: Seq<PropName>) -> bool {
    forall|k: int| 0 <= k < required.len() ==> spec_find_property(props, required[k]) is Some
}

/// Resolves the handles of all `required` property names on one object's
/// snapshot, in the order the names are given.
///
/// Fails with `PropertyNotFoundError` exactly when some required name is
/// absent; nothing is returned in that case — there is no partial
/// mapping.
pub fn resolve_properties(props: &Vec<(PropName, u64)>, required: &Vec<PropName>) -> (r: Result<
    Vec<u64>,
    HwError,
>)
    ensures
        match r {
            Ok(handles) => {
                &&& spec_all_present(props@, required@)
                &&& handles@.len() == required@.len()
                &&& forall|k: int|
                    0 <= k < required@.len() ==> Some(handles@[k]) == spec_find_property(
                        props@,
                        required@[k],
                    )
            },
            Err(e) => e == HwError::PropertyNotFoundError && !spec_all_present(props@, required@),
        },
{
    let n = required.len();
    let mut handles: Vec<u64> = Vec::new();
    let mut k: usize = 0;
    while k < n
        invariant
            n == required@.len(),
            0 <= k <= n,
            handles@.len() == k,
            forall|j: int|
                0 <= j < k ==> Some(handles@[j]) == spec_find_property(props@, required@[j]),
        decreases n - k,
    {
        match find_property(props, required[k]) {
            Some(h) => {
                handles.push(h);
            },
            None => {
                return Err(HwError::PropertyNotFoundError);
            },
        }
        k += 1;
    }
    Ok(handles)
}

/// The resolved writable property handles of the chosen connector.
#[derive(Clone, Copy, Debug, PartialEq, Eq, Structural)]
pub struct ConnectorProps {
    /// Handle of "CRTC_ID".
    pub crtc_id: u64,
}

/// The resolved writable property handles of the chosen CRTC.
#[derive(Clone, Copy, Debug, PartialEq, Eq, Structural)]
pub struct CrtcProps {
    /// Handle of "MODE_ID".
    pub mode_id: u64,
    /// Handle of "ACTIVE".
    pub active: u64,
}

/// The resolved writable property handles of the chosen plane.
#[derive(Clone, Copy, Debug, PartialEq, Eq, Structural)]
pub struct PlaneProps {
    /// Handle of "FB_ID".
    pub fb_id: u64,
    /// Handle of "CRTC_ID".
    pub crtc_id: u64,
    /// Handle of "SRC_X".
    pub src_x: u64,
    /// Handle of "SRC_Y".
    pub src_y: u64,
    /// Handle of "SRC_W".
    pub src_w: u64,
    /// Handle of "SRC_H".
    pub src_h: u64,
    /// Handle of "CRTC_X".
    pub crtc_x: u64,
    /// Handle of "CRTC_Y".
    pub crtc_y: u64,
    /// Handle of "CRTC_W".
    pub crtc_w: u64,
    /// Handle of "CRTC_H".
    pub crtc_h: u64,
}

/// Resolves the connector's required property: "CRTC_ID".  Fails with
/// `PropertyNotFoundError` exactly when it is absent.
pub fn resolve_connector_props(props: &Vec<(PropName, u64)>) -> (r: Result<ConnectorProps, HwError>)
    ensures
        match r {
            Ok(cp) => Some(cp.crtc_id) == spec_find_property(props@, PropName::CrtcId),
            Err(e) => e == HwError::PropertyNotFoundError && spec_find_property(
                props@,
                PropName::CrtcId,
            ) is None,
        },
{
    match find_property(props, PropName::CrtcId) {
        Some(crtc_id) => Ok(ConnectorProps { crtc_id }),
        None => Err(HwError::PropertyNotFoundError),
    }
}

/// Resolves the CRTC's required properties: "MODE_ID" and "ACTIVE".
/// Fails with `PropertyNotFoundError` exactly when either is absent.
pub fn resolve_crtc_props(props: &Vec<(PropName, u64)>) -> (r: Result<CrtcProps, HwError>)
    ensures
        match r {
            Ok(cp) => Some(cp.mode_id) == spec_find_property(props@, PropName::ModeId) && Some(
                cp.active,
            ) == spec_find_property(props@, PropName::Active),
            Err(e) => e == HwError::PropertyNotFoundError && (spec_find_property(
                props@,
                PropName::ModeId,
            ) is None || spec_find_property(props@, PropName::Active) is None),
        },
{
    let mode_id = match find_property(props, PropName::ModeId) {
        Some(h) => h,
        None => {
            return Err(HwError::PropertyNotFoundError);
        },
    };
    let active = match find_property(props, PropName::Active) {
        Some(h) => h,
        None => {
            return Err(HwError::PropertyNotFoundError);
        },
    };
    Ok(CrtcProps { mode_id, active })
}

/// Resolves the plane's ten required properties.  Fails with
/// `PropertyNotFoundError` exactly when any of them is absent.
pub fn resolve_plane_props(props: &Vec<(PropName, u64)>) -> (r: Result<PlaneProps, HwError>)
    ensures
        match r {
            Ok(pp) => {
                &&& Some(pp.fb_id) == spec_find_property(props@, PropName::FbId)
                &&& Some(pp.crtc_id) == spec_find_property(props@, PropName::CrtcId)
                &&& Some(pp.src_x) == spec_find_property(props@, PropName::SrcX)
                &&& Some(pp.src_y) == spec_find_property(props@, PropName::SrcY)
                &&& Some(pp.src_w) == spec_find_property(props@, PropName::SrcW)
                &&& Some(pp.src_h) == spec_find_property(props@, PropName::SrcH)
                &&& Some(pp.crtc_x) == spec_find_property(props@, PropName::CrtcX)
                &&& Some(pp.crtc_y) == spec_find_property(props@, PropName::CrtcY)
                &&& Some(pp.crtc_w) == spec_find_property(props@, PropName::CrtcW)
                &&& Some(pp.crtc_h) == spec_find_property(props@, PropName::CrtcH)
            },
            Err(e) => {
                &&& e == HwError::PropertyNotFoundError
                &&& {
                    ||| spec_find_property(props@, PropName::FbId) is None
                    ||| spec_find_property(props@, PropName::CrtcId) is None
                    ||| spec_find_property(props@, PropName::SrcX) is None
                    ||| spec_find_property(props@, PropName::SrcY) is None
                    ||| spec_find_property(props@, PropName::SrcW) is None
                    ||| spec_find_property(props@, PropName::SrcH) is None
                    ||| spec_find_property(props@, PropName::CrtcX) is None
                    ||| spec_find_property(props@, PropName::CrtcY) is None
                    ||| spec_find_property(props@, PropName::CrtcW) is None
                    ||| spec_find_property(props@, PropName::CrtcH) is None
                }
            },
        },
{
    let fb_id = match find_property(props, PropName::FbId) {
        Some(h) => h,
        None => {
            return Err(HwError::PropertyNotFoundError);
        },
    };
    let crtc_id = match find_property(props, PropName::CrtcId) {
        Some(h) => h,
        None => {
            return Err(HwError::PropertyNotFoundError);
        },
    };
    let src_x = match find_property(props, PropName::SrcX) {
        Some(h) => h,
        None => {
            return Err(HwError::PropertyNotFoundError);
        },
    };
    let src_y = match find_property(props, PropName::SrcY) {
        Some(h) => h,
        None => {
            return Err(HwError::PropertyNotFoundError);
        },
    };
    let src_w = match find_property(props, PropName::SrcW) {
        Some(h) => h,
        None => {
            return Err(HwError::PropertyNotFoundError);
        },
    };
    let src_h = match find_property(props, PropName::SrcH) {
        Some(h) => h,
        None => {
            return Err(HwError::PropertyNotFoundError);
        },
    };
    let crtc_x = match find_property(props, PropName::CrtcX) {
        Some(h) => h,
        None => {
            return Err(HwError::PropertyNotFoundError);
        },
    };
    let crtc_y = match find_property(props, PropName::CrtcY) {
        Some(h) => h,
        None => {
            return Err(HwError::PropertyNotFoundError);
        },
    };
    let crtc_w = match find_property(props, PropName::CrtcW) {
        Some(h) => h,
        None => {
            return Err(HwError::PropertyNotFoundError);
        },
    };
    let crtc_h = match find_property(props, PropName::CrtcH) {
        Some(h) => h,
        None => {
            return Err(HwError::PropertyNotFoundError);
        },
    };
    Ok(PlaneProps {
        fb_id,
        crtc_id,
        src_x,
        src_y,
        src_w,
        src_h,
        crtc_x,
        crtc_y,
        crtc_w,
        crtc_h,
    })
}

/// One (object, property, value) triple of an atomic transaction.
#[derive(Clone, Copy, Debug, PartialEq, Eq)]
pub struct TxEntry {
    /// Kernel object the property belongs to.
    pub object: u32,
    /// Resolved property handle.
    pub property: u64,
    /// The value to apply.
    pub value: PropertyValue,
}

/// A set of property changes built incrementally and submitted as one
/// indivisible commit.
#[derive(Clone, Debug)]
pub struct AtomicTransaction {
    /// The accumulated triples, in insertion order.
    pub entries: Vec<TxEntry>,
}

impl AtomicTransaction {
    /// An empty transaction.
    pub fn new() -> (r: AtomicTransaction)
        ensures
            r.entries@.len() == 0,
    {
        AtomicTransaction { entries: Vec::new() }
    }

    /// Accumulates one property change.
    pub fn add_property(&mut self, object: u32, property: u64, value: PropertyValue)
        ensures
            final(self).entries@ == old(self).entries@.push(
                TxEntry { object, property, value },
            ),
    {
        self.entries.push(TxEntry { object, property, value });
    }
}

/// Scale factor of 16.16 fixed-point source geometry.
pub const FIXED_POINT_ONE: u64 = 0x1_0000;

/// Assembles the one atomic transaction of the display pipeline:
/// the connector is linked to the chosen CRTC, the CRTC is activated with
/// the mode blob, and the framebuffer is bound to the plane with source
/// geometry in 16.16 fixed point and destination geometry in pixels, both
/// covering the full mode at offset zero.
pub fn build_display_transaction(
    connector: u32,
    crtc: u32,
    plane: u32,
    fb: u32,
    blob: u64,
    mode_w: u16,
    mode_h: u16,
    con_props: &ConnectorProps,
    crtc_props: &CrtcProps,
    plane_props: &PlaneProps,
) -> (t: AtomicTransaction)
    ensures
        t.entries@.len() == 13,
        t.entries@[0] == (TxEntry {
            object: connector,
            property: con_props.crtc_id,
            value: PropertyValue::Crtc(Some(crtc)),
        }),
        t.entries@[1] == (TxEntry {
            object: crtc,
            property: crtc_props.mode_id,
            value: PropertyValue::Blob(blob),
        }),
        t.entries@[2] == (TxEntry {
            object: crtc,
            property: crtc_props.active,
            value: PropertyValue::Boolean(true),
        }),
        t.entries@[3] == (TxEntry {
            object: plane,
            property: plane_props.fb_id,
            value: PropertyValue::Framebuffer(Some(fb)),
        }),
        t.entries@[4] == (TxEntry {
            object: plane,
            property: plane_props.crtc_id,
            value: PropertyValue::Crtc(Some(crtc)),
        }),
        t.entries@[5] == (TxEntry {
            object: plane,
            property: plane_props.src_x,
            value: PropertyValue::UnsignedRange(0),
        }),
        t.entries@[6] == (TxEntry {
            object: plane,
            property: plane_props.src_y,
            value: PropertyValue::UnsignedRange(0),
        }),
        t.entries@[7] == (TxEntry {
            object: plane,
            property: plane_props.src_w,
            value: PropertyValue::UnsignedRange(((mode_w as int) * (FIXED_POINT_ONE as int)) as u64),
        }),
        t.entries@[8] == (TxEntry {
            object: plane,
            property: plane_props.src_h,
            value: PropertyValue::UnsignedRange(((mode_h as int) * (FIXED_POINT_ONE as int)) as u64),
        }),
        t.entries@[9] == (TxEntry {
            object: plane,
            property: plane_props.crtc_x,
            value: PropertyValue::SignedRange(0),
        }),
        t.entries@[10] == (TxEntry {
            object: plane,
            property: plane_props.crtc_y,
            value: PropertyValue::SignedRange(0),
        }),
        t.entries@[11] == (TxEntry {
            object: plane,
            property: plane_props.crtc_w,
            value: PropertyValue::UnsignedRange(mode_w as u64),
        }),
        t.entries@[12] == (TxEntry {
            object: plane,
            property: plane_props.crtc_h,
            value: PropertyValue::UnsignedRange(mode_h as u64),
        }),
{
    let mut t = AtomicTransaction::new();
    t.add_property(connector, con_props.crtc_id, PropertyValue::Crtc(Some(crtc)));
    t.add_property(crtc, crtc_props.mode_id, PropertyValue::Blob(blob));
    t.add_property(crtc, crtc_props.active, PropertyValue::Boolean(true));
    t.add_property(plane, plane_props.fb_id, PropertyValue::Framebuffer(Some(fb)));
    t.add_property(plane, plane_props.crtc_id, PropertyValue::Crtc(Some(crtc)));
    t.add_property(plane, plane_props.src_x, PropertyValue::UnsignedRange(0));
    t.add_property(plane, plane_props.src_y, PropertyValue::UnsignedRange(0));
    t.add_property(plane, plane_props.src_w, PropertyValue::UnsignedRange((mode_w as u64) * FIXED_POINT_ONE));
    t.add_property(plane, plane_props.src_h, PropertyValue::UnsignedRange((mode_h as u64) * FIXED_POINT_ONE));
    t.add_property(plane, plane_props.crtc_x, PropertyValue::SignedRange(0));
    t.add_property(plane, plane_props.crtc_y, PropertyValue::SignedRange(0));
    t.add_property(plane, plane_props.crtc_w, PropertyValue::UnsignedRange(mode_w as u64));
    t.add_property(plane, plane_props.crtc_h, PropertyValue::UnsignedRange(mode_h as u64));
    t
}

} // verus!
