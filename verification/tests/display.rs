//! Display pipeline logic: resource selection, property resolution,
//! transaction assembly and the all-or-nothing commit.

use dispctl::catalog::{
    compatible_crtcs, plane_compatible, plane_kind_from_code, select_connected, select_mode,
    select_plane, ConnectionState, Connector, Crtc, DisplayMode, Plane, PlaneKind,
};
use dispctl::errors::HwError;
use dispctl::sim::{Capability, SimKernel, COMMIT_REFUSED_ERRNO};
use dispctl::transaction::{
    build_display_transaction, find_property, plane_kind_of, resolve_connector_props,
    resolve_crtc_props, resolve_plane_props, resolve_properties, AtomicTransaction, PropName,
    PropertyValue,
};

fn mode(width: u16, height: u16) -> DisplayMode {
    DisplayMode { width, height, refresh: 60 }
}

#[test]
fn first_connected_connector_is_selected() {
    let connectors = vec![
        Connector { handle: 10, state: ConnectionState::Disconnected, modes: vec![] },
        Connector {
            handle: 11,
            state: ConnectionState::Connected,
            modes: vec![mode(1920, 1080), mode(1280, 720)],
        },
    ];
    let picked = select_connected(&connectors).unwrap();
    assert_eq!(picked, 1);
    assert_eq!(select_mode(&connectors[picked]), Ok(mode(1920, 1080)));
}

#[test]
fn no_connected_connector_is_a_terminal_failure() {
    let connectors = vec![
        Connector { handle: 1, state: ConnectionState::Disconnected, modes: vec![] },
        Connector { handle: 2, state: ConnectionState::Unknown, modes: vec![mode(640, 480)] },
    ];
    assert_eq!(select_connected(&connectors), Err(HwError::NoDisplayAttachedError));
    assert_eq!(select_connected(&vec![]), Err(HwError::NoDisplayAttachedError));
}

#[test]
fn empty_mode_list_is_a_terminal_failure() {
    let connector = Connector { handle: 3, state: ConnectionState::Connected, modes: vec![] };
    assert_eq!(select_mode(&connector), Err(HwError::NoModeAvailableError));
}

#[test]
fn compatible_crtcs_intersects_the_bitmask() {
    let crtcs = vec![Crtc { handle: 40 }, Crtc { handle: 41 }, Crtc { handle: 42 }];
    // bits 0 and 2 set: eligible for the CRTCs at indices 0 and 2
    let plane = Plane { handle: 7, kind: PlaneKind::Overlay, possible_crtcs: 0b101 };
    assert_eq!(compatible_crtcs(&plane, &crtcs), vec![40, 42]);
    assert!(plane_compatible(&plane, &crtcs, 40));
    assert!(!plane_compatible(&plane, &crtcs, 41));
    assert!(plane_compatible(&plane, &crtcs, 42));
    // a handle no CRTC carries is never compatible
    assert!(!plane_compatible(&plane, &crtcs, 99));
}

#[test]
fn primary_plane_wins_over_earlier_overlay() {
    let crtcs = vec![Crtc { handle: 40 }];
    let plane_a = Plane { handle: 70, kind: PlaneKind::Overlay, possible_crtcs: 0b1 };
    let plane_b = Plane { handle: 71, kind: PlaneKind::Primary, possible_crtcs: 0b1 };
    let picked = select_plane(&vec![plane_a, plane_b], &crtcs, 40);
    assert_eq!(picked, Some(71));
}

#[test]
fn fallback_is_first_compatible_plane_when_no_primary() {
    let crtcs = vec![Crtc { handle: 40 }, Crtc { handle: 41 }];
    let planes = vec![
        // not compatible with CRTC 41 (bit 0 only)
        Plane { handle: 70, kind: PlaneKind::Overlay, possible_crtcs: 0b01 },
        Plane { handle: 71, kind: PlaneKind::Cursor, possible_crtcs: 0b10 },
        Plane { handle: 72, kind: PlaneKind::Overlay, possible_crtcs: 0b11 },
    ];
    assert_eq!(select_plane(&planes, &crtcs, 41), Some(71));
    // repeated calls on the same snapshot pick the same plane
    assert_eq!(select_plane(&planes, &crtcs, 41), Some(71));
    // a CRTC handle absent from the enumeration has no compatible plane
    assert_eq!(select_plane(&planes, &crtcs, 99), None);
}

#[test]
fn plane_kind_codes_decode() {
    assert_eq!(plane_kind_from_code(0), Some(PlaneKind::Overlay));
    assert_eq!(plane_kind_from_code(1), Some(PlaneKind::Primary));
    assert_eq!(plane_kind_from_code(2), Some(PlaneKind::Cursor));
    assert_eq!(plane_kind_from_code(3), None);
}

#[test]
fn plane_kind_is_read_from_the_type_property() {
    let props = vec![(PropName::FbId, 31), (PropName::Kind, 1), (PropName::CrtcId, 32)];
    assert_eq!(plane_kind_of(&props), Some(PlaneKind::Primary));
    let props = vec![(PropName::FbId, 31)];
    assert_eq!(plane_kind_of(&props), None);
}

#[test]
fn find_property_takes_the_first_occurrence() {
    let props = vec![(PropName::CrtcId, 5), (PropName::Active, 6), (PropName::CrtcId, 7)];
    assert_eq!(find_property(&props, PropName::CrtcId), Some(5));
    assert_eq!(find_property(&props, PropName::Active), Some(6));
    assert_eq!(find_property(&props, PropName::ModeId), None);
}

#[test]
fn missing_required_name_fails_resolution_entirely() {
    // connector without CRTC_ID
    let props = vec![(PropName::Active, 6)];
    assert_eq!(resolve_connector_props(&props), Err(HwError::PropertyNotFoundError));
    // crtc with MODE_ID but no ACTIVE
    let props = vec![(PropName::ModeId, 8)];
    assert_eq!(resolve_crtc_props(&props), Err(HwError::PropertyNotFoundError));
    // plane missing SRC_H: nothing is returned, not a partial mapping
    let props = vec![
        (PropName::FbId, 1),
        (PropName::CrtcId, 2),
        (PropName::SrcX, 3),
        (PropName::SrcY, 4),
        (PropName::SrcW, 5),
        (PropName::CrtcX, 7),
        (PropName::CrtcY, 8),
        (PropName::CrtcW, 9),
        (PropName::CrtcH, 10),
    ];
    assert_eq!(resolve_plane_props(&props), Err(HwError::PropertyNotFoundError));
    // the generic resolver refuses the same snapshot
    let required = vec![PropName::FbId, PropName::SrcH];
    assert_eq!(
        resolve_properties(&props, &required),
        Err(HwError::PropertyNotFoundError)
    );
}

#[test]
fn resolution_returns_every_required_handle_in_order() {
    let props = vec![
        (PropName::Kind, 99),
        (PropName::FbId, 1),
        (PropName::CrtcId, 2),
        (PropName::SrcX, 3),
        (PropName::SrcY, 4),
        (PropName::SrcW, 5),
        (PropName::SrcH, 6),
        (PropName::CrtcX, 7),
        (PropName::CrtcY, 8),
        (PropName::CrtcW, 9),
        (PropName::CrtcH, 10),
    ];
    let pp = resolve_plane_props(&props).unwrap();
    assert_eq!(pp.fb_id, 1);
    assert_eq!(pp.crtc_id, 2);
    assert_eq!(pp.src_x, 3);
    assert_eq!(pp.src_y, 4);
    assert_eq!(pp.src_w, 5);
    assert_eq!(pp.src_h, 6);
    assert_eq!(pp.crtc_x, 7);
    assert_eq!(pp.crtc_y, 8);
    assert_eq!(pp.crtc_w, 9);
    assert_eq!(pp.crtc_h, 10);
    let required = vec![PropName::CrtcH, PropName::FbId];
    assert_eq!(resolve_properties(&props, &required), Ok(vec![10, 1]));
}

fn sample_transaction() -> AtomicTransaction {
    let props = vec![(PropName::CrtcId, 20)];
    let con_props = resolve_connector_props(&props).unwrap();
    let props = vec![(PropName::ModeId, 30), (PropName::Active, 31)];
    let crtc_props = resolve_crtc_props(&props).unwrap();
    let props = vec![
        (PropName::FbId, 40),
        (PropName::CrtcId, 41),
        (PropName::SrcX, 42),
        (PropName::SrcY, 43),
        (PropName::SrcW, 44),
        (PropName::SrcH, 45),
        (PropName::CrtcX, 46),
        (PropName::CrtcY, 47),
        (PropName::CrtcW, 48),
        (PropName::CrtcH, 49),
    ];
    let plane_props = resolve_plane_props(&props).unwrap();
    build_display_transaction(
        1, 2, 3, 4, 500, 1920, 1080, &con_props, &crtc_props, &plane_props,
    )
}

#[test]
fn display_transaction_holds_the_thirteen_links() {
    let t = sample_transaction();
    assert_eq!(t.entries.len(), 13);
    let e = &t.entries;
    assert_eq!((e[0].object, e[0].property), (1, 20));
    assert!(matches!(e[0].value, PropertyValue::Crtc(Some(2))));
    assert_eq!((e[1].object, e[1].property), (2, 30));
    assert!(matches!(e[1].value, PropertyValue::Blob(500)));
    assert_eq!((e[2].object, e[2].property), (2, 31));
    assert!(matches!(e[2].value, PropertyValue::Boolean(true)));
    assert_eq!((e[3].object, e[3].property), (3, 40));
    assert!(matches!(e[3].value, PropertyValue::Framebuffer(Some(4))));
    assert_eq!((e[4].object, e[4].property), (3, 41));
    assert!(matches!(e[4].value, PropertyValue::Crtc(Some(2))));
    assert!(matches!(e[5].value, PropertyValue::UnsignedRange(0)));
    assert!(matches!(e[6].value, PropertyValue::UnsignedRange(0)));
    // source geometry is the mode in 16.16 fixed point
    assert!(matches!(e[7].value, PropertyValue::UnsignedRange(v) if v == 1920 << 16));
    assert!(matches!(e[8].value, PropertyValue::UnsignedRange(v) if v == 1080 << 16));
    assert!(matches!(e[9].value, PropertyValue::SignedRange(0)));
    assert!(matches!(e[10].value, PropertyValue::SignedRange(0)));
    // destination geometry is the mode in plain pixels
    assert!(matches!(e[11].value, PropertyValue::UnsignedRange(1920)));
    assert!(matches!(e[12].value, PropertyValue::UnsignedRange(1080)));
}

fn ready_kernel() -> SimKernel {
    let mut k = SimKernel::new(true, true);
    assert_eq!(k.negotiate(Capability::UniversalPlanes, true), Ok(()));
    assert_eq!(k.negotiate(Capability::Atomic, true), Ok(()));
    k
}

#[test]
fn unsupported_capability_is_refused() {
    let mut k = SimKernel::new(true, false);
    assert_eq!(k.negotiate(Capability::UniversalPlanes, true), Ok(()));
    assert_eq!(
        k.negotiate(Capability::Atomic, true),
        Err(HwError::CapabilityUnsupportedError)
    );
    assert!(!k.atomic_enabled);

    let mut k = SimKernel::new(false, true);
    assert_eq!(
        k.negotiate(Capability::UniversalPlanes, true),
        Err(HwError::CapabilityUnsupportedError)
    );
    assert!(!k.universal_planes_enabled);
    assert_eq!(k.negotiate(Capability::Atomic, true), Ok(()));
}

#[test]
fn successful_commit_applies_every_entry() {
    let mut k = ready_kernel();
    let t = sample_transaction();
    assert_eq!(k.commit(&t), Ok(()));
    assert!(matches!(k.get_property(1, 20), Some(PropertyValue::Crtc(Some(2)))));
    assert!(matches!(k.get_property(2, 31), Some(PropertyValue::Boolean(true))));
    assert!(matches!(k.get_property(3, 49), Some(PropertyValue::UnsignedRange(1080))));
    assert_eq!(k.get_property(9, 9), None);
}

#[test]
fn rejected_commit_leaves_no_observable_change() {
    let mut k = ready_kernel();
    // an earlier commit leaves state that must survive the refusal
    let mut pre = AtomicTransaction::new();
    pre.add_property(1, 20, PropertyValue::Crtc(None));
    assert_eq!(k.commit(&pre), Ok(()));

    // the kernel refuses a single property in the middle of the set
    k.refuse(3, 45);
    let t = sample_transaction();
    assert_eq!(k.commit(&t), Err(HwError::CommitError(COMMIT_REFUSED_ERRNO)));

    // nothing of the transaction is observable; earlier state is intact
    assert!(matches!(k.get_property(1, 20), Some(PropertyValue::Crtc(None))));
    assert_eq!(k.get_property(2, 30), None);
    assert_eq!(k.get_property(2, 31), None);
    assert_eq!(k.get_property(3, 40), None);
    assert_eq!(k.get_property(3, 45), None);
    // the transaction's requested mapping is unaffected too
    assert_eq!(t.entries.len(), 13);
}

#[test]
fn later_write_wins_on_the_same_key() {
    let mut k = ready_kernel();
    let mut t = AtomicTransaction::new();
    t.add_property(5, 50, PropertyValue::UnsignedRange(1));
    t.add_property(5, 50, PropertyValue::UnsignedRange(2));
    assert_eq!(k.commit(&t), Ok(()));
    assert!(matches!(k.get_property(5, 50), Some(PropertyValue::UnsignedRange(2))));
}
