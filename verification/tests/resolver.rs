//! Output discovery: pairing, plane claiming, identities, and the
//! ignore set.
use dreampipe::output_identity;
use dreampipe::resolver::claim_plane;
use dreampipe::resolver::find_compatible_plane;
use dreampipe::resolver::init_displays;
use dreampipe::resolver::is_plane_compatible_with_crtc;
use dreampipe::CompositorError;
use dreampipe::ConnectorSnapshot;
use dreampipe::ModeInfo;
use dreampipe::PlaneKind;
use dreampipe::PlaneSnapshot;

fn connector(handle: u32, interface: &str, id: u32, connected: bool, modes: Vec<ModeInfo>) -> ConnectorSnapshot {
    ConnectorSnapshot { handle, interface: interface.to_string(), interface_id: id, connected, modes }
}

fn mode() -> ModeInfo {
    ModeInfo { width: 1920, height: 1080 }
}

#[test]
fn identity_is_a_pure_function_of_its_inputs() {
    assert_eq!(output_identity(0, "HDMI-A", 1), "card0-HDMI-A-1");
    assert_eq!(output_identity(2, "DP", 3), "card2-DP-3");
    assert_eq!(output_identity(0, "HDMI-A", 1), output_identity(0, "HDMI-A", 1));
    assert_eq!(output_identity(4294967295, "VGA", 0), "card4294967295-VGA-0");
}

#[test]
fn plane_compatibility_follows_the_crtc_bitmask() {
    let p = PlaneSnapshot { handle: 1, possible_crtcs: 0b101, kind: PlaneKind::Primary };
    assert!(is_plane_compatible_with_crtc(&p, 0));
    assert!(!is_plane_compatible_with_crtc(&p, 1));
    assert!(is_plane_compatible_with_crtc(&p, 2));
    assert!(!is_plane_compatible_with_crtc(&p, 32));
}

#[test]
fn claiming_removes_the_plane_from_the_pool() {
    let mut pool = vec![
        PlaneSnapshot { handle: 1, possible_crtcs: 0b1, kind: PlaneKind::Cursor },
        PlaneSnapshot { handle: 2, possible_crtcs: 0b1, kind: PlaneKind::Primary },
        PlaneSnapshot { handle: 3, possible_crtcs: 0b1, kind: PlaneKind::Primary },
    ];
    assert_eq!(find_compatible_plane(&pool, 0, PlaneKind::Primary), Some(1));
    let claimed = claim_plane(&mut pool, 0, PlaneKind::Primary).unwrap();
    assert_eq!(claimed.handle, 2);
    assert_eq!(pool.len(), 2);
    let claimed2 = claim_plane(&mut pool, 0, PlaneKind::Primary).unwrap();
    assert_eq!(claimed2.handle, 3);
    assert!(claim_plane(&mut pool, 0, PlaneKind::Primary).is_none());
    assert_eq!(pool.len(), 1);
}

#[test]
fn discovery_with_one_cursor_plane_for_two_outputs() {
    // Two connected connectors, three CRTCs, one plane pool holding
    // exactly one cursor-typed and two primary-typed planes: both
    // outputs acquire a primary plane, only one acquires the cursor,
    // and the other's cursor layer is absent rather than an error.
    let connectors = vec![
        connector(10, "HDMI-A", 1, true, vec![mode()]),
        connector(11, "DP", 1, true, vec![mode()]),
    ];
    let crtcs = vec![20, 21, 22];
    let mut planes = vec![
        PlaneSnapshot { handle: 30, possible_crtcs: 0b111, kind: PlaneKind::Cursor },
        PlaneSnapshot { handle: 31, possible_crtcs: 0b111, kind: PlaneKind::Primary },
        PlaneSnapshot { handle: 32, possible_crtcs: 0b111, kind: PlaneKind::Primary },
    ];
    let plans = init_displays(0, &connectors, &crtcs, &mut planes, &vec![]).unwrap();
    assert_eq!(plans.len(), 2);
    let first = plans[0].as_ref().unwrap();
    let second = plans[1].as_ref().unwrap();
    assert_eq!(first.name, "card0-HDMI-A-1");
    assert_eq!(first.connector, 10);
    assert_eq!(first.crtc, 20);
    assert_eq!(first.primary_plane, 31);
    assert_eq!(first.cursor_plane, Some(30));
    assert_eq!(second.name, "card0-DP-1");
    assert_eq!(second.connector, 11);
    assert_eq!(second.crtc, 21);
    assert_eq!(second.primary_plane, 32);
    assert_eq!(second.cursor_plane, None);
    // The claimed plane handles are disjoint across the pass.
    assert_ne!(first.primary_plane, second.primary_plane);
    assert!(planes.is_empty());
}

#[test]
fn discovery_without_qualified_connectors_is_a_hard_failure() {
    let connectors = vec![
        connector(10, "HDMI-A", 1, false, vec![mode()]),
        connector(11, "DP", 1, true, vec![]),
    ];
    let crtcs = vec![20];
    let mut planes = vec![
        PlaneSnapshot { handle: 30, possible_crtcs: 0b1, kind: PlaneKind::Primary },
    ];
    let r = init_displays(0, &connectors, &crtcs, &mut planes, &vec![]);
    assert!(matches!(r, Err(CompositorError::NoQualifiedConnectors)));
    assert_eq!(planes.len(), 1);
}

#[test]
fn missing_primary_plane_fails_only_that_output() {
    // The first CRTC has no compatible primary plane; the second does.
    let connectors = vec![
        connector(10, "HDMI-A", 1, true, vec![mode()]),
        connector(11, "DP", 1, true, vec![mode()]),
    ];
    let crtcs = vec![20, 21];
    let mut planes = vec![
        PlaneSnapshot { handle: 30, possible_crtcs: 0b10, kind: PlaneKind::Primary },
    ];
    let plans = init_displays(0, &connectors, &crtcs, &mut planes, &vec![]).unwrap();
    assert_eq!(plans.len(), 2);
    assert!(matches!(plans[0], Err(CompositorError::NoCompatiblePrimaryPlane(20))));
    let second = plans[1].as_ref().unwrap();
    assert_eq!(second.primary_plane, 30);
    assert_eq!(second.cursor_plane, None);
}

#[test]
fn pairing_stops_at_the_crtc_count() {
    let connectors = vec![
        connector(10, "HDMI-A", 1, true, vec![mode()]),
        connector(11, "DP", 1, true, vec![mode()]),
    ];
    let crtcs = vec![20];
    let mut planes = vec![
        PlaneSnapshot { handle: 30, possible_crtcs: 0b1, kind: PlaneKind::Primary },
        PlaneSnapshot { handle: 31, possible_crtcs: 0b1, kind: PlaneKind::Primary },
    ];
    let plans = init_displays(0, &connectors, &crtcs, &mut planes, &vec![]).unwrap();
    assert_eq!(plans.len(), 1);
    assert_eq!(plans[0].as_ref().unwrap().connector, 10);
    assert_eq!(planes.len(), 1);
}

#[test]
fn an_ignored_pairing_keeps_its_crtc() {
    // The ignored first pairing consumes its CRTC: the second
    // connector still pairs with the second CRTC.
    let connectors = vec![
        connector(10, "HDMI-A", 1, true, vec![mode()]),
        connector(11, "DP", 1, true, vec![mode()]),
    ];
    let crtcs = vec![20, 21];
    let mut planes = vec![
        PlaneSnapshot { handle: 30, possible_crtcs: 0b11, kind: PlaneKind::Primary },
    ];
    let ignore = vec!["card0-HDMI-A-1".to_string()];
    let plans = init_displays(0, &connectors, &crtcs, &mut planes, &ignore).unwrap();
    assert_eq!(plans.len(), 1);
    let plan = plans[0].as_ref().unwrap();
    assert_eq!(plan.connector, 11);
    assert_eq!(plan.crtc, 21);
    assert_eq!(plan.crtc_idx, 1);
}

#[test]
fn rediscovery_with_identity_ignored_never_reconstructs_it() {
    let connectors = vec![connector(10, "HDMI-A", 1, true, vec![mode()])];
    let crtcs = vec![20];
    let mut planes = vec![
        PlaneSnapshot { handle: 30, possible_crtcs: 0b1, kind: PlaneKind::Primary },
    ];
    let plans = init_displays(0, &connectors, &crtcs, &mut planes, &vec![]).unwrap();
    let name = plans[0].as_ref().unwrap().name.clone();

    // Re-run with the discovered identity in the ignore set.
    let mut planes2 = vec![
        PlaneSnapshot { handle: 30, possible_crtcs: 0b1, kind: PlaneKind::Primary },
    ];
    let plans2 = init_displays(0, &connectors, &crtcs, &mut planes2, &vec![name]).unwrap();
    assert!(plans2.is_empty());
    // The pool is untouched: nothing was claimed for the ignored pairing.
    assert_eq!(planes2.len(), 1);
}
