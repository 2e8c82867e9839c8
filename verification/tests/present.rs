//! Presentation loop: event dispatch, flip sequencing, teardown.
use dreampipe::present::on_flip_result;
use dreampipe::present::on_modeset_committed;
use dreampipe::present::on_page_flip;
use dreampipe::present::sweep_torn_down;
use dreampipe::present::teardown_fbs;
use dreampipe::present::update;
use dreampipe::swapchain::SwapSlot;
use dreampipe::Display;
use dreampipe::DrmEvent;
use dreampipe::LifecycleState;
use dreampipe::ModeInfo;
use dreampipe::OutputPlan;
use dreampipe::PollResult;
use dreampipe::PropValue;
use dreampipe::TripleBuffer;
use dreampipe::Config;
use dreampipe::display::apply_positions;

fn plane_table() -> Vec<(String, u32)> {
    vec![
        ("FB_ID".to_string(), 101),
        ("CRTC_ID".to_string(), 102),
        ("SRC_X".to_string(), 103),
        ("SRC_Y".to_string(), 104),
        ("SRC_W".to_string(), 105),
        ("SRC_H".to_string(), 106),
        ("CRTC_X".to_string(), 107),
        ("CRTC_Y".to_string(), 108),
        ("CRTC_W".to_string(), 109),
        ("CRTC_H".to_string(), 110),
    ]
}

fn connector_table() -> Vec<(String, u32)> {
    vec![("CRTC_ID".to_string(), 201)]
}

fn crtc_table() -> Vec<(String, u32)> {
    vec![("MODE_ID".to_string(), 301), ("ACTIVE".to_string(), 302)]
}

fn slot(i: u64) -> SwapSlot {
    SwapSlot { bo: i, fb: 100 + i as u32, image: 0, memory: 0, texture: 0 }
}

fn buffers(base: u64) -> TripleBuffer {
    TripleBuffer::new(vec![Ok(slot(base)), Ok(slot(base + 1)), Ok(slot(base + 2))])
        .ok()
        .unwrap()
}

/// One output on CRTC 20 with a cursor layer, fbs 100..=102 and 110..=112.
fn output() -> Display {
    let plan = OutputPlan {
        name: "card0-HDMI-A-1".to_string(),
        connector: 10,
        crtc: 20,
        crtc_idx: 0,
        mode: ModeInfo { width: 1920, height: 1080 },
        primary_plane: 30,
        cursor_plane: Some(31),
    };
    Display::new(
        plan,
        &connector_table(),
        &crtc_table(),
        &plane_table(),
        buffers(0),
        &plane_table(),
        Some(buffers(10)),
    )
    .unwrap()
}

#[test]
fn configured_positions_are_applied_by_identity() {
    let mut outputs = vec![output()];
    let config = Config::from_str("card0-HDMI-A-1.offset = 100 200
other.offset = 5 5");
    apply_positions(&mut outputs, &config);
    assert_eq!(outputs[0].pos, (100, 200));

    // An unparsable position leaves the output where it was.
    let config2 = Config::from_str("card0-HDMI-A-1.offset = one two");
    apply_positions(&mut outputs, &config2);
    assert_eq!(outputs[0].pos, (100, 200));
}

#[test]
fn outputs_are_equal_exactly_when_their_identities_match() {
    let a = output();
    let mut b = output();
    assert!(a == b);
    b.name = "card0-DP-2".to_string();
    assert!(a != b);
}

#[test]
fn would_block_advances_nothing_and_issues_nothing() {
    let mut outputs = vec![output()];
    on_modeset_committed(&mut outputs[0]);
    let flips = update(&mut outputs, &PollResult::WouldBlock);
    assert!(flips.is_empty());
    assert_eq!(outputs[0].primary.buffers.draw, 0);
    assert_eq!(outputs[0].primary.buffers.scan, 2);
    assert!(matches!(outputs[0].state, LifecycleState::AwaitingFlip));
}

#[test]
fn page_flip_advances_only_the_matching_output_then_flips() {
    let mut outputs = vec![output()];
    on_modeset_committed(&mut outputs[0]);
    let flips = update(&mut outputs, &PollResult::Events(vec![DrmEvent::PageFlip(20)]));
    assert_eq!(flips.len(), 1);
    assert_eq!(flips[0].index, 0);
    assert_eq!(flips[0].crtc, 20);
    assert!(!flips[0].flags.allow_modeset);
    assert!(flips[0].flags.nonblock);
    assert!(flips[0].flags.page_flip_event);
    // The swapchain advanced before the request was built, so the
    // request carries the new draw slot's framebuffer.
    assert_eq!(outputs[0].primary.buffers.draw, 1);
    assert_eq!(outputs[0].primary.buffers.scan, 0);
    assert_eq!(flips[0].request.props.len(), 1);
    assert_eq!(flips[0].request.props[0], (30, 101, PropValue::Framebuffer(Some(101))));
}

#[test]
fn events_for_other_crtcs_or_states_are_not_dispatched() {
    let mut outputs = vec![output()];
    // Still `Acquired`: no modeset commit confirmed yet.
    let flips = update(&mut outputs, &PollResult::Events(vec![DrmEvent::PageFlip(20)]));
    assert!(flips.is_empty());
    assert_eq!(outputs[0].primary.buffers.draw, 0);

    on_modeset_committed(&mut outputs[0]);
    let flips = update(
        &mut outputs,
        &PollResult::Events(vec![DrmEvent::PageFlip(99), DrmEvent::VBlank, DrmEvent::Unknown]),
    );
    assert!(flips.is_empty());
    assert_eq!(outputs[0].primary.buffers.draw, 0);
}

#[test]
fn flip_result_decides_teardown_only_on_disconnect() {
    let mut d = output();
    on_modeset_committed(&mut d);
    assert!(!on_flip_result(&mut d, true, true));
    assert!(matches!(d.state, LifecycleState::AwaitingFlip));
    assert!(!on_flip_result(&mut d, false, true));
    assert!(matches!(d.state, LifecycleState::Acquired));
    assert!(on_flip_result(&mut d, false, false));
    assert!(matches!(d.state, LifecycleState::Acquired));
}

#[test]
fn teardown_hands_out_every_framebuffer_once() {
    // A flip commit fails and the connector reports disconnected: the
    // output is removed and every framebuffer it added is handed out
    // for destruction exactly once.
    let mut outputs = vec![output()];
    on_modeset_committed(&mut outputs[0]);
    let added: Vec<u32> = vec![100, 101, 102, 110, 111, 112];
    let teardown = on_flip_result(&mut outputs[0], false, false);
    assert!(teardown);
    let mut destroyed: Vec<u32> = Vec::new();
    destroyed.extend(teardown_fbs(&mut outputs[0]));
    assert!(matches!(outputs[0].state, LifecycleState::TornDown));
    sweep_torn_down(&mut outputs);
    assert!(outputs.is_empty());
    assert_eq!(destroyed, added);
}

#[test]
fn tearing_down_twice_is_harmless() {
    let mut d = output();
    let first = teardown_fbs(&mut d);
    assert_eq!(first.len(), 6);
    let second = teardown_fbs(&mut d);
    assert!(second.is_empty());
    assert!(matches!(d.state, LifecycleState::TornDown));
}

#[test]
fn sweep_keeps_live_outputs_in_order() {
    let mut a = output();
    let b = output();
    teardown_fbs(&mut a);
    let mut outputs = vec![a, b];
    sweep_torn_down(&mut outputs);
    assert_eq!(outputs.len(), 1);
    assert!(matches!(outputs[0].state, LifecycleState::Acquired));
}

#[test]
fn two_outputs_only_the_matching_crtc_advances() {
    let plan_b = OutputPlan {
        name: "card0-DP-1".to_string(),
        connector: 11,
        crtc: 21,
        crtc_idx: 1,
        mode: ModeInfo { width: 1280, height: 720 },
        primary_plane: 32,
        cursor_plane: None,
    };
    let b = Display::new(
        plan_b,
        &connector_table(),
        &crtc_table(),
        &plane_table(),
        buffers(20),
        &plane_table(),
        None,
    )
    .unwrap();
    let mut outputs = vec![output(), b];
    on_modeset_committed(&mut outputs[0]);
    on_modeset_committed(&mut outputs[1]);
    let flips = on_page_flip(&mut outputs, 21);
    assert_eq!(flips.len(), 1);
    assert_eq!(flips[0].index, 1);
    assert_eq!(outputs[0].primary.buffers.draw, 0);
    assert_eq!(outputs[1].primary.buffers.draw, 1);
}
