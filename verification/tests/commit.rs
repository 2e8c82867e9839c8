//! Atomic request building: property resolution, modeset and flip
//! write sequences, formats, and the import plan.
use dreampipe::commit::flip_flags;
use dreampipe::commit::lookup_prop;
use dreampipe::commit::modeset_flags;
use dreampipe::commit::resolve_plane_props;
use dreampipe::import::find_memory_type_index;
use dreampipe::import::plan_dmabuf_import;
use dreampipe::import::select_adapter_index;
use dreampipe::import::select_import_memory;
use dreampipe::swapchain::SwapSlot;
use dreampipe::AtomicRequest;
use dreampipe::CompositorError;
use dreampipe::Display;
use dreampipe::DrmCtx;
use dreampipe::FourCc;
use dreampipe::ModeInfo;
use dreampipe::OutputPlan;
use dreampipe::PixelFormat;
use dreampipe::PropValue;
use dreampipe::TripleBuffer;
use dreampipe::DRM_FORMAT;

fn plane_table() -> Vec<(String, u32)> {
    vec![
        ("FB_ID".to_string(), 101),
        ("CRTC_ID".to_string(), 102),
        ("SRC_X".to_string(), 103),
        ("SRC_Y".to_string(), 104),
        ("SRC_W".to_string(), 105),
        ("SRC_H".to_string(), 106),
        ("CRTC_X".to_string(), 107),
        ("CRTC_Y".to_string(), 108),
        ("CRTC_W".to_string(), 109),
        ("CRTC_H".to_string(), 110),
    ]
}

fn slot(i: u64) -> SwapSlot {
    SwapSlot { bo: i, fb: 100 + i as u32, image: 0, memory: 0, texture: 0 }
}

fn buffers() -> TripleBuffer {
    TripleBuffer::new(vec![Ok(slot(0)), Ok(slot(1)), Ok(slot(2))]).ok().unwrap()
}

fn ctx() -> DrmCtx {
    DrmCtx::new(30, &plane_table(), (1920, 1080), buffers()).unwrap()
}

#[test]
fn commit_flags_match_the_protocol() {
    let m = modeset_flags();
    assert!(m.allow_modeset && m.nonblock && m.page_flip_event);
    let f = flip_flags();
    assert!(!f.allow_modeset && f.nonblock && f.page_flip_event);
}

#[test]
fn property_lookup_finds_the_first_binding() {
    let t = plane_table();
    assert_eq!(lookup_prop(&t, "FB_ID"), Some(101));
    assert_eq!(lookup_prop(&t, "CRTC_H"), Some(110));
    assert_eq!(lookup_prop(&t, "IN_FORMATS"), None);
}

#[test]
fn missing_property_name_fails_resolution() {
    let mut t = plane_table();
    t.retain(|e| e.0 != "SRC_H");
    assert!(matches!(resolve_plane_props(&t), Err(CompositorError::PropsToHashMap)));
    assert!(matches!(
        DrmCtx::new(30, &t, (1920, 1080), buffers()),
        Err(CompositorError::PropsToHashMap)
    ));
}

#[test]
fn plane_setup_writes_the_full_property_set() {
    let c = ctx();
    let mut req = AtomicRequest::new();
    c.init_req(&mut req, 20);
    let w = 1920u64;
    let h = 1080u64;
    assert_eq!(
        req.props,
        vec![
            (30, 101, PropValue::Framebuffer(Some(100))),
            (30, 102, PropValue::Crtc(Some(20))),
            (30, 103, PropValue::UnsignedRange(0)),
            (30, 104, PropValue::UnsignedRange(0)),
            (30, 105, PropValue::UnsignedRange(w << 16)),
            (30, 106, PropValue::UnsignedRange(h << 16)),
            (30, 107, PropValue::SignedRange(0)),
            (30, 108, PropValue::SignedRange(0)),
            (30, 109, PropValue::UnsignedRange(w)),
            (30, 110, PropValue::UnsignedRange(h)),
        ]
    );
}

#[test]
fn flip_writes_only_the_draw_framebuffer() {
    let mut c = ctx();
    c.buffers.swap();
    let mut req = AtomicRequest::new();
    c.flip_req(&mut req, false);
    assert_eq!(req.props, vec![(30, 101, PropValue::Framebuffer(Some(101)))]);

    let mut req2 = AtomicRequest::new();
    c.flip_req(&mut req2, true);
    assert_eq!(req2.props.len(), 9);
    assert_eq!(req2.props[0], (30, 101, PropValue::Framebuffer(Some(101))));
    assert_eq!(req2.props[1], (30, 103, PropValue::UnsignedRange(0)));
}

#[test]
fn modeset_request_covers_connector_crtc_and_every_plane() {
    let plan = OutputPlan {
        name: "card0-HDMI-A-1".to_string(),
        connector: 10,
        crtc: 20,
        crtc_idx: 0,
        mode: ModeInfo { width: 1920, height: 1080 },
        primary_plane: 30,
        cursor_plane: None,
    };
    let d = Display::new(
        plan,
        &vec![("CRTC_ID".to_string(), 201)],
        &vec![("MODE_ID".to_string(), 301), ("ACTIVE".to_string(), 302)],
        &plane_table(),
        buffers(),
        &plane_table(),
        None,
    )
    .unwrap();
    let req = d.build_modeset_request(77);
    assert_eq!(req.props.len(), 13);
    assert_eq!(req.props[0], (10, 201, PropValue::Crtc(Some(20))));
    assert_eq!(req.props[1], (20, 301, PropValue::Blob(77)));
    assert_eq!(req.props[2], (20, 302, PropValue::Boolean(true)));
    assert_eq!(req.props[3], (30, 101, PropValue::Framebuffer(Some(100))));
    assert_eq!(req.props[12], (30, 110, PropValue::UnsignedRange(1080)));
}

#[test]
fn format_tables_give_depth_and_bits_per_pixel() {
    assert!(matches!(DRM_FORMAT, PixelFormat::Xrgb8888));
    assert_eq!(PixelFormat::Xrgb8888.depth(), 32);
    assert_eq!(PixelFormat::Xrgb8888.bpp(), 32);
    assert_eq!(PixelFormat::Big_endian.depth(), 0);
    assert_eq!(PixelFormat::Rgb332.depth(), 8);
    // Y410 encodes 30 bits but is stored in 32.
    assert_eq!(PixelFormat::Y410.depth(), 30);
    assert_eq!(PixelFormat::Y410.bpp(), 32);
    assert_eq!(PixelFormat::Argb16161616f.bpp(), 64);
}

#[test]
fn import_plan_rejects_a_zero_extent() {
    let planes = vec![(0u64, 7680u64)];
    assert!(matches!(
        plan_dmabuf_import(0, 1080, 0, &planes),
        Err(CompositorError::VulkanImageDim)
    ));
    assert!(matches!(
        plan_dmabuf_import(1920, 0, 0, &planes),
        Err(CompositorError::VulkanImageDim)
    ));
}

#[test]
fn import_plan_carries_every_memory_plane() {
    let planes = vec![(0u64, 7680u64), (4096u64, 3840u64)];
    let p = plan_dmabuf_import(1920, 1080, 0x0100_0000_0000_0001, &planes).unwrap();
    assert_eq!(p.width, 1920);
    assert_eq!(p.height, 1080);
    assert_eq!(p.modifier, 0x0100_0000_0000_0001);
    assert_eq!(p.plane_layouts.len(), 2);
    assert_eq!(p.plane_layouts[0].offset, 0);
    assert_eq!(p.plane_layouts[0].row_pitch, 7680);
    assert_eq!(p.plane_layouts[0].size, 0);
    assert_eq!(p.plane_layouts[1].offset, 4096);
    assert_eq!(p.plane_layouts[1].row_pitch, 3840);
}

#[test]
fn memory_type_selection_respects_filter_and_flags() {
    // Types 0 and 1 are masked out or lack the required flag; type 2
    // is the first that qualifies.
    let types = vec![0b1u32, 0b0u32, 0b1u32, 0b1u32];
    assert_eq!(find_memory_type_index(0b1100, 0b1, &types), Some(2));
    assert_eq!(find_memory_type_index(0b0010, 0b1, &types), None);
    assert_eq!(select_import_memory(0b1100, 0b1, &types), Ok(2));
    assert!(matches!(
        select_import_memory(0b0010, 0b1, &types),
        Err(CompositorError::VulkanMemoryTypeIndex)
    ));
}

#[test]
fn adapter_selection_prefers_a_discrete_gpu() {
    assert_eq!(select_adapter_index(&vec![false, true, false]), Some(1));
    assert_eq!(select_adapter_index(&vec![false, false]), Some(0));
    assert_eq!(select_adapter_index(&vec![]), None);
}

#[test]
fn error_messages_name_the_failure() {
    assert_eq!(CompositorError::NoQualifiedConnectors.message(), "no active connectors found");
    assert_eq!(
        CompositorError::VulkanMemoryTypeIndex.message(),
        "no device-local memory type accepted by image"
    );
}
