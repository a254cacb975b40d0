use camera_targets::camera::{
    Camera, CameraRenderGraph, RenderLayers, CameraOutputMode, ClearColorConfig, ComputedCameraValues, Exposure, ProjectionBasis,
};
use camera_targets::entity::Entity;
use camera_targets::extract::{
    extract_camera, extract_cameras, extract_visible_entities, remap_visible_entities, ExtractAction,
    VisibleEntities, VisibleEntityList,
};
use camera_targets::geometry::{ScaleFactor, UVec2};
use camera_targets::graph::{
    CameraEntity, CameraWorld, ColorTargetOf, MsaaColorTargetOf, MsaaResolveTargetOf,
    NoAutoConfiguredColorTarget, OutputColorTargetOf, TargetEntity,
};
use camera_targets::render_target::{
    ImageId, ImageRenderTarget, MissingRenderTargetInfoError,
    NormalizedRenderTarget, RenderTarget, RenderTargetInfo, TextureFormat, WindowInfo, WindowRef,
};
use camera_targets::update::{camera_system, update_cameras, changed_image_handles, changed_window_ids, AssetEvent, ChangeEvents};
use camera_targets::viewport::Viewport;

fn sf(n: u32, d: u32) -> ScaleFactor {
    ScaleFactor::new(n, d).unwrap()
}

fn computed(info: Option<RenderTargetInfo>) -> ComputedCameraValues {
    ComputedCameraValues { target_info: info, old_viewport_size: None, old_sub_camera_view: None, clip_from_view: None }
}

fn camera(order: isize, info: Option<RenderTargetInfo>) -> Camera {
    Camera {
        viewport: None,
        order,
        is_active: true,
        output_mode: CameraOutputMode::Write,
        clear_color: ClearColorConfig::Default,
        sub_camera_view: None,
        computed: computed(info),
    }
}

fn camera_entity(id: u64, cam: Camera) -> CameraEntity {
    CameraEntity {
        entity: Entity(id),
        camera: cam,
        msaa_samples: 1,
        hdr: false,
        main_texture_usages: 0x11,
        exposure: None,
        render_graph: Some(CameraRenderGraph::new(1)),
        render_layers: None,
        no_indirect_drawing: false,
        no_auto_configured_color_target: None,
        color_target_of: None,
        msaa_color_target_of: None,
        msaa_resolve_target_of: None,
        output_color_target_of: Some(OutputColorTargetOf(Entity(id))),
        is_added: false,
        projection_changed: false,
    }
}

fn world(cameras: Vec<CameraEntity>, render_targets: Vec<TargetEntity>) -> CameraWorld {
    CameraWorld { cameras, render_targets, double_buffers: vec![], images: vec![], next_entity: 100, next_image: 1000 }
}

fn no_events() -> ChangeEvents {
    ChangeEvents { window_created: vec![], window_resized: vec![], window_scale_factor_changed: vec![], image_events: vec![] }
}

fn info(x: u32, y: u32, s: ScaleFactor) -> RenderTargetInfo {
    RenderTargetInfo { physical_size: UVec2 { x, y }, scale_factor: s }
}

fn window_target(cam: u64, window: u64) -> TargetEntity {
    TargetEntity { entity: Entity(cam), target: RenderTarget::Window(WindowRef::Entity(Entity(window))) }
}

#[test]
fn no_change_leaves_camera_unchanged() {
    let cam = camera(0, Some(info(800, 600, sf(1, 1))));
    let mut w = world(vec![camera_entity(1, cam)], vec![window_target(1, 50)]);
    let windows = vec![WindowInfo { entity: Entity(50), physical_size: UVec2 { x: 1024, y: 768 }, scale_factor: sf(1, 1) }];
    let before = w.cameras[0];
    assert_eq!(camera_system(&mut w, &no_events(), None, &windows, &vec![]), Ok(()));
    assert_eq!(w.cameras[0], before);
}

#[test]
fn just_added_camera_gets_target_info_and_projection() {
    let mut c = camera_entity(1, camera(0, None));
    c.is_added = true;
    let mut w = world(vec![c], vec![window_target(1, 50)]);
    let windows = vec![WindowInfo { entity: Entity(50), physical_size: UVec2 { x: 1024, y: 768 }, scale_factor: sf(1, 1) }];
    assert_eq!(camera_system(&mut w, &no_events(), None, &windows, &vec![]), Ok(()));
    let got = w.cameras[0].camera.computed;
    assert_eq!(got.target_info, Some(info(1024, 768, sf(1, 1))));
    assert_eq!(
        got.clip_from_view,
        Some(ProjectionBasis { viewport_size: UVec2 { x: 1024, y: 768 }, scale_factor: sf(1, 1), sub_camera_view: None })
    );
}

#[test]
fn scale_factor_change_rescales_and_clamps_viewport() {
    let mut cam = camera(0, Some(info(800, 600, sf(1, 1))));
    cam.viewport = Some(Viewport { physical_position: UVec2 { x: 10, y: 20 }, physical_size: UVec2 { x: 100, y: 50 } });
    cam.computed.old_viewport_size = Some(UVec2 { x: 100, y: 50 });
    let mut far = camera(1, Some(info(800, 600, sf(1, 1))));
    far.viewport = Some(Viewport { physical_position: UVec2 { x: 700, y: 0 }, physical_size: UVec2 { x: 100, y: 100 } });
    far.computed.old_viewport_size = Some(UVec2 { x: 100, y: 100 });
    let mut w = world(
        vec![camera_entity(1, cam), camera_entity(2, far)],
        vec![window_target(1, 50), window_target(2, 50)],
    );
    let windows = vec![WindowInfo { entity: Entity(50), physical_size: UVec2 { x: 1500, y: 1200 }, scale_factor: sf(2, 1) }];
    let mut ev = no_events();
    ev.window_scale_factor_changed = vec![Entity(50)];
    assert_eq!(camera_system(&mut w, &ev, None, &windows, &vec![]), Ok(()));
    assert_eq!(
        w.cameras[0].camera.viewport,
        Some(Viewport { physical_position: UVec2 { x: 20, y: 40 }, physical_size: UVec2 { x: 200, y: 100 } })
    );
    assert_eq!(w.cameras[0].camera.computed.target_info, Some(info(1500, 1200, sf(2, 1))));
    assert_eq!(w.cameras[0].camera.computed.old_viewport_size, Some(UVec2 { x: 200, y: 100 }));
    // 700 * 2 = 1400 and 100 * 2 = 200 reach past 1500: the size is cut to 100.
    assert_eq!(
        w.cameras[1].camera.viewport,
        Some(Viewport { physical_position: UVec2 { x: 1400, y: 0 }, physical_size: UVec2 { x: 100, y: 200 } })
    );
}

#[test]
fn missing_window_aborts_the_update() {
    let mut first = camera_entity(1, camera(0, None));
    first.is_added = true;
    let mut second = camera_entity(2, camera(0, None));
    second.is_added = true;
    let mut third = camera_entity(3, camera(0, None));
    third.is_added = true;
    let mut w = world(vec![first, second, third], vec![window_target(1, 50), window_target(2, 51), window_target(3, 50)]);
    let windows = vec![WindowInfo { entity: Entity(50), physical_size: UVec2 { x: 64, y: 64 }, scale_factor: sf(1, 1) }];
    assert_eq!(
        camera_system(&mut w, &no_events(), None, &windows, &vec![]),
        Err(MissingRenderTargetInfoError::Window { window: Entity(51) })
    );
    assert!(w.cameras[0].camera.computed.target_info.is_some());
    assert_eq!(w.cameras[1], second);
    assert_eq!(w.cameras[2], third);
}

#[test]
fn change_events_are_collected() {
    let ev = ChangeEvents {
        window_created: vec![Entity(1)],
        window_resized: vec![Entity(2)],
        window_scale_factor_changed: vec![Entity(3)],
        image_events: vec![
            AssetEvent::Added { id: ImageId(1) },
            AssetEvent::Removed { id: ImageId(2) },
            AssetEvent::Modified { id: ImageId(3) },
            AssetEvent::Unused { id: ImageId(4) },
        ],
    };
    assert_eq!(changed_window_ids(&ev), vec![Entity(1), Entity(2), Entity(3)]);
    assert_eq!(changed_image_handles(&ev), vec![ImageId(1), ImageId(3)]);
}

#[test]
fn output_wiring_points_camera_at_itself() {
    let mut c = camera_entity(1, camera(0, None));
    c.output_color_target_of = None;
    let mut opted_out = camera_entity(2, camera(0, None));
    opted_out.output_color_target_of = None;
    opted_out.no_auto_configured_color_target = Some(NoAutoConfiguredColorTarget);
    let mut no_target = camera_entity(3, camera(0, None));
    no_target.output_color_target_of = None;
    let mut w = world(vec![c, opted_out, no_target], vec![window_target(1, 50), window_target(2, 50)]);
    w.camera_with_render_target_insert_output_color_target();
    assert_eq!(w.cameras[0].output_color_target_of, Some(OutputColorTargetOf(Entity(1))));
    assert_eq!(w.cameras[1].output_color_target_of, None);
    assert_eq!(w.cameras[2].output_color_target_of, None);
}

#[test]
fn auto_configuration_twice_makes_one_double_buffer() {
    let cam = camera(0, Some(info(640, 480, sf(1, 1))));
    let mut w = world(vec![camera_entity(1, cam)], vec![window_target(1, 50)]);
    w.auto_configure_camera_color_target();
    w.auto_configure_camera_color_target();
    assert_eq!(w.double_buffers.len(), 1);
    assert_eq!(w.images.len(), 2);
    let d = w.double_buffers[0].entity;
    assert_eq!(w.cameras[0].color_target_of, Some(ColorTargetOf(d)));
    assert_eq!(w.cameras[0].msaa_color_target_of, None);
    let img = |id| RenderTarget::Image(ImageRenderTarget { handle: ImageId(id), scale_factor: ScaleFactor::one() });
    assert_eq!(w.double_buffers[0].target.a, img(1000));
    assert_eq!(w.double_buffers[0].target.b, img(1001));
    assert!(w.double_buffers[0].target.main_texture.is_some());
    for i in &w.images {
        assert_eq!(i.size, UVec2 { x: 640, y: 480 });
        assert_eq!(i.format, TextureFormat::Rgba8UnormSrgb);
        assert_eq!(i.usage, 0x11);
        assert_eq!(i.sample_count, 1);
    }
}

#[test]
fn auto_configuration_with_msaa_and_hdr() {
    let mut c = camera_entity(1, camera(0, Some(info(320, 200, sf(1, 1)))));
    c.msaa_samples = 4;
    c.hdr = true;
    let waiting = camera_entity(2, camera(0, None));
    let mut w = world(vec![c, waiting], vec![]);
    w.auto_configure_camera_color_target();
    assert_eq!(w.double_buffers.len(), 1);
    assert_eq!(w.images.len(), 3);
    let d = Entity(100);
    let m = Entity(101);
    assert_eq!(w.cameras[0].color_target_of, Some(ColorTargetOf(d)));
    assert_eq!(w.cameras[0].msaa_color_target_of, Some(MsaaColorTargetOf(m)));
    assert_eq!(w.cameras[0].msaa_resolve_target_of, Some(MsaaResolveTargetOf(d)));
    assert_eq!(w.render_targets[0].entity, m);
    assert_eq!(w.images[2].sample_count, 4);
    assert_eq!(w.images[0].format, TextureFormat::Rgba16Float);
    assert_eq!(w.cameras[1].color_target_of, None);
    assert_eq!(w.next_entity, 102);
}

#[test]
fn sync_resizes_auto_configured_images() {
    let mut c = camera_entity(1, camera(0, Some(info(320, 200, sf(1, 1)))));
    c.msaa_samples = 4;
    let mut w = world(vec![c], vec![]);
    w.auto_configure_camera_color_target();
    w.cameras[0].camera.computed.target_info = Some(info(640, 400, sf(1, 1)));
    w.cameras[0].hdr = true;
    w.cameras[0].msaa_samples = 8;
    w.sync_camera_color_target_config();
    for i in &w.images {
        assert_eq!(i.size, UVec2 { x: 640, y: 400 });
        assert_eq!(i.format, TextureFormat::Rgba16Float);
    }
    assert_eq!(w.images[0].sample_count, 1);
    assert_eq!(w.images[2].sample_count, 8);
}

#[test]
fn inactive_camera_snapshot_is_removed() {
    let cam = camera(0, Some(info(640, 480, sf(1, 1))));
    let mut w = world(vec![camera_entity(1, cam)], vec![window_target(1, 50)]);
    let visible = vec![VisibleEntities {
        entities: vec![VisibleEntityList { type_id: 7, entities: vec![Entity(5)] }],
    }];
    let mapper = vec![(Entity(5), Entity(55))];
    let mut extracted = vec![None];
    let mut extracted_visible = vec![None];
    extract_cameras(&w, None, true, &visible, &mapper, &mut extracted, &mut extracted_visible);
    assert!(extracted[0].is_some());
    assert!(extracted_visible[0].is_some());
    w.cameras[0].camera.is_active = false;
    extract_cameras(&w, None, true, &visible, &mapper, &mut extracted, &mut extracted_visible);
    assert!(extracted[0].is_none());
    assert!(extracted_visible[0].is_none());
}

#[test]
fn zero_width_target_is_not_extracted() {
    let cam = camera(0, Some(info(0, 480, sf(1, 1))));
    let w = world(vec![camera_entity(1, cam)], vec![window_target(1, 50)]);
    assert_eq!(extract_camera(&w.cameras[0], &w, None, true), ExtractAction::Remove);
    let cam = camera(0, Some(info(640, 0, sf(1, 1))));
    let w = world(vec![camera_entity(1, cam)], vec![window_target(1, 50)]);
    assert_eq!(extract_camera(&w.cameras[0], &w, None, true), ExtractAction::Remove);
}

#[test]
fn unknown_size_keeps_previous_snapshot() {
    let w = world(vec![camera_entity(1, camera(0, None))], vec![window_target(1, 50)]);
    assert_eq!(extract_camera(&w.cameras[0], &w, None, true), ExtractAction::Keep);
}

#[test]
fn extracted_snapshot_copies_camera_state() {
    let mut cam = camera(3, Some(info(640, 480, sf(1, 1))));
    cam.clear_color = ClearColorConfig::Custom(0xff00ff00);
    let mut c = camera_entity(1, cam);
    c.msaa_samples = 4;
    let mut w = world(vec![c], vec![window_target(1, 50)]);
    w.auto_configure_camera_color_target();
    let got = match extract_camera(&w.cameras[0], &w, None, false) {
        ExtractAction::Insert(e) => e,
        other => panic!("expected a snapshot, got {:?}", other),
    };
    assert_eq!(got.output_color_target, Some(NormalizedRenderTarget::Window(Entity(50))));
    let img = |id| NormalizedRenderTarget::Image(ImageRenderTarget { handle: ImageId(id), scale_factor: ScaleFactor::one() });
    assert_eq!(got.main_color_target_a, Some(img(1000)));
    assert_eq!(got.main_color_target_b, Some(img(1001)));
    assert_eq!(got.multisampled_color_target, Some(img(1002)));
    assert_eq!(got.physical_viewport_size, Some(UVec2 { x: 640, y: 480 }));
    assert_eq!(got.order, 3);
    assert_eq!(got.clear_color, ClearColorConfig::Custom(0xff00ff00));
    assert_eq!(got.exposure, Exposure { ev100_centi: 970 });
    assert!(got.no_indirect_drawing);
}

#[test]
fn extracted_exposure_and_indirect_drawing() {
    let mut c = camera_entity(1, camera(0, Some(info(64, 64, sf(1, 1)))));
    c.exposure = Some(Exposure { ev100_centi: 1200 });
    let w = world(vec![c], vec![window_target(1, 50)]);
    match extract_camera(&w.cameras[0], &w, None, true) {
        ExtractAction::Insert(e) => {
            assert_eq!(e.exposure, Exposure { ev100_centi: 1200 });
            assert!(!e.no_indirect_drawing);
            assert_eq!(e.main_color_target_a, None);
        }
        other => panic!("expected a snapshot, got {:?}", other),
    }
}

#[test]
fn unmapped_visible_entity_gets_placeholder() {
    let mapper = vec![(Entity(1), Entity(11)), (Entity(2), Entity(12))];
    let r = remap_visible_entities(&vec![Entity(2), Entity(3), Entity(1)], &mapper);
    assert_eq!(r, vec![(Entity(12), Entity(2)), (Entity::placeholder(), Entity(3)), (Entity(11), Entity(1))]);
}

#[test]
fn despawn_cascades_along_edges() {
    let cam = camera(0, Some(info(64, 64, sf(1, 1))));
    let first = camera_entity(1, cam);
    let mut second = camera_entity(2, cam);
    second.output_color_target_of = Some(OutputColorTargetOf(Entity(1)));
    second.no_auto_configured_color_target = Some(NoAutoConfiguredColorTarget);
    let mut third = camera_entity(3, cam);
    third.no_auto_configured_color_target = Some(NoAutoConfiguredColorTarget);
    let mut w = world(vec![first, second, third], vec![window_target(1, 50), window_target(3, 50)]);
    w.auto_configure_camera_color_target();
    let d = w.double_buffers[0].entity;
    assert_eq!(w.color_target(d).0, vec![Entity(1)]);
    assert_eq!(w.output_color_target(Entity(1)).0, vec![Entity(1), Entity(2)]);
    assert_eq!(w.output_color_target(Entity(3)).0, vec![Entity(3)]);
    let mut doomed = w.despawn_set(d);
    doomed.sort_by_key(|e| e.0);
    assert_eq!(doomed, vec![Entity(1), Entity(2), d]);
    w.despawn(d);
    assert_eq!(w.cameras.len(), 1);
    assert_eq!(w.cameras[0].entity, Entity(3));
    assert!(w.double_buffers.is_empty());
    assert_eq!(w.render_targets, vec![window_target(3, 50)]);
    assert_eq!(w.images.len(), 2);
}

#[test]
fn despawn_of_unrelated_entity_removes_only_it() {
    let cam = camera(0, None);
    let mut w = world(vec![camera_entity(1, cam), camera_entity(2, cam)], vec![window_target(1, 50), window_target(2, 50)]);
    w.despawn(Entity(77));
    assert_eq!(w.cameras.len(), 2);
    assert_eq!(w.render_targets.len(), 2);
}

#[test]
fn camera_without_render_graph_is_not_extracted() {
    let mut c = camera_entity(1, camera(0, Some(info(64, 64, sf(1, 1)))));
    c.render_graph = None;
    let w = world(vec![c], vec![window_target(1, 50)]);
    assert_eq!(extract_camera(&w.cameras[0], &w, None, true), ExtractAction::Keep);
}

#[test]
fn inactive_camera_without_render_graph_is_removed() {
    let mut c = camera_entity(1, camera(0, Some(info(64, 64, sf(1, 1)))));
    c.render_graph = None;
    c.camera.is_active = false;
    let w = world(vec![c], vec![window_target(1, 50)]);
    assert_eq!(extract_camera(&w.cameras[0], &w, None, true), ExtractAction::Remove);
    let mut c = camera_entity(1, camera(0, Some(info(0, 64, sf(1, 1)))));
    c.render_graph = None;
    let w = world(vec![c], vec![window_target(1, 50)]);
    assert_eq!(extract_camera(&w.cameras[0], &w, None, true), ExtractAction::Remove);
}

#[test]
fn extracted_render_graph_is_the_camera_one() {
    let mut c = camera_entity(1, camera(0, Some(info(64, 64, sf(1, 1)))));
    let mut g = CameraRenderGraph::new(5);
    g.set(9);
    assert_eq!(g, CameraRenderGraph(9));
    c.render_graph = Some(g);
    let w = world(vec![c], vec![window_target(1, 50)]);
    match extract_camera(&w.cameras[0], &w, None, true) {
        ExtractAction::Insert(e) => assert_eq!(e.render_graph, CameraRenderGraph(9)),
        other => panic!("expected a snapshot, got {:?}", other),
    }
}

#[test]
fn multisample_inverse_collections() {
    let mut c = camera_entity(1, camera(0, Some(info(64, 64, sf(1, 1)))));
    c.msaa_samples = 4;
    let mut w = world(vec![c], vec![]);
    w.auto_configure_camera_color_target();
    assert_eq!(w.msaa_color_target(Entity(101)).0, vec![Entity(1)]);
    assert_eq!(w.msaa_resolve_target(Entity(100)).0, vec![Entity(1)]);
    assert!(w.msaa_resolve_target(Entity(101)).0.is_empty());
}

#[test]
fn frame_step_configures_once_size_is_known() {
    let mut c = camera_entity(1, camera(0, None));
    c.output_color_target_of = None;
    c.is_added = true;
    let mut w = world(vec![c], vec![window_target(1, 50)]);
    let windows = vec![WindowInfo { entity: Entity(50), physical_size: UVec2 { x: 800, y: 600 }, scale_factor: sf(1, 1) }];
    assert_eq!(update_cameras(&mut w, &no_events(), None, &windows, &vec![]), Ok(()));
    assert_eq!(w.cameras[0].output_color_target_of, Some(OutputColorTargetOf(Entity(1))));
    assert_eq!(w.cameras[0].camera.computed.target_info, Some(info(800, 600, sf(1, 1))));
    assert!(w.double_buffers.is_empty());
    w.cameras[0].is_added = false;
    assert_eq!(update_cameras(&mut w, &no_events(), None, &windows, &vec![]), Ok(()));
    assert_eq!(w.double_buffers.len(), 1);
    assert_eq!(w.images[0].size, UVec2 { x: 800, y: 600 });
    assert_eq!(update_cameras(&mut w, &no_events(), None, &windows, &vec![]), Ok(()));
    assert_eq!(w.double_buffers.len(), 1);
}

#[test]
fn last_seen_viewport_size_is_the_clamped_one() {
    let mut cam = camera(0, None);
    cam.viewport = Some(Viewport { physical_position: UVec2 { x: 0, y: 0 }, physical_size: UVec2 { x: 20, y: 5 } });
    let mut c = camera_entity(1, cam);
    c.is_added = true;
    let mut w = world(vec![c], vec![TargetEntity {
        entity: Entity(1),
        target: RenderTarget::Empty { size: UVec2 { x: 10, y: 10 } },
    }]);
    assert_eq!(camera_system(&mut w, &no_events(), None, &vec![], &vec![]), Ok(()));
    let got = w.cameras[0].camera;
    assert_eq!(got.viewport, Some(Viewport { physical_position: UVec2 { x: 0, y: 0 }, physical_size: UVec2 { x: 10, y: 5 } }));
    assert_eq!(got.computed.old_viewport_size, Some(UVec2 { x: 10, y: 5 }));
    // The next frame sees no change and leaves the camera alone.
    w.cameras[0].is_added = false;
    let settled = w.cameras[0];
    assert_eq!(camera_system(&mut w, &no_events(), None, &vec![], &vec![]), Ok(()));
    assert_eq!(w.cameras[0], settled);
}

#[test]
fn extracted_render_layers_and_visibility() {
    let mut c = camera_entity(1, camera(0, Some(info(64, 64, sf(1, 1)))));
    c.render_layers = Some(RenderLayers(0b101));
    let w = world(vec![c], vec![window_target(1, 50)]);
    match extract_camera(&w.cameras[0], &w, None, true) {
        ExtractAction::Insert(e) => assert_eq!(e.render_layers, Some(RenderLayers(0b101))),
        other => panic!("expected a snapshot, got {:?}", other),
    }
    let visible = VisibleEntities {
        entities: vec![
            VisibleEntityList { type_id: 1, entities: vec![Entity(5), Entity(6)] },
            VisibleEntityList { type_id: 2, entities: vec![] },
        ],
    };
    let r = extract_visible_entities(&visible, &vec![(Entity(6), Entity(66))]);
    assert_eq!(r.entities.len(), 2);
    assert_eq!(r.entities[0].type_id, 1);
    assert_eq!(r.entities[0].entities, vec![(Entity::placeholder(), Entity(5)), (Entity(66), Entity(6))]);
    assert_eq!(r.entities[1].type_id, 2);
    assert!(r.entities[1].entities.is_empty());
}

#[test]
fn ids_grow_within_bounds() {
    let mut c = camera_entity(1, camera(0, Some(info(8, 8, sf(1, 1)))));
    c.msaa_samples = 2;
    let mut w = world(vec![c, camera_entity(2, camera(0, Some(info(8, 8, sf(1, 1)))))], vec![]);
    w.auto_configure_camera_color_target();
    assert_eq!(w.next_entity, 100 + 3);
    assert_eq!(w.next_image, 1000 + 5);
}
