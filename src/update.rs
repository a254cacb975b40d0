use vstd::prelude::*;

use crate::camera::{Camera, ComputedCameraValues, ProjectionBasis};
use crate::entity::Entity;
use crate::geometry::UVec2;
use crate::graph::{
    auto_configure_from, find_target, output_wired, sync_from, target_of, CameraEntity, CameraWorld, CameraWorldView, OutputColorTargetOf,
    TargetEntity,
};
use crate::render_target::{
    is_changed_spec, normalize_spec, target_info_spec, Image, ImageId, ManualTextureView,
    MissingRenderTargetInfoError, NormalizedRenderTarget, RenderTargetInfo, WindowInfo,
};
use crate::viewport::Viewport;

verus! {

/// An event of the image store.
#[derive(Clone, Copy, Debug, PartialEq, Eq, Structural)]
pub enum AssetEvent {
    Added { id: ImageId },
    Modified { id: ImageId },
    Removed { id: ImageId },
    Unused { id: ImageId },
    LoadedWithDependencies { id: ImageId },
}

/// The change events of one frame.
pub struct ChangeEvents {
    pub window_created: Vec<Entity>,
    pub window_resized: Vec<Entity>,
    pub window_scale_factor_changed: Vec<Entity>,
    pub image_events: Vec<AssetEvent>,
}

/// Whether one of the first `n` events added or modified image `id`.
pub open spec fn changed_before(events: Seq<AssetEvent>, n: int, id: ImageId) -> bool {
    exists|k: int|
        0 <= k < n && k < events.len() && (#[trigger] events[k] == AssetEvent::Added { id }
            || events[k] == AssetEvent::Modified { id })
}

/// Whether an image was added or modified according to `events`.
pub open spec fn image_changed(events: Seq<AssetEvent>, id: ImageId) -> bool {
    changed_before(events, events.len() as int, id)
}

/// The windows that were created, resized or rescaled.
pub fn changed_window_ids(events: &ChangeEvents) -> (r: Vec<Entity>)
    ensures
        r@ == events.window_created@ + events.window_resized@ + events.window_scale_factor_changed@,
{
    let mut r: Vec<Entity> = Vec::new();
    append_entities(&mut r, &events.window_created);
    append_entities(&mut r, &events.window_resized);
    append_entities(&mut r, &events.window_scale_factor_changed);
    r
}

fn append_entities(r: &mut Vec<Entity>, s: &Vec<Entity>)
    ensures
        final(r)@ == old(r)@ + s@,
{
    let mut i: usize = 0;
    while i < s.len()
        invariant
            0 <= i <= s@.len(),
            r@ == old(r)@ + s@.subrange(0, i as int),
        decreases s@.len() - i,
    {
        r.push(s[i]);
        i = i + 1;
        assert(r@ =~= old(r)@ + s@.subrange(0, i as int));
    }
    assert(s@.subrange(0, s@.len() as int) =~= s@);
}

/// The images that were added or modified.
pub fn changed_image_handles(events: &ChangeEvents) -> (r: Vec<ImageId>)
    ensures
        forall|id: ImageId| r@.contains(id) <==> image_changed(events.image_events@, id),
        r@ == changed_images_of(events),
{
    let ev = &events.image_events;
    let mut r: Vec<ImageId> = Vec::new();
    let mut i: usize = 0;
    while i < ev.len()
        invariant
            0 <= i <= ev@.len(),
            forall|id: ImageId| r@.contains(id) <==> changed_before(ev@, i as int, id),
            r@ == collected_images(ev@.subrange(0, i as int)),
        decreases ev@.len() - i,
    {
        let ghost before = r@;
        let e = ev[i];
        match e {
            AssetEvent::Added { id } => r.push(id),
            AssetEvent::Modified { id } => r.push(id),
            _ => {},
        }
        proof {
            assert(ev@.subrange(0, i + 1).drop_last() =~= ev@.subrange(0, i as int));
            assert(ev@.subrange(0, i + 1).last() == e);
            assert forall|id: ImageId| r@.contains(id) <==> changed_before(ev@, i + 1, id) by {
                let hit = ev@[i as int] == AssetEvent::Added { id } || ev@[i as int]
                    == AssetEvent::Modified { id };
                if changed_before(ev@, i as int, id) {
                    let k = choose|k: int|
                        0 <= k < i && k < ev@.len() && (#[trigger] ev@[k] == AssetEvent::Added {
                            id,
                        } || ev@[k] == AssetEvent::Modified { id });
                    assert(ev@[k] == AssetEvent::Added { id } || ev@[k] == AssetEvent::Modified { id });
                }
                if changed_before(ev@, i + 1, id) && !changed_before(ev@, i as int, id) {
                    assert(hit);
                }
                if hit {
                    assert(r@[r@.len() - 1] == id);
                }
                if before.contains(id) {
                    let j = choose|j: int| 0 <= j < before.len() && before[j] == id;
                    assert(r@[j] == id);
                }
                if r@.contains(id) && !before.contains(id) {
                    let j = choose|j: int| 0 <= j < r@.len() && r@[j] == id;
                    if j < before.len() {
                        assert(before[j] == id);
                    }
                    assert(hit);
                }
            }
        }
        i = i + 1;
    }
    assert(ev@.subrange(0, ev@.len() as int) =~= ev@);
    r
}

pub open spec fn viewport_size_of(c: Camera) -> Option<UVec2> {
    match c.viewport {
        Some(v) => Some(v.physical_size),
        None => None,
    }
}

/// The normalized output target of a camera, when its output edge leads to a render
/// target that normalizes.
pub open spec fn resolved_output_target(
    cam: CameraEntity,
    targets: Seq<TargetEntity>,
    primary_window: Option<Entity>,
) -> Option<NormalizedRenderTarget> {
    match cam.output_color_target_of {
        Some(OutputColorTargetOf(e)) => match target_of(targets, e) {
            Some(t) => normalize_spec(t, primary_window),
            None => None,
        },
        None => None,
    }
}

/// A recompute is due when the target changed, the camera was just added, its projection
/// changed, or its viewport size or sub-camera view differ from those last seen.
pub open spec fn needs_update(
    cam: CameraEntity,
    nt: NormalizedRenderTarget,
    changed_windows: Seq<Entity>,
    changed_images: Seq<ImageId>,
) -> bool {
    ||| is_changed_spec(nt, changed_windows, changed_images)
    ||| cam.is_added
    ||| cam.projection_changed
    ||| cam.camera.computed.old_viewport_size != viewport_size_of(cam.camera)
    ||| cam.camera.computed.old_sub_camera_view != cam.camera.sub_camera_view
}

/// The camera with the last-seen viewport size and sub-camera view refreshed.
pub open spec fn refreshed(c: Camera) -> Camera {
    Camera {
        computed: ComputedCameraValues {
            old_viewport_size: viewport_size_of(c),
            old_sub_camera_view: c.sub_camera_view,
            ..c.computed
        },
        ..c
    }
}

/// The recompute, given the target's fresh info: the viewport is rescaled when the target's
/// scale factor changed (and an earlier scale is known), then clamped to the target; the
/// info is stored; the projection basis is renewed when the viewport is not degenerate;
/// and the last-seen values are refreshed to the viewport as it now is.
pub open spec fn recomputed(c: Camera, info: RenderTargetInfo, scale_changed: bool) -> Camera {
    let rescale = scale_changed && c.computed.target_info is Some && c.viewport is Some;
    let scaled: Option<Viewport> = if rescale {
        Some(
            c.viewport.unwrap().rescaled_spec(
                c.computed.target_info.unwrap().scale_factor,
                info.scale_factor,
            ),
        )
    } else {
        c.viewport
    };
    let clamped: Option<Viewport> = match scaled {
        Some(v) => Some(v.clamped_spec(info.physical_size)),
        None => None,
    };
    let size = match clamped {
        Some(v) => v.physical_size,
        None => info.physical_size,
    };
    let clip = if size.x != 0 && size.y != 0 {
        Some(
            ProjectionBasis {
                viewport_size: size,
                scale_factor: info.scale_factor,
                sub_camera_view: c.sub_camera_view,
            },
        )
    } else {
        c.computed.clip_from_view
    };
    Camera {
        viewport: clamped,
        computed: ComputedCameraValues {
            target_info: Some(info),
            old_viewport_size: match clamped {
                Some(v) => Some(v.physical_size),
                None => None,
            },
            old_sub_camera_view: c.sub_camera_view,
            clip_from_view: clip,
        },
        ..c
    }
}

/// One camera's update for the frame.
pub open spec fn camera_step(
    cam: CameraEntity,
    targets: Seq<TargetEntity>,
    primary_window: Option<Entity>,
    changed_windows: Seq<Entity>,
    scale_changed_windows: Seq<Entity>,
    changed_images: Seq<ImageId>,
    windows: Seq<WindowInfo>,
    images: Seq<Image>,
    views: Seq<ManualTextureView>,
) -> Result<Camera, MissingRenderTargetInfoError> {
    match cam.output_color_target_of {
        None => Ok(cam.camera),
        Some(OutputColorTargetOf(e)) => match target_of(targets, e) {
            None => Ok(cam.camera),
            Some(t) => match normalize_spec(t, primary_window) {
                None => Ok(refreshed(cam.camera)),
                Some(nt) => if needs_update(cam, nt, changed_windows, changed_images) {
                    match target_info_spec(nt, windows, images, views) {
                        Ok(info) => Ok(
                            recomputed(
                                cam.camera,
                                info,
                                is_changed_spec(nt, scale_changed_windows, Seq::empty()),
                            ),
                        ),
                        Err(e) => Err(e),
                    }
                } else {
                    Ok(refreshed(cam.camera))
                },
            },
        },
    }
}

fn recompute(c: &Camera, info: RenderTargetInfo, scale_changed: bool) -> (r: Camera)
    ensures
        r == recomputed(*c, info, scale_changed),
{
    let mut cam = *c;
    if scale_changed {
        if let Some(old_info) = c.computed.target_info {
            if let Some(v) = c.viewport {
                let mut v2 = v;
                v2.rescale(old_info.scale_factor, info.scale_factor);
                cam.viewport = Some(v2);
            }
        }
    }
    if let Some(v) = cam.viewport {
        let mut v2 = v;
        v2.clamp_to_size(info.physical_size);
        cam.viewport = Some(v2);
    }
    cam.computed.target_info = Some(info);
    let size = match cam.viewport {
        Some(v) => v.physical_size,
        None => info.physical_size,
    };
    if size.x != 0 && size.y != 0 {
        cam.computed.clip_from_view = Some(
            ProjectionBasis {
                viewport_size: size,
                scale_factor: info.scale_factor,
                sub_camera_view: c.sub_camera_view,
            },
        );
    }
    cam.computed.old_viewport_size = viewport_size_exec(&cam);
    cam.computed.old_sub_camera_view = c.sub_camera_view;
    cam
}

fn viewport_size_exec(c: &Camera) -> (r: Option<UVec2>)
    ensures
        r == viewport_size_of(*c),
{
    match c.viewport {
        Some(v) => Some(v.physical_size),
        None => None,
    }
}

fn refresh(c: &Camera) -> (r: Camera)
    ensures
        r == refreshed(*c),
{
    let mut cam = *c;
    cam.computed.old_viewport_size = viewport_size_exec(c);
    cam.computed.old_sub_camera_view = c.sub_camera_view;
    cam
}

/// The update of one camera for the frame, from the changed windows (all, and those whose
/// scale factor changed) and images, and the registries.
pub fn update_camera(
    cam: &CameraEntity,
    targets: &Vec<TargetEntity>,
    primary_window: Option<Entity>,
    changed_windows: &Vec<Entity>,
    scale_changed_windows: &Vec<Entity>,
    changed_images: &Vec<ImageId>,
    windows: &Vec<WindowInfo>,
    images: &Vec<Image>,
    views: &Vec<ManualTextureView>,
) -> (r: Result<Camera, MissingRenderTargetInfoError>)
    ensures
        r == camera_step(
            *cam,
            targets@,
            primary_window,
            changed_windows@,
            scale_changed_windows@,
            changed_images@,
            windows@,
            images@,
            views@,
        ),
{
    let e = match cam.output_color_target_of {
        Some(OutputColorTargetOf(e)) => e,
        None => return Ok(cam.camera),
    };
    let t = match find_target(targets, e) {
        Some(t) => t,
        None => return Ok(cam.camera),
    };
    let nt = match t.normalize(primary_window) {
        Some(nt) => nt,
        None => return Ok(refresh(&cam.camera)),
    };
    let due = nt.is_changed(changed_windows, changed_images) || cam.is_added
        || cam.projection_changed || cam.camera.computed.old_viewport_size != viewport_size_exec(
        &cam.camera,
    ) || cam.camera.computed.old_sub_camera_view != cam.camera.sub_camera_view;
    if !due {
        return Ok(refresh(&cam.camera));
    }
    let info = match nt.get_render_target_info(windows, images, views) {
        Ok(info) => info,
        Err(e) => return Err(e),
    };
    let no_images: Vec<ImageId> = Vec::new();
    let scale_changed = nt.is_changed(scale_changed_windows, &no_images);
    proof {
        assert(no_images@ =~= Seq::<ImageId>::empty());
    }
    Ok(recompute(&cam.camera, info, scale_changed))
}

/// What the reactive update did, from `before` to `after`: only the cameras' camera parts
/// change; when it succeeded every camera is its step's result; when it failed, the cameras
/// before the failing one are their step's result, and it and those after are unchanged.
pub open spec fn cameras_updated(
    before: CameraWorldView,
    after: CameraWorldView,
    changed_windows: Seq<Entity>,
    scale_changed_windows: Seq<Entity>,
    changed_images: Seq<ImageId>,
    primary_window: Option<Entity>,
    windows: Seq<WindowInfo>,
    views: Seq<ManualTextureView>,
    r: Result<(), MissingRenderTargetInfoError>,
) -> bool {
    let step = |c: CameraEntity|
        camera_step(
            c,
            before.render_targets,
            primary_window,
            changed_windows,
            scale_changed_windows,
            changed_images,
            windows,
            before.images,
            views,
        );
    &&& after.cameras.len() == before.cameras.len()
    &&& forall|k: int|
        0 <= k < before.cameras.len() ==> (#[trigger] after.cameras[k]) == (CameraEntity {
            camera: after.cameras[k].camera,
            ..before.cameras[k]
        })
    &&& r is Ok ==> forall|k: int|
        0 <= k < before.cameras.len() ==> step(#[trigger] before.cameras[k]) == Ok::<
            Camera,
            MissingRenderTargetInfoError,
        >(after.cameras[k].camera)
    &&& r matches Err(e) ==> exists|j: int|
        0 <= j < before.cameras.len() && step(#[trigger] before.cameras[j]) == Err::<
            Camera,
            MissingRenderTargetInfoError,
        >(e) && (forall|k: int|
            0 <= k < j ==> step(#[trigger] before.cameras[k]) == Ok::<
                Camera,
                MissingRenderTargetInfoError,
            >(after.cameras[k].camera)) && (forall|k: int|
            j <= k < before.cameras.len() ==> after.cameras[k] == before.cameras[k])
    &&& after.render_targets == before.render_targets
    &&& after.double_buffers == before.double_buffers
    &&& after.images == before.images
    &&& after.next_entity == before.next_entity
    &&& after.next_image == before.next_image
}

/// Updates every camera for the frame. On a missing backing resource it stops at that
/// camera and returns the error: the cameras before it are updated, it and those after it
/// are left as they were.
pub fn camera_system(
    world: &mut CameraWorld,
    events: &ChangeEvents,
    primary_window: Option<Entity>,
    windows: &Vec<WindowInfo>,
    manual_texture_views: &Vec<ManualTextureView>,
) -> (r: Result<(), MissingRenderTargetInfoError>)
    ensures
        cameras_updated(
            old(world)@,
            final(world)@,
            events.window_created@ + events.window_resized@ + events.window_scale_factor_changed@,
            events.window_scale_factor_changed@,
            changed_images_of(events),
            primary_window,
            windows@,
            manual_texture_views@,
            r,
        ),
        final(world).double_buffers@ == old(world).double_buffers@,
{
    let changed_windows = changed_window_ids(events);
    let changed_images = changed_image_handles(events);
    let n = world.cameras.len();
    let mut i: usize = 0;
    while i < n
        invariant
            0 <= i <= n,
            n == world.cameras@.len(),
            n == old(world).cameras@.len(),
            changed_windows@ == events.window_created@ + events.window_resized@
                + events.window_scale_factor_changed@,
            changed_images@ == changed_images_of(events),
            forall|k: int|
                0 <= k < n ==> (#[trigger] world.cameras@[k]) == (CameraEntity {
                    camera: world.cameras@[k].camera,
                    ..old(world).cameras@[k]
                }),
            forall|k: int|
                0 <= k < i ==> camera_step(
                    #[trigger] old(world).cameras@[k],
                    old(world).render_targets@,
                    primary_window,
                    changed_windows@,
                    events.window_scale_factor_changed@,
                    changed_images@,
                    windows@,
                    old(world).images@,
                    manual_texture_views@,
                ) == Ok::<Camera, MissingRenderTargetInfoError>(world.cameras@[k].camera),
            forall|k: int| i <= k < n ==> world.cameras@[k] == old(world).cameras@[k],
            world.render_targets@ == old(world).render_targets@,
            world.double_buffers@ == old(world).double_buffers@,
            world.images@ == old(world).images@,
            world.next_entity == old(world).next_entity,
            world.next_image == old(world).next_image,
        decreases n - i,
    {
        let cam = world.cameras[i];
        let step = update_camera(
            &cam,
            &world.render_targets,
            primary_window,
            &changed_windows,
            &events.window_scale_factor_changed,
            &changed_images,
            windows,
            &world.images,
            manual_texture_views,
        );
        match step {
            Ok(c) => {
                let mut updated = cam;
                updated.camera = c;
                world.cameras.set(i, updated);
            },
            Err(e) => {
                return Err(e);
            },
        }
        i = i + 1;
    }
    Ok(())
}

/// The images that `events` added or modified, in the order `changed_image_handles`
/// collects them.
pub open spec fn changed_images_of(events: &ChangeEvents) -> Seq<ImageId> {
    collected_images(events.image_events@)
}

pub open spec fn collected_images(ev: Seq<AssetEvent>) -> Seq<ImageId>
    decreases ev.len(),
{
    if ev.len() == 0 {
        Seq::empty()
    } else {
        let rest = collected_images(ev.drop_last());
        match ev.last() {
            AssetEvent::Added { id } => rest.push(id),
            AssetEvent::Modified { id } => rest.push(id),
            _ => rest,
        }
    }
}

/// A frame with no relevant change leaves a camera as it was, computed cache included:
/// its target is not among the changed windows and images, it was not just added, its
/// projection did not change, and its viewport size and sub-camera view are those last seen.
pub proof fn lemma_no_change_keeps_camera(
    cam: CameraEntity,
    targets: Seq<TargetEntity>,
    primary_window: Option<Entity>,
    changed_windows: Seq<Entity>,
    scale_changed_windows: Seq<Entity>,
    changed_images: Seq<ImageId>,
    windows: Seq<WindowInfo>,
    images: Seq<Image>,
    views: Seq<ManualTextureView>,
)
    requires
        resolved_output_target(cam, targets, primary_window) matches Some(nt) ==> !is_changed_spec(
            nt,
            changed_windows,
            changed_images,
        ),
        !cam.is_added,
        !cam.projection_changed,
        cam.camera.computed.old_viewport_size == viewport_size_of(cam.camera),
        cam.camera.computed.old_sub_camera_view == cam.camera.sub_camera_view,
    ensures
        camera_step(
            cam,
            targets,
            primary_window,
            changed_windows,
            scale_changed_windows,
            changed_images,
            windows,
            images,
            views,
        ) == Ok::<Camera, MissingRenderTargetInfoError>(cam.camera),
{
    assert(refreshed(cam.camera) == cam.camera);
}

/// When the target's scale factor changes from `s0` to `s1` and the camera has a viewport
/// `v`, the viewport afterwards is `v` with position and size taken from `s0` to `s1` and
/// rounded, then clamped to the target's size.
pub proof fn lemma_scale_change_rescales_viewport(
    cam: CameraEntity,
    targets: Seq<TargetEntity>,
    primary_window: Option<Entity>,
    changed_windows: Seq<Entity>,
    scale_changed_windows: Seq<Entity>,
    changed_images: Seq<ImageId>,
    windows: Seq<WindowInfo>,
    images: Seq<Image>,
    views: Seq<ManualTextureView>,
    nt: NormalizedRenderTarget,
    info: RenderTargetInfo,
)
    requires
        resolved_output_target(cam, targets, primary_window) == Some(nt),
        is_changed_spec(nt, scale_changed_windows, Seq::empty()),
        is_changed_spec(nt, changed_windows, changed_images),
        target_info_spec(nt, windows, images, views) == Ok::<
            RenderTargetInfo,
            MissingRenderTargetInfoError,
        >(info),
        cam.camera.computed.target_info is Some,
        cam.camera.viewport is Some,
    ensures
        camera_step(
            cam,
            targets,
            primary_window,
            changed_windows,
            scale_changed_windows,
            changed_images,
            windows,
            images,
            views,
        ) matches Ok(c) && c.viewport == Some(
            cam.camera.viewport.unwrap().rescaled_spec(
                cam.camera.computed.target_info.unwrap().scale_factor,
                info.scale_factor,
            ).clamped_spec(info.physical_size),
        ),
{
}

/// The world with every camera's output edge wired.
pub open spec fn wired_view(w: CameraWorldView) -> CameraWorldView {
    CameraWorldView {
        cameras: w.cameras.map_values(|c: CameraEntity| output_wired(c, w.render_targets)),
        ..w
    }
}

/// The world after output wiring, color-target auto-configuration and image sync, in that
/// order.
pub open spec fn prepared_view(w: CameraWorldView) -> CameraWorldView {
    let configured = auto_configure_from(wired_view(w), 0);
    CameraWorldView {
        images: sync_from(
            configured.cameras,
            configured.render_targets,
            configured.double_buffers,
            configured.images,
            0,
        ),
        ..configured
    }
}

/// One frame of camera upkeep: wires output edges, auto-configures color targets, brings
/// their images in step with each camera's configuration, then runs the reactive update.
pub fn update_cameras(
    world: &mut CameraWorld,
    events: &ChangeEvents,
    primary_window: Option<Entity>,
    windows: &Vec<WindowInfo>,
    manual_texture_views: &Vec<ManualTextureView>,
) -> (r: Result<(), MissingRenderTargetInfoError>)
    requires
        old(world).next_entity + 2 * old(world).cameras@.len() <= u64::MAX,
        old(world).next_image + 3 * old(world).cameras@.len() <= u64::MAX,
    ensures
        cameras_updated(
            prepared_view(old(world)@),
            final(world)@,
            events.window_created@ + events.window_resized@ + events.window_scale_factor_changed@,
            events.window_scale_factor_changed@,
            changed_images_of(events),
            primary_window,
            windows@,
            manual_texture_views@,
            r,
        ),
        final(world).cameras@.len() == old(world).cameras@.len(),
        final(world).next_entity <= old(world).next_entity + 2 * old(world).cameras@.len(),
        final(world).next_image <= old(world).next_image + 3 * old(world).cameras@.len(),
{
    let ghost start = world@;
    world.camera_with_render_target_insert_output_color_target();
    proof {
        assert(world@.cameras =~= wired_view(start).cameras);
        assert(world@.double_buffers =~= start.double_buffers);
    }
    world.auto_configure_camera_color_target();
    let ghost configured = world@;
    world.sync_camera_color_target_config();
    proof {
        assert(world@.double_buffers =~= configured.double_buffers);
        assert(world@.cameras =~= prepared_view(start).cameras);
        assert(world@.render_targets =~= prepared_view(start).render_targets);
        assert(world@.images =~= prepared_view(start).images);
    }
    camera_system(world, events, primary_window, windows, manual_texture_views)
}

/// After a camera's step, the last-seen viewport size and sub-camera view are those the
/// camera now has, so the next frame sees a change only if one happens.
pub proof fn lemma_step_records_current_viewport(
    cam: CameraEntity,
    targets: Seq<TargetEntity>,
    primary_window: Option<Entity>,
    changed_windows: Seq<Entity>,
    scale_changed_windows: Seq<Entity>,
    changed_images: Seq<ImageId>,
    windows: Seq<WindowInfo>,
    images: Seq<Image>,
    views: Seq<ManualTextureView>,
    c: Camera,
)
    requires
        cam.output_color_target_of matches Some(OutputColorTargetOf(e)) && target_of(targets, e) is Some,
        camera_step(
            cam,
            targets,
            primary_window,
            changed_windows,
            scale_changed_windows,
            changed_images,
            windows,
            images,
            views,
        ) == Ok::<Camera, MissingRenderTargetInfoError>(c),
    ensures
        c.computed.old_viewport_size == viewport_size_of(c),
        c.computed.old_sub_camera_view == c.sub_camera_view,
{
}

/// Over a whole successful update with window events `created`, `resized` and
/// `scale_changed`: a camera with a viewport `v` whose target's scale factor changed from
/// `s0` to `s1` ends with `v` taken from `s0` to `s1`, rounded to the nearest pixel, then
/// clamped to the target's new size.
pub proof fn lemma_update_rescales_viewport(
    before: CameraWorldView,
    after: CameraWorldView,
    created: Seq<Entity>,
    resized: Seq<Entity>,
    scale_changed: Seq<Entity>,
    changed_images: Seq<ImageId>,
    primary_window: Option<Entity>,
    windows: Seq<WindowInfo>,
    views: Seq<ManualTextureView>,
    k: int,
    nt: NormalizedRenderTarget,
    info: RenderTargetInfo,
)
    requires
        cameras_updated(
            before,
            after,
            created + resized + scale_changed,
            scale_changed,
            changed_images,
            primary_window,
            windows,
            views,
            Ok(()),
        ),
        0 <= k < before.cameras.len(),
        resolved_output_target(before.cameras[k], before.render_targets, primary_window)
            == Some(nt),
        is_changed_spec(nt, scale_changed, Seq::empty()),
        target_info_spec(nt, windows, before.images, views) == Ok::<
            RenderTargetInfo,
            MissingRenderTargetInfoError,
        >(info),
        before.cameras[k].camera.computed.target_info is Some,
        before.cameras[k].camera.viewport is Some,
    ensures
        after.cameras[k].camera.viewport == Some(
            before.cameras[k].camera.viewport.unwrap().rescaled_spec(
                before.cameras[k].camera.computed.target_info.unwrap().scale_factor,
                info.scale_factor,
            ).clamped_spec(info.physical_size),
        ),
{
    let cw = created + resized + scale_changed;
    if let NormalizedRenderTarget::Window(w) = nt {
        let j = choose|j: int| 0 <= j < scale_changed.len() && scale_changed[j] == w;
        assert(cw[created.len() + resized.len() + j] == w);
    }
    assert(is_changed_spec(nt, cw, changed_images));
    lemma_scale_change_rescales_viewport(
        before.cameras[k],
        before.render_targets,
        primary_window,
        cw,
        scale_changed,
        changed_images,
        windows,
        before.images,
        views,
        nt,
        info,
    );
}

} // verus!
