use vstd::prelude::*;

use crate::camera::{CameraOutputMode, CameraRenderGraph, ClearColorConfig, Exposure, RenderLayers};
use crate::entity::Entity;
use crate::geometry::UVec2;
use crate::graph::{
    double_buffer_of, find_double_buffer, find_target, target_of, CameraEntity, CameraWorld, ColorTargetOf,
    DoubleBufferEntity, DoubleBufferView, MsaaColorTargetOf, OutputColorTargetOf, TargetEntity,
};
use crate::render_target::{normalize_spec, NormalizedRenderTarget};
use crate::viewport::Viewport;

verus! {

/// The render-side snapshot of a camera for one frame.
#[derive(Clone, Copy, Debug, PartialEq, Eq, Structural)]
pub struct ExtractedCamera {
    pub output_color_target: Option<NormalizedRenderTarget>,
    pub main_color_target_a: Option<NormalizedRenderTarget>,
    pub main_color_target_b: Option<NormalizedRenderTarget>,
    pub multisampled_color_target: Option<NormalizedRenderTarget>,
    pub physical_viewport_size: Option<UVec2>,
    pub viewport: Option<Viewport>,
    pub render_graph: CameraRenderGraph,
    pub order: isize,
    pub output_mode: CameraOutputMode,
    pub clear_color: ClearColorConfig,
    pub exposure: Exposure,
    pub render_layers: Option<RenderLayers>,
    pub no_indirect_drawing: bool,
}

/// What extraction does to a camera's render-side snapshot.
#[derive(Clone, Copy, Debug, PartialEq, Eq, Structural)]
pub enum ExtractAction {
    /// Replace it with this one.
    Insert(ExtractedCamera),
    /// Remove it.
    Remove,
    /// Leave it as it is: the camera's sizes are not known yet.
    Keep,
}

pub open spec fn normalized_target_of(
    targets: Seq<TargetEntity>,
    e: Entity,
    primary_window: Option<Entity>,
) -> Option<NormalizedRenderTarget> {
    match target_of(targets, e) {
        Some(t) => normalize_spec(t, primary_window),
        None => None,
    }
}

/// The snapshot of an active camera with known, non-degenerate sizes: its targets looked
/// up afresh and normalized, its own settings, and the baseline exposure where it sets none.
pub open spec fn extracted_spec(
    cam: CameraEntity,
    targets: Seq<TargetEntity>,
    dbs: Seq<DoubleBufferView>,
    primary_window: Option<Entity>,
    culling_supported: bool,
    viewport_size: UVec2,
    render_graph: CameraRenderGraph,
) -> ExtractedCamera {
    let db = match cam.color_target_of {
        Some(ColorTargetOf(d)) => double_buffer_of(dbs, d),
        None => None,
    };
    ExtractedCamera {
        output_color_target: match cam.output_color_target_of {
            Some(OutputColorTargetOf(e)) => normalized_target_of(targets, e, primary_window),
            None => None,
        },
        main_color_target_a: match db {
            Some(d) => normalize_spec(d.a, primary_window),
            None => None,
        },
        main_color_target_b: match db {
            Some(d) => normalize_spec(d.b, primary_window),
            None => None,
        },
        multisampled_color_target: match cam.msaa_color_target_of {
            Some(MsaaColorTargetOf(m)) => normalized_target_of(targets, m, primary_window),
            None => None,
        },
        physical_viewport_size: Some(viewport_size),
        viewport: cam.camera.viewport,
        render_graph,
        order: cam.camera.order,
        output_mode: cam.camera.output_mode,
        clear_color: cam.camera.clear_color,
        exposure: match cam.exposure {
            Some(e) => e,
            None => Exposure::baseline_spec(),
        },
        render_layers: cam.render_layers,
        no_indirect_drawing: cam.no_indirect_drawing || !culling_supported,
    }
}

/// Inactive cameras, and cameras whose target has a zero dimension, lose their snapshot;
/// cameras whose sizes are not known yet, or that have no render graph, keep it; the others
/// get a new one.
pub open spec fn extract_action_spec(
    cam: CameraEntity,
    targets: Seq<TargetEntity>,
    dbs: Seq<DoubleBufferView>,
    primary_window: Option<Entity>,
    culling_supported: bool,
) -> ExtractAction {
    if !cam.camera.is_active {
        ExtractAction::Remove
    } else {
        match (cam.camera.physical_viewport_size_spec(), cam.camera.physical_target_size_spec()) {
            (Some(vs), Some(ts)) => if ts.x == 0 || ts.y == 0 {
                ExtractAction::Remove
            } else {
                match cam.render_graph {
                    Some(graph) => ExtractAction::Insert(
                        extracted_spec(cam, targets, dbs, primary_window, culling_supported, vs, graph),
                    ),
                    None => ExtractAction::Keep,
                }
            },
            _ => ExtractAction::Keep,
        }
    }
}

pub open spec fn applied(action: ExtractAction, previous: Option<ExtractedCamera>) -> Option<
    ExtractedCamera,
> {
    match action {
        ExtractAction::Insert(e) => Some(e),
        ExtractAction::Remove => None,
        ExtractAction::Keep => previous,
    }
}

fn normalized_target(targets: &Vec<TargetEntity>, e: Entity, primary_window: Option<Entity>) -> (r:
    Option<NormalizedRenderTarget>)
    ensures
        r == normalized_target_of(targets@, e, primary_window),
{
    match find_target(targets, e) {
        Some(t) => t.normalize(primary_window),
        None => None,
    }
}

/// What extraction does to the snapshot of camera `cam` this frame. `culling_supported`
/// tells whether the GPU preprocessing backend supports culling; where it does not,
/// indirect drawing is switched off.
pub fn extract_camera(
    cam: &CameraEntity,
    world: &CameraWorld,
    primary_window: Option<Entity>,
    culling_supported: bool,
) -> (r: ExtractAction)
    ensures
        r == extract_action_spec(
            *cam,
            world.render_targets@,
            world@.double_buffers,
            primary_window,
            culling_supported,
        ),
{
    if !cam.camera.is_active {
        return ExtractAction::Remove;
    }
    let (viewport_size, target_size) = match (
        cam.camera.physical_viewport_size(),
        cam.camera.physical_target_size(),
    ) {
        (Some(vs), Some(ts)) => (vs, ts),
        _ => return ExtractAction::Keep,
    };
    if target_size.x == 0 || target_size.y == 0 {
        return ExtractAction::Remove;
    }
    let render_graph = match cam.render_graph {
        Some(g) => g,
        None => return ExtractAction::Keep,
    };
    let output_color_target = match cam.output_color_target_of {
        Some(OutputColorTargetOf(e)) => normalized_target(&world.render_targets, e, primary_window),
        None => None,
    };
    let (main_color_target_a, main_color_target_b) = match cam.color_target_of {
        Some(ColorTargetOf(d)) => match find_double_buffer(&world.double_buffers, d) {
            Some(k) => (
                world.double_buffers[k].target.a.normalize(primary_window),
                world.double_buffers[k].target.b.normalize(primary_window),
            ),
            None => (None, None),
        },
        None => (None, None),
    };
    let multisampled_color_target = match cam.msaa_color_target_of {
        Some(MsaaColorTargetOf(m)) => normalized_target(&world.render_targets, m, primary_window),
        None => None,
    };
    let exposure = match cam.exposure {
        Some(e) => e,
        None => Exposure::baseline(),
    };
    ExtractAction::Insert(
        ExtractedCamera {
            output_color_target,
            main_color_target_a,
            main_color_target_b,
            multisampled_color_target,
            physical_viewport_size: Some(viewport_size),
            viewport: cam.camera.viewport,
            render_graph,
            order: cam.camera.order,
            output_mode: cam.camera.output_mode,
            clear_color: cam.camera.clear_color,
            exposure,
            render_layers: cam.render_layers,
            no_indirect_drawing: cam.no_indirect_drawing || !culling_supported,
        },
    )
}

/// What extraction does to a camera's remapped visibility lists: a new snapshot comes with
/// the camera's lists remapped, a removed one takes its lists along, a kept one keeps them.
pub open spec fn visibility_applied(
    action: ExtractAction,
    previous: Option<RenderVisibleEntities>,
    remapped_now: Seq<(u64, Seq<(Entity, Entity)>)>,
    result: Option<RenderVisibleEntities>,
) -> bool {
    match action {
        ExtractAction::Insert(_) => result matches Some(rv) && rv@ == remapped_now,
        ExtractAction::Remove => result is None,
        ExtractAction::Keep => result == previous,
    }
}

/// Extracts every camera of the world: `extracted[k]` is the render-side snapshot of
/// camera `k`, replaced, removed or kept as `extract_camera` decides, and
/// `extracted_visible[k]` goes along with it, holding the entities camera `k` sees
/// (`visible[k]`) remapped to the render side by `mapper`.
pub fn extract_cameras(
    world: &CameraWorld,
    primary_window: Option<Entity>,
    culling_supported: bool,
    visible: &Vec<VisibleEntities>,
    mapper: &Vec<(Entity, Entity)>,
    extracted: &mut Vec<Option<ExtractedCamera>>,
    extracted_visible: &mut Vec<Option<RenderVisibleEntities>>,
)
    requires
        old(extracted)@.len() == world.cameras@.len(),
        old(extracted_visible)@.len() == world.cameras@.len(),
        visible@.len() == world.cameras@.len(),
    ensures
        final(extracted)@.len() == old(extracted)@.len(),
        final(extracted_visible)@.len() == old(extracted_visible)@.len(),
        forall|k: int|
            0 <= k < world.cameras@.len() ==> (#[trigger] final(extracted)@[k]) == applied(
                extract_action_spec(
                    world.cameras@[k],
                    world.render_targets@,
                    world@.double_buffers,
                    primary_window,
                    culling_supported,
                ),
                old(extracted)@[k],
            ),
        forall|k: int|
            0 <= k < world.cameras@.len() ==> visibility_applied(
                extract_action_spec(
                    world.cameras@[k],
                    world.render_targets@,
                    world@.double_buffers,
                    primary_window,
                    culling_supported,
                ),
                old(extracted_visible)@[k],
                remapped_visible(mapper@, visible@[k]@),
                #[trigger] final(extracted_visible)@[k],
            ),
{
    let n = world.cameras.len();
    let mut i: usize = 0;
    while i < n
        invariant
            0 <= i <= n,
            n == world.cameras@.len(),
            n == visible@.len(),
            extracted@.len() == n,
            extracted_visible@.len() == n,
            forall|k: int|
                0 <= k < i ==> (#[trigger] extracted@[k]) == applied(
                    extract_action_spec(
                        world.cameras@[k],
                        world.render_targets@,
                        world@.double_buffers,
                        primary_window,
                        culling_supported,
                    ),
                    old(extracted)@[k],
                ),
            forall|k: int|
                0 <= k < i ==> visibility_applied(
                    extract_action_spec(
                        world.cameras@[k],
                        world.render_targets@,
                        world@.double_buffers,
                        primary_window,
                        culling_supported,
                    ),
                    old(extracted_visible)@[k],
                    remapped_visible(mapper@, visible@[k]@),
                    #[trigger] extracted_visible@[k],
                ),
            forall|k: int| i <= k < n ==> extracted@[k] == old(extracted)@[k],
            forall|k: int| i <= k < n ==> extracted_visible@[k] == old(extracted_visible)@[k],
        decreases n - i,
    {
        let action = extract_camera(&world.cameras[i], world, primary_window, culling_supported);
        match action {
            ExtractAction::Insert(e) => {
                extracted.set(i, Some(e));
                let rv = extract_visible_entities(&visible[i], mapper);
                extracted_visible.set(i, Some(rv));
            },
            ExtractAction::Remove => {
                extracted.set(i, None);
                extracted_visible.set(i, None);
            },
            ExtractAction::Keep => {},
        }
        i = i + 1;
    }
}

/// The entities of one kind that a camera sees.
pub struct VisibleEntityList {
    pub type_id: u64,
    pub entities: Vec<Entity>,
}

/// The entities a camera sees, grouped by kind.
pub struct VisibleEntities {
    pub entities: Vec<VisibleEntityList>,
}

/// The entities of one kind that a camera sees, each as (render-side, simulation-side).
#[derive(Debug)]
pub struct RenderVisibleEntityList {
    pub type_id: u64,
    pub entities: Vec<(Entity, Entity)>,
}

/// The render-side copy of what a camera sees, grouped by kind.
#[derive(Debug)]
pub struct RenderVisibleEntities {
    pub entities: Vec<RenderVisibleEntityList>,
}

impl View for VisibleEntityList {
    type V = (u64, Seq<Entity>);

    open spec fn view(&self) -> (u64, Seq<Entity>) {
        (self.type_id, self.entities@)
    }
}

impl View for VisibleEntities {
    type V = Seq<(u64, Seq<Entity>)>;

    open spec fn view(&self) -> Seq<(u64, Seq<Entity>)> {
        self.entities@.map_values(|l: VisibleEntityList| l@)
    }
}

impl View for RenderVisibleEntityList {
    type V = (u64, Seq<(Entity, Entity)>);

    open spec fn view(&self) -> (u64, Seq<(Entity, Entity)>) {
        (self.type_id, self.entities@)
    }
}

impl View for RenderVisibleEntities {
    type V = Seq<(u64, Seq<(Entity, Entity)>)>;

    open spec fn view(&self) -> Seq<(u64, Seq<(Entity, Entity)>)> {
        self.entities@.map_values(|l: RenderVisibleEntityList| l@)
    }
}

/// Each entity of `l`, in order, paired with its render-side entity.
pub open spec fn remapped_list(mapper: Seq<(Entity, Entity)>, l: Seq<Entity>) -> Seq<(Entity, Entity)> {
    l.map_values(|e: Entity| (remapped(mapper, e), e))
}

/// Every list of `v`, in order and under the same kind, remapped.
pub open spec fn remapped_visible(mapper: Seq<(Entity, Entity)>, v: Seq<(u64, Seq<Entity>)>) -> Seq<
    (u64, Seq<(Entity, Entity)>),
> {
    v.map_values(|p: (u64, Seq<Entity>)| (p.0, remapped_list(mapper, p.1)))
}

/// The render-side copy of what a camera sees: the same kinds in the same order, each list
/// remapped entity by entity.
pub fn extract_visible_entities(visible: &VisibleEntities, mapper: &Vec<(Entity, Entity)>) -> (r:
    RenderVisibleEntities)
    ensures
        r@ == remapped_visible(mapper@, visible@),
{
    let mut lists: Vec<RenderVisibleEntityList> = Vec::new();
    let mut i: usize = 0;
    while i < visible.entities.len()
        invariant
            0 <= i <= visible.entities@.len(),
            lists@.len() == i,
            forall|k: int|
                0 <= k < i ==> (#[trigger] lists@[k])@ == (
                visible@[k].0,
                remapped_list(mapper@, visible@[k].1),
                ),
        decreases visible.entities@.len() - i,
    {
        let list = &visible.entities[i];
        let remapped_entities = remap_visible_entities(&list.entities, mapper);
        lists.push(RenderVisibleEntityList { type_id: list.type_id, entities: remapped_entities });
        i = i + 1;
    }
    let r = RenderVisibleEntities { entities: lists };
    assert(r@ =~= remapped_visible(mapper@, visible@));
    r
}

/// The render-side entity of `e` under `mapper`, a list of (simulation, render) pairs; the
/// first pair for `e` counts.
pub open spec fn mapped_entity(mapper: Seq<(Entity, Entity)>, e: Entity) -> Option<Entity>
    decreases mapper.len(),
{
    if mapper.len() == 0 {
        None
    } else if mapper[0].0 == e {
        Some(mapper[0].1)
    } else {
        mapped_entity(mapper.drop_first(), e)
    }
}

/// `e` under `mapper`, or the placeholder when `mapper` does not map it.
pub open spec fn remapped(mapper: Seq<(Entity, Entity)>, e: Entity) -> Entity {
    match mapped_entity(mapper, e) {
        Some(r) => r,
        None => Entity::placeholder_spec(),
    }
}

fn map_entity(mapper: &Vec<(Entity, Entity)>, e: Entity) -> (r: Entity)
    ensures
        r == remapped(mapper@, e),
{
    let mut i: usize = 0;
    assert(mapper@.skip(0) =~= mapper@);
    while i < mapper.len()
        invariant
            0 <= i <= mapper@.len(),
            mapped_entity(mapper@, e) == mapped_entity(mapper@.skip(i as int), e),
        decreases mapper@.len() - i,
    {
        assert(mapper@.skip(i as int).drop_first() =~= mapper@.skip(i + 1));
        if mapper[i].0 == e {
            return mapper[i].1;
        }
        i = i + 1;
    }
    Entity::placeholder()
}

/// Pairs each visible entity with its render-side entity, in order; an entity that the
/// mapper does not know is paired with the placeholder instead of failing.
pub fn remap_visible_entities(entities: &Vec<Entity>, mapper: &Vec<(Entity, Entity)>) -> (r: Vec<
    (Entity, Entity),
>)
    ensures
        r@.len() == entities@.len(),
        forall|k: int|
            0 <= k < entities@.len() ==> (#[trigger] r@[k]) == (
            remapped(mapper@, entities@[k]),
            entities@[k],
            ),
        r@ == remapped_list(mapper@, entities@),
{
    let mut r: Vec<(Entity, Entity)> = Vec::new();
    let mut i: usize = 0;
    while i < entities.len()
        invariant
            0 <= i <= entities@.len(),
            r@.len() == i,
            forall|k: int|
                0 <= k < i ==> (#[trigger] r@[k]) == (remapped(mapper@, entities@[k]), entities@[k]),
        decreases entities@.len() - i,
    {
        let e = entities[i];
        r.push((map_entity(mapper, e), e));
        i = i + 1;
    }
    assert(r@ =~= remapped_list(mapper@, entities@));
    r
}

/// An inactive camera loses its snapshot, visibility lists included, at the next extraction.
pub proof fn lemma_inactive_camera_removed(
    cam: CameraEntity,
    targets: Seq<TargetEntity>,
    dbs: Seq<DoubleBufferView>,
    primary_window: Option<Entity>,
    culling_supported: bool,
    previous: Option<ExtractedCamera>,
)
    requires
        !cam.camera.is_active,
    ensures
        extract_action_spec(cam, targets, dbs, primary_window, culling_supported)
            == ExtractAction::Remove,
        applied(
            extract_action_spec(cam, targets, dbs, primary_window, culling_supported),
            previous,
        ) is None,
{
}

/// A camera whose target has zero width or zero height has no snapshot this frame, and no
/// visibility lists.
pub proof fn lemma_degenerate_target_not_extracted(
    cam: CameraEntity,
    targets: Seq<TargetEntity>,
    dbs: Seq<DoubleBufferView>,
    primary_window: Option<Entity>,
    culling_supported: bool,
    previous: Option<ExtractedCamera>,
)
    requires
        cam.camera.physical_target_size_spec() matches Some(ts) && (ts.x == 0 || ts.y == 0),
    ensures
        extract_action_spec(cam, targets, dbs, primary_window, culling_supported)
            == ExtractAction::Remove,
        applied(
            extract_action_spec(cam, targets, dbs, primary_window, culling_supported),
            previous,
        ) is None,
{
}

} // verus!
