use vstd::prelude::*;

use crate::camera::{Camera, CameraRenderGraph, Exposure, RenderLayers};
use crate::double_buffer::RenderTargetDoubleBuffered;
use crate::entity::Entity;
use crate::geometry::{ScaleFactor, UVec2};
use crate::render_target::{Image, ImageId, ImageRenderTarget, RenderTarget, TextureFormat};

verus! {

/// Marks a camera whose color targets are never configured automatically.
#[derive(Clone, Copy, Debug, PartialEq, Eq, Structural)]
pub struct NoAutoConfiguredColorTarget;

/// Edge from a camera to the double-buffered entity it draws its color into.
#[derive(Clone, Copy, Debug, PartialEq, Eq, Structural)]
pub struct ColorTargetOf(pub Entity);

/// Edge from a camera to the multisampled target it draws into.
#[derive(Clone, Copy, Debug, PartialEq, Eq, Structural)]
pub struct MsaaColorTargetOf(pub Entity);

/// Edge from a camera to the target its multisampled target is resolved into.
#[derive(Clone, Copy, Debug, PartialEq, Eq, Structural)]
pub struct MsaaResolveTargetOf(pub Entity);

/// Edge from a camera to the target its output is written to.
#[derive(Clone, Copy, Debug, PartialEq, Eq, Structural)]
pub struct OutputColorTargetOf(pub Entity);

/// A camera entity: the camera, its rendering settings, its outgoing edges, and the
/// change flags of this frame.
#[derive(Clone, Copy, Debug, PartialEq, Eq, Structural)]
pub struct CameraEntity {
    pub entity: Entity,
    pub camera: Camera,
    /// Samples per pixel; more than one asks for multisampling.
    pub msaa_samples: u32,
    pub hdr: bool,
    /// Usage flags of the main color images.
    pub main_texture_usages: u32,
    pub exposure: Option<Exposure>,
    pub render_graph: Option<CameraRenderGraph>,
    pub render_layers: Option<RenderLayers>,
    pub no_indirect_drawing: bool,
    pub no_auto_configured_color_target: Option<NoAutoConfiguredColorTarget>,
    pub color_target_of: Option<ColorTargetOf>,
    pub msaa_color_target_of: Option<MsaaColorTargetOf>,
    pub msaa_resolve_target_of: Option<MsaaResolveTargetOf>,
    pub output_color_target_of: Option<OutputColorTargetOf>,
    /// The camera was added this frame.
    pub is_added: bool,
    /// The camera's projection was changed this frame.
    pub projection_changed: bool,
}

/// An entity that holds a render target.
#[derive(Clone, Copy, Debug, PartialEq, Eq, Structural)]
pub struct TargetEntity {
    pub entity: Entity,
    pub target: RenderTarget,
}

/// An entity that holds a double-buffered color target.
#[derive(Debug)]
pub struct DoubleBufferEntity {
    pub entity: Entity,
    pub target: RenderTargetDoubleBuffered,
}

/// What a double-buffered entity is, leaving out the identity of its flag.
pub struct DoubleBufferView {
    pub entity: Entity,
    pub a: RenderTarget,
    pub b: RenderTarget,
    pub flipping: bool,
}

impl DoubleBufferEntity {
    pub open spec fn view_spec(self) -> DoubleBufferView {
        DoubleBufferView {
            entity: self.entity,
            a: self.target.a,
            b: self.target.b,
            flipping: self.target.main_texture is Some,
        }
    }
}

/// Cameras, target entities, double-buffered entities and the image store, with the
/// next fresh entity and image ids.
#[derive(Debug)]
pub struct CameraWorld {
    pub cameras: Vec<CameraEntity>,
    pub render_targets: Vec<TargetEntity>,
    pub double_buffers: Vec<DoubleBufferEntity>,
    pub images: Vec<Image>,
    pub next_entity: u64,
    pub next_image: u64,
}

/// What a camera world is, with each double-buffered entity seen without its flag.
pub struct CameraWorldView {
    pub cameras: Seq<CameraEntity>,
    pub render_targets: Seq<TargetEntity>,
    pub double_buffers: Seq<DoubleBufferView>,
    pub images: Seq<Image>,
    pub next_entity: u64,
    pub next_image: u64,
}

impl View for CameraWorld {
    type V = CameraWorldView;

    open spec fn view(&self) -> CameraWorldView {
        CameraWorldView {
            cameras: self.cameras@,
            render_targets: self.render_targets@,
            double_buffers: self.double_buffers@.map_values(|d: DoubleBufferEntity| d.view_spec()),
            images: self.images@,
            next_entity: self.next_entity,
            next_image: self.next_image,
        }
    }
}

/// The format of a camera's main color images: wide floats for high dynamic range, else
/// gamma-corrected 8-bit.
pub open spec fn format_for(hdr: bool) -> TextureFormat {
    if hdr {
        TextureFormat::Rgba16Float
    } else {
        TextureFormat::Rgba8UnormSrgb
    }
}

fn format_for_exec(hdr: bool) -> (r: TextureFormat)
    ensures
        r == format_for(hdr),
{
    if hdr {
        TextureFormat::Rgba16Float
    } else {
        TextureFormat::Rgba8UnormSrgb
    }
}

/// An image of the camera's target size, format and usage, with `samples` samples.
pub open spec fn camera_image(c: CameraEntity, id: ImageId, samples: u32) -> Image {
    Image {
        id,
        size: c.camera.physical_target_size_spec().unwrap(),
        format: format_for(c.hdr),
        usage: c.main_texture_usages,
        sample_count: samples,
    }
}

/// A target drawing into image `id` at scale one.
pub open spec fn image_target(id: ImageId) -> RenderTarget {
    RenderTarget::Image(ImageRenderTarget { handle: id, scale_factor: ScaleFactor::unit_spec() })
}

/// A camera that is not opted out, has none of its color edges yet, and knows the size
/// of its target.
pub open spec fn eligible_for_auto_configuration(c: CameraEntity) -> bool {
    &&& c.no_auto_configured_color_target is None
    &&& c.color_target_of is None
    &&& c.msaa_color_target_of is None
    &&& c.msaa_resolve_target_of is None
    &&& c.camera.physical_target_size_spec() is Some
}

/// Camera `i` given a fresh double-buffered entity over two fresh images, and with
/// multisampling a fresh multisampled image target resolved into that entity.
pub open spec fn configure_spec(w: CameraWorldView, i: int) -> CameraWorldView {
    let c = w.cameras[i];
    let d = Entity(w.next_entity);
    let ia = ImageId(w.next_image);
    let ib = ImageId((w.next_image + 1) as u64);
    let images = w.images.push(camera_image(c, ia, 1)).push(camera_image(c, ib, 1));
    let double_buffers = w.double_buffers.push(
        DoubleBufferView { entity: d, a: image_target(ia), b: image_target(ib), flipping: true },
    );
    if c.msaa_samples > 1 {
        let m = Entity((w.next_entity + 1) as u64);
        let im = ImageId((w.next_image + 2) as u64);
        CameraWorldView {
            cameras: w.cameras.update(
                i,
                CameraEntity {
                    color_target_of: Some(ColorTargetOf(d)),
                    msaa_color_target_of: Some(MsaaColorTargetOf(m)),
                    msaa_resolve_target_of: Some(MsaaResolveTargetOf(d)),
                    ..c
                },
            ),
            render_targets: w.render_targets.push(TargetEntity { entity: m, target: image_target(im) }),
            double_buffers,
            images: images.push(camera_image(c, im, c.msaa_samples)),
            next_entity: (w.next_entity + 2) as u64,
            next_image: (w.next_image + 3) as u64,
        }
    } else {
        CameraWorldView {
            cameras: w.cameras.update(i, CameraEntity { color_target_of: Some(ColorTargetOf(d)), ..c }),
            render_targets: w.render_targets,
            double_buffers,
            images,
            next_entity: (w.next_entity + 1) as u64,
            next_image: (w.next_image + 2) as u64,
        }
    }
}

/// Auto-configuration of the cameras from index `i` on, in order.
pub open spec fn auto_configure_from(w: CameraWorldView, i: int) -> CameraWorldView
    decreases w.cameras.len() - i,
{
    if i < 0 || i >= w.cameras.len() {
        w
    } else if eligible_for_auto_configuration(w.cameras[i]) {
        auto_configure_from(configure_spec(w, i), i + 1)
    } else {
        auto_configure_from(w, i + 1)
    }
}

impl CameraWorld {
    fn spawn_image_target(&mut self, c: &CameraEntity, samples: u32) -> (r: RenderTarget)
        requires
            old(self).next_image < u64::MAX,
            c.camera.physical_target_size_spec() is Some,
        ensures
            r == image_target(ImageId(old(self).next_image)),
            final(self).images@ == old(self).images@.push(
                camera_image(*c, ImageId(old(self).next_image), samples),
            ),
            final(self).next_image == old(self).next_image + 1,
            final(self).cameras@ == old(self).cameras@,
            final(self).render_targets@ == old(self).render_targets@,
            final(self).double_buffers@ == old(self).double_buffers@,
            final(self).next_entity == old(self).next_entity,
    {
        let id = ImageId(self.next_image);
        let size = match c.camera.physical_target_size() {
            Some(s) => s,
            None => UVec2 { x: 0, y: 0 },
        };
        self.images.push(
            Image {
                id,
                size,
                format: format_for_exec(c.hdr),
                usage: c.main_texture_usages,
                sample_count: samples,
            },
        );
        self.next_image = self.next_image + 1;
        RenderTarget::Image(ImageRenderTarget { handle: id, scale_factor: ScaleFactor::one() })
    }

    fn configure_camera(&mut self, i: usize)
        requires
            i < old(self).cameras@.len(),
            eligible_for_auto_configuration(old(self).cameras@[i as int]),
            old(self).next_entity + 2 <= u64::MAX,
            old(self).next_image + 3 <= u64::MAX,
        ensures
            final(self)@ == configure_spec(old(self)@, i as int),
    {
        let ghost w = self@;
        let c = self.cameras[i];
        let a = self.spawn_image_target(&c, 1);
        let b = self.spawn_image_target(&c, 1);
        let d = Entity(self.next_entity);
        self.next_entity = self.next_entity + 1;
        let target = RenderTargetDoubleBuffered::new(a, Some(b));
        self.double_buffers.push(DoubleBufferEntity { entity: d, target });
        let mut updated = c;
        updated.color_target_of = Some(ColorTargetOf(d));
        if c.msaa_samples > 1 {
            let ms = self.spawn_image_target(&c, c.msaa_samples);
            let m = Entity(self.next_entity);
            self.next_entity = self.next_entity + 1;
            self.render_targets.push(TargetEntity { entity: m, target: ms });
            updated.msaa_color_target_of = Some(MsaaColorTargetOf(m));
            updated.msaa_resolve_target_of = Some(MsaaResolveTargetOf(d));
        }
        self.cameras.set(i, updated);
        proof {
            let e = configure_spec(w, i as int);
            assert(self@.cameras =~= e.cameras);
            assert(self@.render_targets =~= e.render_targets);
            assert(self@.double_buffers =~= e.double_buffers);
            assert(self@.images =~= e.images);
        }
    }

    /// Gives every eligible camera, in order, a fresh double-buffered color target over two
    /// images of its target's size, and with multisampling a multisampled image resolved
    /// into it. Cameras without a known target size wait for a later frame.
    pub fn auto_configure_camera_color_target(&mut self)
        requires
            old(self).next_entity + 2 * old(self).cameras@.len() <= u64::MAX,
            old(self).next_image + 3 * old(self).cameras@.len() <= u64::MAX,
        ensures
            final(self)@ == auto_configure_from(old(self)@, 0),
            final(self).cameras@.len() == old(self).cameras@.len(),
            final(self).next_entity <= old(self).next_entity + 2 * old(self).cameras@.len(),
            final(self).next_image <= old(self).next_image + 3 * old(self).cameras@.len(),
    {
        let n = self.cameras.len();
        let mut i: usize = 0;
        while i < n
            invariant
                0 <= i <= n,
                n == self.cameras@.len(),
                auto_configure_from(self@, i as int) == auto_configure_from(old(self)@, 0),
                self.next_entity <= old(self).next_entity + 2 * i,
                self.next_image <= old(self).next_image + 3 * i,
                old(self).next_entity + 2 * n <= u64::MAX,
                old(self).next_image + 3 * n <= u64::MAX,
            decreases n - i,
        {
            if eligible_check(&self.cameras[i]) {
                self.configure_camera(i);
            }
            i = i + 1;
        }
    }
}

fn eligible_check(c: &CameraEntity) -> (r: bool)
    ensures
        r == eligible_for_auto_configuration(*c),
{
    c.no_auto_configured_color_target.is_none() && c.color_target_of.is_none()
        && c.msaa_color_target_of.is_none() && c.msaa_resolve_target_of.is_none()
        && c.camera.physical_target_size().is_some()
}

/// After configuring cameras from `i` on, those cameras are no longer eligible and the ones
/// before `i` are as they were.
proof fn lemma_configure_from_settles(w: CameraWorldView, i: int)
    requires
        0 <= i <= w.cameras.len(),
    ensures
        auto_configure_from(w, i).cameras.len() == w.cameras.len(),
        forall|k: int| 0 <= k < i ==> auto_configure_from(w, i).cameras[k] == w.cameras[k],
        forall|k: int|
            i <= k < w.cameras.len() ==> !eligible_for_auto_configuration(
                #[trigger] auto_configure_from(w, i).cameras[k],
            ),
    decreases w.cameras.len() - i,
{
    if i < w.cameras.len() {
        let next = if eligible_for_auto_configuration(w.cameras[i]) {
            configure_spec(w, i)
        } else {
            w
        };
        assert(next.cameras.len() == w.cameras.len());
        assert(forall|k: int| 0 <= k < w.cameras.len() && k != i ==> next.cameras[k] == w.cameras[k]);
        assert(!eligible_for_auto_configuration(next.cameras[i]));
        lemma_configure_from_settles(next, i + 1);
        assert(auto_configure_from(w, i) == auto_configure_from(next, i + 1));
    }
}

/// Configuring from `i` on changes nothing when no camera from `i` on is eligible.
proof fn lemma_configure_from_settled(w: CameraWorldView, i: int)
    requires
        0 <= i <= w.cameras.len(),
        forall|k: int| i <= k < w.cameras.len() ==> !eligible_for_auto_configuration(#[trigger] w.cameras[k]),
    ensures
        auto_configure_from(w, i) == w,
    decreases w.cameras.len() - i,
{
    if i < w.cameras.len() {
        lemma_configure_from_settled(w, i + 1);
    }
}

/// Auto-configuration is idempotent: run again on its own result it changes nothing, so
/// each camera it configured keeps exactly the one double-buffered entity it was given.
pub proof fn lemma_auto_configure_idempotent(w: CameraWorldView)
    ensures
        auto_configure_from(auto_configure_from(w, 0), 0) == auto_configure_from(w, 0),
        auto_configure_from(auto_configure_from(w, 0), 0).double_buffers.len()
            == auto_configure_from(w, 0).double_buffers.len(),
{
    lemma_configure_from_settles(w, 0);
    lemma_configure_from_settled(auto_configure_from(w, 0), 0);
}

/// Whether the world holds a render target on entity `e`.
pub open spec fn holds_render_target(targets: Seq<TargetEntity>, e: Entity) -> bool {
    exists|k: int| 0 <= k < targets.len() && (#[trigger] targets[k]).entity == e
}

/// A camera that holds a render target of its own, has no output edge and is not opted out
/// gets an output edge to itself.
pub open spec fn output_wired(c: CameraEntity, targets: Seq<TargetEntity>) -> CameraEntity {
    if c.output_color_target_of is None && c.no_auto_configured_color_target is None
        && holds_render_target(targets, c.entity) {
        CameraEntity { output_color_target_of: Some(OutputColorTargetOf(c.entity)), ..c }
    } else {
        c
    }
}

/// The position of the first target entity with entity `e`.
pub open spec fn target_pos(targets: Seq<TargetEntity>, e: Entity) -> Option<int> {
    if holds_render_target(targets, e) {
        Some(
            choose|k: int|
                0 <= k < targets.len() && targets[k].entity == e && forall|j: int|
                    0 <= j < k ==> targets[j].entity != e,
        )
    } else {
        None
    }
}

/// The render target held by entity `e`, the first one if several are.
pub open spec fn target_of(targets: Seq<TargetEntity>, e: Entity) -> Option<RenderTarget> {
    match target_pos(targets, e) {
        Some(k) => Some(targets[k].target),
        None => None,
    }
}

/// The render target held by entity `e`.
pub fn find_target(targets: &Vec<TargetEntity>, e: Entity) -> (r: Option<RenderTarget>)
    ensures
        r == target_of(targets@, e),
{
    let mut i: usize = 0;
    while i < targets.len()
        invariant
            0 <= i <= targets@.len(),
            forall|j: int| 0 <= j < i ==> targets@[j].entity != e,
        decreases targets@.len() - i,
    {
        if targets[i].entity == e {
            proof {
                let k = choose|k: int|
                    0 <= k < targets@.len() && targets@[k].entity == e && forall|j: int|
                        0 <= j < k ==> targets@[j].entity != e;
                assert(k == i) by {
                    if k < i {
                    } else if k > i {
                        assert(targets@[i as int].entity == e);
                    }
                }
            }
            return Some(targets[i].target);
        }
        i = i + 1;
    }
    None
}

/// The double-buffered entity `e`, the first one if several hold that entity.
pub open spec fn double_buffer_of(dbs: Seq<DoubleBufferView>, e: Entity) -> Option<DoubleBufferView>
    decreases dbs.len(),
{
    if dbs.len() == 0 {
        None
    } else if dbs[0].entity == e {
        Some(dbs[0])
    } else {
        double_buffer_of(dbs.drop_first(), e)
    }
}

/// The position of the first image with id `id`.
pub open spec fn image_pos(images: Seq<Image>, id: ImageId) -> Option<int>
    decreases images.len(),
{
    if images.len() == 0 {
        None
    } else if images[0].id == id {
        Some(0)
    } else {
        match image_pos(images.drop_first(), id) {
            Some(k) => Some(k + 1),
            None => None,
        }
    }
}

/// Image `id` given the camera's target size, format and usage (and, when `samples` is
/// given, that sample count); the store is unchanged when it has no such image.
pub open spec fn resized_image(
    images: Seq<Image>,
    id: ImageId,
    size: UVec2,
    format: TextureFormat,
    usage: u32,
    samples: Option<u32>,
) -> Seq<Image> {
    match image_pos(images, id) {
        Some(k) => images.update(
            k,
            Image {
                size,
                format,
                usage,
                sample_count: match samples {
                    Some(n) => n,
                    None => images[k].sample_count,
                },
                ..images[k]
            },
        ),
        None => images,
    }
}

/// The image store after the images of camera `c` follow its current configuration: the
/// two images of its double-buffered entity, then its multisampled image when it asks for
/// multisampling. The walk stops at the first lookup that misses.
pub open spec fn synced_images(
    c: CameraEntity,
    targets: Seq<TargetEntity>,
    dbs: Seq<DoubleBufferView>,
    images: Seq<Image>,
) -> Seq<Image> {
    if c.no_auto_configured_color_target is Some || c.camera.physical_target_size_spec() is None {
        images
    } else {
        let size = c.camera.physical_target_size_spec().unwrap();
        let format = format_for(c.hdr);
        let usage = c.main_texture_usages;
        match c.color_target_of {
            None => images,
            Some(ColorTargetOf(d)) => match double_buffer_of(dbs, d) {
                None => images,
                Some(db) => match (db.a, db.b) {
                    (RenderTarget::Image(ia), RenderTarget::Image(ib)) => {
                        if image_pos(images, ia.handle) is None {
                            images
                        } else {
                            let after_a = resized_image(images, ia.handle, size, format, usage, None);
                            if image_pos(after_a, ib.handle) is None {
                                after_a
                            } else {
                                let after_b = resized_image(after_a, ib.handle, size, format, usage, None);
                                if c.msaa_samples > 1 {
                                    match c.msaa_color_target_of {
                                        Some(MsaaColorTargetOf(m)) => match target_of(targets, m) {
                                            Some(RenderTarget::Image(im)) => resized_image(
                                                after_b,
                                                im.handle,
                                                size,
                                                format,
                                                usage,
                                                Some(c.msaa_samples),
                                            ),
                                            _ => after_b,
                                        },
                                        None => after_b,
                                    }
                                } else {
                                    after_b
                                }
                            }
                        }
                    },
                    _ => images,
                },
            },
        }
    }
}

/// The image store after syncing the cameras from index `i` on, in order.
pub open spec fn sync_from(
    cams: Seq<CameraEntity>,
    targets: Seq<TargetEntity>,
    dbs: Seq<DoubleBufferView>,
    images: Seq<Image>,
    i: int,
) -> Seq<Image>
    decreases cams.len() - i,
{
    if i < 0 || i >= cams.len() {
        images
    } else {
        sync_from(cams, targets, dbs, synced_images(cams[i], targets, dbs, images), i + 1)
    }
}

fn find_image_pos(images: &Vec<Image>, id: ImageId) -> (r: Option<usize>)
    ensures
        r matches Some(k) ==> image_pos(images@, id) == Some(k as int) && k < images@.len(),
        r is None ==> image_pos(images@, id) is None,
{
    let mut i: usize = 0;
    assert(images@.skip(0) =~= images@);
    while i < images.len()
        invariant
            0 <= i <= images@.len(),
            forall|j: int| 0 <= j < i ==> images@[j].id != id,
            image_pos(images@, id) == (match image_pos(images@.skip(i as int), id) {
                Some(k) => Some(k + i),
                None => None,
            }),
        decreases images@.len() - i,
    {
        assert(images@.skip(i as int).drop_first() =~= images@.skip(i + 1));
        if images[i].id == id {
            return Some(i);
        }
        i = i + 1;
    }
    None
}

pub(crate) fn find_double_buffer(dbs: &Vec<DoubleBufferEntity>, e: Entity) -> (r: Option<usize>)
    ensures
        r matches Some(k) ==> k < dbs@.len() && double_buffer_of(
            dbs@.map_values(|d: DoubleBufferEntity| d.view_spec()),
            e,
        ) == Some(dbs@[k as int].view_spec()),
        r is None ==> double_buffer_of(dbs@.map_values(|d: DoubleBufferEntity| d.view_spec()), e)
            is None,
{
    let ghost v = dbs@.map_values(|d: DoubleBufferEntity| d.view_spec());
    let mut i: usize = 0;
    assert(v.skip(0) =~= v);
    while i < dbs.len()
        invariant
            0 <= i <= dbs@.len(),
            v == dbs@.map_values(|d: DoubleBufferEntity| d.view_spec()),
            double_buffer_of(v, e) == double_buffer_of(v.skip(i as int), e),
        decreases dbs@.len() - i,
    {
        assert(v.skip(i as int).drop_first() =~= v.skip(i + 1));
        if dbs[i].entity == e {
            return Some(i);
        }
        i = i + 1;
    }
    None
}

impl CameraWorld {
    /// Gives each camera that holds its own render target, has no output edge and is not
    /// opted out an output edge to itself.
    pub fn camera_with_render_target_insert_output_color_target(&mut self)
        ensures
            final(self).cameras@.len() == old(self).cameras@.len(),
            forall|k: int|
                0 <= k < old(self).cameras@.len() ==> final(self).cameras@[k] == output_wired(
                    old(self).cameras@[k],
                    old(self).render_targets@,
                ),
            final(self).render_targets@ == old(self).render_targets@,
            final(self).double_buffers@ == old(self).double_buffers@,
            final(self).images@ == old(self).images@,
            final(self).next_entity == old(self).next_entity,
            final(self).next_image == old(self).next_image,
    {
        let n = self.cameras.len();
        let mut i: usize = 0;
        while i < n
            invariant
                0 <= i <= n,
                n == self.cameras@.len(),
                n == old(self).cameras@.len(),
                forall|k: int|
                    0 <= k < i ==> self.cameras@[k] == output_wired(
                        old(self).cameras@[k],
                        old(self).render_targets@,
                    ),
                forall|k: int| i <= k < n ==> self.cameras@[k] == old(self).cameras@[k],
                self.render_targets@ == old(self).render_targets@,
                self.double_buffers@ == old(self).double_buffers@,
                self.images@ == old(self).images@,
                self.next_entity == old(self).next_entity,
                self.next_image == old(self).next_image,
            decreases n - i,
        {
            let c = self.cameras[i];
            if c.output_color_target_of.is_none() && c.no_auto_configured_color_target.is_none() {
                let own = find_target(&self.render_targets, c.entity);
                if own.is_some() {
                    let mut wired = c;
                    wired.output_color_target_of = Some(OutputColorTargetOf(c.entity));
                    self.cameras.set(i, wired);
                }
            }
            i = i + 1;
        }
    }

    fn resize_image(
        &mut self,
        k: usize,
        size: UVec2,
        format: TextureFormat,
        usage: u32,
        samples: Option<u32>,
    )
        requires
            k < old(self).images@.len(),
        ensures
            final(self).images@ == old(self).images@.update(
                k as int,
                Image {
                    size,
                    format,
                    usage,
                    sample_count: match samples {
                        Some(n) => n,
                        None => old(self).images@[k as int].sample_count,
                    },
                    ..old(self).images@[k as int]
                },
            ),
            final(self).cameras@ == old(self).cameras@,
            final(self).render_targets@ == old(self).render_targets@,
            final(self).double_buffers@ == old(self).double_buffers@,
            final(self).next_entity == old(self).next_entity,
            final(self).next_image == old(self).next_image,
    {
        let mut img = self.images[k];
        img.size = size;
        img.format = format;
        img.usage = usage;
        match samples {
            Some(n) => {
                img.sample_count = n;
            },
            None => {},
        }
        self.images.set(k, img);
    }

    fn sync_camera(&mut self, c: &CameraEntity)
        ensures
            final(self).images@ == synced_images(
                *c,
                old(self).render_targets@,
                old(self)@.double_buffers,
                old(self).images@,
            ),
            final(self).cameras@ == old(self).cameras@,
            final(self).render_targets@ == old(self).render_targets@,
            final(self).double_buffers@ == old(self).double_buffers@,
            final(self).next_entity == old(self).next_entity,
            final(self).next_image == old(self).next_image,
    {
        if c.no_auto_configured_color_target.is_some() {
            return;
        }
        let size = match c.camera.physical_target_size() {
            Some(s) => s,
            None => return,
        };
        let format = format_for_exec(c.hdr);
        let usage = c.main_texture_usages;
        let d = match c.color_target_of {
            Some(ColorTargetOf(d)) => d,
            None => return,
        };
        let k = match find_double_buffer(&self.double_buffers, d) {
            Some(k) => k,
            None => return,
        };
        let (ia, ib) = match (&self.double_buffers[k].target.a, &self.double_buffers[k].target.b) {
            (RenderTarget::Image(ia), RenderTarget::Image(ib)) => (ia.handle, ib.handle),
            _ => return,
        };
        let pa = match find_image_pos(&self.images, ia) {
            Some(p) => p,
            None => return,
        };
        self.resize_image(pa, size, format, usage, None);
        let pb = match find_image_pos(&self.images, ib) {
            Some(p) => p,
            None => return,
        };
        self.resize_image(pb, size, format, usage, None);
        if c.msaa_samples > 1 {
            if let Some(MsaaColorTargetOf(m)) = c.msaa_color_target_of {
                if let Some(RenderTarget::Image(im)) = find_target(&self.render_targets, m) {
                    if let Some(pm) = find_image_pos(&self.images, im.handle) {
                        self.resize_image(pm, size, format, usage, Some(c.msaa_samples));
                    }
                }
            }
        }
    }

    /// Keeps the images of every auto-configured camera in step with its target size, high
    /// dynamic range flag, usage flags and sample count, resizing them in place.
    pub fn sync_camera_color_target_config(&mut self)
        ensures
            final(self).images@ == sync_from(
                old(self).cameras@,
                old(self).render_targets@,
                old(self)@.double_buffers,
                old(self).images@,
                0,
            ),
            final(self).cameras@ == old(self).cameras@,
            final(self).render_targets@ == old(self).render_targets@,
            final(self).double_buffers@ == old(self).double_buffers@,
            final(self).next_entity == old(self).next_entity,
            final(self).next_image == old(self).next_image,
    {
        let n = self.cameras.len();
        let mut i: usize = 0;
        while i < n
            invariant
                0 <= i <= n,
                n == self.cameras@.len(),
                sync_from(
                    old(self).cameras@,
                    old(self).render_targets@,
                    old(self)@.double_buffers,
                    self.images@,
                    i as int,
                ) == sync_from(
                    old(self).cameras@,
                    old(self).render_targets@,
                    old(self)@.double_buffers,
                    old(self).images@,
                    0,
                ),
                self.cameras@ == old(self).cameras@,
                self.render_targets@ == old(self).render_targets@,
                self.double_buffers@ == old(self).double_buffers@,
                self.next_entity == old(self).next_entity,
                self.next_image == old(self).next_image,
            decreases n - i,
        {
            let c = self.cameras[i];
            self.sync_camera(&c);
            i = i + 1;
        }
    }
}

/// Whether some edge of camera `c` points at an entity of `doomed`.
pub open spec fn points_into(c: CameraEntity, doomed: Seq<Entity>) -> bool {
    ||| (c.color_target_of matches Some(ColorTargetOf(t)) && doomed.contains(t))
    ||| (c.msaa_color_target_of matches Some(MsaaColorTargetOf(t)) && doomed.contains(t))
    ||| (c.msaa_resolve_target_of matches Some(MsaaResolveTargetOf(t)) && doomed.contains(t))
    ||| (c.output_color_target_of matches Some(OutputColorTargetOf(t)) && doomed.contains(t))
}

/// The cameras whose color edge points at `target`: the inverse collection of that edge.
pub open spec fn color_target_sources(cams: Seq<CameraEntity>, target: Entity) -> Seq<Entity>
    decreases cams.len(),
{
    if cams.len() == 0 {
        Seq::empty()
    } else {
        let rest = color_target_sources(cams.drop_last(), target);
        if cams.last().color_target_of == Some(ColorTargetOf(target)) {
            rest.push(cams.last().entity)
        } else {
            rest
        }
    }
}

/// The cameras whose output edge points at `target`: the inverse collection of that edge.
pub open spec fn output_target_sources(cams: Seq<CameraEntity>, target: Entity) -> Seq<Entity>
    decreases cams.len(),
{
    if cams.len() == 0 {
        Seq::empty()
    } else {
        let rest = output_target_sources(cams.drop_last(), target);
        if cams.last().output_color_target_of == Some(OutputColorTargetOf(target)) {
            rest.push(cams.last().entity)
        } else {
            rest
        }
    }
}

/// The cameras whose multisampled color edge points at `target`: the inverse collection of that edge.
pub open spec fn msaa_color_target_sources(cams: Seq<CameraEntity>, target: Entity) -> Seq<Entity>
    decreases cams.len(),
{
    if cams.len() == 0 {
        Seq::empty()
    } else {
        let rest = msaa_color_target_sources(cams.drop_last(), target);
        if cams.last().msaa_color_target_of == Some(MsaaColorTargetOf(target)) {
            rest.push(cams.last().entity)
        } else {
            rest
        }
    }
}

/// The cameras whose resolve edge points at `target`: the inverse collection of that edge.
pub open spec fn msaa_resolve_target_sources(cams: Seq<CameraEntity>, target: Entity) -> Seq<Entity>
    decreases cams.len(),
{
    if cams.len() == 0 {
        Seq::empty()
    } else {
        let rest = msaa_resolve_target_sources(cams.drop_last(), target);
        if cams.last().msaa_resolve_target_of == Some(MsaaResolveTargetOf(target)) {
            rest.push(cams.last().entity)
        } else {
            rest
        }
    }
}

/// The cameras that draw their color into an entity, in camera order.
#[derive(Debug)]
pub struct ColorTarget(pub Vec<Entity>);

/// The cameras that write their output to an entity, in camera order.
#[derive(Debug)]
pub struct OutputColorTarget(pub Vec<Entity>);

/// The cameras that draw multisampled color into an entity, in camera order.
#[derive(Debug)]
pub struct MsaaColorTarget(pub Vec<Entity>);

/// The cameras whose multisampled color is resolved into an entity, in camera order.
#[derive(Debug)]
pub struct MsaaResolveTarget(pub Vec<Entity>);

fn contains_doomed(doomed: &Vec<Entity>, e: Entity) -> (r: bool)
    ensures
        r == doomed@.contains(e),
{
    crate::entity::contains_entity(doomed, e)
}

fn points_into_exec(c: &CameraEntity, doomed: &Vec<Entity>) -> (r: bool)
    ensures
        r == points_into(*c, doomed@),
{
    let a = match c.color_target_of {
        Some(ColorTargetOf(t)) => contains_doomed(doomed, t),
        None => false,
    };
    let b = match c.msaa_color_target_of {
        Some(MsaaColorTargetOf(t)) => contains_doomed(doomed, t),
        None => false,
    };
    let m = match c.msaa_resolve_target_of {
        Some(MsaaResolveTargetOf(t)) => contains_doomed(doomed, t),
        None => false,
    };
    let o = match c.output_color_target_of {
        Some(OutputColorTargetOf(t)) => contains_doomed(doomed, t),
        None => false,
    };
    a || b || m || o
}

impl CameraWorld {
    /// The inverse collection of the color edge at `target`.
    pub fn color_target(&self, target: Entity) -> (r: ColorTarget)
        ensures
            r.0@ == color_target_sources(self.cameras@, target),
    {
        let mut r: Vec<Entity> = Vec::new();
        let mut i: usize = 0;
        while i < self.cameras.len()
            invariant
                0 <= i <= self.cameras@.len(),
                r@ == color_target_sources(self.cameras@.subrange(0, i as int), target),
            decreases self.cameras@.len() - i,
        {
            proof {
                assert(self.cameras@.subrange(0, i + 1).drop_last() =~= self.cameras@.subrange(
                    0,
                    i as int,
                ));
            }
            if self.cameras[i].color_target_of == Some(ColorTargetOf(target)) {
                r.push(self.cameras[i].entity);
            }
            i = i + 1;
        }
        assert(self.cameras@.subrange(0, self.cameras@.len() as int) =~= self.cameras@);
        ColorTarget(r)
    }

    /// The inverse collection of the output edge at `target`.
    pub fn output_color_target(&self, target: Entity) -> (r: OutputColorTarget)
        ensures
            r.0@ == output_target_sources(self.cameras@, target),
    {
        let mut r: Vec<Entity> = Vec::new();
        let mut i: usize = 0;
        while i < self.cameras.len()
            invariant
                0 <= i <= self.cameras@.len(),
                r@ == output_target_sources(self.cameras@.subrange(0, i as int), target),
            decreases self.cameras@.len() - i,
        {
            proof {
                assert(self.cameras@.subrange(0, i + 1).drop_last() =~= self.cameras@.subrange(
                    0,
                    i as int,
                ));
            }
            if self.cameras[i].output_color_target_of == Some(OutputColorTargetOf(target)) {
                r.push(self.cameras[i].entity);
            }
            i = i + 1;
        }
        assert(self.cameras@.subrange(0, self.cameras@.len() as int) =~= self.cameras@);
        OutputColorTarget(r)
    }

    /// The inverse collection of the multisampled color edge at `target`.
    pub fn msaa_color_target(&self, target: Entity) -> (r: MsaaColorTarget)
        ensures
            r.0@ == msaa_color_target_sources(self.cameras@, target),
    {
        let mut r: Vec<Entity> = Vec::new();
        let mut i: usize = 0;
        while i < self.cameras.len()
            invariant
                0 <= i <= self.cameras@.len(),
                r@ == msaa_color_target_sources(self.cameras@.subrange(0, i as int), target),
            decreases self.cameras@.len() - i,
        {
            proof {
                assert(self.cameras@.subrange(0, i + 1).drop_last() =~= self.cameras@.subrange(
                    0,
                    i as int,
                ));
            }
            if self.cameras[i].msaa_color_target_of == Some(MsaaColorTargetOf(target)) {
                r.push(self.cameras[i].entity);
            }
            i = i + 1;
        }
        assert(self.cameras@.subrange(0, self.cameras@.len() as int) =~= self.cameras@);
        MsaaColorTarget(r)
    }

    /// The inverse collection of the resolve edge at `target`.
    pub fn msaa_resolve_target(&self, target: Entity) -> (r: MsaaResolveTarget)
        ensures
            r.0@ == msaa_resolve_target_sources(self.cameras@, target),
    {
        let mut r: Vec<Entity> = Vec::new();
        let mut i: usize = 0;
        while i < self.cameras.len()
            invariant
                0 <= i <= self.cameras@.len(),
                r@ == msaa_resolve_target_sources(self.cameras@.subrange(0, i as int), target),
            decreases self.cameras@.len() - i,
        {
            proof {
                assert(self.cameras@.subrange(0, i + 1).drop_last() =~= self.cameras@.subrange(
                    0,
                    i as int,
                ));
            }
            if self.cameras[i].msaa_resolve_target_of == Some(MsaaResolveTargetOf(target)) {
                r.push(self.cameras[i].entity);
            }
            i = i + 1;
        }
        assert(self.cameras@.subrange(0, self.cameras@.len() as int) =~= self.cameras@);
        MsaaResolveTarget(r)
    }

    /// The entities that despawning `e` takes with it: `e`, and every camera with an edge
    /// into what is taken, again and again until nothing more is.
    pub fn despawn_set(&self, e: Entity) -> (r: Vec<Entity>)
        ensures
            is_despawn_closure(self.cameras@, e, r@),
    {
        let n = self.cameras.len();
        let mut doomed: Vec<Entity> = vec![e];
        let mut marked: Vec<bool> = Vec::new();
        let mut j: usize = 0;
        while j < n
            invariant
                0 <= j <= n,
                marked@.len() == j,
                forall|k: int| 0 <= k < j ==> !marked@[k],
            decreases n - j,
        {
            marked.push(false);
            j = j + 1;
        }
        let mut count: usize = 0;
        let mut changed = true;
        proof {
            lemma_marked_count_none(marked@, n as int);
        }
        while changed
            invariant
                n == self.cameras@.len(),
                marked@.len() == n,
                count <= n,
                doomed@.len() >= 1,
                doomed@[0] == e,
                forall|k: int| 0 <= k < n && marked@[k] ==> doomed@.contains(#[trigger] self.cameras@[k].entity),
                forall|k: int| 0 <= k < n && marked@[k] ==> points_into(#[trigger] self.cameras@[k], doomed@),
                forall|i: int| 1 <= i < doomed@.len() ==> #[trigger] taken_after(self.cameras@, doomed@, i),
                !changed ==> forall|k: int|
                    0 <= k < n && points_into(self.cameras@[k], doomed@) ==> #[trigger] marked@[k],
                count == marked_count(marked@, n as int),
            decreases 2 * (n - count) + if changed {
                1int
            } else {
                0int
            },
        {
            changed = false;
            let mut i: usize = 0;
            let ghost count_at_start = count;
            while i < n
                invariant
                    n == self.cameras@.len(),
                    marked@.len() == n,
                    0 <= i <= n,
                    count <= n,
                    doomed@.len() >= 1,
                    doomed@[0] == e,
                    forall|k: int| 0 <= k < n && marked@[k] ==> doomed@.contains(#[trigger] self.cameras@[k].entity),
                    forall|k: int| 0 <= k < n && marked@[k] ==> points_into(#[trigger] self.cameras@[k], doomed@),
                    forall|i2: int| 1 <= i2 < doomed@.len() ==> #[trigger] taken_after(self.cameras@, doomed@, i2),
                    !changed ==> forall|k: int|
                        0 <= k < i && points_into(self.cameras@[k], doomed@) ==> #[trigger] marked@[k],
                    !changed ==> count == count_at_start,
                    changed ==> count > count_at_start,
                    count == marked_count(marked@, n as int),
                decreases n - i,
            {
                if !marked[i] && points_into_exec(&self.cameras[i], &doomed) {
                    let ghost before = doomed@;
                    let ghost marked_before = marked@;
                    marked.set(i, true);
                    doomed.push(self.cameras[i].entity);
                    proof {
                        lemma_marked_count_set(marked_before, i as int, n as int);
                        lemma_marked_count_bound(marked@, n as int);
                        assert forall|x: Entity| before.contains(x) implies doomed@.contains(x) by {
                            let w = choose|w: int| 0 <= w < before.len() && before[w] == x;
                            assert(doomed@[w] == x);
                        }
                        assert forall|k: int| 0 <= k < n && marked@[k] implies points_into(
                            #[trigger] self.cameras@[k],
                            doomed@,
                        ) by {
                            lemma_points_into_grows(self.cameras@[k], before, doomed@);
                        }
                        assert forall|k: int| 0 <= k < n && marked@[k] implies doomed@.contains(
                            #[trigger] self.cameras@[k].entity,
                        ) by {
                            if k != i {
                                let w = choose|w: int| 0 <= w < before.len() && before[w] == self.cameras@[k].entity;
                                assert(doomed@[w] == before[w]);
                            } else {
                                assert(doomed@[doomed@.len() - 1] == self.cameras@[k].entity);
                            }
                        }
                        assert forall|i2: int| 1 <= i2 < doomed@.len() implies #[trigger] taken_after(
                            self.cameras@,
                            doomed@,
                            i2,
                        ) by {
                            if i2 < before.len() {
                                assert(taken_after(self.cameras@, before, i2));
                                let k = choose|k: int|
                                    0 <= k < self.cameras@.len() && self.cameras@[k].entity == before[i2]
                                        && points_into(self.cameras@[k], before.subrange(0, i2));
                                assert(doomed@.subrange(0, i2) =~= before.subrange(0, i2));
                                assert(self.cameras@[k].entity == doomed@[i2]);
                            } else {
                                assert(doomed@.subrange(0, i2) =~= before);
                                assert(self.cameras@[i as int].entity == doomed@[i2]);
                                assert(points_into(self.cameras@[i as int], doomed@.subrange(0, i2)));
                            }
                        }
                    }
                    count = count + 1;
                    changed = true;
                }
                i = i + 1;
            }
        }
        doomed
    }
}

/// Entry `i` of `doomed` is a camera with an edge into the entries before it.
pub open spec fn taken_after(cams: Seq<CameraEntity>, doomed: Seq<Entity>, i: int) -> bool {
    exists|k: int|
        0 <= k < cams.len() && cams[k].entity == doomed[i] && points_into(cams[k], doomed.subrange(0, i))
}

/// `doomed` is what despawning `e` takes: it starts with `e`; each later entry is a camera
/// with an edge into what was taken before it; and every camera with an edge into it is in it.
pub open spec fn is_despawn_closure(cams: Seq<CameraEntity>, e: Entity, doomed: Seq<Entity>) -> bool {
    &&& doomed.len() >= 1
    &&& doomed[0] == e
    &&& forall|i: int| 1 <= i < doomed.len() ==> #[trigger] taken_after(cams, doomed, i)
    &&& forall|k: int|
        0 <= k < cams.len() && points_into(cams[k], doomed) ==> doomed.contains(#[trigger] cams[k].entity)
}

/// The number of set flags among the first `n`.
pub open spec fn marked_count(marked: Seq<bool>, n: int) -> nat
    decreases n,
{
    if n <= 0 {
        0
    } else {
        marked_count(marked, n - 1) + if marked[n - 1] {
            1nat
        } else {
            0nat
        }
    }
}

proof fn lemma_marked_count_set(marked: Seq<bool>, i: int, n: int)
    requires
        0 <= i < n <= marked.len(),
        !marked[i],
    ensures
        marked_count(marked.update(i, true), n) == marked_count(marked, n) + 1,
    decreases n,
{
    if n - 1 > i {
        lemma_marked_count_set(marked, i, n - 1);
    } else {
        lemma_marked_count_same(marked, marked.update(i, true), i);
    }
}

proof fn lemma_marked_count_same(a: Seq<bool>, b: Seq<bool>, n: int)
    requires
        0 <= n <= a.len(),
        n <= b.len(),
        forall|k: int| 0 <= k < n ==> a[k] == b[k],
    ensures
        marked_count(a, n) == marked_count(b, n),
    decreases n,
{
    if n > 0 {
        lemma_marked_count_same(a, b, n - 1);
    }
}

proof fn lemma_marked_count_none(marked: Seq<bool>, n: int)
    requires
        0 <= n <= marked.len(),
        forall|k: int| 0 <= k < n ==> !marked[k],
    ensures
        marked_count(marked, n) == 0,
    decreases n,
{
    if n > 0 {
        lemma_marked_count_none(marked, n - 1);
    }
}

proof fn lemma_marked_count_bound(marked: Seq<bool>, n: int)
    requires
        0 <= n <= marked.len(),
    ensures
        marked_count(marked, n) <= n,
    decreases n,
{
    if n > 0 {
        lemma_marked_count_bound(marked, n - 1);
    }
}

proof fn lemma_points_into_grows(c: CameraEntity, a: Seq<Entity>, b: Seq<Entity>)
    requires
        points_into(c, a),
        forall|x: Entity| a.contains(x) ==> b.contains(x),
    ensures
        points_into(c, b),
{
}

/// A table row that belongs to an entity.
pub trait OfEntity {
    spec fn entity_spec(&self) -> Entity;

    fn entity_of(&self) -> (r: Entity)
        ensures
            r == self.entity_spec(),
    ;
}

impl OfEntity for CameraEntity {
    open spec fn entity_spec(&self) -> Entity {
        self.entity
    }

    fn entity_of(&self) -> (r: Entity) {
        self.entity
    }
}

impl OfEntity for TargetEntity {
    open spec fn entity_spec(&self) -> Entity {
        self.entity
    }

    fn entity_of(&self) -> (r: Entity) {
        self.entity
    }
}

impl OfEntity for DoubleBufferEntity {
    open spec fn entity_spec(&self) -> Entity {
        self.entity
    }

    fn entity_of(&self) -> (r: Entity) {
        self.entity
    }
}

/// The rows of `s` whose entity is not in `doomed`, in order.
pub open spec fn surviving<T: OfEntity>(s: Seq<T>, doomed: Seq<Entity>) -> Seq<T>
    decreases s.len(),
{
    if s.len() == 0 {
        Seq::empty()
    } else {
        let rest = surviving(s.drop_last(), doomed);
        if doomed.contains(s.last().entity_spec()) {
            rest
        } else {
            rest.push(s.last())
        }
    }
}

proof fn lemma_surviving_append<T: OfEntity>(a: Seq<T>, x: T, doomed: Seq<Entity>)
    ensures
        surviving(a.push(x), doomed) == if doomed.contains(x.entity_spec()) {
            surviving(a, doomed)
        } else {
            surviving(a, doomed).push(x)
        },
{
    assert(a.push(x).drop_last() =~= a);
}

/// Removes the rows of `v` whose entity is in `doomed`, keeping the order of the others.
fn retain_surviving<T: OfEntity>(v: &mut Vec<T>, doomed: &Vec<Entity>)
    ensures
        final(v)@ == surviving(old(v)@, doomed@),
{
    let ghost original = v@;
    let mut i: usize = 0;
    let ghost mut j: int = 0;
    while i < v.len()
        invariant
            0 <= i <= v@.len(),
            0 <= j <= original.len(),
            v@.len() - i == original.len() - j,
            v@.subrange(0, i as int) == surviving(original.subrange(0, j), doomed@),
            v@.subrange(i as int, v@.len() as int) == original.subrange(j, original.len() as int),
        decreases v@.len() - i,
    {
        let ghost before = v@;
        proof {
            assert(original.subrange(0, j + 1) =~= original.subrange(0, j).push(original[j]));
            assert(original[j] == original.subrange(j, original.len() as int)[0]);
            assert(before[i as int] == before.subrange(i as int, before.len() as int)[0]);
            assert(original[j] == before[i as int]);
            lemma_surviving_append(original.subrange(0, j), original[j], doomed@);
        }
        let e = v[i].entity_of();
        if crate::entity::contains_entity(doomed, e) {
            v.remove(i);
            proof {
                assert(v@.subrange(0, i as int) =~= before.subrange(0, i as int));
                assert(v@.subrange(i as int, v@.len() as int) =~= before.subrange(
                    i + 1,
                    before.len() as int,
                ));
                assert(original.subrange(j + 1, original.len() as int) =~= original.subrange(
                    j,
                    original.len() as int,
                ).drop_first());
            }
        } else {
            proof {
                assert(v@.subrange(0, i + 1) =~= before.subrange(0, i as int).push(before[i as int]));
                assert(original.subrange(j + 1, original.len() as int) =~= original.subrange(
                    j,
                    original.len() as int,
                ).drop_first());
                assert(v@.subrange(i + 1, v@.len() as int) =~= before.subrange(
                    i as int,
                    before.len() as int,
                ).drop_first());
            }
            i = i + 1;
        }
        proof {
            j = j + 1;
        }
    }
    proof {
        assert(v@.subrange(0, i as int) =~= v@);
        assert(original.subrange(j, original.len() as int).len() == 0);
        assert(j == original.len());
        assert(original.subrange(0, j) =~= original);
    }
}

impl CameraWorld {
    /// Despawns entity `e` and, following the edges backwards, every camera whose edge
    /// points at something despawned: no edge is left dangling.
    pub fn despawn(&mut self, e: Entity)
        ensures
            exists|doomed: Seq<Entity>|
                {
                    &&& is_despawn_closure(old(self).cameras@, e, doomed)
                    &&& final(self).cameras@ == surviving(old(self).cameras@, doomed)
                    &&& final(self).render_targets@ == surviving(old(self).render_targets@, doomed)
                    &&& final(self).double_buffers@ == surviving(old(self).double_buffers@, doomed)
                },
            final(self).images@ == old(self).images@,
            final(self).next_entity == old(self).next_entity,
            final(self).next_image == old(self).next_image,
    {
        let doomed = self.despawn_set(e);
        retain_surviving(&mut self.cameras, &doomed);
        retain_surviving(&mut self.render_targets, &doomed);
        retain_surviving(&mut self.double_buffers, &doomed);
    }
}

} // verus!
