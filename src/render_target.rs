use vstd::prelude::*;

use crate::entity::{contains_entity, Entity};
use crate::geometry::{ScaleFactor, UVec2};

verus! {

/// A handle of an image in the image store.
#[derive(Clone, Copy, Debug, PartialEq, Eq, Structural, Hash)]
pub struct ImageId(pub u64);

/// A handle of an externally managed texture view.
#[derive(Clone, Copy, Debug, PartialEq, Eq, Structural, Hash)]
pub struct ManualTextureViewHandle(pub u32);

/// A reference to a window: the primary one, or a given window entity.
#[derive(Clone, Copy, Debug, PartialEq, Eq, Structural)]
pub enum WindowRef {
    Primary,
    Entity(Entity),
}

/// An offscreen image to draw into, with the scale factor it is drawn at.
#[derive(Clone, Copy, Debug, PartialEq, Eq, Structural)]
pub struct ImageRenderTarget {
    pub handle: ImageId,
    pub scale_factor: ScaleFactor,
}

/// Where a camera draws.
#[derive(Clone, Copy, Debug, PartialEq, Eq, Structural)]
pub enum RenderTarget {
    Window(WindowRef),
    Image(ImageRenderTarget),
    TextureView(ManualTextureViewHandle),
    /// No backing resource, only a size.
    Empty { size: UVec2 },
}

/// A render target with every reference to the primary window resolved.
#[derive(Clone, Copy, Debug, PartialEq, Eq, Structural)]
pub enum NormalizedRenderTarget {
    Window(Entity),
    Image(ImageRenderTarget),
    TextureView(ManualTextureViewHandle),
    Empty { width: u32, height: u32 },
}

/// The physical size and scale factor of a render target.
#[derive(Clone, Copy, Debug, PartialEq, Eq, Structural)]
pub struct RenderTargetInfo {
    pub physical_size: UVec2,
    pub scale_factor: ScaleFactor,
}

/// An entry of the window registry.
#[derive(Clone, Copy, Debug, PartialEq, Eq, Structural)]
pub struct WindowInfo {
    pub entity: Entity,
    pub physical_size: UVec2,
    pub scale_factor: ScaleFactor,
}

/// The pixel format of an image.
#[derive(Clone, Copy, Debug, PartialEq, Eq, Structural, Hash)]
pub enum TextureFormat {
    /// Four 16-bit float channels, for high dynamic range.
    Rgba16Float,
    /// Four 8-bit channels, gamma corrected.
    Rgba8UnormSrgb,
}

/// An entry of the image store: the image's id and the descriptor it is allocated from.
#[derive(Clone, Copy, Debug, PartialEq, Eq, Structural)]
pub struct Image {
    pub id: ImageId,
    pub size: UVec2,
    pub format: TextureFormat,
    pub usage: u32,
    pub sample_count: u32,
}

/// A handle of a texture view.
#[derive(Clone, Copy, Debug, PartialEq, Eq, Structural)]
pub struct TextureView(pub u64);

/// An entry of the manual texture view registry.
#[derive(Clone, Copy, Debug, PartialEq, Eq, Structural)]
pub struct ManualTextureView {
    pub handle: ManualTextureViewHandle,
    pub size: UVec2,
    pub texture_view: TextureView,
    pub view_format: TextureFormat,
}

/// A window as the render side sees it: its swap chain view and format, once acquired.
#[derive(Clone, Copy, Debug, PartialEq, Eq, Structural)]
pub struct ExtractedWindow {
    pub entity: Entity,
    pub swap_chain_texture_view: Option<TextureView>,
    pub swap_chain_texture_view_format: Option<TextureFormat>,
}

/// An image uploaded to the GPU.
#[derive(Clone, Copy, Debug, PartialEq, Eq, Structural)]
pub struct GpuImage {
    pub id: ImageId,
    pub texture_view: TextureView,
    pub view_format: TextureFormat,
}

/// Which registry lookup missed when fetching a target's info.
#[derive(Clone, Copy, Debug, PartialEq, Eq, Structural)]
pub enum MissingRenderTargetInfoError {
    Window { window: Entity },
    Image { image: ImageId },
    TextureView { texture_view: ManualTextureViewHandle },
}

pub open spec fn normalize_spec(t: RenderTarget, primary_window: Option<Entity>) -> Option<
    NormalizedRenderTarget,
> {
    match t {
        RenderTarget::Window(WindowRef::Primary) => match primary_window {
            Some(w) => Some(NormalizedRenderTarget::Window(w)),
            None => None,
        },
        RenderTarget::Window(WindowRef::Entity(w)) => Some(NormalizedRenderTarget::Window(w)),
        RenderTarget::Image(i) => Some(NormalizedRenderTarget::Image(i)),
        RenderTarget::TextureView(v) => Some(NormalizedRenderTarget::TextureView(v)),
        RenderTarget::Empty { size } => Some(
            NormalizedRenderTarget::Empty { width: size.x, height: size.y },
        ),
    }
}

/// The first window of the registry with entity `e`.
pub open spec fn window_lookup(ws: Seq<WindowInfo>, e: Entity) -> Option<WindowInfo>
    decreases ws.len(),
{
    if ws.len() == 0 {
        None
    } else if ws[0].entity == e {
        Some(ws[0])
    } else {
        window_lookup(ws.drop_first(), e)
    }
}

/// The first image of the store with id `id`.
pub open spec fn image_lookup(is: Seq<Image>, id: ImageId) -> Option<Image>
    decreases is.len(),
{
    if is.len() == 0 {
        None
    } else if is[0].id == id {
        Some(is[0])
    } else {
        image_lookup(is.drop_first(), id)
    }
}

/// The first manual texture view of the registry with handle `h`.
pub open spec fn view_lookup(vs: Seq<ManualTextureView>, h: ManualTextureViewHandle) -> Option<
    ManualTextureView,
>
    decreases vs.len(),
{
    if vs.len() == 0 {
        None
    } else if vs[0].handle == h {
        Some(vs[0])
    } else {
        view_lookup(vs.drop_first(), h)
    }
}

/// The info of a normalized target: from the window registry, the image store or the
/// texture view registry; a target without backing resource has its own size at scale 1.
pub open spec fn target_info_spec(
    t: NormalizedRenderTarget,
    ws: Seq<WindowInfo>,
    is: Seq<Image>,
    vs: Seq<ManualTextureView>,
) -> Result<RenderTargetInfo, MissingRenderTargetInfoError> {
    match t {
        NormalizedRenderTarget::Window(w) => match window_lookup(ws, w) {
            Some(wi) => Ok(
                RenderTargetInfo { physical_size: wi.physical_size, scale_factor: wi.scale_factor },
            ),
            None => Err(MissingRenderTargetInfoError::Window { window: w }),
        },
        NormalizedRenderTarget::Image(it) => match image_lookup(is, it.handle) {
            Some(ii) => Ok(
                RenderTargetInfo { physical_size: ii.size, scale_factor: it.scale_factor },
            ),
            None => Err(MissingRenderTargetInfoError::Image { image: it.handle }),
        },
        NormalizedRenderTarget::TextureView(h) => match view_lookup(vs, h) {
            Some(v) => Ok(RenderTargetInfo { physical_size: v.size, scale_factor: ScaleFactor::unit_spec() }),
            None => Err(MissingRenderTargetInfoError::TextureView { texture_view: h }),
        },
        NormalizedRenderTarget::Empty { width, height } => Ok(
            RenderTargetInfo {
                physical_size: UVec2 { x: width, y: height },
                scale_factor: ScaleFactor::unit_spec(),
            },
        ),
    }
}

/// Whether the target is among the changed windows or images; a texture view always counts
/// as changed, a target without backing resource never does.
pub open spec fn is_changed_spec(
    t: NormalizedRenderTarget,
    changed_windows: Seq<Entity>,
    changed_images: Seq<ImageId>,
) -> bool {
    match t {
        NormalizedRenderTarget::Window(w) => changed_windows.contains(w),
        NormalizedRenderTarget::Image(it) => changed_images.contains(it.handle),
        NormalizedRenderTarget::TextureView(_) => true,
        NormalizedRenderTarget::Empty { .. } => false,
    }
}

impl RenderTarget {
    /// Resolves a reference to the primary window; fails only for such a reference when
    /// there is no primary window.
    pub fn normalize(&self, primary_window: Option<Entity>) -> (r: Option<NormalizedRenderTarget>)
        ensures
            r == normalize_spec(*self, primary_window),
    {
        match self {
            RenderTarget::Window(WindowRef::Primary) => match primary_window {
                Some(w) => Some(NormalizedRenderTarget::Window(w)),
                None => None,
            },
            RenderTarget::Window(WindowRef::Entity(w)) => Some(NormalizedRenderTarget::Window(*w)),
            RenderTarget::Image(i) => Some(NormalizedRenderTarget::Image(*i)),
            RenderTarget::TextureView(v) => Some(NormalizedRenderTarget::TextureView(*v)),
            RenderTarget::Empty { size } => Some(
                NormalizedRenderTarget::Empty { width: size.x, height: size.y },
            ),
        }
    }

    /// The image this target draws into, if it is an image.
    pub fn as_image(&self) -> (r: Option<ImageId>)
        ensures
            r == (match *self {
                RenderTarget::Image(i) => Some(i.handle),
                _ => None,
            }),
    {
        match self {
            RenderTarget::Image(i) => Some(i.handle),
            _ => None,
        }
    }
}

fn find_window(ws: &Vec<WindowInfo>, e: Entity) -> (r: Option<WindowInfo>)
    ensures
        r == window_lookup(ws@, e),
{
    let mut i: usize = 0;
    assert(ws@.skip(0) =~= ws@);
    while i < ws.len()
        invariant
            0 <= i <= ws@.len(),
            window_lookup(ws@, e) == window_lookup(ws@.skip(i as int), e),
        decreases ws@.len() - i,
    {
        assert(ws@.skip(i as int).drop_first() =~= ws@.skip(i + 1));
        if ws[i].entity == e {
            return Some(ws[i]);
        }
        i = i + 1;
    }
    None
}

fn find_image(is: &Vec<Image>, id: ImageId) -> (r: Option<Image>)
    ensures
        r == image_lookup(is@, id),
{
    let mut i: usize = 0;
    assert(is@.skip(0) =~= is@);
    while i < is.len()
        invariant
            0 <= i <= is@.len(),
            image_lookup(is@, id) == image_lookup(is@.skip(i as int), id),
        decreases is@.len() - i,
    {
        assert(is@.skip(i as int).drop_first() =~= is@.skip(i + 1));
        if is[i].id == id {
            return Some(is[i]);
        }
        i = i + 1;
    }
    None
}

fn find_view(vs: &Vec<ManualTextureView>, h: ManualTextureViewHandle) -> (r: Option<
    ManualTextureView,
>)
    ensures
        r == view_lookup(vs@, h),
{
    let mut i: usize = 0;
    assert(vs@.skip(0) =~= vs@);
    while i < vs.len()
        invariant
            0 <= i <= vs@.len(),
            view_lookup(vs@, h) == view_lookup(vs@.skip(i as int), h),
        decreases vs@.len() - i,
    {
        assert(vs@.skip(i as int).drop_first() =~= vs@.skip(i + 1));
        if vs[i].handle == h {
            return Some(vs[i]);
        }
        i = i + 1;
    }
    None
}

impl NormalizedRenderTarget {
    /// Looks up the physical size and scale factor of this target; the error names the
    /// registry whose lookup missed.
    pub fn get_render_target_info(
        &self,
        windows: &Vec<WindowInfo>,
        images: &Vec<Image>,
        manual_texture_views: &Vec<ManualTextureView>,
    ) -> (r: Result<RenderTargetInfo, MissingRenderTargetInfoError>)
        ensures
            r == target_info_spec(*self, windows@, images@, manual_texture_views@),
    {
        match self {
            NormalizedRenderTarget::Window(w) => match find_window(windows, *w) {
                Some(wi) => Ok(
                    RenderTargetInfo {
                        physical_size: wi.physical_size,
                        scale_factor: wi.scale_factor,
                    },
                ),
                None => Err(MissingRenderTargetInfoError::Window { window: *w }),
            },
            NormalizedRenderTarget::Image(it) => match find_image(images, it.handle) {
                Some(ii) => Ok(
                    RenderTargetInfo { physical_size: ii.size, scale_factor: it.scale_factor },
                ),
                None => Err(MissingRenderTargetInfoError::Image { image: it.handle }),
            },
            NormalizedRenderTarget::TextureView(h) => match find_view(manual_texture_views, *h) {
                Some(v) => Ok(
                    RenderTargetInfo { physical_size: v.size, scale_factor: ScaleFactor::one() },
                ),
                None => Err(MissingRenderTargetInfoError::TextureView { texture_view: *h }),
            },
            NormalizedRenderTarget::Empty { width, height } => Ok(
                RenderTargetInfo {
                    physical_size: UVec2 { x: *width, y: *height },
                    scale_factor: ScaleFactor::one(),
                },
            ),
        }
    }

    /// Whether this target is among the changed windows or images.
    pub fn is_changed(&self, changed_window_ids: &Vec<Entity>, changed_image_handles: &Vec<ImageId>) -> (r:
        bool)
        ensures
            r == is_changed_spec(*self, changed_window_ids@, changed_image_handles@),
    {
        match self {
            NormalizedRenderTarget::Window(w) => contains_entity(changed_window_ids, *w),
            NormalizedRenderTarget::Image(it) => contains_image(changed_image_handles, it.handle),
            NormalizedRenderTarget::TextureView(_) => true,
            NormalizedRenderTarget::Empty { .. } => false,
        }
    }
}

fn contains_image(set: &Vec<ImageId>, id: ImageId) -> (r: bool)
    ensures
        r == set@.contains(id),
{
    let mut i: usize = 0;
    while i < set.len()
        invariant
            0 <= i <= set@.len(),
            forall|k: int| 0 <= k < i ==> set@[k] != id,
        decreases set@.len() - i,
    {
        if set[i] == id {
            return true;
        }
        i = i + 1;
    }
    false
}

/// The first extracted window with entity `e`.
pub open spec fn extracted_window_lookup(ws: Seq<ExtractedWindow>, e: Entity) -> Option<ExtractedWindow>
    decreases ws.len(),
{
    if ws.len() == 0 {
        None
    } else if ws[0].entity == e {
        Some(ws[0])
    } else {
        extracted_window_lookup(ws.drop_first(), e)
    }
}

/// The first GPU image with id `id`.
pub open spec fn gpu_image_lookup(is: Seq<GpuImage>, id: ImageId) -> Option<GpuImage>
    decreases is.len(),
{
    if is.len() == 0 {
        None
    } else if is[0].id == id {
        Some(is[0])
    } else {
        gpu_image_lookup(is.drop_first(), id)
    }
}

/// The texture view a normalized target draws into: a window's swap chain view, an image's
/// view, or a manual texture view; none for a target without backing resource or one that
/// is missing.
pub open spec fn texture_view_spec(
    t: NormalizedRenderTarget,
    windows: Seq<ExtractedWindow>,
    images: Seq<GpuImage>,
    views: Seq<ManualTextureView>,
) -> Option<TextureView> {
    match t {
        NormalizedRenderTarget::Window(w) => match extracted_window_lookup(windows, w) {
            Some(ew) => ew.swap_chain_texture_view,
            None => None,
        },
        NormalizedRenderTarget::Image(it) => match gpu_image_lookup(images, it.handle) {
            Some(gi) => Some(gi.texture_view),
            None => None,
        },
        NormalizedRenderTarget::TextureView(h) => match view_lookup(views, h) {
            Some(v) => Some(v.texture_view),
            None => None,
        },
        NormalizedRenderTarget::Empty { .. } => None,
    }
}

/// The format of the texture view a normalized target draws into, as for its view.
pub open spec fn texture_view_format_spec(
    t: NormalizedRenderTarget,
    windows: Seq<ExtractedWindow>,
    images: Seq<GpuImage>,
    views: Seq<ManualTextureView>,
) -> Option<TextureFormat> {
    match t {
        NormalizedRenderTarget::Window(w) => match extracted_window_lookup(windows, w) {
            Some(ew) => ew.swap_chain_texture_view_format,
            None => None,
        },
        NormalizedRenderTarget::Image(it) => match gpu_image_lookup(images, it.handle) {
            Some(gi) => Some(gi.view_format),
            None => None,
        },
        NormalizedRenderTarget::TextureView(h) => match view_lookup(views, h) {
            Some(v) => Some(v.view_format),
            None => None,
        },
        NormalizedRenderTarget::Empty { .. } => None,
    }
}

fn find_extracted_window(ws: &Vec<ExtractedWindow>, e: Entity) -> (r: Option<ExtractedWindow>)
    ensures
        r == extracted_window_lookup(ws@, e),
{
    let mut i: usize = 0;
    assert(ws@.skip(0) =~= ws@);
    while i < ws.len()
        invariant
            0 <= i <= ws@.len(),
            extracted_window_lookup(ws@, e) == extracted_window_lookup(ws@.skip(i as int), e),
        decreases ws@.len() - i,
    {
        assert(ws@.skip(i as int).drop_first() =~= ws@.skip(i + 1));
        if ws[i].entity == e {
            return Some(ws[i]);
        }
        i = i + 1;
    }
    None
}

fn find_gpu_image(is: &Vec<GpuImage>, id: ImageId) -> (r: Option<GpuImage>)
    ensures
        r == gpu_image_lookup(is@, id),
{
    let mut i: usize = 0;
    assert(is@.skip(0) =~= is@);
    while i < is.len()
        invariant
            0 <= i <= is@.len(),
            gpu_image_lookup(is@, id) == gpu_image_lookup(is@.skip(i as int), id),
        decreases is@.len() - i,
    {
        assert(is@.skip(i as int).drop_first() =~= is@.skip(i + 1));
        if is[i].id == id {
            return Some(is[i]);
        }
        i = i + 1;
    }
    None
}

impl NormalizedRenderTarget {
    /// The texture view this target draws into, if it exists yet.
    pub fn get_texture_view(
        &self,
        windows: &Vec<ExtractedWindow>,
        images: &Vec<GpuImage>,
        manual_texture_views: &Vec<ManualTextureView>,
    ) -> (r: Option<TextureView>)
        ensures
            r == texture_view_spec(*self, windows@, images@, manual_texture_views@),
    {
        match self {
            NormalizedRenderTarget::Window(w) => match find_extracted_window(windows, *w) {
                Some(ew) => ew.swap_chain_texture_view,
                None => None,
            },
            NormalizedRenderTarget::Image(it) => match find_gpu_image(images, it.handle) {
                Some(gi) => Some(gi.texture_view),
                None => None,
            },
            NormalizedRenderTarget::TextureView(h) => match find_view(manual_texture_views, *h) {
                Some(v) => Some(v.texture_view),
                None => None,
            },
            NormalizedRenderTarget::Empty { .. } => None,
        }
    }

    /// The format of the texture view this target draws into, if it exists yet.
    pub fn get_texture_view_format(
        &self,
        windows: &Vec<ExtractedWindow>,
        images: &Vec<GpuImage>,
        manual_texture_views: &Vec<ManualTextureView>,
    ) -> (r: Option<TextureFormat>)
        ensures
            r == texture_view_format_spec(*self, windows@, images@, manual_texture_views@),
    {
        match self {
            NormalizedRenderTarget::Window(w) => match find_extracted_window(windows, *w) {
                Some(ew) => ew.swap_chain_texture_view_format,
                None => None,
            },
            NormalizedRenderTarget::Image(it) => match find_gpu_image(images, it.handle) {
                Some(gi) => Some(gi.view_format),
                None => None,
            },
            NormalizedRenderTarget::TextureView(h) => match find_view(manual_texture_views, *h) {
                Some(v) => Some(v.view_format),
                None => None,
            },
            NormalizedRenderTarget::Empty { .. } => None,
        }
    }
}

} // verus!
