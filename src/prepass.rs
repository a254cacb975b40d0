use vstd::prelude::*;

use crate::render_target::{TextureFormat, TextureView};

verus! {

/// Layout flag: the view has a multisampled target.
pub const MULTISAMPLED: u32 = 1;

/// Layout flag: the view has a depth prepass texture.
pub const DEPTH_PREPASS: u32 = 2;

/// Layout flag: the view has a normal prepass texture.
pub const NORMAL_PREPASS: u32 = 4;

/// Layout flag: the view has a motion vector prepass texture.
pub const MOTION_VECTOR_PREPASS: u32 = 8;

/// Layout flag: the view has a deferred prepass texture.
pub const DEFERRED_PREPASS: u32 = 16;

/// The layout flags of a mesh pipeline's view bind group.
#[derive(Clone, Copy, Debug, PartialEq, Eq, Structural)]
pub struct MeshPipelineViewLayoutKey(pub u32);

impl MeshPipelineViewLayoutKey {
    pub open spec fn has(self, flag: u32) -> bool {
        self.0 & flag == flag
    }

    /// Whether every bit of `flag` is set.
    pub fn contains(&self, flag: u32) -> (r: bool)
        ensures
            r == self.has(flag),
    {
        self.0 & flag == flag
    }
}

/// How a shader samples a texture.
#[derive(Clone, Copy, Debug, PartialEq, Eq, Structural)]
pub enum TextureSampleType {
    Float { filterable: bool },
    Uint,
}

/// A two-dimensional texture binding of a bind group layout.
#[derive(Clone, Copy, Debug, PartialEq, Eq, Structural)]
pub struct BindGroupLayoutEntryBuilder {
    pub sample_type: TextureSampleType,
}

/// The prepass textures of a view.
#[derive(Clone, Copy, Debug, PartialEq, Eq, Structural)]
pub struct ViewPrepassTextures {
    pub depth: Option<TextureView>,
    pub normal: Option<TextureView>,
    pub motion_vectors: Option<TextureView>,
    pub deferred: Option<TextureView>,
}

pub open spec fn unfilterable_float() -> BindGroupLayoutEntryBuilder {
    BindGroupLayoutEntryBuilder { sample_type: TextureSampleType::Float { filterable: false } }
}

/// The layout entries of the prepass textures, in the order depth, normal, motion vectors,
/// deferred: each present when its flag is set; the first three sampled as unfilterable
/// floats, the deferred one as unsigned integers.
pub fn get_bind_group_layout_entries(layout_key: MeshPipelineViewLayoutKey) -> (r: [Option<
    BindGroupLayoutEntryBuilder,
>; 4])
    ensures
        r[0] == (if layout_key.has(DEPTH_PREPASS) {
            Some(unfilterable_float())
        } else {
            None
        }),
        r[1] == (if layout_key.has(NORMAL_PREPASS) {
            Some(unfilterable_float())
        } else {
            None
        }),
        r[2] == (if layout_key.has(MOTION_VECTOR_PREPASS) {
            Some(unfilterable_float())
        } else {
            None
        }),
        r[3] == (if layout_key.has(DEFERRED_PREPASS) {
            Some(BindGroupLayoutEntryBuilder { sample_type: TextureSampleType::Uint })
        } else {
            None
        }),
{
    let float = BindGroupLayoutEntryBuilder {
        sample_type: TextureSampleType::Float { filterable: false },
    };
    let depth = if layout_key.contains(DEPTH_PREPASS) {
        Some(float)
    } else {
        None
    };
    let normal = if layout_key.contains(NORMAL_PREPASS) {
        Some(float)
    } else {
        None
    };
    let motion_vectors = if layout_key.contains(MOTION_VECTOR_PREPASS) {
        Some(float)
    } else {
        None
    };
    let deferred = if layout_key.contains(DEFERRED_PREPASS) {
        Some(BindGroupLayoutEntryBuilder { sample_type: TextureSampleType::Uint })
    } else {
        None
    };
    [depth, normal, motion_vectors, deferred]
}

/// The prepass texture views bound to a view, in the order depth, normal, motion vectors,
/// deferred; all absent when the view has no prepass textures.
pub fn get_bindings(prepass_textures: Option<&ViewPrepassTextures>) -> (r: [Option<TextureView>; 4])
    ensures
        prepass_textures matches Some(pt) ==> r[0] == pt.depth && r[1] == pt.normal && r[2]
            == pt.motion_vectors && r[3] == pt.deferred,
        prepass_textures is None ==> r[0] is None && r[1] is None && r[2] is None && r[3] is None,
{
    match prepass_textures {
        Some(pt) => [pt.depth, pt.normal, pt.motion_vectors, pt.deferred],
        None => [None, None, None, None],
    }
}

/// Whether a pass keeps what it wrote to an attachment.
#[derive(Clone, Copy, Debug, PartialEq, Eq, Structural)]
pub enum StoreOp {
    Store,
    Discard,
}

/// Multisampled prepass attachments are resolved, not kept; single-sampled ones are kept.
pub fn prepass_store_op(msaa_samples: u32) -> (r: StoreOp)
    ensures
        r == (if msaa_samples > 1 {
            StoreOp::Discard
        } else {
            StoreOp::Store
        }),
{
    if msaa_samples > 1 {
        StoreOp::Discard
    } else {
        StoreOp::Store
    }
}

/// A color attachment of the prepass: the texture view and what happens to its contents.
#[derive(Clone, Copy, Debug, PartialEq, Eq, Structural)]
pub struct PrepassAttachment {
    pub view: TextureView,
    pub store: StoreOp,
}

/// The prepass color attachments: normals, then motion vectors, then two empty places for
/// the deferred attachments; no attachments at all when the view has neither of the first
/// two, so that no fragment shader is needed.
pub fn prepass_color_attachments(textures: &ViewPrepassTextures, store: StoreOp) -> (r: Vec<
    Option<PrepassAttachment>,
>)
    ensures
        (textures.normal is None && textures.motion_vectors is None) ==> r@.len() == 0,
        !(textures.normal is None && textures.motion_vectors is None) ==> r@ == seq![
            match textures.normal {
                Some(v) => Some(PrepassAttachment { view: v, store }),
                None => None,
            },
            match textures.motion_vectors {
                Some(v) => Some(PrepassAttachment { view: v, store }),
                None => None,
            },
            None,
            None,
        ],
{
    let mut r: Vec<Option<PrepassAttachment>> = Vec::new();
    if textures.normal.is_none() && textures.motion_vectors.is_none() {
        return r;
    }
    r.push(
        match textures.normal {
            Some(v) => Some(PrepassAttachment { view: v, store }),
            None => None,
        },
    );
    r.push(
        match textures.motion_vectors {
            Some(v) => Some(PrepassAttachment { view: v, store }),
            None => None,
        },
    );
    r.push(None);
    r.push(None);
    assert(r@ =~= seq![r@[0], r@[1], None, None]);
    r
}

/// The late prepass runs only for views with occlusion culling that draw indirectly.
pub fn late_prepass_runs(occlusion_culling: bool, no_indirect_drawing: bool) -> (r: bool)
    ensures
        r == (occlusion_culling && !no_indirect_drawing),
{
    occlusion_culling && !no_indirect_drawing
}

/// Whether a prepass draws: not for views with a deferred prepass (which replaces it), not
/// before both of the view's prepass phases exist, and not while the depth resolve
/// pipeline the view asks for is still being compiled.
pub fn prepass_runs(
    has_deferred: bool,
    has_opaque_phase: bool,
    has_alpha_mask_phase: bool,
    wants_depth_resolve: bool,
    depth_resolve_ready: bool,
) -> (r: bool)
    ensures
        r == (!has_deferred && has_opaque_phase && has_alpha_mask_phase && (!wants_depth_resolve
            || depth_resolve_ready)),
{
    !has_deferred && has_opaque_phase && has_alpha_mask_phase && (!wants_depth_resolve
        || depth_resolve_ready)
}

/// The specialization key of the motion blur pipeline.
#[derive(Clone, Copy, Debug, PartialEq, Eq, Structural, Hash)]
pub struct MotionBlurPipelineKey {
    pub hdr: bool,
}

impl MotionBlurPipelineKey {
    /// The format motion blur writes: the high dynamic range format for such views, else
    /// the default gamma-corrected format.
    pub fn target_format(&self) -> (r: TextureFormat)
        ensures
            r == (if self.hdr {
                TextureFormat::Rgba16Float
            } else {
                TextureFormat::Rgba8UnormSrgb
            }),
    {
        if self.hdr {
            TextureFormat::Rgba16Float
        } else {
            TextureFormat::Rgba8UnormSrgb
        }
    }
}

/// The id of a compiled motion blur pipeline in the pipeline cache.
#[derive(Clone, Copy, Debug, PartialEq, Eq, Structural)]
pub struct MotionBlurPipelineId(pub u64);

/// The specialization key of the pipeline that resolves a multisampled texture.
#[derive(Clone, Copy, Debug, PartialEq, Eq, Structural, Hash)]
pub struct ResolvePipelineKey {
    pub texture_format: TextureFormat,
    pub samples: u32,
}

} // verus!
