use vstd::prelude::*;

use crate::geometry::{ScaleFactor, UVec2};
use crate::render_target::RenderTargetInfo;
use crate::viewport::Viewport;

verus! {

/// A part of a larger view that this camera renders, in pixels.
#[derive(Clone, Copy, Debug, PartialEq, Eq, Structural)]
pub struct SubCameraView {
    pub full_size: UVec2,
    pub offset: UVec2,
    pub size: UVec2,
}

/// What the clip-from-view projection was last computed from: the physical viewport size,
/// the target's scale factor (which give the logical size) and the sub-camera view.
#[derive(Clone, Copy, Debug, PartialEq, Eq, Structural)]
pub struct ProjectionBasis {
    pub viewport_size: UVec2,
    pub scale_factor: ScaleFactor,
    pub sub_camera_view: Option<SubCameraView>,
}

/// The part of a camera that only the reactive update writes.
#[derive(Clone, Copy, Debug, PartialEq, Eq, Structural)]
pub struct ComputedCameraValues {
    pub target_info: Option<RenderTargetInfo>,
    pub old_viewport_size: Option<UVec2>,
    pub old_sub_camera_view: Option<SubCameraView>,
    pub clip_from_view: Option<ProjectionBasis>,
}

/// Whether a camera writes its output to the output target.
#[derive(Clone, Copy, Debug, PartialEq, Eq, Structural)]
pub enum CameraOutputMode {
    Write,
    Skip,
}

/// How a camera clears its target before drawing.
#[derive(Clone, Copy, Debug, PartialEq, Eq, Structural)]
pub enum ClearColorConfig {
    /// The world's clear color.
    Default,
    /// A given color, as packed 8-bit RGBA.
    Custom(u32),
    /// No clearing.
    NoClear,
}

/// Exposure, in hundredths of an EV100 stop.
#[derive(Clone, Copy, Debug, PartialEq, Eq, Structural)]
pub struct Exposure {
    pub ev100_centi: i32,
}

impl Exposure {
    /// The baseline exposure, EV100 9.7, used where a camera sets none.
    pub open spec fn baseline_spec() -> Exposure {
        Exposure { ev100_centi: 970 }
    }

    pub fn baseline() -> (r: Exposure)
        ensures
            r == Exposure::baseline_spec(),
    {
        Exposure { ev100_centi: 970 }
    }
}

/// The visibility layers a camera sees, one bit per layer.
#[derive(Clone, Copy, Debug, PartialEq, Eq, Structural)]
pub struct RenderLayers(pub u64);

/// Which render graph runs for a camera, by the id of its interned name.
#[derive(Clone, Copy, Debug, PartialEq, Eq, Structural)]
pub struct CameraRenderGraph(pub u64);

impl CameraRenderGraph {
    pub fn new(name: u64) -> (r: CameraRenderGraph)
        ensures
            r == CameraRenderGraph(name),
    {
        CameraRenderGraph(name)
    }

    /// Selects another render graph.
    pub fn set(&mut self, name: u64)
        ensures
            *final(self) == CameraRenderGraph(name),
    {
        self.0 = name;
    }
}

/// A camera of the simulation world.
#[derive(Clone, Copy, Debug, PartialEq, Eq, Structural)]
pub struct Camera {
    pub viewport: Option<Viewport>,
    pub order: isize,
    pub is_active: bool,
    pub output_mode: CameraOutputMode,
    pub clear_color: ClearColorConfig,
    pub sub_camera_view: Option<SubCameraView>,
    pub computed: ComputedCameraValues,
}

impl Camera {
    pub open spec fn physical_target_size_spec(self) -> Option<UVec2> {
        match self.computed.target_info {
            Some(info) => Some(info.physical_size),
            None => None,
        }
    }

    /// The viewport's size when one is set, else the whole target's size.
    pub open spec fn physical_viewport_size_spec(self) -> Option<UVec2> {
        match self.viewport {
            Some(v) => Some(v.physical_size),
            None => self.physical_target_size_spec(),
        }
    }

    /// The physical size of the target, once it is known.
    pub fn physical_target_size(&self) -> (r: Option<UVec2>)
        ensures
            r == self.physical_target_size_spec(),
    {
        match &self.computed.target_info {
            Some(info) => Some(info.physical_size),
            None => None,
        }
    }

    /// The physical size of the part of the target this camera draws into.
    pub fn physical_viewport_size(&self) -> (r: Option<UVec2>)
        ensures
            r == self.physical_viewport_size_spec(),
    {
        match &self.viewport {
            Some(v) => Some(v.physical_size),
            None => self.physical_target_size(),
        }
    }
}

} // verus!
