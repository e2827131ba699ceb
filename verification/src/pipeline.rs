//! The fixed-function description of the one render pipeline the application
//! builds: a single shader program with a vertex and a fragment entry point,
//! triangle-list topology, counter-clockwise front faces with back-face
//! culling, filled polygons, replace blending, a single sample per pixel, no
//! depth or stencil, and one bind-group layout of two uniform buffers shared
//! by every renderable object.

use crate::config::{SurfaceConfig, TextureFormat};
use vstd::prelude::*;

verus! {

/// How vertices are assembled into primitives.
#[derive(Clone, Copy, PartialEq, Eq, Structural, Debug)]
pub enum Topology {
    PointList,
    LineList,
    TriangleList,
    TriangleStrip,
}

/// Which winding order counts as the front of a face.
#[derive(Clone, Copy, PartialEq, Eq, Structural, Debug)]
pub enum FrontFace {
    Ccw,
    Cw,
}

/// Which faces are culled before rasterization.
#[derive(Clone, Copy, PartialEq, Eq, Structural, Debug)]
pub enum CullMode {
    Off,
    Front,
    Back,
}

/// How polygons are rasterized.
#[derive(Clone, Copy, PartialEq, Eq, Structural, Debug)]
pub enum PolygonMode {
    Fill,
    Line,
    Point,
}

/// How fragment output is combined with the color target.
#[derive(Clone, Copy, PartialEq, Eq, Structural, Debug)]
pub enum BlendMode {
    Replace,
    AlphaBlend,
}

/// Which shader stages see a binding.
#[derive(Clone, Copy, PartialEq, Eq, Structural, Debug)]
pub struct BindingVisibility {
    pub vertex: bool,
    pub fragment: bool,
}

/// One uniform-buffer entry of the shared bind-group layout.
#[derive(Clone, Copy, PartialEq, Eq, Structural, Debug)]
pub struct UniformBinding {
    pub slot: u32,
    pub visibility: BindingVisibility,
}

/// Everything fixed about the render pipeline, apart from the shader text
/// itself: primitive state, blending, the color target's format, sampling,
/// and the two uniform-buffer bindings of bind-group layout 0.
#[derive(Clone, Copy, PartialEq, Eq, Structural, Debug)]
pub struct PipelineSpec {
    pub topology: Topology,
    pub front_face: FrontFace,
    pub cull_mode: CullMode,
    pub polygon_mode: PolygonMode,
    pub blend: BlendMode,
    pub target_format: TextureFormat,
    pub sample_count: u32,
    pub color_offset_binding: UniformBinding,
    pub scale_binding: UniformBinding,
}

/// The one pipeline this renderer ever builds, targeting `format`: triangle
/// list, counter-clockwise front face, back-face culling, fill mode, replace
/// blending, single-sample; binding 0 (color/offset) visible to both shader
/// stages, binding 1 (scale) visible to the vertex stage only.
pub open spec fn pipeline_for(format: TextureFormat) -> PipelineSpec {
    PipelineSpec {
        topology: Topology::TriangleList,
        front_face: FrontFace::Ccw,
        cull_mode: CullMode::Back,
        polygon_mode: PolygonMode::Fill,
        blend: BlendMode::Replace,
        target_format: format,
        sample_count: 1,
        color_offset_binding: UniformBinding {
            slot: 0,
            visibility: BindingVisibility { vertex: true, fragment: true },
        },
        scale_binding: UniformBinding {
            slot: 1,
            visibility: BindingVisibility { vertex: true, fragment: false },
        },
    }
}

impl PipelineSpec {
    /// Builds the pipeline description for the configured surface: the color
    /// target's format matches the surface's, everything else is fixed.
    pub fn build(config: &SurfaceConfig) -> (p: PipelineSpec)
        ensures
            p == pipeline_for(config.format),
    {
        PipelineSpec {
            topology: Topology::TriangleList,
            front_face: FrontFace::Ccw,
            cull_mode: CullMode::Back,
            polygon_mode: PolygonMode::Fill,
            blend: BlendMode::Replace,
            target_format: config.format,
            sample_count: 1,
            color_offset_binding: UniformBinding {
                slot: 0,
                visibility: BindingVisibility { vertex: true, fragment: true },
            },
            scale_binding: UniformBinding {
                slot: 1,
                visibility: BindingVisibility { vertex: true, fragment: false },
            },
        }
    }

    /// The shader's vertex entry point.
    pub fn vertex_entry(&self) -> (r: &'static str)
        ensures
            r@ == "vs"@,
    {
        "vs"
    }

    /// The shader's fragment entry point.
    pub fn fragment_entry(&self) -> (r: &'static str)
        ensures
            r@ == "fs"@,
    {
        "fs"
    }
}

} // verus!
