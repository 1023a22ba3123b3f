use vstd::prelude::*;

verus! {

/// How vertices are assembled into primitives.
#[derive(Clone, Copy, Debug, PartialEq, Eq, Structural)]
pub enum Topology {
    PointList,
    LineList,
    LineStrip,
    TriangleList,
    TriangleStrip,
}

/// The winding that marks a triangle's front.
#[derive(Clone, Copy, Debug, PartialEq, Eq, Structural)]
pub enum FrontFace {
    CounterClockwise,
    Clockwise,
}

/// A side of a triangle.
#[derive(Clone, Copy, Debug, PartialEq, Eq, Structural)]
pub enum Face {
    Front,
    Back,
}

/// How a polygon is rasterised.
#[derive(Clone, Copy, Debug, PartialEq, Eq, Structural)]
pub enum PolygonMode {
    Fill,
    Line,
    Point,
}

/// How a fragment's colour is combined with what the target holds.
#[derive(Clone, Copy, Debug, PartialEq, Eq, Structural)]
pub enum Blend {
    /// The fragment replaces the stored colour.
    Replace,
    AlphaBlending,
    PremultipliedAlphaBlending,
}

/// Which colour channels a draw may write.
#[derive(Clone, Copy, Debug, PartialEq, Eq, Structural)]
pub struct ColorWrites {
    pub red: bool,
    pub green: bool,
    pub blue: bool,
    pub alpha: bool,
}

/// The fixed-function state and resource layout of a render pipeline.
/// `F` is the type that names a pixel format.
#[derive(Clone, Copy, Debug, PartialEq, Eq)]
pub struct PipelineSettings<F> {
    pub bind_group_layouts: u32,
    pub push_constant_ranges: u32,
    pub vertex_buffers: u32,
    pub topology: Topology,
    pub indexed_strips: bool,
    pub front_face: FrontFace,
    pub cull_mode: Option<Face>,
    pub polygon_mode: PolygonMode,
    pub unclipped_depth: bool,
    pub conservative: bool,
    pub depth_stencil: bool,
    pub sample_count: u32,
    pub sample_mask: u64,
    pub alpha_to_coverage: bool,
    pub multiview: bool,
    pub target_format: F,
    pub blend: Option<Blend>,
    pub write_mask: ColorWrites,
}

impl<F> PipelineSettings<F> {
    /// The one pipeline of this program: a self-contained shader with no
    /// bindings and no vertex input, filled counter-clockwise triangles
    /// with their backs culled, no depth or stencil test, one sample per
    /// pixel, and a single colour target of the given format that every
    /// fragment overwrites.
    pub open spec fn standard(format: F) -> PipelineSettings<F> {
        PipelineSettings {
            bind_group_layouts: 0,
            push_constant_ranges: 0,
            vertex_buffers: 0,
            topology: Topology::TriangleList,
            indexed_strips: false,
            front_face: FrontFace::CounterClockwise,
            cull_mode: Some(Face::Back),
            polygon_mode: PolygonMode::Fill,
            unclipped_depth: false,
            conservative: false,
            depth_stencil: false,
            sample_count: 1,
            sample_mask: 0xffff_ffff_ffff_ffff,
            alpha_to_coverage: false,
            multiview: false,
            target_format: format,
            blend: Some(Blend::Replace),
            write_mask: ColorWrites { red: true, green: true, blue: true, alpha: true },
        }
    }

    pub fn for_format(format: F) -> (settings: PipelineSettings<F>)
        ensures
            settings == PipelineSettings::standard(format),
    {
        PipelineSettings {
            bind_group_layouts: 0,
            push_constant_ranges: 0,
            vertex_buffers: 0,
            topology: Topology::TriangleList,
            indexed_strips: false,
            front_face: FrontFace::CounterClockwise,
            cull_mode: Some(Face::Back),
            polygon_mode: PolygonMode::Fill,
            unclipped_depth: false,
            conservative: false,
            depth_stencil: false,
            sample_count: 1,
            sample_mask: 0xffff_ffff_ffff_ffff,
            alpha_to_coverage: false,
            multiview: false,
            target_format: format,
            blend: Some(Blend::Replace),
            write_mask: ColorWrites { red: true, green: true, blue: true, alpha: true },
        }
    }
}

/// The name of the shader's vertex stage.
pub fn vertex_entry_point() -> (name: &'static str)
    ensures
        name@ == "vs_main"@,
{
    "vs_main"
}

/// The name of the shader's fragment stage.
pub fn fragment_entry_point() -> (name: &'static str)
    ensures
        name@ == "fs_main"@,
{
    "fs_main"
}

} // verus!
