use vstd::prelude::*;
use crate::color::ClearColor;
use crate::pipeline::PipelineSettings;

verus! {

/// Why the surface gave no texture to draw to.
#[derive(Clone, Copy, Debug, PartialEq, Eq, Structural)]
pub enum SurfaceError {
    Timeout,
    Outdated,
    Lost,
    OutOfMemory,
}

/// The commands of one frame: a single render pass over the acquired
/// texture, and in it a single draw.
#[derive(Clone, Copy, Debug, PartialEq, Eq)]
pub struct FramePlan<F> {
    /// The colour that the pass clears the texture to.
    pub clear_color: ClearColor,
    /// Whether what the pass drew is kept for presentation.
    pub store: bool,
    /// Whether the pass has a depth or stencil attachment.
    pub depth_stencil: bool,
    /// The pipeline bound for the draw.
    pub pipeline: PipelineSettings<F>,
    pub vertex_buffers: u32,
    pub draw_calls: u32,
    pub first_vertex: u32,
    pub vertex_count: u32,
    pub first_instance: u32,
    pub instance_count: u32,
}

impl<F> FramePlan<F> {
    /// The frame drawn with `pipeline` over `clear_color`: the texture
    /// is cleared and kept, and one draw of three vertices and one
    /// instance runs with no vertex buffer bound, the vertex stage
    /// placing each vertex by its index alone.
    pub open spec fn triangle_over(clear_color: ClearColor, pipeline: PipelineSettings<F>) -> FramePlan<F> {
        FramePlan {
            clear_color,
            store: true,
            depth_stencil: false,
            pipeline,
            vertex_buffers: 0,
            draw_calls: 1,
            first_vertex: 0,
            vertex_count: 3,
            first_instance: 0,
            instance_count: 1,
        }
    }
}

} // verus!
