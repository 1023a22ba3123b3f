use vstd::prelude::*;
use crate::color::ClearColor;
use crate::event::WindowEvent;
use crate::frame::{FramePlan, SurfaceError};
use crate::geometry::PhysicalSize;
use crate::pipeline::PipelineSettings;
use crate::surface::SurfaceConfig;

verus! {

/// What a render state holds, as contracts speak of it.
pub ghost struct StateView<F> {
    pub config: SurfaceConfig<F>,
    pub size: PhysicalSize,
    pub clear_color: ClearColor,
    pub render_pipeline: PipelineSettings<F>,
}

impl<F> StateView<F> {
    /// What every render state satisfies: the window has area, the
    /// configuration is the initial one of its format at the window's
    /// size, and the pipeline is the standard one for that format.
    pub open spec fn wf(self) -> bool {
        &&& self.size.drawable()
        &&& self.config == SurfaceConfig::initial_spec(self.config.format, self.size)
        &&& self.render_pipeline == PipelineSettings::standard(self.config.format)
    }

    /// The state right after start-up.
    pub open spec fn initial(format: F, size: PhysicalSize) -> StateView<F> {
        StateView {
            config: SurfaceConfig::initial_spec(format, size),
            size,
            clear_color: ClearColor::black_spec(),
            render_pipeline: PipelineSettings::standard(format),
        }
    }

    /// The state after the window was given `new_size`. A size without
    /// area changes nothing.
    pub open spec fn resized(self, new_size: PhysicalSize) -> StateView<F> {
        if new_size.drawable() {
            StateView { config: self.config.with_size(new_size), size: new_size, ..self }
        } else {
            self
        }
    }

    /// Whether the state takes the event for itself, so that the loop
    /// does nothing more with it.
    pub open spec fn consumes(event: WindowEvent) -> bool {
        event is CursorMoved
    }

    /// The state after a window event was offered to it.
    pub open spec fn after_input(self, event: WindowEvent) -> StateView<F> {
        match event {
            WindowEvent::CursorMoved { x, y } => StateView {
                clear_color: ClearColor::tracking_spec(x, y, self.size.width, self.size.height),
                ..self
            },
            _ => self,
        }
    }

    /// The frame that is drawn in this state.
    pub open spec fn frame(self) -> FramePlan<F> {
        FramePlan::triangle_over(self.clear_color, self.render_pipeline)
    }
}

/// Everything that the loop keeps between events.
#[derive(Debug, PartialEq, Eq)]
pub struct State<F> {
    config: SurfaceConfig<F>,
    size: PhysicalSize,
    clear_color: ClearColor,
    render_pipeline: PipelineSettings<F>,
}

impl<F> View for State<F> {
    type V = StateView<F>;

    closed spec fn view(&self) -> StateView<F> {
        StateView {
            config: self.config,
            size: self.size,
            clear_color: self.clear_color,
            render_pipeline: self.render_pipeline,
        }
    }
}

impl<F> State<F> {
    /// Holds of every value of this type.
    #[verifier::type_invariant]
    pub open spec fn well_formed(self) -> bool {
        self@.wf()
    }
}

impl<F: Copy> State<F> {
    /// Sets up the state for a window of `size` whose adapter supports
    /// `formats` for the surface, most preferred first. The surface is
    /// to be configured with `config()` and the pipeline built from
    /// `pipeline()`, once.
    pub fn new(formats: &Vec<F>, size: PhysicalSize) -> (state: State<F>)
        requires
            formats@.len() > 0,
            size.drawable(),
        ensures
            state@ == StateView::initial(formats@[0], size),
            state@.wf(),
    {
        let config = SurfaceConfig::initial(formats, size);
        State {
            config,
            size,
            clear_color: ClearColor::black(),
            render_pipeline: PipelineSettings::for_format(config.format),
        }
    }

    /// Takes over a new window size. Returns whether the surface has to
    /// be configured again, with `config()`; a size without area is
    /// passed over.
    pub fn resize(&mut self, new_size: PhysicalSize) -> (reconfigure: bool)
        ensures
            final(self)@ == old(self)@.resized(new_size),
            final(self)@.wf(),
            reconfigure == new_size.drawable(),
    {
        proof {
            use_type_invariant(&*self);
        }
        if new_size.width > 0 && new_size.height > 0 {
            let config = SurfaceConfig {
                usage: self.config.usage,
                format: self.config.format,
                width: new_size.width,
                height: new_size.height,
                present_mode: self.config.present_mode,
                alpha_mode: self.config.alpha_mode,
            };
            *self = State {
                config,
                size: new_size,
                clear_color: self.clear_color,
                render_pipeline: self.render_pipeline,
            };
            true
        } else {
            false
        }
    }

    /// Offers a window event to the state. A pointer move sets the
    /// clear colour and is consumed; nothing else is.
    pub fn input(&mut self, event: &WindowEvent) -> (consumed: bool)
        ensures
            final(self)@ == old(self)@.after_input(*event),
            final(self)@.wf(),
            consumed == StateView::<F>::consumes(*event),
    {
        proof {
            use_type_invariant(&*self);
        }
        match event {
            WindowEvent::CursorMoved { x, y } => {
                *self = State {
                    config: self.config,
                    size: self.size,
                    clear_color: ClearColor::tracking(*x, *y, self.size.width, self.size.height),
                    render_pipeline: self.render_pipeline,
                };
                true
            },
            _ => false,
        }
    }

    /// The per-frame hook that runs before a frame is drawn. It has
    /// nothing to do yet.
    pub fn update(&mut self)
        ensures
            final(self)@ == old(self)@,
    {
    }

    /// Decides what one frame does, given whether the surface handed
    /// out a texture. A failure is passed on as it came; otherwise the
    /// frame's commands are returned, to be encoded, submitted and
    /// presented.
    pub fn render(&self, acquired: Result<(), SurfaceError>) -> (outcome: Result<FramePlan<F>, SurfaceError>)
        ensures
            self@.wf(),
            match acquired {
                Ok(_) => outcome == Ok::<FramePlan<F>, SurfaceError>(self@.frame()),
                Err(error) => outcome == Err::<FramePlan<F>, SurfaceError>(error),
            },
    {
        proof {
            use_type_invariant(self);
        }
        match acquired {
            Ok(_) => Ok(
                FramePlan {
                    clear_color: self.clear_color,
                    store: true,
                    depth_stencil: false,
                    pipeline: self.render_pipeline,
                    vertex_buffers: 0,
                    draw_calls: 1,
                    first_vertex: 0,
                    vertex_count: 3,
                    first_instance: 0,
                    instance_count: 1,
                },
            ),
            Err(error) => Err(error),
        }
    }

    /// The configuration that the surface has, or is to be given.
    pub fn config(&self) -> (config: SurfaceConfig<F>)
        ensures
            config == self@.config,
            self@.wf(),
    {
        proof {
            use_type_invariant(self);
        }
        self.config
    }

    /// The window's size as last taken over.
    pub fn size(&self) -> (size: PhysicalSize)
        ensures
            size == self@.size,
            self@.wf(),
    {
        proof {
            use_type_invariant(self);
        }
        self.size
    }

    pub fn clear_color(&self) -> (color: ClearColor)
        ensures
            color == self@.clear_color,
    {
        self.clear_color
    }

    /// The settings of the one pipeline that every frame is drawn with.
    pub fn pipeline(&self) -> (settings: PipelineSettings<F>)
        ensures
            settings == self@.render_pipeline,
            self@.wf(),
    {
        proof {
            use_type_invariant(self);
        }
        self.render_pipeline
    }
}

} // verus!
