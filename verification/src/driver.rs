use vstd::prelude::*;
use crate::event::{Event, Key, WindowEvent};
use crate::frame::{FramePlan, SurfaceError};
use crate::geometry::PhysicalSize;
use crate::state::{State, StateView};
use crate::surface::SurfaceConfig;

verus! {

/// Whether the loop is still running.
#[derive(Clone, Copy, Debug, PartialEq, Eq, Structural)]
pub enum Phase {
    Idle,
    /// The loop has been told to stop. Nothing leads back from here.
    Exiting,
}

/// What the caller is to do after the driver has seen an event or the
/// outcome of a frame.
#[derive(Clone, Copy, Debug, PartialEq, Eq)]
pub enum Action<F> {
    Nothing,
    /// Configure the surface against the device with this configuration.
    ConfigureSurface(SurfaceConfig<F>),
    /// Ask the surface for its next texture and report the outcome with
    /// `redraw`.
    AcquireFrame,
    /// Encode these commands over the acquired texture, submit them and
    /// present the texture.
    Draw(FramePlan<F>),
    /// Log the error; the frame is skipped.
    Report(SurfaceError),
    /// Ask the window to be redrawn.
    RequestRedraw,
    /// Stop the loop.
    Exit,
}

/// What a driver holds, as contracts speak of it.
pub ghost struct DriverView<F> {
    pub state: StateView<F>,
    pub phase: Phase,
}

impl<F> DriverView<F> {
    /// The driver after `event` was dispatched. Once exiting, nothing
    /// changes. An event of the drawn window is first offered to the
    /// state; one that the state leaves alone stops the loop, or
    /// resizes, or is dropped. Every other event leaves the driver as
    /// it is.
    pub open spec fn after_event(self, event: Event) -> DriverView<F> {
        if self.phase == Phase::Exiting {
            self
        } else {
            match event {
                Event::Window { event, own_window: true } => {
                    if StateView::<F>::consumes(event) {
                        DriverView { state: self.state.after_input(event), ..self }
                    } else if event.asks_to_exit() {
                        DriverView { phase: Phase::Exiting, ..self }
                    } else {
                        match event.announced_size() {
                            Some(size) => DriverView { state: self.state.resized(size), ..self },
                            None => self,
                        }
                    }
                },
                _ => self,
            }
        }
    }

    /// What the caller is told to do when `event` is dispatched.
    pub open spec fn action_for_event(self, event: Event) -> Action<F> {
        if self.phase == Phase::Exiting {
            Action::Exit
        } else {
            match event {
                Event::Window { event, own_window: true } => {
                    if StateView::<F>::consumes(event) {
                        Action::Nothing
                    } else if event.asks_to_exit() {
                        Action::Exit
                    } else {
                        match event.announced_size() {
                            Some(size) if size.drawable() => Action::ConfigureSurface(
                                self.state.resized(size).config,
                            ),
                            _ => Action::Nothing,
                        }
                    }
                },
                Event::RedrawRequested { own_window: true } => Action::AcquireFrame,
                Event::MainEventsCleared => Action::RequestRedraw,
                _ => Action::Nothing,
            }
        }
    }

    /// The driver after a frame whose texture was or was not acquired.
    /// A lost surface is answered by resizing to the size that the
    /// state already has; running out of memory stops the loop.
    pub open spec fn after_frame(self, acquired: Result<(), SurfaceError>) -> DriverView<F> {
        if self.phase == Phase::Exiting {
            self
        } else {
            match acquired {
                Err(SurfaceError::Lost) => DriverView {
                    state: self.state.resized(self.state.size),
                    ..self
                },
                Err(SurfaceError::OutOfMemory) => DriverView { phase: Phase::Exiting, ..self },
                _ => self,
            }
        }
    }

    /// What the caller is told to do after such a frame.
    pub open spec fn action_for_frame(self, acquired: Result<(), SurfaceError>) -> Action<F> {
        if self.phase == Phase::Exiting {
            Action::Exit
        } else {
            match acquired {
                Ok(_) => Action::Draw(self.state.frame()),
                Err(SurfaceError::Lost) => {
                    if self.state.size.drawable() {
                        Action::ConfigureSurface(self.state.resized(self.state.size).config)
                    } else {
                        Action::Nothing
                    }
                },
                Err(SurfaceError::OutOfMemory) => Action::Exit,
                Err(error) => Action::Report(error),
            }
        }
    }
}

/// The loop's state machine: the render state and whether the loop is
/// still running.
#[derive(Debug, PartialEq, Eq)]
pub struct EventLoopDriver<F> {
    state: State<F>,
    phase: Phase,
}

impl<F> View for EventLoopDriver<F> {
    type V = DriverView<F>;

    closed spec fn view(&self) -> DriverView<F> {
        DriverView { state: self.state@, phase: self.phase }
    }
}

impl<F: Copy> EventLoopDriver<F> {
    /// A running loop over `state`.
    pub fn new(state: State<F>) -> (driver: EventLoopDriver<F>)
        ensures
            driver@ == (DriverView { state: state@, phase: Phase::Idle }),
    {
        EventLoopDriver { state, phase: Phase::Idle }
    }

    /// Handles one event of the window system and says what is to be
    /// done about it.
    pub fn dispatch(&mut self, event: &Event) -> (action: Action<F>)
        ensures
            final(self)@ == old(self)@.after_event(*event),
            action == old(self)@.action_for_event(*event),
            final(self)@.state.wf(),
    {
        proof {
            use_type_invariant(&self.state);
        }
        if self.is_exiting() {
            return Action::Exit;
        }
        match event {
            Event::Window { event: window_event, own_window: true } => {
                if self.state.input(window_event) {
                    Action::Nothing
                } else {
                    match window_event {
                        WindowEvent::CloseRequested
                        | WindowEvent::KeyboardInput { pressed: true, key: Some(Key::Escape) } => {
                            self.phase = Phase::Exiting;
                            Action::Exit
                        },
                        WindowEvent::Resized(size) => self.apply_size(*size),
                        WindowEvent::ScaleFactorChanged { new_inner_size } => self.apply_size(
                            *new_inner_size,
                        ),
                        _ => Action::Nothing,
                    }
                }
            },
            Event::RedrawRequested { own_window: true } => Action::AcquireFrame,
            Event::MainEventsCleared => Action::RequestRedraw,
            _ => Action::Nothing,
        }
    }

    /// Handles a request to redraw, once the caller has asked the
    /// surface for a texture: runs the per-frame hook, decides the
    /// frame, and answers a failure as the loop's policy has it.
    pub fn redraw(&mut self, acquired: Result<(), SurfaceError>) -> (action: Action<F>)
        ensures
            final(self)@ == old(self)@.after_frame(acquired),
            action == old(self)@.action_for_frame(acquired),
            final(self)@.state.wf(),
    {
        proof {
            use_type_invariant(&self.state);
        }
        if self.is_exiting() {
            return Action::Exit;
        }
        self.state.update();
        match self.state.render(acquired) {
            Ok(plan) => Action::Draw(plan),
            Err(SurfaceError::Lost) => {
                let size = self.state.size();
                self.apply_size(size)
            },
            Err(SurfaceError::OutOfMemory) => {
                self.phase = Phase::Exiting;
                Action::Exit
            },
            Err(error) => Action::Report(error),
        }
    }

    fn apply_size(&mut self, size: PhysicalSize) -> (action: Action<F>)
        ensures
            final(self)@.state == old(self)@.state.resized(size),
            final(self)@.phase == old(self)@.phase,
            final(self)@.state.wf(),
            action == (if size.drawable() {
                Action::ConfigureSurface(final(self)@.state.config)
            } else {
                Action::Nothing
            }),
    {
        if self.state.resize(size) {
            Action::ConfigureSurface(self.state.config())
        } else {
            Action::Nothing
        }
    }

    pub fn phase(&self) -> (phase: Phase)
        ensures
            phase == self@.phase,
    {
        self.phase
    }

    /// Whether the loop has been told to stop.
    pub fn is_exiting(&self) -> (yes: bool)
        ensures
            yes == (self@.phase == Phase::Exiting),
    {
        match self.phase {
            Phase::Exiting => true,
            Phase::Idle => false,
        }
    }

    /// The render state that the loop drives.
    pub fn state(&self) -> (state: &State<F>)
        ensures
            state@ == self@.state,
    {
        &self.state
    }
}

} // verus!
