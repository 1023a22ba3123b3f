//! What holds of the render state and of the loop over whole histories
//! of events, proved from the single steps.

use vstd::prelude::*;
use crate::color::{ClearColor, Coordinate};
use crate::driver::{Action, DriverView, Phase};
use crate::event::{Event, WindowEvent};
use crate::frame::SurfaceError;
use crate::geometry::PhysicalSize;
use crate::pipeline::PipelineSettings;
use crate::state::StateView;
use crate::surface::SurfaceConfig;

verus! {

/// The state after the window was given each of `sizes` in turn.
pub open spec fn resized_through<F>(state: StateView<F>, sizes: Seq<PhysicalSize>) -> StateView<F>
    decreases sizes.len(),
{
    if sizes.len() == 0 {
        state
    } else {
        resized_through(state, sizes.drop_last()).resized(sizes.last())
    }
}

/// Whether `sizes[at]` has area and no later size has.
pub open spec fn latest_drawable(sizes: Seq<PhysicalSize>, at: int) -> bool {
    &&& 0 <= at < sizes.len()
    &&& sizes[at].drawable()
    &&& forall|later: int| at < later < sizes.len() ==> !(#[trigger] sizes[later]).drawable()
}

/// Resizing is never undone by a size without area: a size with area
/// becomes the stored size and the configuration's extent, and a size
/// without area leaves the state as it was.
pub proof fn resize_takes_drawable_sizes_only<F>(state: StateView<F>, size: PhysicalSize)
    ensures
        size.drawable() ==> state.resized(size).size == size && state.resized(size).config.covers(size),
        !size.drawable() ==> state.resized(size) == state,
        state.resized(size).config.format == state.config.format,
        state.resized(size).clear_color == state.clear_color,
        state.resized(size).render_pipeline == state.render_pipeline,
        state.wf() ==> state.resized(size).wf(),
{
}

/// After any number of resizes the state is what the latest size with
/// area alone would have made it, and where no size had area it is
/// unchanged.
pub proof fn resizes_keep_latest_drawable<F>(state: StateView<F>, sizes: Seq<PhysicalSize>)
    ensures
        (forall|i: int| 0 <= i < sizes.len() ==> !(#[trigger] sizes[i]).drawable())
            ==> resized_through(state, sizes) == state,
        forall|at: int| #[trigger]
            latest_drawable(sizes, at) ==> resized_through(state, sizes) == state.resized(sizes[at]),
        resized_through(state, sizes).clear_color == state.clear_color,
        resized_through(state, sizes).render_pipeline == state.render_pipeline,
        forall|size: PhysicalSize| #[trigger]
            resized_through(state, sizes).config.with_size(size) == state.config.with_size(size),
        state.wf() ==> resized_through(state, sizes).wf(),
    decreases sizes.len(),
{
    if sizes.len() > 0 {
        let earlier = sizes.drop_last();
        let before = resized_through(state, earlier);
        resizes_keep_latest_drawable(state, earlier);
        assert(before.config.with_size(sizes.last()) == state.config.with_size(sizes.last()));
        assert forall|size: PhysicalSize| #[trigger]
            resized_through(state, sizes).config.with_size(size) == state.config.with_size(
                size,
            ) by {
            assert(before.config.with_size(size) == state.config.with_size(size));
        }
        assert forall|at: int| #[trigger] latest_drawable(sizes, at) implies resized_through(
            state,
            sizes,
        ) == state.resized(sizes[at]) by {
            if at < sizes.len() - 1 {
                assert(!sizes[sizes.len() - 1].drawable());
                assert(earlier[at] == sizes[at]);
                assert forall|later: int| at < later < earlier.len() implies !earlier[later].drawable() by {
                    assert(earlier[later] == sizes[later]);
                }
                assert(latest_drawable(earlier, at));
            }
        }
        if forall|i: int| 0 <= i < sizes.len() ==> !(#[trigger] sizes[i]).drawable() {
            assert forall|i: int| 0 <= i < earlier.len() implies !earlier[i].drawable() by {
                assert(earlier[i] == sizes[i]);
            }
            assert(!sizes[sizes.len() - 1].drawable());
        }
    }
}

/// Resizing twice to one size gives what resizing once gives.
pub proof fn resize_is_idempotent<F>(state: StateView<F>, size: PhysicalSize)
    ensures
        state.resized(size).resized(size) == state.resized(size),
{
}

/// A pointer move sets the colour from the pointer's place and the
/// window's size alone, whatever the colour was, and touches nothing
/// else; no other event touches the state at all.
pub proof fn colour_follows_pointer<F>(state: StateView<F>, event: WindowEvent)
    ensures
        match event {
            WindowEvent::CursorMoved { x, y } => state.after_input(event) == (StateView {
                clear_color: ClearColor::tracking_spec(
                    x,
                    y,
                    state.size.width,
                    state.size.height,
                ),
                ..state
            }),
            _ => state.after_input(event) == state,
        },
        state.wf() ==> state.after_input(event).wf(),
{
}

/// One thing that the loop reacts to: an event of the window system, or
/// the outcome of asking the surface for a texture.
pub ghost enum Stimulus {
    Event(Event),
    Frame(Result<(), SurfaceError>),
}

/// The driver after one stimulus.
pub open spec fn step<F>(driver: DriverView<F>, stimulus: Stimulus) -> DriverView<F> {
    match stimulus {
        Stimulus::Event(event) => driver.after_event(event),
        Stimulus::Frame(acquired) => driver.after_frame(acquired),
    }
}

/// What the caller is told to do on one stimulus.
pub open spec fn action<F>(driver: DriverView<F>, stimulus: Stimulus) -> Action<F> {
    match stimulus {
        Stimulus::Event(event) => driver.action_for_event(event),
        Stimulus::Frame(acquired) => driver.action_for_frame(acquired),
    }
}

/// The driver after a whole history of stimuli.
pub open spec fn run<F>(driver: DriverView<F>, history: Seq<Stimulus>) -> DriverView<F>
    decreases history.len(),
{
    if history.len() == 0 {
        driver
    } else {
        step(run(driver, history.drop_last()), history.last())
    }
}

/// Whether `action` draws nothing, or draws with `pipeline`.
pub open spec fn draws_with<F>(action: Action<F>, pipeline: PipelineSettings<F>) -> bool {
    match action {
        Action::Draw(plan) => plan.pipeline == pipeline,
        _ => true,
    }
}

/// Whether `action` configures no surface, or configures one with
/// `config` and `config` has area.
pub open spec fn configures_with<F>(action: Action<F>, config: SurfaceConfig<F>) -> bool {
    match action {
        Action::ConfigureSurface(given) => given == config && given.width > 0 && given.height > 0,
        _ => true,
    }
}

/// No step rebuilds the pipeline or changes the surface's format, and
/// every step keeps the state well formed. A frame that is drawn uses
/// the state's pipeline, and a surface is configured only with the
/// configuration that the state holds after the step, which has area.
pub proof fn step_keeps_pipeline<F>(driver: DriverView<F>, stimulus: Stimulus)
    requires
        driver.state.wf(),
    ensures
        step(driver, stimulus).state.wf(),
        step(driver, stimulus).state.render_pipeline == driver.state.render_pipeline,
        step(driver, stimulus).state.config.format == driver.state.config.format,
        draws_with(action(driver, stimulus), driver.state.render_pipeline),
        configures_with(action(driver, stimulus), step(driver, stimulus).state.config),
{
}

/// Through any history the pipeline stays the one that the loop began
/// with, and so does the surface's format.
pub proof fn pipeline_is_never_rebuilt<F>(driver: DriverView<F>, history: Seq<Stimulus>)
    requires
        driver.state.wf(),
    ensures
        run(driver, history).state.wf(),
        run(driver, history).state.render_pipeline == driver.state.render_pipeline,
        run(driver, history).state.config.format == driver.state.config.format,
    decreases history.len(),
{
    if history.len() > 0 {
        pipeline_is_never_rebuilt(driver, history.drop_last());
        step_keeps_pipeline(run(driver, history.drop_last()), history.last());
    }
}

/// Every frame that is drawn in the course of a history is drawn with
/// the pipeline that the loop began with.
pub proof fn every_frame_uses_the_first_pipeline<F>(driver: DriverView<F>, history: Seq<Stimulus>)
    requires
        driver.state.wf(),
    ensures
        forall|n: int|
            0 <= n < history.len() ==> draws_with(
                #[trigger] action(run(driver, history.take(n)), history[n]),
                driver.state.render_pipeline,
            ),
{
    assert forall|n: int| 0 <= n < history.len() implies draws_with(
        #[trigger] action(run(driver, history.take(n)), history[n]),
        driver.state.render_pipeline,
    ) by {
        pipeline_is_never_rebuilt(driver, history.take(n));
        step_keeps_pipeline(run(driver, history.take(n)), history[n]);
    }
}

/// Whenever the caller is told to configure the surface in the course
/// of a history, it is with the configuration that the state then
/// holds, and never with one that has no area.
pub proof fn surface_is_configured_with_area<F>(driver: DriverView<F>, history: Seq<Stimulus>)
    requires
        driver.state.wf(),
    ensures
        forall|n: int|
            0 <= n < history.len() ==> configures_with(
                #[trigger] action(run(driver, history.take(n)), history[n]),
                step(run(driver, history.take(n)), history[n]).state.config,
            ),
{
    assert forall|n: int| 0 <= n < history.len() implies configures_with(
        #[trigger] action(run(driver, history.take(n)), history[n]),
        step(run(driver, history.take(n)), history[n]).state.config,
    ) by {
        pipeline_is_never_rebuilt(driver, history.take(n));
        step_keeps_pipeline(run(driver, history.take(n)), history[n]);
    }
}

/// Whether `stimulus` is a pointer move in the drawn window.
pub open spec fn moves_pointer(stimulus: Stimulus) -> bool {
    match stimulus {
        Stimulus::Event(Event::Window { event, own_window: true }) => event is CursorMoved,
        _ => false,
    }
}

/// Nothing but a pointer move in the drawn window changes the colour.
pub proof fn colour_changes_only_with_the_pointer<F>(driver: DriverView<F>, stimulus: Stimulus)
    requires
        !moves_pointer(stimulus),
    ensures
        step(driver, stimulus).state.clear_color == driver.state.clear_color,
{
}

/// A history without a pointer move leaves the colour as it was.
pub proof fn colour_stays_without_pointer_moves<F>(driver: DriverView<F>, history: Seq<Stimulus>)
    requires
        forall|n: int| 0 <= n < history.len() ==> !moves_pointer(#[trigger] history[n]),
    ensures
        run(driver, history).state.clear_color == driver.state.clear_color,
    decreases history.len(),
{
    if history.len() > 0 {
        let earlier = history.drop_last();
        assert forall|n: int| 0 <= n < earlier.len() implies !moves_pointer(#[trigger] earlier[n]) by {
            assert(earlier[n] == history[n]);
        }
        colour_stays_without_pointer_moves(driver, earlier);
        colour_changes_only_with_the_pointer(run(driver, earlier), history.last());
    }
}

/// The colour is set by the latest pointer move alone: where the
/// pointer last moved, to (`x`, `y`), at place `at` of a history, while
/// the loop was running, the colour at the end is `x` over the width
/// and `y` over the height that the window had at that move, with blue
/// and alpha 1.
pub proof fn colour_follows_the_latest_pointer_move<F>(
    driver: DriverView<F>,
    history: Seq<Stimulus>,
    at: int,
    x: Coordinate,
    y: Coordinate,
)
    requires
        0 <= at < history.len(),
        history[at] == Stimulus::Event(
            Event::Window { event: WindowEvent::CursorMoved { x, y }, own_window: true },
        ),
        forall|later: int| at < later < history.len() ==> !moves_pointer(#[trigger] history[later]),
        run(driver, history.take(at)).phase == Phase::Idle,
    ensures
        run(driver, history).state.clear_color == ClearColor::tracking_spec(
            x,
            y,
            run(driver, history.take(at)).state.size.width,
            run(driver, history.take(at)).state.size.height,
        ),
    decreases history.len(),
{
    let earlier = history.drop_last();
    if at == history.len() - 1 {
        assert(earlier =~= history.take(at));
    } else {
        assert(earlier.take(at) =~= history.take(at));
        assert(earlier[at] == history[at]);
        assert forall|later: int| at < later < earlier.len() implies !moves_pointer(
            #[trigger] earlier[later],
        ) by {
            assert(earlier[later] == history[later]);
        }
        colour_follows_the_latest_pointer_move(driver, earlier, at, x, y);
        colour_changes_only_with_the_pointer(run(driver, earlier), history.last());
    }
}

/// A lost surface is answered at once by a resize to the size that the
/// state already has: the caller is told to configure the surface anew
/// with the configuration it had, size, configuration and everything
/// else in the state stay as they were, and the loop goes on.
pub proof fn lost_surface_is_reconfigured_in_place<F>(driver: DriverView<F>)
    requires
        driver.state.wf(),
        driver.phase == Phase::Idle,
    ensures
        driver.after_frame(Err(SurfaceError::Lost)).state == driver.state.resized(driver.state.size),
        driver.after_frame(Err(SurfaceError::Lost)) == driver,
        driver.action_for_frame(Err(SurfaceError::Lost)) == Action::ConfigureSurface(
            driver.state.config,
        ),
        driver.state.config.covers(driver.state.size),
{
}

/// A request to close the drawn window, or the Escape key going down in
/// it, stops a running loop on that very dispatch and leaves the render
/// state untouched.
pub proof fn exit_request_stops_the_loop<F>(driver: DriverView<F>, event: WindowEvent)
    requires
        driver.phase == Phase::Idle,
        event.asks_to_exit(),
    ensures
        driver.after_event(Event::Window { event, own_window: true }).phase == Phase::Exiting,
        driver.after_event(Event::Window { event, own_window: true }).state == driver.state,
        driver.action_for_event(Event::Window { event, own_window: true }) == Action::<F>::Exit,
{
}

/// Running out of memory stops a running loop.
pub proof fn out_of_memory_stops_the_loop<F>(driver: DriverView<F>)
    requires
        driver.phase == Phase::Idle,
    ensures
        driver.after_frame(Err(SurfaceError::OutOfMemory)).phase == Phase::Exiting,
        driver.action_for_frame(Err(SurfaceError::OutOfMemory)) == Action::<F>::Exit,
{
}

/// A frame that could not be had for want of time, or because the
/// surface is out of date, is reported and skipped: nothing changes.
pub proof fn passing_failure_skips_the_frame<F>(driver: DriverView<F>, error: SurfaceError)
    requires
        driver.phase == Phase::Idle,
        error == SurfaceError::Timeout || error == SurfaceError::Outdated,
    ensures
        driver.after_frame(Err(error)) == driver,
        driver.action_for_frame(Err(error)) == Action::<F>::Report(error),
{
}

/// Exiting is final: whatever comes after, the driver stays as it is
/// and every answer is to stop.
pub proof fn exiting_is_terminal<F>(driver: DriverView<F>, history: Seq<Stimulus>)
    requires
        driver.phase == Phase::Exiting,
    ensures
        run(driver, history) == driver,
        forall|stimulus: Stimulus| #[trigger] action(driver, stimulus) == Action::<F>::Exit,
    decreases history.len(),
{
    if history.len() > 0 {
        exiting_is_terminal(driver, history.drop_last());
    }
}

} // verus!
