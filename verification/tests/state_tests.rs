use render_loop::color::{Channel, ClearColor, Coordinate};
use render_loop::event::{Key, WindowEvent};
use render_loop::frame::SurfaceError;
use render_loop::geometry::PhysicalSize;
use render_loop::pipeline::{
    fragment_entry_point, vertex_entry_point, Blend, ColorWrites, Face, FrontFace, PipelineSettings,
    PolygonMode, Topology,
};
use render_loop::state::State;
use render_loop::surface::{AlphaMode, PresentMode, SurfaceConfig, TextureUsage};

#[derive(Clone, Copy, Debug, PartialEq, Eq)]
enum Format {
    Bgra8,
    Rgba8,
    Rgba16,
}

fn at(value: f64) -> Coordinate {
    Coordinate { bits: value.to_bits() }
}

fn number(channel: Channel) -> f64 {
    match channel {
        Channel::Zero => 0.0,
        Channel::One => 1.0,
        Channel::Ratio { numerator, denominator } => {
            f64::from_bits(numerator.bits) / denominator as f64
        }
    }
}

fn fresh(width: u32, height: u32) -> State<Format> {
    State::new(&vec![Format::Bgra8, Format::Rgba8], PhysicalSize::new(width, height))
}

#[test]
fn size_with_area_is_drawable() {
    assert!(PhysicalSize::new(1, 1).is_drawable());
    assert!(PhysicalSize::new(450, 400).is_drawable());
    assert!(PhysicalSize::new(u32::MAX, u32::MAX).is_drawable());
}

#[test]
fn size_without_area_is_not_drawable() {
    assert!(!PhysicalSize::new(0, 0).is_drawable());
    assert!(!PhysicalSize::new(0, 400).is_drawable());
    assert!(!PhysicalSize::new(450, 0).is_drawable());
}

#[test]
fn size_keeps_its_extents() {
    let size = PhysicalSize::new(450, 400);
    assert_eq!(size.width, 450);
    assert_eq!(size.height, 400);
}

#[test]
fn black_is_opaque_black() {
    let black = ClearColor::black();
    assert_eq!(black.red, Channel::Zero);
    assert_eq!(black.green, Channel::Zero);
    assert_eq!(black.blue, Channel::Zero);
    assert_eq!(black.alpha, Channel::One);
    assert_eq!(number(black.red), 0.0);
    assert_eq!(number(black.alpha), 1.0);
}

#[test]
fn tracking_colour_holds_the_quotients() {
    let color = ClearColor::tracking(at(90.0), at(300.0), 450, 400);
    assert_eq!(color.red, Channel::Ratio { numerator: at(90.0), denominator: 450 });
    assert_eq!(color.green, Channel::Ratio { numerator: at(300.0), denominator: 400 });
    assert_eq!(color.blue, Channel::One);
    assert_eq!(color.alpha, Channel::One);
    assert_eq!(number(color.red), 0.2);
    assert_eq!(number(color.green), 0.75);
}

#[test]
fn initial_config_takes_the_first_format() {
    let config = SurfaceConfig::initial(
        &vec![Format::Rgba16, Format::Bgra8, Format::Rgba8],
        PhysicalSize::new(800, 600),
    );
    assert_eq!(
        config,
        SurfaceConfig {
            usage: TextureUsage::RenderAttachment,
            format: Format::Rgba16,
            width: 800,
            height: 600,
            present_mode: PresentMode::Fifo,
            alpha_mode: AlphaMode::Auto,
        }
    );
}

#[test]
fn initial_config_with_a_single_format() {
    let config = SurfaceConfig::initial(&vec![Format::Rgba8], PhysicalSize::new(1, 1));
    assert_eq!(config.format, Format::Rgba8);
    assert_eq!((config.width, config.height), (1, 1));
}

#[test]
fn standard_pipeline_settings() {
    let settings = PipelineSettings::for_format(Format::Bgra8);
    assert_eq!(settings.bind_group_layouts, 0);
    assert_eq!(settings.push_constant_ranges, 0);
    assert_eq!(settings.vertex_buffers, 0);
    assert_eq!(settings.topology, Topology::TriangleList);
    assert!(!settings.indexed_strips);
    assert_eq!(settings.front_face, FrontFace::CounterClockwise);
    assert_eq!(settings.cull_mode, Some(Face::Back));
    assert_eq!(settings.polygon_mode, PolygonMode::Fill);
    assert!(!settings.unclipped_depth);
    assert!(!settings.conservative);
    assert!(!settings.depth_stencil);
    assert_eq!(settings.sample_count, 1);
    assert_eq!(settings.sample_mask, u64::MAX);
    assert!(!settings.alpha_to_coverage);
    assert!(!settings.multiview);
    assert_eq!(settings.target_format, Format::Bgra8);
    assert_eq!(settings.blend, Some(Blend::Replace));
    assert_eq!(
        settings.write_mask,
        ColorWrites { red: true, green: true, blue: true, alpha: true }
    );
}

#[test]
fn pipeline_targets_the_given_format() {
    assert_eq!(PipelineSettings::for_format(Format::Rgba16).target_format, Format::Rgba16);
    assert_eq!(PipelineSettings::for_format(7u32).target_format, 7);
}

#[test]
fn shader_entry_points() {
    assert_eq!(vertex_entry_point(), "vs_main");
    assert_eq!(fragment_entry_point(), "fs_main");
}

#[test]
fn new_state_is_black_and_configured_for_the_window() {
    let state = fresh(450, 400);
    assert_eq!(state.size(), PhysicalSize::new(450, 400));
    assert_eq!(
        state.config(),
        SurfaceConfig {
            usage: TextureUsage::RenderAttachment,
            format: Format::Bgra8,
            width: 450,
            height: 400,
            present_mode: PresentMode::Fifo,
            alpha_mode: AlphaMode::Auto,
        }
    );
    assert_eq!(state.clear_color(), ClearColor::black());
    assert_eq!(state.pipeline(), PipelineSettings::for_format(Format::Bgra8));
}

#[test]
fn resize_to_a_drawable_size_is_taken_over() {
    let mut state = fresh(450, 400);
    assert!(state.resize(PhysicalSize::new(1024, 768)));
    assert_eq!(state.size(), PhysicalSize::new(1024, 768));
    assert_eq!(state.config().width, 1024);
    assert_eq!(state.config().height, 768);
    assert_eq!(state.config().format, Format::Bgra8);
    assert_eq!(state.config().present_mode, PresentMode::Fifo);
    assert_eq!(state.config().alpha_mode, AlphaMode::Auto);
    assert_eq!(state.config().usage, TextureUsage::RenderAttachment);
}

#[test]
fn resize_to_zero_width_changes_nothing() {
    let mut state = fresh(450, 400);
    let config = state.config();
    assert!(!state.resize(PhysicalSize::new(0, 300)));
    assert_eq!(state.size(), PhysicalSize::new(450, 400));
    assert_eq!(state.config(), config);
}

#[test]
fn resize_to_zero_height_changes_nothing() {
    let mut state = fresh(450, 400);
    let config = state.config();
    assert!(!state.resize(PhysicalSize::new(300, 0)));
    assert_eq!(state.size(), PhysicalSize::new(450, 400));
    assert_eq!(state.config(), config);
}

#[test]
fn resize_to_nothing_changes_nothing() {
    let mut state = fresh(450, 400);
    let config = state.config();
    assert!(!state.resize(PhysicalSize::new(0, 0)));
    assert_eq!(state.size(), PhysicalSize::new(450, 400));
    assert_eq!(state.config(), config);
}

#[test]
fn resize_twice_is_resize_once() {
    let mut once = fresh(450, 400);
    once.resize(PhysicalSize::new(640, 480));
    let mut twice = fresh(450, 400);
    twice.resize(PhysicalSize::new(640, 480));
    assert!(twice.resize(PhysicalSize::new(640, 480)));
    assert_eq!(once, twice);
    assert_eq!(twice.config().width, 640);
    assert_eq!(twice.config().height, 480);
}

#[test]
fn resizes_keep_the_latest_drawable_size() {
    let mut state = fresh(450, 400);
    let sizes = [(800, 600), (0, 600), (1280, 720), (0, 0), (1280, 0)];
    for (width, height) in sizes {
        state.resize(PhysicalSize::new(width, height));
    }
    assert_eq!(state.size(), PhysicalSize::new(1280, 720));
    assert_eq!((state.config().width, state.config().height), (1280, 720));
    state.resize(PhysicalSize::new(1, 1));
    assert_eq!(state.size(), PhysicalSize::new(1, 1));
    assert_eq!((state.config().width, state.config().height), (1, 1));
}

#[test]
fn resize_keeps_colour_and_pipeline() {
    let mut state = fresh(450, 400);
    state.input(&WindowEvent::CursorMoved { x: at(10.0), y: at(20.0) });
    let color = state.clear_color();
    let pipeline = state.pipeline();
    state.resize(PhysicalSize::new(900, 800));
    assert_eq!(state.clear_color(), color);
    assert_eq!(state.pipeline(), pipeline);
}

#[test]
fn pointer_move_sets_the_colour_and_is_consumed() {
    let mut state = fresh(450, 400);
    assert!(state.input(&WindowEvent::CursorMoved { x: at(45.0), y: at(100.0) }));
    let color = state.clear_color();
    assert_eq!(color, ClearColor::tracking(at(45.0), at(100.0), 450, 400));
    assert_eq!(number(color.red), 0.1);
    assert_eq!(number(color.green), 0.25);
    assert_eq!(number(color.blue), 1.0);
    assert_eq!(number(color.alpha), 1.0);
}

#[test]
fn pointer_colour_uses_the_current_size() {
    let mut state = fresh(450, 400);
    state.resize(PhysicalSize::new(900, 800));
    state.input(&WindowEvent::CursorMoved { x: at(450.0), y: at(200.0) });
    assert_eq!(number(state.clear_color().red), 0.5);
    assert_eq!(number(state.clear_color().green), 0.25);
}

#[test]
fn pointer_colour_follows_the_latest_move() {
    let mut state = fresh(100, 100);
    state.input(&WindowEvent::CursorMoved { x: at(10.0), y: at(10.0) });
    state.input(&WindowEvent::CursorMoved { x: at(75.0), y: at(50.0) });
    assert_eq!(number(state.clear_color().red), 0.75);
    assert_eq!(number(state.clear_color().green), 0.5);
}

#[test]
fn pointer_colour_is_not_clamped() {
    let mut state = fresh(100, 100);
    state.input(&WindowEvent::CursorMoved { x: at(200.0), y: at(-50.0) });
    assert_eq!(number(state.clear_color().red), 2.0);
    assert_eq!(number(state.clear_color().green), -0.5);
}

#[test]
fn pointer_at_the_corners() {
    let mut state = fresh(450, 400);
    state.input(&WindowEvent::CursorMoved { x: at(0.0), y: at(0.0) });
    assert_eq!(number(state.clear_color().red), 0.0);
    assert_eq!(number(state.clear_color().green), 0.0);
    state.input(&WindowEvent::CursorMoved { x: at(450.0), y: at(400.0) });
    assert_eq!(number(state.clear_color().red), 1.0);
    assert_eq!(number(state.clear_color().green), 1.0);
}

#[test]
fn other_events_are_not_consumed() {
    let mut state = fresh(450, 400);
    state.input(&WindowEvent::CursorMoved { x: at(45.0), y: at(100.0) });
    let color = state.clear_color();
    let config = state.config();
    let events = [
        WindowEvent::CloseRequested,
        WindowEvent::KeyboardInput { pressed: true, key: Some(Key::Escape) },
        WindowEvent::KeyboardInput { pressed: false, key: None },
        WindowEvent::Resized(PhysicalSize::new(10, 10)),
        WindowEvent::ScaleFactorChanged { new_inner_size: PhysicalSize::new(10, 10) },
        WindowEvent::Other,
    ];
    for event in events {
        assert!(!state.input(&event));
        assert_eq!(state.clear_color(), color);
        assert_eq!(state.config(), config);
        assert_eq!(state.size(), PhysicalSize::new(450, 400));
    }
}

#[test]
fn update_changes_nothing() {
    let mut state = fresh(450, 400);
    state.input(&WindowEvent::CursorMoved { x: at(45.0), y: at(100.0) });
    let color = state.clear_color();
    let config = state.config();
    state.update();
    assert_eq!(state.clear_color(), color);
    assert_eq!(state.config(), config);
    assert_eq!(state.size(), PhysicalSize::new(450, 400));
    assert_eq!(state.pipeline(), PipelineSettings::for_format(Format::Bgra8));
}

#[test]
fn render_draws_one_triangle() {
    let state = fresh(450, 400);
    let plan = state.render(Ok(())).unwrap();
    assert_eq!(plan.clear_color, ClearColor::black());
    assert!(plan.store);
    assert!(!plan.depth_stencil);
    assert_eq!(plan.pipeline, state.pipeline());
    assert_eq!(plan.vertex_buffers, 0);
    assert_eq!(plan.draw_calls, 1);
    assert_eq!(plan.first_vertex, 0);
    assert_eq!(plan.vertex_count, 3);
    assert_eq!(plan.first_instance, 0);
    assert_eq!(plan.instance_count, 1);
}

#[test]
fn render_passes_every_failure_on() {
    let state = fresh(450, 400);
    assert_eq!(state.render(Err(SurfaceError::Timeout)), Err(SurfaceError::Timeout));
    assert_eq!(state.render(Err(SurfaceError::Outdated)), Err(SurfaceError::Outdated));
    assert_eq!(state.render(Err(SurfaceError::Lost)), Err(SurfaceError::Lost));
    assert_eq!(state.render(Err(SurfaceError::OutOfMemory)), Err(SurfaceError::OutOfMemory));
}

#[test]
fn pointer_in_the_middle_gives_half_red_half_green() {
    let mut state = fresh(450, 400);
    assert!(state.input(&WindowEvent::CursorMoved { x: at(225.0), y: at(200.0) }));
    let color = state.clear_color();
    assert_eq!(
        (number(color.red), number(color.green), number(color.blue), number(color.alpha)),
        (0.5, 0.5, 1.0, 1.0)
    );
    let plan = state.render(Ok(())).unwrap();
    assert_eq!(plan.clear_color, color);
    assert_eq!(plan.draw_calls, 1);
    assert_eq!(plan.vertex_count, 3);
    assert_eq!(plan.instance_count, 1);
    assert_eq!(plan.vertex_buffers, 0);
    assert_eq!(plan.pipeline.vertex_buffers, 0);
}
