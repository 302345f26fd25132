//! Tests of scene encoding, configuration policy and the decoder handoff.

use aphrodite::gpu::choose_format;
use aphrodite::gpu::plan_surface_config;
use aphrodite::gpu::GpuSurfaceBinding;
use aphrodite::gpu::PresentMode;
use aphrodite::gpu::SurfaceConfig;
use aphrodite::modes::connection_supported;
use aphrodite::modes::ConnectionMode;
use aphrodite::modes::RenderType;
use aphrodite::pixels::PixelBuffer;
use aphrodite::pixels::PixelBufferError;
use aphrodite::scene::DrawCommand;
use aphrodite::scene::ImageQuad;
use aphrodite::scene::SceneContent;
use aphrodite::scene::QUAD_VERTEX_COUNT;

const PIPELINE: u64 = 500;

fn quad(n: u64) -> ImageQuad {
    ImageQuad { texture: n, sampler: n + 1, bind_group: n + 2, vertex_buffer: n + 3 }
}

#[test]
fn empty_scene_encodes_nothing() {
    let cmds = SceneContent::Empty.encode(PIPELINE);
    assert_eq!(cmds, Vec::new());
}

#[test]
fn static_image_encodes_pipeline_then_one_quad() {
    let q = quad(10);
    let cmds = SceneContent::StaticImage(q).encode(PIPELINE);
    assert_eq!(
        cmds,
        vec![
            DrawCommand::BindPipeline(PIPELINE),
            DrawCommand::BindGroup(12),
            DrawCommand::BindVertexBuffer(13),
            DrawCommand::Draw(QUAD_VERTEX_COUNT),
        ]
    );
}

#[test]
fn flat_scene_draws_quads_in_painter_order() {
    let scene = SceneContent::FlatScene2D(vec![quad(10), quad(20)]);
    let cmds = scene.encode(PIPELINE);
    assert_eq!(
        cmds,
        vec![
            DrawCommand::BindPipeline(PIPELINE),
            DrawCommand::BindGroup(12),
            DrawCommand::BindVertexBuffer(13),
            DrawCommand::Draw(QUAD_VERTEX_COUNT),
            DrawCommand::BindGroup(22),
            DrawCommand::BindVertexBuffer(23),
            DrawCommand::Draw(QUAD_VERTEX_COUNT),
        ]
    );
}

#[test]
fn animated_scene_draws_only_the_current_frame() {
    let mut scene = SceneContent::AnimatedImage {
        frames: vec![quad(10), quad(20)],
        frame_index: 0,
        frame_duration_ms: 40,
    };
    let first = scene.encode(PIPELINE);
    assert_eq!(
        first,
        vec![
            DrawCommand::BindPipeline(PIPELINE),
            DrawCommand::BindGroup(12),
            DrawCommand::BindVertexBuffer(13),
            DrawCommand::Draw(QUAD_VERTEX_COUNT),
        ]
    );
    scene.advance_frame();
    let second = scene.encode(PIPELINE);
    assert_eq!(
        second,
        vec![
            DrawCommand::BindPipeline(PIPELINE),
            DrawCommand::BindGroup(22),
            DrawCommand::BindVertexBuffer(23),
            DrawCommand::Draw(QUAD_VERTEX_COUNT),
        ]
    );
}

#[test]
fn advance_frame_wraps_and_leaves_still_content_alone() {
    let mut animated = SceneContent::AnimatedImage {
        frames: vec![quad(10), quad(20)],
        frame_index: 1,
        frame_duration_ms: 40,
    };
    animated.advance_frame();
    match &animated {
        SceneContent::AnimatedImage { frame_index, .. } => assert_eq!(*frame_index, 0),
        _ => panic!("scene changed kind"),
    }
    let mut still = SceneContent::StaticImage(quad(10));
    still.advance_frame();
    match &still {
        SceneContent::StaticImage(q) => assert_eq!(q.texture, 10),
        _ => panic!("scene changed kind"),
    }
}

#[test]
fn render_types_mirror_the_scene_kinds() {
    assert_eq!(SceneContent::Empty.render_type(), RenderType::Plain);
    assert_eq!(SceneContent::StaticImage(quad(1)).render_type(), RenderType::Image);
    let animated = SceneContent::AnimatedImage {
        frames: vec![quad(1)],
        frame_index: 0,
        frame_duration_ms: 40,
    };
    assert_eq!(animated.render_type(), RenderType::Gif);
    assert_eq!(SceneContent::FlatScene2D(Vec::new()).render_type(), RenderType::Project2D);
    assert!(SceneContent::default().render_type() == RenderType::Plain);
}

#[test]
fn only_the_shell_connection_is_supported() {
    assert!(connection_supported(ConnectionMode::Shell));
    assert!(!connection_supported(ConnectionMode::Shm));
    assert!(!connection_supported(ConnectionMode::Socket));
}

#[test]
fn format_choice_takes_the_first_reported() {
    assert_eq!(choose_format(&Vec::new()), None);
    assert_eq!(choose_format(&vec![7, 8, 9]), Some(7));
}

#[test]
fn planned_configuration_is_first_format_fifo() {
    assert_eq!(plan_surface_config(&Vec::new(), 300, 200), None);
    assert_eq!(
        plan_surface_config(&vec![7, 8], 300, 200),
        Some(SurfaceConfig { format: 7, width: 300, height: 200, present_mode: PresentMode::Fifo })
    );
}

#[test]
fn binding_tracks_configuration_and_release() {
    let mut b = GpuSurfaceBinding::new(1, 2, 3, 7);
    assert!(b.surface_alive);
    assert!(!b.is_configured());
    b.apply_size(300, 200);
    assert_eq!(
        b.config,
        Some(SurfaceConfig { format: 7, width: 300, height: 200, present_mode: PresentMode::Fifo })
    );
    b.release();
    assert!(!b.surface_alive);
    assert!(b.is_configured());
}

#[test]
fn decoded_buffer_of_the_right_length_is_accepted() {
    let data = vec![0u8; 4 * 2 * 3];
    let b = PixelBuffer::from_decoded(2, 3, data).expect("tightly packed buffer");
    assert_eq!(b.width, 2);
    assert_eq!(b.height, 3);
    assert_eq!(b.data.len(), 24);
}

#[test]
fn decoded_buffer_of_the_wrong_length_is_rejected() {
    let data = vec![0u8; 23];
    let r = PixelBuffer::from_decoded(2, 3, data);
    assert_eq!(r.err(), Some(PixelBufferError::MismatchedLength));
}
