//! Scenario tests of the surface lifecycle state machine.

use aphrodite::gpu::GpuSurfaceBinding;
use aphrodite::gpu::PresentMode;
use aphrodite::gpu::SurfaceConfig;
use aphrodite::scene::DrawCommand;
use aphrodite::scene::ImageQuad;
use aphrodite::scene::SceneContent;
use aphrodite::scene::QUAD_VERTEX_COUNT;
use aphrodite::session::all_closed;
use aphrodite::session::Action;
use aphrodite::session::LifecycleState;
use aphrodite::session::SurfaceSession;

const FLOOR: u32 = 256;
const FORMAT: u64 = 77;

fn quad(n: u64) -> ImageQuad {
    ImageQuad { texture: n, sampler: n + 1, bind_group: n + 2, vertex_buffer: n + 3 }
}

fn fresh_binding() -> GpuSurfaceBinding {
    GpuSurfaceBinding::new(1, 2, 3, FORMAT)
}

fn static_session(width: u32, height: u32) -> SurfaceSession {
    SurfaceSession::new(FLOOR, width, height, SceneContent::StaticImage(quad(10)), fresh_binding())
}

fn ready_static_session() -> SurfaceSession {
    let mut s = static_session(300, 300);
    s.request_initial_configure();
    s.on_configure(300, 300);
    s
}

fn animated_session(frames: usize) -> SurfaceSession {
    let mut quads = Vec::new();
    for i in 0..frames {
        quads.push(quad(100 + 10 * i as u64));
    }
    let scene = SceneContent::AnimatedImage { frames: quads, frame_index: 0, frame_duration_ms: 40 };
    SurfaceSession::new(FLOOR, 300, 300, scene, fresh_binding())
}

#[test]
fn start_requests_initial_size_and_commit() {
    let mut s = static_session(300, 300);
    assert_eq!(s.state(), LifecycleState::Created);
    let actions = s.request_initial_configure();
    assert_eq!(actions, vec![Action::SetSize { width: 300, height: 300 }, Action::Commit]);
    assert_eq!(s.state(), LifecycleState::AwaitingConfigure);
    assert!(!s.is_configured());
}

#[test]
fn start_is_only_honoured_once() {
    let mut s = static_session(300, 300);
    s.request_initial_configure();
    let again = s.request_initial_configure();
    assert_eq!(again, Vec::new());
    assert_eq!(s.state(), LifecycleState::AwaitingConfigure);
}

#[test]
fn initial_size_is_clamped_at_creation() {
    let s = static_session(100, 4000);
    assert_eq!(s.size(), (256, 4000));
    assert_eq!(s.floor(), 256);
}

#[test]
fn first_configure_renders_once_and_commits() {
    let mut s = static_session(300, 300);
    s.request_initial_configure();
    let actions = s.on_configure(300, 300);
    assert_eq!(
        actions,
        vec![
            Action::ConfigureGpu { width: 300, height: 300 },
            Action::Render,
            Action::RequestFrameCallback,
            Action::Commit,
        ]
    );
    assert_eq!(s.state(), LifecycleState::Ready);
    assert_eq!(s.size(), (300, 300));
    assert_eq!(
        s.gpu().config,
        Some(SurfaceConfig { format: FORMAT, width: 300, height: 300, present_mode: PresentMode::Fifo })
    );
}

#[test]
fn undersized_configure_clamps_to_floor() {
    let mut s = ready_static_session();
    let actions = s.on_configure(150, 150);
    assert_eq!(
        actions,
        vec![
            Action::ConfigureGpu { width: 256, height: 256 },
            Action::Render,
            Action::RequestFrameCallback,
            Action::Commit,
        ]
    );
    assert_eq!(s.size(), (256, 256));
}

#[test]
fn zero_configure_clamps_to_floor_on_both_axes() {
    let mut s = ready_static_session();
    s.on_configure(0, 0);
    assert_eq!(s.size(), (256, 256));
}

#[test]
fn repeated_configure_skips_gpu_reconfiguration_but_still_renders() {
    let mut s = ready_static_session();
    let before = s.gpu();
    let actions = s.on_configure(300, 300);
    assert_eq!(actions, vec![Action::Render, Action::RequestFrameCallback, Action::Commit]);
    assert_eq!(s.gpu(), before);
    assert_eq!(s.size(), (300, 300));
    assert_eq!(s.state(), LifecycleState::Ready);
}

#[test]
fn configure_before_start_is_ignored() {
    let mut s = static_session(300, 300);
    let actions = s.on_configure(300, 300);
    assert_eq!(actions, Vec::new());
    assert_eq!(s.state(), LifecycleState::Created);
}

#[test]
fn frame_done_on_still_content_is_idle() {
    let mut s = ready_static_session();
    let actions = s.on_frame_done(16);
    assert_eq!(actions, Vec::new());
    assert_eq!(s.state(), LifecycleState::Ready);
    assert!(!s.has_pending_frame());
}

#[test]
fn frame_done_before_ready_is_ignored() {
    let mut s = animated_session(3);
    s.request_initial_configure();
    let actions = s.on_frame_done(16);
    assert_eq!(actions, Vec::new());
    assert_eq!(s.state(), LifecycleState::AwaitingConfigure);
}

#[test]
fn animated_frames_cycle_and_render_each_time() {
    let mut s = animated_session(3);
    s.request_initial_configure();
    s.on_configure(300, 300);
    let mut seen = Vec::new();
    for t in 0..3u32 {
        let actions = s.on_frame_done(16 * t);
        assert_eq!(actions, vec![Action::Render, Action::RequestFrameCallback, Action::Commit]);
        match s.scene() {
            SceneContent::AnimatedImage { frame_index, .. } => seen.push(*frame_index),
            _ => panic!("scene changed kind"),
        }
    }
    assert_eq!(seen, vec![1, 2, 0]);
}

#[test]
fn ready_session_encodes_its_scene() {
    let s = ready_static_session();
    let cmds = s.encode_scene(500);
    assert_eq!(
        cmds,
        vec![
            DrawCommand::BindPipeline(500),
            DrawCommand::BindGroup(12),
            DrawCommand::BindVertexBuffer(13),
            DrawCommand::Draw(QUAD_VERTEX_COUNT),
        ]
    );
}

#[test]
fn close_releases_gpu_before_destroying_protocol_object() {
    let mut s = ready_static_session();
    let actions = s.on_closed();
    assert_eq!(actions, vec![Action::ReleaseGpuSurface, Action::DestroyProtocolSurface]);
    assert_eq!(s.state(), LifecycleState::Closing);
    assert!(!s.gpu().surface_alive);
}

#[test]
fn second_close_is_a_no_op() {
    let mut s = ready_static_session();
    let first = s.on_closed();
    let released_once = first.iter().filter(|a| **a == Action::ReleaseGpuSurface).count();
    assert_eq!(released_once, 1);
    let second = s.on_closed();
    assert_eq!(second, Vec::new());
    assert_eq!(s.state(), LifecycleState::Closing);
}

#[test]
fn close_completes_to_closed_and_ends_the_loop() {
    let mut s = ready_static_session();
    s.on_closed();
    s.complete_close();
    assert_eq!(s.state(), LifecycleState::Closed);
    let sessions = vec![s];
    assert!(all_closed(&sessions));
}

#[test]
fn all_closed_is_false_while_any_session_lives() {
    let mut closed = ready_static_session();
    closed.on_closed();
    closed.complete_close();
    let live = ready_static_session();
    let sessions = vec![closed, live];
    assert!(!all_closed(&sessions));
    assert!(all_closed(&Vec::new()));
}

#[test]
fn events_after_close_are_ignored() {
    let mut s = ready_static_session();
    s.on_closed();
    s.complete_close();
    assert_eq!(s.on_configure(300, 300), Vec::new());
    assert_eq!(s.on_frame_done(5), Vec::new());
    assert_eq!(s.on_closed(), Vec::new());
    assert_eq!(s.state(), LifecycleState::Closed);
}

#[test]
fn lost_acquire_reconfigures_and_retries_once() {
    let mut s = ready_static_session();
    let actions = s.on_acquire_failed();
    assert_eq!(
        actions,
        vec![Action::ConfigureGpu { width: 300, height: 300 }, Action::Render]
    );
    assert!(s.awaiting_retry());
    assert_eq!(s.state(), LifecycleState::Ready);
    s.on_render_complete();
    assert!(!s.awaiting_retry());
    assert_eq!(s.state(), LifecycleState::Ready);
}

#[test]
fn second_lost_acquire_is_fatal_for_the_session_alone() {
    let mut s = ready_static_session();
    s.on_acquire_failed();
    let actions = s.on_acquire_failed();
    assert_eq!(actions, vec![Action::ReleaseGpuSurface, Action::DestroyProtocolSurface]);
    assert_eq!(s.state(), LifecycleState::Closing);
    let mut other = ready_static_session();
    assert_eq!(other.state(), LifecycleState::Ready);
    let other_actions = other.on_frame_done(1);
    assert_eq!(other_actions, Vec::new());
}

#[test]
fn retry_budget_resets_after_a_successful_attempt() {
    let mut s = ready_static_session();
    s.on_acquire_failed();
    s.on_render_complete();
    let actions = s.on_acquire_failed();
    assert_eq!(
        actions,
        vec![Action::ConfigureGpu { width: 300, height: 300 }, Action::Render]
    );
    assert_eq!(s.state(), LifecycleState::Ready);
}
