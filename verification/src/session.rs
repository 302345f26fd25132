//! The surface lifecycle state machine.
//!
//! One [`SurfaceSession`] stands for one on-screen drawable. The compositor
//! drives it with configure, frame-done and closed events; the session
//! answers each with the ordered list of [`Action`]s the caller must carry
//! out against the display server and the GPU. The whole policy — size
//! clamping, when a render happens, the single reconfigure-and-retry after a
//! lost swapchain image, and releasing the GPU surface strictly before the
//! protocol object — is the spec-level transition function [`step`] /
//! [`emitted`]; every handler is proved to follow it.

use vstd::prelude::*;

use crate::gpu::GpuSurfaceBinding;
use crate::gpu::binding_wf;
use crate::gpu::config_at;
use crate::scene::SceneContent;
use crate::scene::SceneView;
use crate::scene::advanced;
use crate::scene::scene_wf;

verus! {

/// Where a session stands in its life. `Created` is before the first commit
/// of the protocol surface; `AwaitingConfigure` until the compositor answers
/// with a size; `Ready` while frames may be presented; `Closing` once the
/// compositor withdrew the surface and the GPU side is released; `Closed`
/// when the protocol object is gone too.
#[derive(Clone, Copy, PartialEq, Eq, Structural, Debug)]
pub enum LifecycleState {
    Created,
    AwaitingConfigure,
    Ready,
    Closing,
    Closed,
}

/// A request the caller must carry out, in the order emitted.
#[derive(Clone, Copy, PartialEq, Eq, Structural, Debug)]
pub enum Action {
    /// Ask the compositor for this surface size.
    SetSize { width: u32, height: u32 },
    /// Apply a surface configuration of this size to the GPU surface.
    ConfigureGpu { width: u32, height: u32 },
    /// Acquire the next image, draw the scene into it, submit and present.
    Render,
    /// Ask the compositor for a one-shot frame callback.
    RequestFrameCallback,
    /// Commit the protocol surface.
    Commit,
    /// Release the presentable GPU surface.
    ReleaseGpuSurface,
    /// Destroy the protocol surface object.
    DestroyProtocolSurface,
}

/// Everything a session reacts to: the client's own start request, the three
/// compositor events, and the caller's report of how a render attempt ended.
#[derive(Clone, Copy, PartialEq, Eq, Structural, Debug)]
pub enum SessionEvent {
    /// The client commits the fresh surface to ask for a first configure.
    Start,
    /// The compositor proposed a size.
    Configure { width: u32, height: u32 },
    /// A requested frame callback fired.
    FrameDone { timestamp_ms: u32 },
    /// The compositor withdrew the surface.
    Closed,
    /// Acquiring the next image failed with a lost or outdated surface.
    AcquireFailed,
    /// A render attempt was submitted and presented.
    RenderComplete,
    /// The caller destroyed the protocol surface object.
    CloseCompleted,
}

/// Mathematical shape of a session.
#[verifier::ext_equal]
pub struct SessionView {
    pub state: LifecycleState,
    /// Smallest size either axis may be configured to.
    pub floor: u32,
    /// Committed size, already clamped.
    pub width: u32,
    pub height: u32,
    pub closing: bool,
    /// Whether a frame callback is outstanding.
    pub has_pending_frame: bool,
    /// Whether the one reconfigure-and-retry of a failed acquire is spent.
    pub retry_pending: bool,
    pub gpu: GpuSurfaceBinding,
    pub scene: SceneView,
}

/// `v` clamped to no less than `floor`.
pub open spec fn clamped(v: u32, floor: u32) -> u32 {
    if v < floor {
        floor
    } else {
        v
    }
}

/// States in which a configure event is acted on.
pub open spec fn handles_resize(v: SessionView) -> bool {
    v.state is AwaitingConfigure || v.state is Ready
}

/// States from which the session only winds down.
pub open spec fn is_shutdown(v: SessionView) -> bool {
    v.state is Closing || v.state is Closed
}

/// A configure that proposes the size already committed while the session is
/// `Ready`: no GPU reconfiguration, but still a render and a commit.
pub open spec fn configure_is_noop(v: SessionView, width: u32, height: u32) -> bool {
    v.state is Ready && clamped(width, v.floor) == v.width && clamped(height, v.floor) == v.height
}

/// The session after the compositor withdrew it or its render path failed
/// for good: GPU surface released, protocol destruction pending.
pub open spec fn close_step(v: SessionView) -> SessionView {
    SessionView {
        state: LifecycleState::Closing,
        closing: true,
        has_pending_frame: false,
        retry_pending: false,
        gpu: GpuSurfaceBinding { surface_alive: false, ..v.gpu },
        ..v
    }
}

/// Release the GPU surface strictly before destroying the protocol object.
pub open spec fn close_actions() -> Seq<Action> {
    seq![Action::ReleaseGpuSurface, Action::DestroyProtocolSurface]
}

/// The session after one event. Every handler of [`SurfaceSession`] is
/// proved equal to this function.
pub open spec fn step(v: SessionView, e: SessionEvent) -> SessionView {
    match e {
        SessionEvent::Start => {
            if v.state is Created {
                SessionView { state: LifecycleState::AwaitingConfigure, ..v }
            } else {
                v
            }
        },
        SessionEvent::Configure { width, height } => {
            if !handles_resize(v) {
                v
            } else if configure_is_noop(v, width, height) {
                SessionView { has_pending_frame: true, retry_pending: false, ..v }
            } else {
                let cw = clamped(width, v.floor);
                let ch = clamped(height, v.floor);
                SessionView {
                    state: LifecycleState::Ready,
                    width: cw,
                    height: ch,
                    has_pending_frame: true,
                    retry_pending: false,
                    gpu: GpuSurfaceBinding { config: Some(config_at(v.gpu, cw, ch)), ..v.gpu },
                    ..v
                }
            }
        },
        SessionEvent::FrameDone { .. } => {
            if v.state is Ready && v.scene is AnimatedImage {
                SessionView { scene: advanced(v.scene), has_pending_frame: true, ..v }
            } else if v.state is Ready {
                SessionView { has_pending_frame: false, ..v }
            } else {
                v
            }
        },
        SessionEvent::Closed => {
            if is_shutdown(v) {
                v
            } else {
                close_step(v)
            }
        },
        SessionEvent::AcquireFailed => {
            if v.state is Ready && !v.retry_pending {
                SessionView { retry_pending: true, ..v }
            } else if v.state is Ready {
                close_step(v)
            } else {
                v
            }
        },
        SessionEvent::RenderComplete => {
            if v.state is Ready {
                SessionView { retry_pending: false, ..v }
            } else {
                v
            }
        },
        SessionEvent::CloseCompleted => {
            if v.state is Closing {
                SessionView { state: LifecycleState::Closed, ..v }
            } else {
                v
            }
        },
    }
}

/// The requests one event makes the caller carry out, in order.
pub open spec fn emitted(v: SessionView, e: SessionEvent) -> Seq<Action> {
    match e {
        SessionEvent::Start => {
            if v.state is Created {
                seq![Action::SetSize { width: v.width, height: v.height }, Action::Commit]
            } else {
                Seq::empty()
            }
        },
        SessionEvent::Configure { width, height } => {
            if !handles_resize(v) {
                Seq::empty()
            } else if configure_is_noop(v, width, height) {
                seq![Action::Render, Action::RequestFrameCallback, Action::Commit]
            } else {
                seq![
                    Action::ConfigureGpu {
                        width: clamped(width, v.floor),
                        height: clamped(height, v.floor),
                    },
                    Action::Render,
                    Action::RequestFrameCallback,
                    Action::Commit,
                ]
            }
        },
        SessionEvent::FrameDone { .. } => {
            if v.state is Ready && v.scene is AnimatedImage {
                seq![Action::Render, Action::RequestFrameCallback, Action::Commit]
            } else {
                Seq::empty()
            }
        },
        SessionEvent::Closed => {
            if is_shutdown(v) {
                Seq::empty()
            } else {
                close_actions()
            }
        },
        SessionEvent::AcquireFailed => {
            if v.state is Ready && !v.retry_pending {
                seq![Action::ConfigureGpu { width: v.width, height: v.height }, Action::Render]
            } else if v.state is Ready {
                close_actions()
            } else {
                Seq::empty()
            }
        },
        SessionEvent::RenderComplete => Seq::empty(),
        SessionEvent::CloseCompleted => Seq::empty(),
    }
}

/// Well-formedness of a session: what [`SurfaceSession::new`] establishes
/// and every handler preserves.
pub open spec fn session_wf(v: SessionView) -> bool {
    &&& 1 <= v.floor
    &&& v.floor <= v.width
    &&& v.floor <= v.height
    &&& v.closing == is_shutdown(v)
    &&& v.gpu.surface_alive == !v.closing
    &&& binding_wf(v.gpu)
    &&& (v.state is Ready ==> v.gpu.config == Some(config_at(v.gpu, v.width, v.height)))
    &&& ((v.state is Created || v.state is AwaitingConfigure) ==> v.gpu.config is None)
    &&& (v.retry_pending ==> v.state is Ready)
    &&& scene_wf(v.scene)
}

/// One on-screen drawable and everything owned with it.
pub struct SurfaceSession {
    state: LifecycleState,
    floor: u32,
    width: u32,
    height: u32,
    closing: bool,
    has_pending_frame: bool,
    retry_pending: bool,
    gpu: GpuSurfaceBinding,
    scene: SceneContent,
}

impl View for SurfaceSession {
    type V = SessionView;

    closed spec fn view(&self) -> SessionView {
        SessionView {
            state: self.state,
            floor: self.floor,
            width: self.width,
            height: self.height,
            closing: self.closing,
            has_pending_frame: self.has_pending_frame,
            retry_pending: self.retry_pending,
            gpu: self.gpu,
            scene: self.scene@,
        }
    }
}

impl SurfaceSession {
    /// A fresh session over a live, not yet configured GPU binding. The
    /// requested initial size is clamped to the floor like any other.
    pub fn new(floor: u32, width: u32, height: u32, scene: SceneContent, gpu: GpuSurfaceBinding)
        -> (s: SurfaceSession)
        requires
            1 <= floor,
            scene_wf(scene@),
            gpu.surface_alive,
            gpu.config is None,
            binding_wf(gpu),
        ensures
            s@ == (SessionView {
                state: LifecycleState::Created,
                floor,
                width: clamped(width, floor),
                height: clamped(height, floor),
                closing: false,
                has_pending_frame: false,
                retry_pending: false,
                gpu,
                scene: scene@,
            }),
            session_wf(s@),
    {
        let cw = if width < floor {
            floor
        } else {
            width
        };
        let ch = if height < floor {
            floor
        } else {
            height
        };
        SurfaceSession {
            state: LifecycleState::Created,
            floor,
            width: cw,
            height: ch,
            closing: false,
            has_pending_frame: false,
            retry_pending: false,
            gpu,
            scene,
        }
    }

    /// Ask the compositor for the first configure: request the initial size
    /// and commit. Entered exactly once, right after creation.
    pub fn request_initial_configure(&mut self) -> (actions: Vec<Action>)
        requires
            session_wf(old(self)@),
        ensures
            final(self)@ == step(old(self)@, SessionEvent::Start),
            actions@ == emitted(old(self)@, SessionEvent::Start),
            session_wf(final(self)@),
    {
        let mut actions: Vec<Action> = Vec::new();
        if self.state == LifecycleState::Created {
            self.state = LifecycleState::AwaitingConfigure;
            actions.push(Action::SetSize { width: self.width, height: self.height });
            actions.push(Action::Commit);
        }
        proof {
            assert(self@ =~= step(old(self)@, SessionEvent::Start));
            assert(actions@ =~= emitted(old(self)@, SessionEvent::Start));
        }
        actions
    }

    /// The compositor proposed a size. Zero or undersized axes are clamped
    /// to the floor; a size already committed while `Ready` skips the GPU
    /// reconfiguration but still renders and commits.
    pub fn on_configure(&mut self, width: u32, height: u32) -> (actions: Vec<Action>)
        requires
            session_wf(old(self)@),
        ensures
            final(self)@ == step(old(self)@, SessionEvent::Configure { width, height }),
            actions@ == emitted(old(self)@, SessionEvent::Configure { width, height }),
            session_wf(final(self)@),
    {
        let ghost e = SessionEvent::Configure { width, height };
        let mut actions: Vec<Action> = Vec::new();
        let handles = self.state == LifecycleState::AwaitingConfigure || self.state
            == LifecycleState::Ready;
        if handles {
            let cw = if width < self.floor {
                self.floor
            } else {
                width
            };
            let ch = if height < self.floor {
                self.floor
            } else {
                height
            };
            let noop = self.state == LifecycleState::Ready && cw == self.width && ch
                == self.height;
            if noop {
                self.has_pending_frame = true;
                self.retry_pending = false;
            } else {
                self.state = LifecycleState::Ready;
                self.width = cw;
                self.height = ch;
                self.has_pending_frame = true;
                self.retry_pending = false;
                self.gpu.apply_size(cw, ch);
                actions.push(Action::ConfigureGpu { width: cw, height: ch });
            }
            actions.push(Action::Render);
            actions.push(Action::RequestFrameCallback);
            actions.push(Action::Commit);
        }
        proof {
            assert(self@ =~= step(old(self)@, e));
            assert(actions@ =~= emitted(old(self)@, e));
        }
        actions
    }

    /// A requested frame callback fired. Time-varying content steps to its
    /// next frame and renders again; still content stays idle until the next
    /// configure.
    pub fn on_frame_done(&mut self, timestamp_ms: u32) -> (actions: Vec<Action>)
        requires
            session_wf(old(self)@),
        ensures
            final(self)@ == step(old(self)@, SessionEvent::FrameDone { timestamp_ms }),
            actions@ == emitted(old(self)@, SessionEvent::FrameDone { timestamp_ms }),
            session_wf(final(self)@),
    {
        let ghost e = SessionEvent::FrameDone { timestamp_ms };
        let mut actions: Vec<Action> = Vec::new();
        if self.state == LifecycleState::Ready {
            if self.scene.is_animated() {
                self.scene.advance_frame();
                self.has_pending_frame = true;
                actions.push(Action::Render);
                actions.push(Action::RequestFrameCallback);
                actions.push(Action::Commit);
            } else {
                self.has_pending_frame = false;
            }
        }
        proof {
            assert(self@ =~= step(old(self)@, e));
            assert(actions@ =~= emitted(old(self)@, e));
        }
        actions
    }

    /// The compositor withdrew the surface. The GPU surface is released
    /// strictly before the protocol object is destroyed; a repeated closed
    /// event is a no-op.
    pub fn on_closed(&mut self) -> (actions: Vec<Action>)
        requires
            session_wf(old(self)@),
        ensures
            final(self)@ == step(old(self)@, SessionEvent::Closed),
            actions@ == emitted(old(self)@, SessionEvent::Closed),
            session_wf(final(self)@),
    {
        let mut actions: Vec<Action> = Vec::new();
        if !(self.state == LifecycleState::Closing || self.state == LifecycleState::Closed) {
            self.state = LifecycleState::Closing;
            self.closing = true;
            self.has_pending_frame = false;
            self.retry_pending = false;
            self.gpu.release();
            actions.push(Action::ReleaseGpuSurface);
            actions.push(Action::DestroyProtocolSurface);
        }
        proof {
            assert(self@ =~= step(old(self)@, SessionEvent::Closed));
            assert(actions@ =~= emitted(old(self)@, SessionEvent::Closed));
        }
        actions
    }

    /// Acquiring the next image reported the surface lost or outdated. The
    /// first failure of an attempt reconfigures at the last committed size
    /// and retries once; a failure while the retry is already spent is fatal
    /// for this session alone.
    pub fn on_acquire_failed(&mut self) -> (actions: Vec<Action>)
        requires
            session_wf(old(self)@),
        ensures
            final(self)@ == step(old(self)@, SessionEvent::AcquireFailed),
            actions@ == emitted(old(self)@, SessionEvent::AcquireFailed),
            session_wf(final(self)@),
    {
        let mut actions: Vec<Action> = Vec::new();
        if self.state == LifecycleState::Ready {
            if !self.retry_pending {
                self.retry_pending = true;
                actions.push(Action::ConfigureGpu { width: self.width, height: self.height });
                actions.push(Action::Render);
            } else {
                self.state = LifecycleState::Closing;
                self.closing = true;
                self.has_pending_frame = false;
                self.retry_pending = false;
                self.gpu.release();
                actions.push(Action::ReleaseGpuSurface);
                actions.push(Action::DestroyProtocolSurface);
            }
        }
        proof {
            assert(self@ =~= step(old(self)@, SessionEvent::AcquireFailed));
            assert(actions@ =~= emitted(old(self)@, SessionEvent::AcquireFailed));
        }
        actions
    }

    /// A render attempt was submitted and presented: the retry budget of the
    /// attempt is whole again.
    pub fn on_render_complete(&mut self)
        requires
            session_wf(old(self)@),
        ensures
            final(self)@ == step(old(self)@, SessionEvent::RenderComplete),
            session_wf(final(self)@),
    {
        if self.state == LifecycleState::Ready {
            self.retry_pending = false;
        }
        proof {
            assert(self@ =~= step(old(self)@, SessionEvent::RenderComplete));
        }
    }

    /// The caller destroyed the protocol surface object; the session is
    /// fully closed.
    pub fn complete_close(&mut self)
        requires
            session_wf(old(self)@),
        ensures
            final(self)@ == step(old(self)@, SessionEvent::CloseCompleted),
            session_wf(final(self)@),
    {
        if self.state == LifecycleState::Closing {
            self.state = LifecycleState::Closed;
        }
        proof {
            assert(self@ =~= step(old(self)@, SessionEvent::CloseCompleted));
        }
    }

    /// Encode one render pass over the current scene. Only a `Ready` session
    /// renders; the state machine never emits [`Action::Render`] elsewhere.
    pub fn encode_scene(&self, pipeline: u64) -> (cmds: Vec<crate::scene::DrawCommand>)
        requires
            session_wf(self@),
            self@.state is Ready,
        ensures
            cmds@ == crate::scene::encode_spec(self@.scene, pipeline),
    {
        self.scene.encode(pipeline)
    }

    /// Where the session stands.
    pub fn state(&self) -> (r: LifecycleState)
        ensures
            r == self@.state,
    {
        self.state
    }

    /// The committed, clamped size.
    pub fn size(&self) -> (r: (u32, u32))
        ensures
            r.0 == self@.width,
            r.1 == self@.height,
    {
        (self.width, self.height)
    }

    /// The smallest size either axis may be configured to.
    pub fn floor(&self) -> (r: u32)
        ensures
            r == self@.floor,
    {
        self.floor
    }

    /// Whether a surface configuration has been applied.
    pub fn is_configured(&self) -> (r: bool)
        ensures
            r == (self@.gpu.config is Some),
    {
        self.gpu.is_configured()
    }

    /// The GPU binding as committed so far.
    pub fn gpu(&self) -> (r: GpuSurfaceBinding)
        ensures
            r == self@.gpu,
    {
        self.gpu
    }

    /// Whether a frame callback is outstanding.
    pub fn has_pending_frame(&self) -> (r: bool)
        ensures
            r == self@.has_pending_frame,
    {
        self.has_pending_frame
    }

    /// Whether the one retry of a failed acquire is spent.
    pub fn awaiting_retry(&self) -> (r: bool)
        ensures
            r == self@.retry_pending,
    {
        self.retry_pending
    }

    /// The scene the session presents.
    pub fn scene(&self) -> (r: &SceneContent)
        ensures
            r@ == self@.scene,
    {
        &self.scene
    }
}

/// The dispatch loop of a client ends when every session it drives has
/// reached `Closed`.
pub fn all_closed(sessions: &Vec<SurfaceSession>) -> (r: bool)
    ensures
        r == (forall|i: int| 0 <= i < sessions@.len() ==> sessions@[i]@.state is Closed),
{
    let mut k: usize = 0;
    while k < sessions.len()
        invariant
            k <= sessions@.len(),
            forall|i: int| 0 <= i < k ==> sessions@[i]@.state is Closed,
        decreases sessions@.len() - k,
    {
        if !(sessions[k].state == LifecycleState::Closed) {
            assert(!(sessions@[k as int]@.state is Closed));
            return false;
        }
        k = k + 1;
    }
    true
}

/// Every event handled by a well-formed session leaves it well-formed.
pub proof fn lemma_step_preserves_wf(v: SessionView, e: SessionEvent)
    requires
        session_wf(v),
    ensures
        session_wf(step(v, e)),
{
}

/// A render is only ever requested of a session that stands in `Ready` once
/// the handler returns: no event emits [`Action::Render`] while the session
/// ends up in `Created`, `AwaitingConfigure`, `Closing` or `Closed`.
pub proof fn lemma_render_only_when_ready(v: SessionView, e: SessionEvent)
    requires
        session_wf(v),
    ensures
        forall|i: int|
            0 <= i < emitted(v, e).len() && emitted(v, e)[i] is Render ==> step(v, e).state
                is Ready,
{
}

/// A configure event that is acted on renders exactly once.
pub proof fn lemma_configure_renders_exactly_once(v: SessionView, width: u32, height: u32)
    requires
        session_wf(v),
        handles_resize(v),
    ensures
        exists|i: int|
            0 <= i < emitted(v, SessionEvent::Configure { width, height }).len() && emitted(
                v,
                SessionEvent::Configure { width, height },
            )[i] is Render,
        forall|i: int, j: int|
            0 <= i < emitted(v, SessionEvent::Configure { width, height }).len() && 0 <= j
                < emitted(v, SessionEvent::Configure { width, height }).len() && emitted(
                v,
                SessionEvent::Configure { width, height },
            )[i] is Render && emitted(v, SessionEvent::Configure { width, height })[j] is Render
                ==> i == j,
{
    let a = emitted(v, SessionEvent::Configure { width, height });
    if configure_is_noop(v, width, height) {
        assert(a[0] is Render);
    } else {
        assert(a[1] is Render);
    }
}

/// While `Ready`, every frame-done event over time-varying content renders
/// exactly once; over still content it renders nothing at all.
pub proof fn lemma_frame_done_render_policy(v: SessionView, timestamp_ms: u32)
    requires
        session_wf(v),
        v.state is Ready,
    ensures
        v.scene is AnimatedImage ==> emitted(v, SessionEvent::FrameDone { timestamp_ms })
            =~= seq![Action::Render, Action::RequestFrameCallback, Action::Commit],
        !(v.scene is AnimatedImage) ==> emitted(v, SessionEvent::FrameDone { timestamp_ms })
            =~= Seq::<Action>::empty(),
{
}

/// Idempotence of configure: a second configure with the same size, arriving
/// while the first already left the session `Ready`, changes neither the
/// committed size nor the GPU configuration — yet still renders and commits.
pub proof fn lemma_configure_idempotent(v: SessionView, width: u32, height: u32)
    requires
        session_wf(v),
        handles_resize(v),
    ensures
        emitted(
            step(v, SessionEvent::Configure { width, height }),
            SessionEvent::Configure { width, height },
        ) =~= seq![Action::Render, Action::RequestFrameCallback, Action::Commit],
        step(
            step(v, SessionEvent::Configure { width, height }),
            SessionEvent::Configure { width, height },
        ).gpu == step(v, SessionEvent::Configure { width, height }).gpu,
        step(
            step(v, SessionEvent::Configure { width, height }),
            SessionEvent::Configure { width, height },
        ) == step(v, SessionEvent::Configure { width, height }),
{
    let e = SessionEvent::Configure { width, height };
    let v1 = step(v, e);
    assert(configure_is_noop(v1, width, height));
    assert(step(v1, e) =~= v1);
}

/// Clamping: the committed size never falls under the floor, and a configure
/// proposing zero on an axis commits exactly the floor there.
pub proof fn lemma_configure_clamps(v: SessionView, width: u32, height: u32)
    requires
        session_wf(v),
        handles_resize(v),
    ensures
        step(v, SessionEvent::Configure { width, height }).width >= v.floor,
        step(v, SessionEvent::Configure { width, height }).height >= v.floor,
        width == 0 ==> step(v, SessionEvent::Configure { width, height }).width == v.floor,
        height == 0 ==> step(v, SessionEvent::Configure { width, height }).height == v.floor,
{
}

/// Reverse-of-creation order on the way down: whenever an event asks for the
/// protocol surface to be destroyed, the GPU surface release stands strictly
/// before it in the same answer.
pub proof fn lemma_release_precedes_destroy(v: SessionView, e: SessionEvent)
    requires
        session_wf(v),
    ensures
        forall|j: int|
            0 <= j < emitted(v, e).len() && emitted(v, e)[j] is DestroyProtocolSurface
                ==> exists|i: int|
                0 <= i < j && #[trigger] emitted(v, e)[i] is ReleaseGpuSurface,
{
    let a = emitted(v, e);
    assert forall|j: int| 0 <= j < a.len() && a[j] is DestroyProtocolSurface implies exists|
        i: int,
    | 0 <= i < j && #[trigger] a[i] is ReleaseGpuSurface by {
        assert(a =~= close_actions());
        assert(a[0] is ReleaseGpuSurface);
    }
}

/// A second closed event is a no-op: nothing further is emitted — in
/// particular the GPU release happens exactly once — and nothing changes.
pub proof fn lemma_close_idempotent(v: SessionView)
    requires
        session_wf(v),
    ensures
        emitted(step(v, SessionEvent::Closed), SessionEvent::Closed) =~= Seq::<Action>::empty(),
        step(step(v, SessionEvent::Closed), SessionEvent::Closed) == step(v, SessionEvent::Closed),
{
    let v1 = step(v, SessionEvent::Closed);
    assert(step(v1, SessionEvent::Closed) =~= v1);
}

/// Once a session winds down, no event makes it ask for anything again: the
/// GPU surface is never touched after its one release.
pub proof fn lemma_shutdown_emits_nothing(v: SessionView, e: SessionEvent)
    requires
        session_wf(v),
        is_shutdown(v),
    ensures
        emitted(v, e) =~= Seq::<Action>::empty(),
{
}

/// The retry policy of a lost swapchain image: the first failure of an
/// attempt reconfigures once at the committed size and retries exactly once;
/// a completed retry leaves the session `Ready` exactly as before; a second
/// failure in the same attempt winds the session down.
pub proof fn lemma_acquire_retry_policy(v: SessionView)
    requires
        session_wf(v),
        v.state is Ready,
        !v.retry_pending,
    ensures
        emitted(v, SessionEvent::AcquireFailed) =~= seq![
            Action::ConfigureGpu { width: v.width, height: v.height },
            Action::Render,
        ],
        step(v, SessionEvent::AcquireFailed) == (SessionView { retry_pending: true, ..v }),
        step(step(v, SessionEvent::AcquireFailed), SessionEvent::RenderComplete) == v,
        emitted(step(v, SessionEvent::AcquireFailed), SessionEvent::AcquireFailed)
            =~= close_actions(),
        step(step(v, SessionEvent::AcquireFailed), SessionEvent::AcquireFailed).state is Closing,
{
    let v1 = step(v, SessionEvent::AcquireFailed);
    assert(v1 =~= (SessionView { retry_pending: true, ..v }));
    assert(step(v1, SessionEvent::RenderComplete) =~= v);
}

} // verus!
