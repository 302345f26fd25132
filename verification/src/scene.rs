//! Renderable content and its encoding into draw commands.
//!
//! A scene is either empty, a single still image, an animated image played
//! frame by frame, or an ordered list of textured quads drawn back to front.
//! GPU objects (textures, samplers, bind groups, vertex buffers, the shared
//! pipeline) are owned by the unverified shell; the scene refers to them by
//! the numeric handles the shell assigned, so the whole encoding step is
//! plain data and is verified.

use vstd::prelude::*;

use crate::modes::RenderType;

verus! {

/// Vertex count of one textured quad: two triangles.
pub const QUAD_VERTEX_COUNT: u32 = 6;

/// One textured quad: handles of the GPU objects a draw of it binds. The
/// vertex buffer already carries positions and texture coordinates; building
/// it is the shell's job since the core does not deal in floating point.
#[derive(Clone, Copy, PartialEq, Eq, Structural, Debug)]
pub struct ImageQuad {
    pub texture: u64,
    pub sampler: u64,
    pub bind_group: u64,
    pub vertex_buffer: u64,
}

/// What a session presents.
pub enum SceneContent {
    /// Nothing: a render clears the target and draws no quad.
    Empty,
    /// One still image.
    StaticImage(ImageQuad),
    /// A frame sequence played in a cycle. `frame_index` is the frame a
    /// render draws now; `frame_duration_ms` is the pacing policy handed to
    /// the caller, not consumed here.
    AnimatedImage { frames: Vec<ImageQuad>, frame_index: usize, frame_duration_ms: u32 },
    /// Ordered quads, drawn first to last (painter's order).
    FlatScene2D(Vec<ImageQuad>),
}

/// Mathematical shape of a scene: the same variants over `Seq`.
#[verifier::ext_equal]
pub enum SceneView {
    Empty,
    StaticImage(ImageQuad),
    AnimatedImage { frames: Seq<ImageQuad>, frame_index: usize, frame_duration_ms: u32 },
    FlatScene2D(Seq<ImageQuad>),
}

impl View for SceneContent {
    type V = SceneView;

    open spec fn view(&self) -> SceneView {
        match self {
            SceneContent::Empty => SceneView::Empty,
            SceneContent::StaticImage(q) => SceneView::StaticImage(*q),
            SceneContent::AnimatedImage { frames, frame_index, frame_duration_ms } => (
                SceneView::AnimatedImage {
                    frames: frames@,
                    frame_index: *frame_index,
                    frame_duration_ms: *frame_duration_ms,
                }
            ),
            SceneContent::FlatScene2D(quads) => SceneView::FlatScene2D(quads@),
        }
    }
}

/// An animated scene must hold at least one frame and point inside it.
pub open spec fn scene_wf(s: SceneView) -> bool {
    s matches SceneView::AnimatedImage { frames, frame_index, .. }
        ==> frames.len() > 0 && frame_index < frames.len()
}

/// One step of a render pass, named over the shell's GPU handles.
#[derive(Clone, Copy, PartialEq, Eq, Structural, Debug)]
pub enum DrawCommand {
    /// Bind the shared render pipeline.
    BindPipeline(u64),
    /// Bind the descriptor set tying a quad's texture and sampler in.
    BindGroup(u64),
    /// Bind a quad's vertex buffer.
    BindVertexBuffer(u64),
    /// Issue a draw of that many vertices of the bound buffer.
    Draw(u32),
}

/// The three commands that draw one quad.
pub open spec fn quad_commands(q: ImageQuad) -> Seq<DrawCommand> {
    seq![
        DrawCommand::BindGroup(q.bind_group),
        DrawCommand::BindVertexBuffer(q.vertex_buffer),
        DrawCommand::Draw(QUAD_VERTEX_COUNT),
    ]
}

/// The commands that draw a list of quads in order.
pub open spec fn commands_for_quads(qs: Seq<ImageQuad>) -> Seq<DrawCommand>
    decreases qs.len(),
{
    if qs.len() == 0 {
        Seq::empty()
    } else {
        quad_commands(qs[0]) + commands_for_quads(qs.drop_first())
    }
}

/// The quads a render of the scene draws now: none, the one image, the
/// current frame, or the whole ordered list.
pub open spec fn visible_quads(s: SceneView) -> Seq<ImageQuad> {
    match s {
        SceneView::Empty => Seq::empty(),
        SceneView::StaticImage(q) => seq![q],
        SceneView::AnimatedImage { frames, frame_index, .. } => (
            if frame_index < frames.len() {
                seq![frames[frame_index as int]]
            } else {
                Seq::empty()
            }
        ),
        SceneView::FlatScene2D(qs) => qs,
    }
}

/// The full command list of one pass over the scene: nothing for an empty
/// scene, else the pipeline bound once and then each visible quad in order.
pub open spec fn encode_spec(s: SceneView, pipeline: u64) -> Seq<DrawCommand> {
    if s is Empty {
        Seq::empty()
    } else {
        seq![DrawCommand::BindPipeline(pipeline)] + commands_for_quads(visible_quads(s))
    }
}

/// A single quad encodes to exactly its three commands.
proof fn lemma_commands_for_one(q: ImageQuad)
    ensures
        commands_for_quads(seq![q]) == quad_commands(q),
{
    assert(seq![q].drop_first() =~= Seq::<ImageQuad>::empty());
    assert(commands_for_quads(Seq::<ImageQuad>::empty()) =~= Seq::<DrawCommand>::empty());
    assert(commands_for_quads(seq![q]) =~= quad_commands(q) + Seq::<DrawCommand>::empty());
    assert(quad_commands(q) + Seq::<DrawCommand>::empty() =~= quad_commands(q));
}

/// Appending a quad at the back appends its three commands at the back.
proof fn lemma_commands_for_quads_push(qs: Seq<ImageQuad>, q: ImageQuad)
    ensures
        commands_for_quads(qs.push(q)) == commands_for_quads(qs) + quad_commands(q),
    decreases qs.len(),
{
    if qs.len() == 0 {
        assert(qs.push(q) =~= seq![q]);
        lemma_commands_for_one(q);
        assert(commands_for_quads(qs) =~= Seq::<DrawCommand>::empty());
        assert(commands_for_quads(qs) + quad_commands(q) =~= quad_commands(q));
    } else {
        assert(qs.push(q).drop_first() =~= qs.drop_first().push(q));
        lemma_commands_for_quads_push(qs.drop_first(), q);
        assert(commands_for_quads(qs.push(q)) =~= commands_for_quads(qs) + quad_commands(q));
    }
}

/// The next frame of a cycle of `n` frames after frame `i`.
pub open spec fn next_frame_index(i: usize, n: int) -> usize {
    if i + 1 < n {
        (i + 1) as usize
    } else {
        0
    }
}

/// The scene after one frame-done event: an animated scene steps to the next
/// frame of its cycle, every other scene is unchanged.
pub open spec fn advanced(s: SceneView) -> SceneView {
    match s {
        SceneView::AnimatedImage { frames, frame_index, frame_duration_ms } => (
            SceneView::AnimatedImage {
                frames,
                frame_index: next_frame_index(frame_index, frames.len() as int),
                frame_duration_ms,
            }
        ),
        _ => s,
    }
}

impl SceneContent {
    /// Encode one render pass over this scene.
    pub fn encode(&self, pipeline: u64) -> (cmds: Vec<DrawCommand>)
        requires
            scene_wf(self@),
        ensures
            cmds@ == encode_spec(self@, pipeline),
    {
        let mut cmds: Vec<DrawCommand> = Vec::new();
        match self {
            SceneContent::Empty => {},
            SceneContent::StaticImage(q) => {
                cmds.push(DrawCommand::BindPipeline(pipeline));
                cmds.push(DrawCommand::BindGroup(q.bind_group));
                cmds.push(DrawCommand::BindVertexBuffer(q.vertex_buffer));
                cmds.push(DrawCommand::Draw(QUAD_VERTEX_COUNT));
                proof {
                    assert(visible_quads(self@) =~= seq![*q]);
                    lemma_commands_for_one(*q);
                    assert(cmds@ =~= encode_spec(self@, pipeline));
                }
            },
            SceneContent::AnimatedImage { frames, frame_index, .. } => {
                let q = frames[*frame_index];
                cmds.push(DrawCommand::BindPipeline(pipeline));
                cmds.push(DrawCommand::BindGroup(q.bind_group));
                cmds.push(DrawCommand::BindVertexBuffer(q.vertex_buffer));
                cmds.push(DrawCommand::Draw(QUAD_VERTEX_COUNT));
                proof {
                    assert(visible_quads(self@) =~= seq![q]);
                    lemma_commands_for_one(q);
                    assert(cmds@ =~= encode_spec(self@, pipeline));
                }
            },
            SceneContent::FlatScene2D(quads) => {
                cmds.push(DrawCommand::BindPipeline(pipeline));
                let mut i: usize = 0;
                proof {
                    assert(visible_quads(self@).take(0) =~= Seq::<ImageQuad>::empty());
                }
                while i < quads.len()
                    invariant
                        i <= quads.len(),
                        visible_quads(self@) == quads@,
                        cmds@ == seq![DrawCommand::BindPipeline(pipeline)]
                            + commands_for_quads(quads@.take(i as int)),
                    decreases quads.len() - i,
                {
                    let q = quads[i];
                    cmds.push(DrawCommand::BindGroup(q.bind_group));
                    cmds.push(DrawCommand::BindVertexBuffer(q.vertex_buffer));
                    cmds.push(DrawCommand::Draw(QUAD_VERTEX_COUNT));
                    proof {
                        assert(quads@.take(i + 1) =~= quads@.take(i as int).push(q));
                        lemma_commands_for_quads_push(quads@.take(i as int), q);
                        assert(cmds@ =~= seq![DrawCommand::BindPipeline(pipeline)]
                            + commands_for_quads(quads@.take(i + 1)));
                    }
                    i = i + 1;
                }
                proof {
                    assert(quads@.take(quads@.len() as int) =~= quads@);
                }
            },
        }
        cmds
    }

    /// Step an animated scene to its next frame; leave any other scene as it
    /// is.
    pub fn advance_frame(&mut self)
        requires
            scene_wf(old(self)@),
        ensures
            final(self)@ == advanced(old(self)@),
            scene_wf(final(self)@),
    {
        match self {
            SceneContent::AnimatedImage { frames, frame_index, .. } => {
                let n = frames.len();
                if *frame_index + 1 < n {
                    *frame_index = *frame_index + 1;
                } else {
                    *frame_index = 0;
                }
            },
            _ => {},
        }
        proof {
            assert(final(self)@ =~= advanced(old(self)@));
        }
    }

    /// Whether a frame-done event asks this scene for a new frame.
    pub fn is_animated(&self) -> (r: bool)
        ensures
            r == (self@ is AnimatedImage),
    {
        match self {
            SceneContent::AnimatedImage { .. } => true,
            _ => false,
        }
    }

    /// The content mode this scene corresponds to.
    pub fn render_type(&self) -> (r: RenderType)
        ensures
            self@ is Empty ==> r == RenderType::Plain,
            self@ is StaticImage ==> r == RenderType::Image,
            self@ is AnimatedImage ==> r == RenderType::Gif,
            self@ is FlatScene2D ==> r == RenderType::Project2D,
    {
        match self {
            SceneContent::Empty => RenderType::Plain,
            SceneContent::StaticImage(..) => RenderType::Image,
            SceneContent::AnimatedImage { .. } => RenderType::Gif,
            SceneContent::FlatScene2D(..) => RenderType::Project2D,
        }
    }
}

impl Default for SceneContent {
    /// A fresh session starts with nothing to draw.
    fn default() -> (r: Self)
        ensures
            r@ is Empty,
    {
        SceneContent::Empty
    }
}

} // verus!
