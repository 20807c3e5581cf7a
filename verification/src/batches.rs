use vstd::prelude::*;

verus! {

/// A clip rectangle in whole pixels. The GUI gives clip rectangles in
/// fractions of a point; the fractions are cut off, not rounded, before the
/// rectangle comes here.
#[derive(Clone, Copy, Debug, PartialEq, Eq, Structural)]
pub struct ClipRect {
    pub x: i32,
    pub y: i32,
    pub width: i32,
    pub height: i32,
}

/// How the host is to draw every mesh of the GUI.
#[derive(Clone, Copy, Debug, PartialEq, Eq, Structural)]
pub struct MeshSettings {
    /// The triangles of the GUI wind either way, so none may be culled.
    pub backface_culling: bool,
    /// Every mesh is drawn with the texture of the font atlas.
    pub textured_with_atlas: bool,
}

/// The settings of every GUI mesh: no culling, and the atlas as texture.
pub fn gui_mesh_settings() -> (settings: MeshSettings)
    ensures
        settings == (MeshSettings { backface_culling: false, textured_with_atlas: true }),
{
    MeshSettings { backface_culling: false, textured_with_atlas: true }
}

/// One drawable piece of a GUI frame: a mesh and the rectangle outside of
/// which nothing of it is drawn. `M` is the mesh of the host.
pub struct MeshBatch<M> {
    pub clip: ClipRect,
    pub mesh: M,
}

/// A step of drawing the GUI.
#[derive(Clone, Copy, Debug, PartialEq, Eq, Structural)]
pub enum DrawCommand {
    /// Blend with premultiplied alpha from now on.
    SetPremultipliedAlphaBlend,
    /// Draw inside this rectangle only from now on.
    SetScissor(ClipRect),
    /// Draw the mesh of the batch with this index.
    DrawMesh(usize),
    /// Reset the scissor to what the host starts with: draw everywhere.
    ResetScissor,
    /// Reset the blending to what the host starts with.
    ResetBlend,
}

/// A step of drawing a whole frame.
#[derive(Clone, Copy, Debug, PartialEq, Eq, Structural)]
pub enum FrameDrawStep {
    /// Let the game draw its content.
    Game,
    /// Draw a piece of the GUI on top.
    Gui(DrawCommand),
}

/// The clip rectangles of batches, in their order.
pub open spec fn clips_of<M>(batches: Seq<MeshBatch<M>>) -> Seq<ClipRect> {
    Seq::new(batches.len(), |i: int| batches[i].clip)
}

/// The commands that draw the batches with these clip rectangles: blending
/// on, then for each batch in turn its scissor and its mesh, then scissor and
/// blending reset. The host can set and reset the two but cannot tell what
/// they are, so they are reset to what the host starts with; a game that
/// draws with other settings sets them again after the GUI is drawn.
pub open spec fn draw_commands(clips: Seq<ClipRect>) -> Seq<DrawCommand> {
    Seq::new(
        2 * clips.len() + 3,
        |i: int|
            if i == 0 {
                DrawCommand::SetPremultipliedAlphaBlend
            } else if i == 2 * clips.len() + 1 {
                DrawCommand::ResetScissor
            } else if i == 2 * clips.len() + 2 {
                DrawCommand::ResetBlend
            } else if i % 2 == 1 {
                DrawCommand::SetScissor(clips[(i - 1) / 2])
            } else {
                DrawCommand::DrawMesh(((i - 2) / 2) as usize)
            },
    )
}

/// The steps that draw a frame: the game first, the GUI on top of it.
pub open spec fn frame_draw_steps(clips: Seq<ClipRect>) -> Seq<FrameDrawStep> {
    seq![FrameDrawStep::Game] + draw_commands(clips).map_values(
        |command: DrawCommand| FrameDrawStep::Gui(command),
    )
}

/// Lists the commands that draw `batches`.
pub fn plan_draw<M>(batches: &Vec<MeshBatch<M>>) -> (commands: Vec<DrawCommand>)
    ensures
        commands@ == draw_commands(clips_of(batches@)),
{
    let mut commands: Vec<DrawCommand> = Vec::new();
    commands.push(DrawCommand::SetPremultipliedAlphaBlend);
    let ghost clips = clips_of(batches@);
    let mut i: usize = 0;
    while i < batches.len()
        invariant
            0 <= i <= batches.len(),
            clips == clips_of(batches@),
            commands@.len() == 2 * i + 1,
            forall|k: int| 0 <= k < commands@.len() ==> commands@[k] == draw_commands(clips)[k],
        decreases batches.len() - i,
    {
        commands.push(DrawCommand::SetScissor(batches[i].clip));
        commands.push(DrawCommand::DrawMesh(i));
        i = i + 1;
    }
    commands.push(DrawCommand::ResetScissor);
    commands.push(DrawCommand::ResetBlend);
    assert(commands@ =~= draw_commands(clips));
    commands
}

/// Lists the steps that draw a frame with `batches` on top of the game.
pub fn plan_frame<M>(batches: &Vec<MeshBatch<M>>) -> (steps: Vec<FrameDrawStep>)
    ensures
        steps@ == frame_draw_steps(clips_of(batches@)),
{
    let commands = plan_draw(batches);
    let mut steps: Vec<FrameDrawStep> = Vec::new();
    steps.push(FrameDrawStep::Game);
    let mut i: usize = 0;
    while i < commands.len()
        invariant
            0 <= i <= commands.len(),
            steps@.len() == i + 1,
            steps@[0] == FrameDrawStep::Game,
            forall|k: int| 0 <= k < i ==> steps@[k + 1] == FrameDrawStep::Gui(commands@[k]),
        decreases commands.len() - i,
    {
        steps.push(FrameDrawStep::Gui(commands[i]));
        i = i + 1;
    }
    assert(steps@ =~= frame_draw_steps(clips_of(batches@)));
    steps
}

/// The order of drawing: the game comes first; then blending is switched on;
/// then the batches follow in the order in which the frame produced them,
/// each mesh right behind its own scissor rectangle; at the end, scissor and
/// blending are reset to what the host starts with. Nothing else is drawn.
pub proof fn lemma_draw_order(clips: Seq<ClipRect>, k: int)
    requires
        0 <= k < clips.len(),
    ensures
        frame_draw_steps(clips).len() == 2 * clips.len() + 4,
        frame_draw_steps(clips)[0] == FrameDrawStep::Game,
        frame_draw_steps(clips)[1] == FrameDrawStep::Gui(DrawCommand::SetPremultipliedAlphaBlend),
        frame_draw_steps(clips)[2 * k + 2] == FrameDrawStep::Gui(DrawCommand::SetScissor(clips[k])),
        frame_draw_steps(clips)[2 * k + 3] == FrameDrawStep::Gui(DrawCommand::DrawMesh(k as usize)),
        frame_draw_steps(clips)[2 * clips.len() as int + 2] == FrameDrawStep::Gui(
            DrawCommand::ResetScissor,
        ),
        frame_draw_steps(clips)[2 * clips.len() as int + 3] == FrameDrawStep::Gui(
            DrawCommand::ResetBlend,
        ),
{
    let commands = draw_commands(clips);
    assert(commands[2 * k + 1] == DrawCommand::SetScissor(clips[k]));
    assert(commands[2 * k + 2] == DrawCommand::DrawMesh(k as usize));
}

/// With no batch at all the game is drawn, and blending is switched on and
/// reset, with the scissor, around nothing.
pub proof fn lemma_draw_order_without_batches()
    ensures
        frame_draw_steps(Seq::<ClipRect>::empty()) == seq![
            FrameDrawStep::Game,
            FrameDrawStep::Gui(DrawCommand::SetPremultipliedAlphaBlend),
            FrameDrawStep::Gui(DrawCommand::ResetScissor),
            FrameDrawStep::Gui(DrawCommand::ResetBlend),
        ],
{
    assert(frame_draw_steps(Seq::<ClipRect>::empty()) =~= seq![
        FrameDrawStep::Game,
        FrameDrawStep::Gui(DrawCommand::SetPremultipliedAlphaBlend),
        FrameDrawStep::Gui(DrawCommand::ResetScissor),
        FrameDrawStep::Gui(DrawCommand::ResetBlend),
    ]);
}

} // verus!
