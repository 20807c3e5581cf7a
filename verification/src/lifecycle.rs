use crate::accumulator::{FrameInput, RawInputAccumulator, ScreenSize};
use crate::arbitration::GuiVerdict;
use crate::atlas::{premultiplied_rgba, upload_needed, AtlasImage, FontAtlas, TextureData};
use crate::batches::{
    clips_of, draw_commands, frame_draw_steps, plan_draw, plan_frame, DrawCommand, FrameDrawStep,
    MeshBatch,
};
use crate::effects::{effects_of, side_effects, GuiOutput, SideEffect};
use crate::error::Error;
use crate::gui::{gui_new_context, read_verdict};
use crate::input::{
    modifiers_after, paste_fails, read_error, translation, ClipboardRead,
    GuiEvent, HeldModifiers, HostEvent, HostInput, ModifierState,
};
use vstd::prelude::*;

verus! {

/// Where the bridge stands in the cycle of a tick.
#[derive(Clone, Copy, Debug, PartialEq, Eq, Structural)]
pub enum FramePhase {
    /// Between ticks. No GUI frame is open and no verdict is fresh.
    Idle,
    /// A GUI frame is open: the GUI may be built now.
    FrameBegun,
    /// The GUI frame is closed: its batches are stored, and the GUI can tell
    /// which input it took.
    FrameEnded,
}

/// The time from `last` to `now`, both in nanoseconds on one clock that
/// never runs backwards. Should it run backwards after all, no time passed.
pub open spec fn elapsed(last: u64, now: u64) -> u64 {
    if now >= last {
        (now - last) as u64
    } else {
        0
    }
}

/// The GUI side of the bridge: the context of the GUI, the input that waits
/// for its next frame, the texture of its font atlas and the batches of its
/// last finished frame. `T` is the texture of the host and `M` its mesh.
pub struct EguiWrapper<T, M> {
    input: RawInputAccumulator,
    ctx: egui::CtxRef,
    atlas: FontAtlas<T>,
    last_frame_nanos: u64,
    meshes: Vec<MeshBatch<M>>,
    phase: FramePhase,
}

impl<T, M> EguiWrapper<T, M> {
    /// Where the bridge stands in the cycle of a tick.
    pub closed spec fn phase(&self) -> FramePhase {
        self.phase
    }

    /// The GUI events that wait for the next frame, oldest first.
    pub closed spec fn pending(&self) -> Seq<GuiEvent> {
        self.input.pending()
    }

    /// The modifier keys held, key by key.
    pub closed spec fn held(&self) -> HeldModifiers {
        self.input.held()
    }

    /// The batches of the last finished frame, bottom first.
    pub closed spec fn batches(&self) -> Seq<MeshBatch<M>> {
        self.meshes@
    }

    /// The texture of the font atlas, if there is one.
    pub closed spec fn atlas_texture_spec(&self) -> Option<T> {
        self.atlas.current()
    }

    /// The generation of the font atlas that the texture shows.
    pub closed spec fn atlas_generation(&self) -> Option<u64> {
        self.atlas.cached()
    }

    /// When the last frame began.
    pub closed spec fn last_frame(&self) -> u64 {
        self.last_frame_nanos
    }

    /// The context of the GUI.
    pub closed spec fn context(&self) -> egui::CtxRef {
        self.ctx
    }

    /// Makes a bridge with a GUI context of its own. `now_nanos` is the time
    /// on the clock that `begin_frame` is told the time of.
    pub fn new(now_nanos: u64) -> (wrapper: Self)
        ensures
            wrapper.phase() == FramePhase::Idle,
            wrapper.pending() == Seq::<GuiEvent>::empty(),
            wrapper.held() == HeldModifiers::released(),
            wrapper.batches() == Seq::<MeshBatch<M>>::empty(),
            wrapper.atlas_texture_spec() is None,
            wrapper.atlas_generation() is None,
            wrapper.last_frame() == now_nanos,
    {
        EguiWrapper {
            input: RawInputAccumulator::new(),
            ctx: gui_new_context(),
            atlas: FontAtlas::new(),
            last_frame_nanos: now_nanos,
            meshes: Vec::new(),
            phase: FramePhase::Idle,
        }
    }

    /// The context of the GUI.
    pub fn ctx(&self) -> (ctx: &egui::CtxRef)
        ensures
            *ctx == self.context(),
    {
        &self.ctx
    }

    /// The context of the GUI, to hand it the input of a frame. Nothing else
    /// of the bridge changes with it.
    pub fn ctx_mut(&mut self) -> (ctx: &mut egui::CtxRef)
        ensures
            *ctx == old(self).context(),
            final(self).context() == *final(ctx),
            final(self).phase() == old(self).phase(),
            final(self).pending() == old(self).pending(),
            final(self).held() == old(self).held(),
            final(self).batches() == old(self).batches(),
            final(self).atlas_texture_spec() == old(self).atlas_texture_spec(),
            final(self).atlas_generation() == old(self).atlas_generation(),
            final(self).last_frame() == old(self).last_frame(),
    {
        &mut self.ctx
    }

    /// Where the bridge stands in the cycle of a tick.
    pub fn current_phase(&self) -> (phase: FramePhase)
        ensures
            phase == self.phase(),
    {
        self.phase
    }

    /// The modifier flags: a flag is set while a key of its group is held.
    pub fn modifiers(&self) -> (modifiers: ModifierState)
        ensures
            modifiers == self.held().flags(),
    {
        self.input.modifiers()
    }

    /// How many GUI events wait for the next frame.
    pub fn pending_len(&self) -> (len: usize)
        ensures
            len == self.pending().len(),
    {
        self.input.pending_len()
    }

    /// Translates an event of the host for the GUI and lets the result wait
    /// for the next frame: see `translate`. The only failure is that of a
    /// paste that got no text; nothing is kept of such an event.
    pub fn event<H>(&mut self, host: &HostInput, event: &HostEvent, clipboard: ClipboardRead) -> (result:
        Result<(), Error<H>>)
        ensures
            final(self).held() == modifiers_after(old(self).held(), *event),
            paste_fails(*event, *host, clipboard) ==> {
                &&& result == Err::<(), Error<H>>(Error::ClipboardError(read_error(clipboard)))
                &&& final(self).pending() == old(self).pending()
            },
            !paste_fails(*event, *host, clipboard) ==> {
                &&& result is Ok
                &&& final(self).pending() == old(self).pending() + translation(
                    old(self).held(),
                    *host,
                    *event,
                    clipboard,
                )
            },
            final(self).phase() == old(self).phase(),
            final(self).batches() == old(self).batches(),
            final(self).atlas_texture_spec() == old(self).atlas_texture_spec(),
            final(self).atlas_generation() == old(self).atlas_generation(),
            final(self).last_frame() == old(self).last_frame(),
            final(self).context() == old(self).context(),
    {
        match self.input.event(host, event, clipboard) {
            Ok(()) => Ok(()),
            Err(error) => Err(Error::from_clipboard(error)),
        }
    }

    /// Begins a frame at the time `now_nanos`, in a window of the size
    /// `screen`. Everything that waited becomes the input of this frame and
    /// nothing waits any more. The batches of the frame before are thrown
    /// away. The caller hands the input to the GUI before it builds the GUI.
    pub fn begin_frame(&mut self, now_nanos: u64, screen: ScreenSize) -> (frame: FrameInput)
        ensures
            frame.events@ == old(self).pending(),
            frame.modifiers == old(self).held().flags(),
            frame.screen == screen,
            frame.predicted_dt_nanos == elapsed(old(self).last_frame(), now_nanos),
            final(self).pending() == Seq::<GuiEvent>::empty(),
            final(self).held() == old(self).held(),
            final(self).batches() == Seq::<MeshBatch<M>>::empty(),
            final(self).phase() == FramePhase::FrameBegun,
            final(self).last_frame() == now_nanos,
            final(self).atlas_texture_spec() == old(self).atlas_texture_spec(),
            final(self).atlas_generation() == old(self).atlas_generation(),
            final(self).context() == old(self).context(),
    {
        let predicted_dt_nanos: u64 = if now_nanos >= self.last_frame_nanos {
            now_nanos - self.last_frame_nanos
        } else {
            0
        };
        self.last_frame_nanos = now_nanos;
        self.meshes.clear();
        self.phase = FramePhase::FrameBegun;
        self.input.take(screen, predicted_dt_nanos)
    }

    /// Sees to it that there is a texture for the font atlas: see
    /// `FontAtlas::ensure_atlas_texture`.
    pub fn ensure_atlas_texture(&self, image: &AtlasImage) -> (upload: Option<TextureData>)
        ensures
            upload is Some == upload_needed(self.atlas_generation(), image.generation),
            self.atlas_texture_spec() is None ==> upload is Some,
            upload is None ==> self.atlas_texture_spec() is Some,
            upload matches Some(data) ==> {
                &&& data.generation == image.generation
                &&& data.width == image.width
                &&& data.height == image.height
                &&& data.rgba@ == premultiplied_rgba(image.alpha@)
            },
    {
        self.atlas.ensure_atlas_texture(image)
    }

    /// Keeps the texture that was created for the font atlas of this
    /// generation.
    pub fn install_atlas_texture(&mut self, generation: u64, texture: T)
        ensures
            final(self).atlas_texture_spec() == Some(texture),
            final(self).atlas_generation() == Some(generation),
            final(self).phase() == old(self).phase(),
            final(self).pending() == old(self).pending(),
            final(self).held() == old(self).held(),
            final(self).batches() == old(self).batches(),
            final(self).last_frame() == old(self).last_frame(),
            final(self).context() == old(self).context(),
    {
        self.atlas.install(generation, texture);
    }

    /// The generation of an atlas is cached exactly when the texture of an
    /// atlas is at hand.
    pub proof fn lemma_generation_iff_texture(&self)
        ensures
            self.atlas_generation() is Some <==> self.atlas_texture_spec() is Some,
    {
        self.atlas.lemma_cached_iff_texture();
    }

    /// The texture of the font atlas, for the meshes of the frame.
    pub fn atlas_texture(&self) -> (texture: Option<&T>)
        ensures
            texture is Some == self.atlas_texture_spec() is Some,
            texture is Some == self.atlas_generation() is Some,
            texture matches Some(t) ==> Some(*t) == self.atlas_texture_spec(),
    {
        self.atlas.texture()
    }

    /// Ends the frame: stores its batches in place of whatever was stored,
    /// and lists what the GUI asks of the platform. Without a texture of the
    /// font atlas there is nothing to draw the GUI with, and no batch is
    /// stored.
    pub fn end_frame(&mut self, batches: Vec<MeshBatch<M>>, output: GuiOutput) -> (effects: Vec<
        SideEffect,
    >)
        requires
            old(self).phase() == FramePhase::FrameBegun,
        ensures
            final(self).batches() == if old(self).atlas_texture_spec() is Some {
                batches@
            } else {
                Seq::<MeshBatch<M>>::empty()
            },
            effects@ == effects_of(output),
            final(self).phase() == FramePhase::FrameEnded,
            final(self).pending() == old(self).pending(),
            final(self).held() == old(self).held(),
            final(self).atlas_texture_spec() == old(self).atlas_texture_spec(),
            final(self).atlas_generation() == old(self).atlas_generation(),
            final(self).last_frame() == old(self).last_frame(),
            final(self).context() == old(self).context(),
    {
        if self.atlas.texture().is_some() {
            self.meshes = batches;
        } else {
            self.meshes = Vec::new();
        }
        self.phase = FramePhase::FrameEnded;
        side_effects(output)
    }

    /// Lists the commands that draw the latest finished frame. Blending and
    /// scissor are changed for the batches only; at the end both are reset
    /// to what the host starts with, not to what they were before the call.
    pub fn draw_frame(&self) -> (commands: Vec<DrawCommand>)
        ensures
            commands@ == draw_commands(clips_of(self.batches())),
    {
        plan_draw(&self.meshes)
    }

    /// Lists the steps that draw a whole frame: the game first, then the
    /// latest finished GUI frame on top.
    pub fn plan_frame(&self) -> (steps: Vec<FrameDrawStep>)
        ensures
            steps@ == frame_draw_steps(clips_of(self.batches())),
    {
        plan_frame(&self.meshes)
    }

    /// How many batches the latest finished frame has.
    pub fn batch_count(&self) -> (count: usize)
        ensures
            count == self.batches().len(),
    {
        self.meshes.len()
    }

    /// The batch with this index.
    pub fn batch(&self, index: usize) -> (batch: &MeshBatch<M>)
        requires
            index < self.batches().len(),
        ensures
            *batch == self.batches()[index as int],
    {
        &self.meshes[index]
    }

    /// Reads what the GUI says of the input right now.
    pub fn verdict(&self) -> (verdict: GuiVerdict) {
        read_verdict(&self.ctx)
    }

    /// Ends the tick after the input of the frame has been dealt out.
    pub fn finish_tick(&mut self)
        requires
            old(self).phase() == FramePhase::FrameEnded,
        ensures
            final(self).phase() == FramePhase::Idle,
            final(self).pending() == old(self).pending(),
            final(self).held() == old(self).held(),
            final(self).batches() == old(self).batches(),
            final(self).atlas_texture_spec() == old(self).atlas_texture_spec(),
            final(self).atlas_generation() == old(self).atlas_generation(),
            final(self).last_frame() == old(self).last_frame(),
            final(self).context() == old(self).context(),
    {
        self.phase = FramePhase::Idle;
    }
}

} // verus!
