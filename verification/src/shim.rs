use crate::arbitration::{
    category_of, category_of_event, dispatch_step, Deferred, DeferredEventQueue, GuiVerdict,
};
use crate::batches::{clips_of, frame_draw_steps, plan_frame, FrameDrawStep};
use crate::error::Error;
use crate::input::{
    modifiers_after, paste_fails, read_error, translation, ClipboardRead, HostEvent, HostInput,
};
use crate::lifecycle::{EguiWrapper, FramePhase};
use vstd::prelude::*;

verus! {

/// The bridge as a whole: the GUI side and the host events that wait for the
/// verdict of the GUI. A driver feeds it the events of the host, runs one
/// tick per update of the game, and draws by its plan. `Ev` is the event of
/// the host as the game gets it.
pub struct StateWrapper<T, M, Ev> {
    events: DeferredEventQueue<Ev>,
    egui: EguiWrapper<T, M>,
}

impl<T, M, Ev> StateWrapper<T, M, Ev> {
    /// The host events that wait for the next dispatch, oldest first.
    pub closed spec fn deferred(&self) -> Seq<Deferred<Ev>> {
        self.events.waiting()
    }

    /// The GUI side.
    pub closed spec fn gui(&self) -> EguiWrapper<T, M> {
        self.egui
    }

    /// Makes a bridge: see `EguiWrapper::new`. No event waits.
    pub fn new(now_nanos: u64) -> (wrapper: Self)
        ensures
            wrapper.deferred() == Seq::<Deferred<Ev>>::empty(),
            wrapper.gui().phase() == FramePhase::Idle,
            wrapper.gui().pending() == Seq::<crate::input::GuiEvent>::empty(),
            wrapper.gui().held() == crate::input::HeldModifiers::released(),
            wrapper.gui().batches() == Seq::<crate::batches::MeshBatch<M>>::empty(),
            wrapper.gui().atlas_texture_spec() is None,
            wrapper.gui().atlas_generation() is None,
            wrapper.gui().last_frame() == now_nanos,
    {
        StateWrapper { events: DeferredEventQueue::new(), egui: EguiWrapper::new(now_nanos) }
    }

    /// The context of the GUI.
    pub fn ctx(&self) -> (ctx: &egui::CtxRef)
        ensures
            *ctx == self.gui().context(),
    {
        self.egui.ctx()
    }

    /// The GUI side.
    pub fn egui(&self) -> (egui: &EguiWrapper<T, M>)
        ensures
            *egui == self.gui(),
    {
        &self.egui
    }

    /// The GUI side, for the steps of a frame. The events that wait for the
    /// dispatch are out of its reach.
    pub fn egui_mut(&mut self) -> (egui: &mut EguiWrapper<T, M>)
        ensures
            *egui == old(self).gui(),
            final(self).gui() == *final(egui),
            final(self).deferred() == old(self).deferred(),
    {
        &mut self.egui
    }

    /// How many host events wait for the next dispatch.
    pub fn deferred_len(&self) -> (len: usize)
        ensures
            len == self.deferred().len(),
    {
        self.events.len()
    }

    /// Takes in an event of the host. The GUI gets it first: it is translated
    /// and waits for the next frame. Then it waits for the next dispatch,
    /// behind the events that came before it, with `payload` as what the game
    /// is to get. If the translation fails, the event is dropped.
    pub fn event<H>(
        &mut self,
        host: &HostInput,
        event: &HostEvent,
        payload: Ev,
        clipboard: ClipboardRead,
    ) -> (result: Result<(), Error<H>>)
        ensures
            final(self).gui().held() == modifiers_after(old(self).gui().held(), *event),
            paste_fails(*event, *host, clipboard) ==> {
                &&& result == Err::<(), Error<H>>(Error::ClipboardError(read_error(clipboard)))
                &&& final(self).gui().pending() == old(self).gui().pending()
                &&& final(self).deferred() == old(self).deferred()
            },
            !paste_fails(*event, *host, clipboard) ==> {
                &&& result is Ok
                &&& final(self).gui().pending() == old(self).gui().pending() + translation(
                    old(self).gui().held(),
                    *host,
                    *event,
                    clipboard,
                )
                &&& final(self).deferred() == old(self).deferred().push(
                    Deferred { category: category_of_event(*event), payload },
                )
            },
            final(self).gui().phase() == old(self).gui().phase(),
            final(self).gui().batches() == old(self).gui().batches(),
            final(self).gui().atlas_texture_spec() == old(self).gui().atlas_texture_spec(),
            final(self).gui().atlas_generation() == old(self).gui().atlas_generation(),
            final(self).gui().last_frame() == old(self).gui().last_frame(),
            final(self).gui().context() == old(self).gui().context(),
    {
        match self.egui.event(host, event, clipboard) {
            Ok(()) => {
                self.events.push(category_of(event), payload);
                Ok(())
            },
            Err(error) => Err(error),
        }
    }

    /// Takes out every host event that waits, to deal them out to the game.
    /// This is for the time after the GUI frame of the tick has ended: only
    /// then can the GUI tell which input it took. It ends the tick of the
    /// GUI side.
    pub fn take_deferred(&mut self) -> (batch: DeferredEventQueue<Ev>)
        requires
            old(self).gui().phase() == FramePhase::FrameEnded,
        ensures
            batch.waiting() == old(self).deferred(),
            final(self).deferred() == Seq::<Deferred<Ev>>::empty(),
            final(self).gui().phase() == FramePhase::Idle,
            final(self).gui().pending() == old(self).gui().pending(),
            final(self).gui().held() == old(self).gui().held(),
            final(self).gui().batches() == old(self).gui().batches(),
            final(self).gui().atlas_texture_spec() == old(self).gui().atlas_texture_spec(),
            final(self).gui().atlas_generation() == old(self).gui().atlas_generation(),
            final(self).gui().last_frame() == old(self).gui().last_frame(),
            final(self).gui().context() == old(self).gui().context(),
    {
        self.egui.finish_tick();
        self.events.drain()
    }

    /// Hands out the next event of `batch` for the game, by what the GUI says
    /// of the input right now: see `DeferredEventQueue::next_forwarded`.
    pub fn next_forwarded(&self, batch: &mut DeferredEventQueue<Ev>) -> (next: Option<Ev>)
        ensures
            exists|verdict: GuiVerdict| #[trigger]
                dispatch_step(old(batch).waiting(), verdict, next, final(batch).waiting()),
            next is None ==> final(batch).waiting() == Seq::<Deferred<Ev>>::empty(),
    {
        let verdict = self.egui.verdict();
        let next = batch.next_forwarded(verdict);
        assert(dispatch_step(old(batch).waiting(), verdict, next, batch.waiting()));
        next
    }

    /// Lists the steps that draw a frame: the game first, then the batches of
    /// the latest finished GUI frame on top.
    pub fn draw(&self) -> (steps: Vec<FrameDrawStep>)
        ensures
            steps@ == frame_draw_steps(clips_of(self.gui().batches())),
    {
        self.egui.plan_frame()
    }
}

} // verus!
