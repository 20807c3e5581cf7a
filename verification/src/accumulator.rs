use crate::input::{
    modifiers_after, paste_fails, read_error, translate, translation,
    ClipboardError, ClipboardRead, GuiEvent, HeldModifiers, HostEvent, HostInput, ModifierState,
};
use vstd::prelude::*;

verus! {

/// The size of the window, in pixels.
#[derive(Clone, Copy, Debug, PartialEq, Eq, Structural)]
pub struct ScreenSize {
    pub width: i32,
    pub height: i32,
}

/// What one GUI frame gets as its input.
#[derive(Clone, Debug, PartialEq, Eq)]
pub struct FrameInput {
    /// The GUI covers the window from its origin to this size.
    pub screen: ScreenSize,
    /// The time that the frame is expected to last, in nanoseconds.
    pub predicted_dt_nanos: u64,
    pub modifiers: ModifierState,
    /// The events since the frame before, oldest first.
    pub events: Vec<GuiEvent>,
}

/// Collects the GUI events between two frames. Events come in one by one as
/// the host reports them and leave all at once, when a frame begins.
pub struct RawInputAccumulator {
    events: Vec<GuiEvent>,
    modifiers: HeldModifiers,
}

impl RawInputAccumulator {
    /// The events that wait for the next frame, oldest first.
    pub closed spec fn pending(&self) -> Seq<GuiEvent> {
        self.events@
    }

    /// The modifier keys held, key by key.
    pub closed spec fn held(&self) -> HeldModifiers {
        self.modifiers
    }

    pub fn new() -> (accumulator: Self)
        ensures
            accumulator.pending() == Seq::<GuiEvent>::empty(),
            accumulator.held() == HeldModifiers::released(),
    {
        RawInputAccumulator { events: Vec::new(), modifiers: HeldModifiers::new() }
    }

    /// The modifier flags: a flag is set while a key of its group is held.
    pub fn modifiers(&self) -> (modifiers: ModifierState)
        ensures
            modifiers == self.held().flags(),
    {
        self.modifiers.state()
    }

    /// The modifier keys held, key by key.
    pub fn held_modifiers(&self) -> (keys: HeldModifiers)
        ensures
            keys == self.held(),
    {
        self.modifiers
    }

    /// How many events wait for the next frame.
    pub fn pending_len(&self) -> (len: usize)
        ensures
            len == self.pending().len(),
    {
        self.events.len()
    }

    /// Takes in one host event: see `translate`.
    pub fn event(&mut self, host: &HostInput, event: &HostEvent, clipboard: ClipboardRead) -> (result:
        Result<(), ClipboardError>)
        ensures
            final(self).held() == modifiers_after(old(self).held(), *event),
            paste_fails(*event, *host, clipboard) ==> {
                &&& result == Err::<(), ClipboardError>(read_error(clipboard))
                &&& final(self).pending() == old(self).pending()
            },
            !paste_fails(*event, *host, clipboard) ==> {
                &&& result is Ok
                &&& final(self).pending() == old(self).pending() + translation(
                    old(self).held(),
                    *host,
                    *event,
                    clipboard,
                )
                &&& final(self).pending() == pending_after(
                    old(self).pending(),
                    enqueue_all(translation(old(self).held(), *host, *event, clipboard)),
                )
            },
    {
        proof {
            lemma_enqueue_all(
                self.events@,
                translation(self.modifiers, *host, *event, clipboard),
            );
        }
        translate(&mut self.modifiers, &mut self.events, host, event, clipboard)
    }

    /// Hands out everything that waits, for the frame that begins, and keeps
    /// nothing of it. The modifier keys stay as they are: a key may be held
    /// from one frame to the next.
    pub fn take(&mut self, screen: ScreenSize, predicted_dt_nanos: u64) -> (frame: FrameInput)
        ensures
            frame.events@ == old(self).pending(),
            frame.modifiers == old(self).held().flags(),
            frame.screen == screen,
            frame.predicted_dt_nanos == predicted_dt_nanos,
            final(self).pending() == Seq::<GuiEvent>::empty(),
            final(self).held() == old(self).held(),
            frame.events@ == last_frame(old(self).pending(), seq![AccumulatorStep::BeginFrame]),
            final(self).pending() == pending_after(
                old(self).pending(),
                seq![AccumulatorStep::BeginFrame],
            ),
    {
        assert(seq![AccumulatorStep::BeginFrame].drop_last() =~= Seq::<AccumulatorStep>::empty());
        let mut events: Vec<GuiEvent> = Vec::new();
        std::mem::swap(&mut events, &mut self.events);
        FrameInput { screen, predicted_dt_nanos, modifiers: self.modifiers.state(), events }
    }
}

/// What happens to an accumulator, one step at a time.
pub enum AccumulatorStep {
    /// This event is appended.
    Enqueue(GuiEvent),
    /// A frame begins and takes what waits.
    BeginFrame,
}

/// What waits in an accumulator that held `start` and then went through `steps`.
pub open spec fn pending_after(start: Seq<GuiEvent>, steps: Seq<AccumulatorStep>) -> Seq<GuiEvent>
    decreases steps.len(),
{
    if steps.len() == 0 {
        start
    } else {
        match steps.last() {
            AccumulatorStep::Enqueue(event) => pending_after(start, steps.drop_last()).push(event),
            AccumulatorStep::BeginFrame => Seq::empty(),
        }
    }
}

/// The inputs of the frames that began during `steps`, one after the other.
pub open spec fn delivered(start: Seq<GuiEvent>, steps: Seq<AccumulatorStep>) -> Seq<GuiEvent>
    decreases steps.len(),
{
    if steps.len() == 0 {
        Seq::empty()
    } else {
        match steps.last() {
            AccumulatorStep::Enqueue(_) => delivered(start, steps.drop_last()),
            AccumulatorStep::BeginFrame => delivered(start, steps.drop_last()) + pending_after(
                start,
                steps.drop_last(),
            ),
        }
    }
}

/// The input of the frame that the last step of `steps` began.
pub open spec fn last_frame(start: Seq<GuiEvent>, steps: Seq<AccumulatorStep>) -> Seq<GuiEvent>
    recommends
        steps.len() > 0,
        steps.last() is BeginFrame,
{
    pending_after(start, steps.drop_last())
}

/// The events that `steps` appended, oldest first.
pub open spec fn enqueued(steps: Seq<AccumulatorStep>) -> Seq<GuiEvent>
    decreases steps.len(),
{
    if steps.len() == 0 {
        Seq::empty()
    } else {
        match steps.last() {
            AccumulatorStep::Enqueue(event) => enqueued(steps.drop_last()).push(event),
            AccumulatorStep::BeginFrame => enqueued(steps.drop_last()),
        }
    }
}

/// The steps that append `events`, one by one.
pub open spec fn enqueue_all(events: Seq<GuiEvent>) -> Seq<AccumulatorStep> {
    Seq::new(events.len(), |i: int| AccumulatorStep::Enqueue(events[i]))
}

/// No event is lost, none is delivered twice, and none changes place: what
/// the frames got, frame after frame, followed by what still waits, is what
/// was there at the start followed by what came in, in the order of arrival.
pub proof fn lemma_every_event_in_one_frame(start: Seq<GuiEvent>, steps: Seq<AccumulatorStep>)
    ensures
        delivered(start, steps) + pending_after(start, steps) == start + enqueued(steps),
    decreases steps.len(),
{
    if steps.len() == 0 {
        assert(delivered(start, steps) + pending_after(start, steps) =~= start + enqueued(steps));
    } else {
        lemma_every_event_in_one_frame(start, steps.drop_last());
        let before = steps.drop_last();
        assert(delivered(start, before) + pending_after(start, before) == start + enqueued(before));
        match steps.last() {
            AccumulatorStep::Enqueue(event) => {
                assert(delivered(start, steps) + pending_after(start, steps) =~= (delivered(
                    start,
                    before,
                ) + pending_after(start, before)).push(event));
                assert(start + enqueued(steps) =~= (start + enqueued(before)).push(event));
            },
            AccumulatorStep::BeginFrame => {
                assert(delivered(start, steps) + pending_after(start, steps) =~= delivered(
                    start,
                    before,
                ) + pending_after(start, before));
            },
        }
    }
}

/// Appending `events` one by one lets them wait behind what waited before.
pub proof fn lemma_enqueue_all(start: Seq<GuiEvent>, events: Seq<GuiEvent>)
    ensures
        pending_after(start, enqueue_all(events)) == start + events,
    decreases events.len(),
{
    let steps = enqueue_all(events);
    if events.len() == 0 {
        assert(pending_after(start, steps) =~= start + events);
    } else {
        lemma_enqueue_all(start, events.drop_last());
        assert(steps.drop_last() =~= enqueue_all(events.drop_last()));
        assert(steps.last() == AccumulatorStep::Enqueue(events.last()));
        assert(pending_after(start, steps) =~= start + events);
    }
}

/// Between two frames: the events that come in after one frame began and
/// before the next one begins are the input of that next frame, all of them
/// and in their order, whatever went on before. Right after a frame began,
/// nothing waits.
pub proof fn lemma_frame_gets_events_since_last_frame(
    start: Seq<GuiEvent>,
    earlier: Seq<AccumulatorStep>,
    events: Seq<GuiEvent>,
)
    ensures
        pending_after(start, earlier.push(AccumulatorStep::BeginFrame)) == Seq::<GuiEvent>::empty(),
        last_frame(
            start,
            (earlier.push(AccumulatorStep::BeginFrame) + enqueue_all(events)).push(
                AccumulatorStep::BeginFrame,
            ),
        ) == events,
        pending_after(
            start,
            (earlier.push(AccumulatorStep::BeginFrame) + enqueue_all(events)).push(
                AccumulatorStep::BeginFrame,
            ),
        ) == Seq::<GuiEvent>::empty(),
{
    let first = earlier.push(AccumulatorStep::BeginFrame);
    let between = first + enqueue_all(events);
    let all = between.push(AccumulatorStep::BeginFrame);
    assert(all.drop_last() =~= between);
    lemma_pending_after_concat(start, first, enqueue_all(events));
    lemma_enqueue_all(Seq::empty(), events);
    assert(Seq::<GuiEvent>::empty() + events =~= events);
}

/// Going through `first` and then through `second` is going through
/// `second` with what `first` left waiting.
pub proof fn lemma_pending_after_concat(
    start: Seq<GuiEvent>,
    first: Seq<AccumulatorStep>,
    second: Seq<AccumulatorStep>,
)
    ensures
        pending_after(start, first + second) == pending_after(pending_after(start, first), second),
    decreases second.len(),
{
    if second.len() == 0 {
        assert(first + second =~= first);
    } else {
        lemma_pending_after_concat(start, first, second.drop_last());
        assert((first + second).drop_last() =~= first + second.drop_last());
        assert((first + second).last() == second.last());
    }
}

} // verus!
