use crate::input::HostEvent;
use std::collections::VecDeque;
use vstd::prelude::*;

verus! {

/// The kinds of host events, as far as input ownership goes.
#[derive(Clone, Copy, Debug, PartialEq, Eq, Hash, Structural)]
pub enum EventCategory {
    /// A key went down or up.
    Key,
    /// A pointer button went down or up.
    PointerButton,
    /// The pointer moved.
    PointerMove,
    /// The wheel moved.
    Scroll,
    /// Text input, window events and everything else.
    Other,
}

/// What the GUI says of the input after it has laid out a frame.
#[derive(Clone, Copy, Debug, PartialEq, Eq, Structural)]
pub struct GuiVerdict {
    /// The GUI listens to the keyboard, as while text is being edited.
    pub wants_keyboard: bool,
    /// The GUI uses the pointer, as while a slider is being dragged.
    pub using_pointer: bool,
}

/// The kind of a host event.
pub open spec fn category_of_event(event: HostEvent) -> EventCategory {
    match event {
        HostEvent::KeyPressed { .. } | HostEvent::KeyReleased { .. } => EventCategory::Key,
        HostEvent::MouseButtonPressed { .. }
        | HostEvent::MouseButtonReleased { .. } => EventCategory::PointerButton,
        HostEvent::MouseMoved { .. } => EventCategory::PointerMove,
        HostEvent::MouseWheelMoved { .. } => EventCategory::Scroll,
        HostEvent::TextInput { .. } | HostEvent::Other => EventCategory::Other,
    }
}

/// Whether an event of this kind is kept from the game: a key event while the
/// GUI wants the keyboard, a pointer or wheel event while the GUI uses the
/// pointer. Events of the last kind always reach the game.
pub open spec fn suppressed(category: EventCategory, verdict: GuiVerdict) -> bool {
    match category {
        EventCategory::Key => verdict.wants_keyboard,
        EventCategory::PointerButton | EventCategory::PointerMove | EventCategory::Scroll =>
            verdict.using_pointer,
        EventCategory::Other => false,
    }
}

/// Tells the kind of a host event.
pub fn category_of(event: &HostEvent) -> (category: EventCategory)
    ensures
        category == category_of_event(*event),
{
    match event {
        HostEvent::KeyPressed { .. } | HostEvent::KeyReleased { .. } => EventCategory::Key,
        HostEvent::MouseButtonPressed { .. }
        | HostEvent::MouseButtonReleased { .. } => EventCategory::PointerButton,
        HostEvent::MouseMoved { .. } => EventCategory::PointerMove,
        HostEvent::MouseWheelMoved { .. } => EventCategory::Scroll,
        HostEvent::TextInput { .. } | HostEvent::Other => EventCategory::Other,
    }
}

impl GuiVerdict {
    /// Tells whether an event of this kind is kept from the game.
    pub fn suppresses(&self, category: EventCategory) -> (drop: bool)
        ensures
            drop == suppressed(category, *self),
    {
        match category {
            EventCategory::Key => self.wants_keyboard,
            EventCategory::PointerButton | EventCategory::PointerMove | EventCategory::Scroll =>
                self.using_pointer,
            EventCategory::Other => false,
        }
    }
}

/// A host event that waits for the verdict of the GUI. The queue reads its
/// kind only; `payload` is what the game gets if the event is let through.
pub struct Deferred<Ev> {
    pub category: EventCategory,
    pub payload: Ev,
}

/// The events that reach the game when `entries` are dispatched while the
/// GUI says `verdict` of the input, which are those that are not suppressed,
/// in their order.
pub open spec fn forwarded<Ev>(entries: Seq<Deferred<Ev>>, verdict: GuiVerdict) -> Seq<Ev>
    decreases entries.len(),
{
    if entries.len() == 0 {
        Seq::empty()
    } else if suppressed(entries.first().category, verdict) {
        forwarded(entries.drop_first(), verdict)
    } else {
        seq![entries.first().payload] + forwarded(entries.drop_first(), verdict)
    }
}

/// How many entries at the front are suppressed.
pub open spec fn leading_suppressed<Ev>(entries: Seq<Deferred<Ev>>, verdict: GuiVerdict) -> nat
    decreases entries.len(),
{
    if entries.len() == 0 || !suppressed(entries.first().category, verdict) {
        0
    } else {
        1 + leading_suppressed(entries.drop_first(), verdict)
    }
}

/// The entries of one kind, in their order.
pub open spec fn of_category<Ev>(entries: Seq<Deferred<Ev>>, category: EventCategory) -> Seq<Ev>
    decreases entries.len(),
{
    if entries.len() == 0 {
        Seq::empty()
    } else if entries.first().category == category {
        seq![entries.first().payload] + of_category(entries.drop_first(), category)
    } else {
        of_category(entries.drop_first(), category)
    }
}

/// The entries that are let through, with their kinds.
pub open spec fn let_through<Ev>(entries: Seq<Deferred<Ev>>, verdict: GuiVerdict) -> Seq<
    Deferred<Ev>,
>
    decreases entries.len(),
{
    if entries.len() == 0 {
        Seq::empty()
    } else if suppressed(entries.first().category, verdict) {
        let_through(entries.drop_first(), verdict)
    } else {
        seq![entries.first()] + let_through(entries.drop_first(), verdict)
    }
}

/// One step of a dispatch under `verdict`. From the entries `before`, the
/// suppressed ones at the front are dropped. If an entry is left, it is the
/// next one for the game, `next`, and `after` is what follows it; what
/// reaches the game from `before` is `next` and then what reaches it from
/// `after`. If none is left, `next` is `None` and `after` is empty.
pub open spec fn dispatch_step<Ev>(
    before: Seq<Deferred<Ev>>,
    verdict: GuiVerdict,
    next: Option<Ev>,
    after: Seq<Deferred<Ev>>,
) -> bool {
    let skipped = leading_suppressed(before, verdict) as int;
    match next {
        Some(payload) => {
            &&& skipped < before.len()
            &&& payload == before[skipped].payload
            &&& after == before.skip(skipped + 1)
            &&& forwarded(before, verdict) == seq![payload] + forwarded(after, verdict)
        },
        None => {
            &&& skipped == before.len()
            &&& after == Seq::<Deferred<Ev>>::empty()
            &&& forwarded(before, verdict) == Seq::<Ev>::empty()
        },
    }
}

/// The host events that wait for the next dispatch, oldest first.
pub struct DeferredEventQueue<Ev> {
    entries: VecDeque<Deferred<Ev>>,
}

impl<Ev> DeferredEventQueue<Ev> {
    /// The entries that wait, oldest first.
    pub closed spec fn waiting(&self) -> Seq<Deferred<Ev>> {
        self.entries@
    }

    pub fn new() -> (queue: Self)
        ensures
            queue.waiting() == Seq::<Deferred<Ev>>::empty(),
    {
        DeferredEventQueue { entries: VecDeque::new() }
    }

    /// How many events wait.
    pub fn len(&self) -> (len: usize)
        ensures
            len == self.waiting().len(),
    {
        self.entries.len()
    }

    /// Appends an event.
    pub fn push(&mut self, category: EventCategory, payload: Ev)
        ensures
            final(self).waiting() == old(self).waiting().push(Deferred { category, payload }),
    {
        self.entries.push_back(Deferred { category, payload });
    }

    /// Takes every event out, for one dispatch. Nothing stays behind, so no
    /// event waits longer than until the next dispatch.
    pub fn drain(&mut self) -> (batch: Self)
        ensures
            batch.waiting() == old(self).waiting(),
            final(self).waiting() == Seq::<Deferred<Ev>>::empty(),
    {
        let mut entries: VecDeque<Deferred<Ev>> = VecDeque::new();
        std::mem::swap(&mut entries, &mut self.entries);
        DeferredEventQueue { entries }
    }

    /// Hands out the next event for the game: drops the suppressed events at
    /// the front and takes the first one behind them. `None` says that
    /// nothing is left.
    pub fn next_forwarded(&mut self, verdict: GuiVerdict) -> (next: Option<Ev>)
        ensures
            dispatch_step(old(self).waiting(), verdict, next, final(self).waiting()),
    {
        let ghost start = self.entries@;
        let ghost mut dropped: int = 0;
        loop
            invariant
                start == old(self).waiting(),
                0 <= dropped <= start.len(),
                self.entries@ == start.skip(dropped),
                leading_suppressed(start, verdict) == dropped + leading_suppressed(
                    self.entries@,
                    verdict,
                ),
                forwarded(start, verdict) == forwarded(self.entries@, verdict),
            decreases self.entries@.len(),
        {
            let ghost before = self.entries@;
            match self.entries.pop_front() {
                None => {
                    assert(before.len() == 0);
                    assert(leading_suppressed(before, verdict) == 0);
                    assert(forwarded(before, verdict) == Seq::<Ev>::empty());
                    assert(self.entries@ =~= Seq::<Deferred<Ev>>::empty());
                    return None;
                },
                Some(entry) => {
                    assert(self.entries@ =~= before.drop_first());
                    assert(entry == before.first());
                    assert(self.entries@ =~= start.skip(dropped + 1));
                    if !verdict.suppresses(entry.category) {
                        assert(leading_suppressed(before, verdict) == 0);
                        assert(forwarded(before, verdict) == seq![entry.payload] + forwarded(
                            before.drop_first(),
                            verdict,
                        ));
                        return Some(entry.payload);
                    }
                    assert(leading_suppressed(before, verdict) == 1 + leading_suppressed(
                        before.drop_first(),
                        verdict,
                    ));
                    assert(forwarded(before, verdict) == forwarded(before.drop_first(), verdict));
                    proof {
                        dropped = dropped + 1;
                    }
                },
            }
        }
    }

    /// Hands out, at once, every event for the game.
    pub fn forward_all(&mut self, verdict: GuiVerdict) -> (events: Vec<Ev>)
        ensures
            events@ == forwarded(old(self).waiting(), verdict),
            final(self).waiting() == Seq::<Deferred<Ev>>::empty(),
    {
        let mut events: Vec<Ev> = Vec::new();
        loop
            invariant
                events@ + forwarded(self.waiting(), verdict) == forwarded(
                    old(self).waiting(),
                    verdict,
                ),
            decreases self.waiting().len(),
        {
            let ghost before = events@;
            let ghost rest = forwarded(self.waiting(), verdict);
            match self.next_forwarded(verdict) {
                None => {
                    assert(events@ + Seq::<Ev>::empty() =~= events@);
                    return events;
                },
                Some(payload) => {
                    events.push(payload);
                    assert(events@ + forwarded(self.waiting(), verdict) =~= before + rest);
                },
            }
        }
    }
}

/// The entries of one kind in a sequence with `first` put in front: `first`,
/// if it is of that kind, and then those of `rest`.
pub proof fn lemma_of_category_cons<Ev>(
    first: Deferred<Ev>,
    rest: Seq<Deferred<Ev>>,
    category: EventCategory,
)
    ensures
        of_category(seq![first] + rest, category) == if first.category == category {
            seq![first.payload] + of_category(rest, category)
        } else {
            of_category(rest, category)
        },
{
    let all = seq![first] + rest;
    assert(all.drop_first() =~= rest);
    assert(all.first() == first);
}

/// While the GUI wants the keyboard, no key event reaches the game; while it
/// uses the pointer, no pointer and no wheel event does.
pub proof fn lemma_suppressed_events_never_forwarded<Ev>(
    entries: Seq<Deferred<Ev>>,
    verdict: GuiVerdict,
    category: EventCategory,
)
    requires
        suppressed(category, verdict),
    ensures
        of_category(let_through(entries, verdict), category) == Seq::<Ev>::empty(),
    decreases entries.len(),
{
    if entries.len() > 0 {
        lemma_suppressed_events_never_forwarded(entries.drop_first(), verdict, category);
        if !suppressed(entries.first().category, verdict) {
            lemma_of_category_cons(
                entries.first(),
                let_through(entries.drop_first(), verdict),
                category,
            );
        }
    }
}

/// While the GUI does not claim the events of a kind, all of them reach the
/// game, in the order in which they came.
pub proof fn lemma_unclaimed_events_all_forwarded<Ev>(
    entries: Seq<Deferred<Ev>>,
    verdict: GuiVerdict,
    category: EventCategory,
)
    requires
        !suppressed(category, verdict),
    ensures
        of_category(let_through(entries, verdict), category) == of_category(entries, category),
    decreases entries.len(),
{
    if entries.len() > 0 {
        lemma_unclaimed_events_all_forwarded(entries.drop_first(), verdict, category);
        if !suppressed(entries.first().category, verdict) {
            lemma_of_category_cons(
                entries.first(),
                let_through(entries.drop_first(), verdict),
                category,
            );
        }
    }
}

/// What reaches the game is what is let through, without the kinds.
pub proof fn lemma_forwarded_is_let_through<Ev>(entries: Seq<Deferred<Ev>>, verdict: GuiVerdict)
    ensures
        forwarded(entries, verdict) == let_through(entries, verdict).map_values(
            |entry: Deferred<Ev>| entry.payload,
        ),
    decreases entries.len(),
{
    let payload_of = |entry: Deferred<Ev>| entry.payload;
    if entries.len() == 0 {
        assert(forwarded(entries, verdict) =~= let_through(entries, verdict).map_values(
            payload_of,
        ));
    } else {
        lemma_forwarded_is_let_through(entries.drop_first(), verdict);
        let tail = let_through(entries.drop_first(), verdict);
        if !suppressed(entries.first().category, verdict) {
            assert((seq![entries.first()] + tail).map_values(payload_of) =~= seq![
                entries.first().payload,
            ] + tail.map_values(payload_of));
        }
    }
}

} // verus!
