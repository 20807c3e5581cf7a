use crate::arbitration::{category_of, category_of_event, suppressed, GuiVerdict};
use crate::input::HostEvent;
use vstd::prelude::*;

verus! {

/// The context of the GUI library. To the bridge it is a closed box: the
/// library alone knows what is in it.
#[verifier::external_type_specification]
#[verifier::external_body]
pub struct ExCtxRef(egui::CtxRef);

/// Makes a context, by `egui::CtxRef::default`. Nothing is claimed of it.
#[verifier::external_body]
pub(crate) fn gui_new_context() -> (ctx: egui::CtxRef) {
    egui::CtxRef::default()
}

/// Asks `egui::Context::wants_keyboard_input` whether a widget has the
/// keyboard focus. The answer depends on what went on inside the context up
/// to now, so nothing is claimed of it.
#[verifier::external_body]
pub(crate) fn gui_wants_keyboard_input(ctx: &egui::CtxRef) -> (wants: bool) {
    ctx.wants_keyboard_input()
}

/// Asks `egui::Context::is_using_pointer` whether a widget is being clicked
/// or dragged. The answer depends on what went on inside the context up to
/// now, so nothing is claimed of it.
#[verifier::external_body]
pub(crate) fn gui_is_using_pointer(ctx: &egui::CtxRef) -> (using: bool) {
    ctx.is_using_pointer()
}

/// Reads what the GUI says of the input right now. The GUI knows only after
/// it has ended a frame whether it took the input of that frame.
pub fn read_verdict(ctx: &egui::CtxRef) -> (verdict: GuiVerdict) {
    GuiVerdict {
        wants_keyboard: gui_wants_keyboard_input(ctx),
        using_pointer: gui_is_using_pointer(ctx),
    }
}

/// Tells whether the event is kept from the game, by what the GUI says of
/// the input right now: see `suppressed` for the rule.
pub fn should_suppress(event: &HostEvent, ctx: &egui::CtxRef) -> (drop: bool)
    ensures
        exists|verdict: GuiVerdict| drop == #[trigger] suppressed(category_of_event(*event), verdict),
        category_of_event(*event) == crate::arbitration::EventCategory::Other ==> !drop,
{
    let verdict = read_verdict(ctx);
    let drop = verdict.suppresses(category_of(event));
    assert(drop == suppressed(category_of_event(*event), verdict));
    drop
}

} // verus!
