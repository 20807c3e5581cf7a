use crate::input::HeldModifiers;
use crate::keys::{family_of, HostKey, ModifierFamily};
use vstd::prelude::*;

verus! {

/// A key going down or up.
pub struct KeyChange {
    pub key: HostKey,
    pub pressed: bool,
}

/// The modifier keys down after `changes`, starting from `start`.
pub open spec fn modifiers_through(start: HeldModifiers, changes: Seq<KeyChange>) -> HeldModifiers
    decreases changes.len(),
{
    if changes.len() == 0 {
        start
    } else {
        modifiers_through(start, changes.drop_last()).after(
            changes.last().key,
            changes.last().pressed,
        )
    }
}

/// The keys that are down after `changes`, if none was down before.
pub open spec fn held_keys(changes: Seq<KeyChange>) -> Set<HostKey>
    decreases changes.len(),
{
    if changes.len() == 0 {
        Set::empty()
    } else if changes.last().pressed {
        held_keys(changes.drop_last()).insert(changes.last().key)
    } else {
        held_keys(changes.drop_last()).remove(changes.last().key)
    }
}

/// Whether a key of the group is down.
pub open spec fn family_held(held: Set<HostKey>, family: ModifierFamily) -> bool {
    exists|key: HostKey| #[trigger] held.contains(key) && family_of(key) == Some(family)
}

/// Each modifier key is remembered as down exactly while it is down,
/// whatever other keys, modifiers or not, go down and up in between.
pub proof fn lemma_modifier_key_down_iff_held(changes: Seq<KeyChange>, key: HostKey)
    requires
        family_of(key) is Some,
    ensures
        modifiers_through(HeldModifiers::released(), changes).down(key) == held_keys(
            changes,
        ).contains(key),
    decreases changes.len(),
{
    if changes.len() > 0 {
        lemma_modifier_key_down_iff_held(changes.drop_last(), key);
    }
}

/// The modifier flags show exactly the modifier keys that are down: after
/// any sequence of presses and releases, the flag of a group is set if and
/// only if a key of that group is down. No flag sticks and none is missing,
/// also when both keys of a group are used together. The shortcut flag goes
/// with the control flag.
pub proof fn lemma_modifiers_reflect_held_keys(changes: Seq<KeyChange>, family: ModifierFamily)
    ensures
        modifiers_through(HeldModifiers::released(), changes).flags().flag(family) == family_held(
            held_keys(changes),
            family,
        ),
        modifiers_through(HeldModifiers::released(), changes).flags().command
            == modifiers_through(HeldModifiers::released(), changes).flags().ctrl,
{
    let held = held_keys(changes);
    let (left, right) = match family {
        ModifierFamily::Ctrl => (HostKey::LeftCtrl, HostKey::RightCtrl),
        ModifierFamily::Shift => (HostKey::LeftShift, HostKey::RightShift),
        ModifierFamily::Alt => (HostKey::LeftAlt, HostKey::RightAlt),
    };
    lemma_modifier_key_down_iff_held(changes, left);
    lemma_modifier_key_down_iff_held(changes, right);
    if family_held(held, family) {
        let key = choose|key: HostKey| #[trigger] held.contains(key) && family_of(key) == Some(family);
        assert(key == left || key == right);
    }
    if held.contains(left) {
        assert(family_of(left) == Some(family));
    }
    if held.contains(right) {
        assert(family_of(right) == Some(family));
    }
}

} // verus!
