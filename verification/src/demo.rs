use crate::input::HostEvent;
use crate::keys::HostKey;
use vstd::prelude::*;

verus! {

/// The state of the sample game: the text in its text field.
pub struct MainState {
    text: String,
}

impl MainState {
    /// The text in the text field.
    pub closed spec fn text_spec(&self) -> Seq<char> {
        self.text@
    }

    /// The state at the start: an empty text field.
    pub fn new() -> (state: Self)
        ensures
            state.text_spec() == Seq::<char>::empty(),
    {
        MainState { text: String::new() }
    }

    /// The text in the text field.
    pub fn text(&self) -> (text: &String)
        ensures
            text@ == self.text_spec(),
    {
        &self.text
    }

    /// The text in the text field, for the GUI to edit.
    pub fn text_mut(&mut self) -> (text: &mut String)
        ensures
            text@ == old(self).text_spec(),
            final(self).text_spec() == final(text)@,
    {
        &mut self.text
    }

    /// The key that the sample game reports for an event: the key of a key
    /// press, and nothing for any other event.
    pub fn reported_key(event: &HostEvent) -> (key: Option<HostKey>)
        ensures
            key == match *event {
                HostEvent::KeyPressed { key } => Some(key),
                _ => None,
            },
    {
        match event {
            HostEvent::KeyPressed { key } => Some(*key),
            _ => None,
        }
    }
}

} // verus!
