use vstd::prelude::*;

verus! {

/// What the GUI asks of the platform at the end of a frame.
#[derive(Clone, Debug, PartialEq, Eq)]
pub struct GuiOutput {
    /// The text to put on the clipboard. Empty if nothing was copied.
    pub copied_text: String,
    /// The URL or path to open, if a link was clicked.
    pub open_url: Option<String>,
}

/// Something the host has to do for the GUI.
#[derive(Clone, Debug, PartialEq, Eq)]
pub enum SideEffect {
    /// Open this URL or path.
    OpenUrl(String),
    /// Put this text on the clipboard.
    CopyText(String),
}

/// What is to be done after a frame, in order: the link first, the
/// clipboard second. A frame that copied nothing leaves the clipboard alone.
pub open spec fn effects_of(output: GuiOutput) -> Seq<SideEffect> {
    (match output.open_url {
        Some(url) => seq![SideEffect::OpenUrl(url)],
        None => seq![],
    }) + (if output.copied_text@.len() == 0 {
        seq![]
    } else {
        seq![SideEffect::CopyText(output.copied_text)]
    })
}

/// Lists what is to be done after a frame. The host does it in this order
/// and stops at the first failure.
pub fn side_effects(output: GuiOutput) -> (effects: Vec<SideEffect>)
    ensures
        effects@ == effects_of(output),
{
    let mut effects: Vec<SideEffect> = Vec::new();
    let GuiOutput { copied_text, open_url } = output;
    if let Some(url) = open_url {
        effects.push(SideEffect::OpenUrl(url));
    }
    if !copied_text.as_str().is_empty() {
        effects.push(SideEffect::CopyText(copied_text));
    }
    assert(effects@ =~= effects_of(output));
    effects
}

} // verus!
