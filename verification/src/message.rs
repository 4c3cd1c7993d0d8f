use vstd::prelude::*;

verus! {

/// What the menu is asked to do next.
#[derive(Clone, Copy, Debug, PartialEq, Eq, Structural)]
pub enum Message {
    /// Take in what an earlier session stored.
    Init,
    /// Go to the next item of the current screen.
    NextEntry,
    /// Go to the previous item of the current screen.
    PreviousEntry,
    /// Open the selected group, or choose the selected entry.
    Enter,
    /// Leave the entries of a group for the list of groups.
    Back,
    /// Store the groups and stop.
    Quit,
}

/// Work on the store that a message asks of whoever runs the menu. The menu
/// itself never touches the store.
#[derive(Clone, Copy, Debug, PartialEq, Eq, Structural)]
pub enum Effect {
    /// No work on the store.
    Nothing,
    /// Read what is stored and hand it to `dispatch::complete`, which takes
    /// it in.
    ReadCache,
    /// Store the groups, then call `dispatch::complete`, which ends the
    /// session.
    WriteCache,
}

impl Message {
    /// The work on the store that this message asks for: a read for `Init`,
    /// a write for `Quit`, none for the others.
    pub open spec fn effect(self) -> Effect {
        match self {
            Message::Init => Effect::ReadCache,
            Message::Quit => Effect::WriteCache,
            _ => Effect::Nothing,
        }
    }
}

} // verus!
