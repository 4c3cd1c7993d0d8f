use crate::entry::{EntryGroup, EntryGroupView};
use crate::message::{Effect, Message};
use crate::model::{stored_view, Model, ModelView};
use vstd::prelude::*;

verus! {

/// What folding one message into the menu leaves for the caller to do.
#[derive(Clone, Copy, Debug, PartialEq, Eq, Structural)]
pub struct Step {
    /// A message to fold in at once, before any input is read.
    pub next: Option<Message>,
    /// Work on the store to be done before the next message.
    pub effect: Effect,
}

impl ModelView {
    /// The menu can take this message: the store has a name where the
    /// message is about the store, the current screen has an item to go to
    /// where the message moves a cursor, and the cursors point at an entry
    /// where the message is Enter.
    pub open spec fn accepts(self, msg: Message) -> bool {
        match msg {
            Message::Init | Message::Quit => self.file.len() > 0,
            Message::NextEntry | Message::PreviousEntry => self.can_move(),
            Message::Enter => self.can_enter(),
            Message::Back => true,
        }
    }

    /// The menu after a message. `Init` and `Quit` leave it as it is: they
    /// take effect through [`complete`], once the work on the store is
    /// done.
    pub open spec fn update(self, msg: Message) -> ModelView {
        match msg {
            Message::Init | Message::Quit => self,
            Message::NextEntry => self.next_entry(),
            Message::PreviousEntry => self.previous_entry(),
            Message::Enter => self.enter(),
            Message::Back => self.back(),
        }
    }

    /// The menu after the work on the store that a step asked for was done:
    /// after a read, what was stored is taken in; after a write, the session
    /// is over; where no work was asked for, nothing changes.
    pub open spec fn complete(
        self,
        effect: Effect,
        stored: Option<Seq<EntryGroupView>>,
    ) -> ModelView {
        match effect {
            Effect::Nothing => self,
            Effect::ReadCache => self.load_from_cache(stored),
            Effect::WriteCache => self.save_to_cache(),
        }
    }

    /// The menu after a message and the work on the store that it asked
    /// for.
    pub open spec fn update_and_complete(
        self,
        msg: Message,
        stored: Option<Seq<EntryGroupView>>,
    ) -> ModelView {
        self.update(msg).complete(msg.effect(), stored)
    }
}

impl Model {
    /// Whether the menu can take this message.
    pub fn accepts(&self, msg: Message) -> (yes: bool)
        ensures
            yes == self@.accepts(msg),
    {
        match msg {
            Message::Init | Message::Quit => !self.file.as_str().is_empty(),
            Message::NextEntry | Message::PreviousEntry => self.can_move(),
            Message::Enter => self.can_enter(),
            Message::Back => true,
        }
    }
}

/// Fold one message into the menu. The cursor moves, Enter and Back change
/// the menu here. `Init` and `Quit` change nothing yet: the step names the
/// work on the store that the caller has to do, and the menu changes when
/// the caller reports it done with [`complete`]. No message asks for
/// another to follow.
pub fn update(model: &mut Model, msg: Message) -> (step: Step)
    requires
        old(model)@.accepts(msg),
    ensures
        final(model)@ == old(model)@.update(msg),
        step.next is None,
        step.effect == msg.effect(),
        msg.effect() != Effect::Nothing ==> final(model)@.file.len() > 0,
{
    match msg {
        // Ask for a read of the store
        Message::Init => {
            return Step { next: None, effect: Effect::ReadCache };
        },
        // If main screen: go to next entry group
        // If secondary screen: go to next entry
        Message::NextEntry => {
            model.next_entry();
        },
        // If main screen: go to previous entry group
        // If secondary screen: go to previous entry
        Message::PreviousEntry => {
            model.previous_entry();
        },
        // Go to the secondary screen, or choose the entry
        Message::Enter => {
            model.enter();
        },
        // Go to the main screen
        Message::Back => {
            model.back();
        },
        // Ask for a write of the store
        Message::Quit => {
            return Step { next: None, effect: Effect::WriteCache };
        },
    };
    Step { next: None, effect: Effect::Nothing }
}

/// Report the work on the store done that a step asked for. After a read,
/// `stored` is what was read, `None` where nothing was stored, and it is
/// taken in; after a write the session is over. Where the step asked for no
/// work, nothing changes, and `stored` is ignored, as it is after a write.
pub fn complete(model: &mut Model, effect: Effect, stored: Option<Vec<EntryGroup>>)
    requires
        effect != Effect::Nothing ==> old(model)@.file.len() > 0,
    ensures
        final(model)@ == old(model)@.complete(effect, stored_view(stored)),
{
    match effect {
        Effect::Nothing => {},
        Effect::ReadCache => {
            model.load_from_cache(stored);
        },
        Effect::WriteCache => {
            model.save_to_cache();
        },
    }
}

} // verus!
