use crate::message::Message;
use crate::model::{Model, RunningState};
use vstd::prelude::*;

verus! {

/// The key of a key event, as far as the menu tells keys apart.
#[derive(Clone, Copy, Debug, PartialEq, Eq)]
pub enum KeyCode {
    /// A key that gives a character.
    Char(char),
    Down,
    Up,
    Tab,
    Enter,
    Esc,
    /// Any other key.
    Other,
}

/// What happened to the key.
#[derive(Clone, Copy, Debug, PartialEq, Eq, Structural)]
pub enum KeyEventKind {
    Press,
    Repeat,
    Release,
}

/// A key event of the terminal.
#[derive(Clone, Copy, Debug, PartialEq, Eq)]
pub struct KeyEvent {
    pub code: KeyCode,
    pub kind: KeyEventKind,
}

/// An event of the terminal.
#[derive(Clone, Copy, Debug, PartialEq, Eq)]
pub enum Event {
    Key(KeyEvent),
    /// Anything that is no key event: the mouse, a new size, a paste.
    Other,
}

/// The message that a key stands for: `q` quits, Down, Tab and `j` go to
/// the next item, Up and `k` to the previous, Enter enters, Esc goes back.
/// No other key stands for a message.
pub open spec fn key_message(code: KeyCode) -> Option<Message> {
    match code {
        KeyCode::Char(c) => if c == 'q' {
            Some(Message::Quit)
        } else if c == 'j' {
            Some(Message::NextEntry)
        } else if c == 'k' {
            Some(Message::PreviousEntry)
        } else {
            None
        },
        KeyCode::Down | KeyCode::Tab => Some(Message::NextEntry),
        KeyCode::Up => Some(Message::PreviousEntry),
        KeyCode::Enter => Some(Message::Enter),
        KeyCode::Esc => Some(Message::Back),
        KeyCode::Other => None,
    }
}

/// The message that is due in a state of the session, given what the
/// terminal was seen to report: `Init` before the store was taken in,
/// whatever the terminal reports; after that the message of a key that was
/// pressed, and none for a key that repeats or is released, for another
/// event, or where the terminal reported nothing.
pub open spec fn event_message(state: RunningState, polled: Option<Event>) -> Option<Message> {
    if state == RunningState::Empty {
        Some(Message::Init)
    } else {
        match polled {
            Some(Event::Key(key)) => if key.kind == KeyEventKind::Press {
                key_message(key.code)
            } else {
                None
            },
            _ => None,
        }
    }
}

/// Convert a key event to the message that its key stands for.
pub fn handle_key(key: KeyEvent) -> (msg: Option<Message>)
    ensures
        msg == key_message(key.code),
{
    match key.code {
        KeyCode::Char('q') => Some(Message::Quit),
        KeyCode::Down | KeyCode::Tab | KeyCode::Char('j') => Some(Message::NextEntry),
        KeyCode::Up | KeyCode::Char('k') => Some(Message::PreviousEntry),
        KeyCode::Enter => Some(Message::Enter),
        KeyCode::Esc => Some(Message::Back),
        _ => None,
    }
}

/// Whether the terminal is to be asked for an event before
/// [`handle_event`]: not before the store was taken in, when `Init` is due
/// and an event read would be lost.
pub fn wants_event(model: &Model) -> (yes: bool)
    ensures
        yes == (model@.running_state != RunningState::Empty),
{
    match model.running_state {
        RunningState::Empty => false,
        _ => true,
    }
}

/// Convert what the terminal reported to the message that is due. `polled`
/// is `None` where the terminal was not asked or had nothing to report.
pub fn handle_event(model: &Model, polled: Option<Event>) -> (msg: Option<Message>)
    ensures
        msg == event_message(model@.running_state, polled),
{
    match model.running_state {
        RunningState::Empty => {
            return Some(Message::Init);
        },
        _ => {},
    }
    if let Some(Event::Key(key)) = polled {
        match key.kind {
            KeyEventKind::Press => {
                return handle_key(key);
            },
            _ => {},
        }
    }
    None
}

} // verus!
