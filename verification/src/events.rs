//! Key events and the picker's step function: the single place that maps a
//! key, in the current mode, to a state transition and possibly a decision.

use vstd::prelude::*;

verus! {

use crate::MoveDir;
use crate::action::ActionSpec;
use crate::action::ExitAction;
use crate::action::opt_action_view;
use crate::state::PickerSpec;
use crate::state::PickerState;

/// A key event, reduced to what the picker distinguishes. Every key the
/// picker ignores arrives as `Other`.
#[derive(Clone, Copy, Debug, PartialEq, Eq)]
pub enum Key {
    Char(char),
    Enter,
    Esc,
    Backspace,
    Up,
    Down,
    Other,
}

/// One step of the event loop: the state after the key, and the decision if
/// the key ends the loop.
///
/// In text-input mode the buffer absorbs all character input: Enter
/// confirms, Escape cancels, Backspace deletes, and no key navigates or
/// quits. In navigation mode `q`/Escape quit, Up/`k` and Down/`j` move the
/// cursor, `d` and Enter decide on the selected session when one exists,
/// and `n` opens the text entry.
pub open spec fn step_spec(p: PickerSpec, key: Key) -> (PickerSpec, Option<ActionSpec>) {
    match p.editing {
        Some(b) => match key {
            Key::Enter => p.confirm_spec(),
            Key::Esc => (p.cancel_spec(), None),
            Key::Backspace => (p.backspace_spec(), None),
            Key::Char(c) => (p.edit_buffer_spec(c), None),
            _ => (p, None),
        },
        None => match key {
            Key::Esc => (p, Some(ActionSpec::Quit)),
            Key::Up => (p.move_selection_spec(MoveDir::Up), None),
            Key::Down => (p.move_selection_spec(MoveDir::Down), None),
            Key::Enter => if p.sessions.len() > 0 {
                (p, Some(ActionSpec::Attach(p.sessions[p.selection])))
            } else {
                (p, None)
            },
            Key::Char(c) => if c == 'q' {
                (p, Some(ActionSpec::Quit))
            } else if c == 'k' {
                (p.move_selection_spec(MoveDir::Up), None)
            } else if c == 'j' {
                (p.move_selection_spec(MoveDir::Down), None)
            } else if c == 'd' {
                if p.sessions.len() > 0 {
                    (p, Some(ActionSpec::Delete(p.sessions[p.selection])))
                } else {
                    (p, None)
                }
            } else if c == 'n' {
                (p.begin_entry_spec(), None)
            } else {
                (p, None)
            },
            _ => (p, None),
        },
    }
}

/// Feeds one key event to the state machine and returns the decision, if
/// this key produced one.
pub fn handle_key(state: &mut PickerState, key: Key) -> (r: Option<ExitAction>)
    requires
        old(state)@.wf(),
    ensures
        final(state)@ == step_spec(old(state)@, key).0,
        opt_action_view(r) == step_spec(old(state)@, key).1,
        final(state)@.wf(),
{
    if state.is_editing() {
        match key {
            Key::Enter => state.confirm_entry(),
            Key::Esc => {
                state.cancel_entry();
                None
            },
            Key::Backspace => {
                state.backspace_buffer();
                None
            },
            Key::Char(c) => {
                state.edit_buffer(c);
                None
            },
            _ => None,
        }
    } else {
        match key {
            Key::Esc => Some(ExitAction::Quit),
            Key::Up => {
                state.move_selection(MoveDir::Up);
                None
            },
            Key::Down => {
                state.move_selection(MoveDir::Down);
                None
            },
            Key::Enter => match state.selected() {
                Some(name) => Some(ExitAction::AttachSession(name.clone())),
                None => None,
            },
            Key::Char(c) => if c == 'q' {
                Some(ExitAction::Quit)
            } else if c == 'k' {
                state.move_selection(MoveDir::Up);
                None
            } else if c == 'j' {
                state.move_selection(MoveDir::Down);
                None
            } else if c == 'd' {
                match state.selected() {
                    Some(name) => Some(ExitAction::DeleteSession(name.clone())),
                    None => None,
                }
            } else if c == 'n' {
                state.begin_new_session_entry();
                None
            } else {
                None
            },
            _ => None,
        }
    }
}

/// The startup fast path: an empty session list decides immediately to
/// create an unnamed session, skipping the interactive loop; otherwise no
/// decision is made yet.
pub fn startup_action(sessions: &Vec<String>) -> (r: Option<ExitAction>)
    ensures
        sessions@.len() == 0 ==> opt_action_view(r) == Some(ActionSpec::Create(None)),
        sessions@.len() > 0 ==> r is None,
{
    if sessions.len() == 0 {
        Some(ExitAction::CreateSession(None))
    } else {
        None
    }
}

} // verus!
