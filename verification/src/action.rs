//! The terminal decision of one interactive run.

use vstd::prelude::*;

verus! {

/// Exactly one exit action is produced per run of the picker: attach to a
/// session, create a session (named or unnamed), kill and delete a session,
/// or quit without doing anything.
#[derive(Debug, PartialEq, Eq)]
pub enum ExitAction {
    AttachSession(String),
    CreateSession(Option<String>),
    DeleteSession(String),
    Quit,
}

/// The mathematical shape of an [`ExitAction`], with names as character
/// sequences.
#[verifier::ext_equal]
pub enum ActionSpec {
    Attach(Seq<char>),
    Create(Option<Seq<char>>),
    Delete(Seq<char>),
    Quit,
}

impl View for ExitAction {
    type V = ActionSpec;

    open spec fn view(&self) -> ActionSpec {
        match self {
            ExitAction::AttachSession(s) => ActionSpec::Attach(s@),
            ExitAction::CreateSession(o) => ActionSpec::Create(
                match o {
                    Some(s) => Some(s@),
                    None => None,
                },
            ),
            ExitAction::DeleteSession(s) => ActionSpec::Delete(s@),
            ExitAction::Quit => ActionSpec::Quit,
        }
    }
}

/// The view of an optional action, for contracts that may or may not decide.
pub open spec fn opt_action_view(r: Option<ExitAction>) -> Option<ActionSpec> {
    match r {
        Some(a) => Some(a@),
        None => None,
    }
}

} // verus!
