//! The pure half of rendering: from the picker state and the available
//! height, compute what each region of the screen shows. Turning the plan
//! into styled widgets is left to the caller.

use vstd::prelude::*;

verus! {

use vstd::string::StringExecFns;
use crate::state::PickerState;

/// What the footer region shows: the fixed command legend while
/// navigating, or the characters typed so far while entering a name.
#[derive(Debug, PartialEq, Eq)]
pub enum FooterPlan {
    Legend,
    EntryInput(String),
}

/// A frame, as regions stacked vertically: a fixed-height title, a list
/// taking all remaining space, and a fixed-height footer. The list entries
/// are already indented for display; at most one is highlighted.
#[derive(Debug, PartialEq, Eq)]
pub struct RenderPlan {
    pub title_height: u16,
    pub list_height: u16,
    pub footer_height: u16,
    pub items: Vec<String>,
    pub highlighted: Option<usize>,
    pub dimmed: bool,
    pub footer: FooterPlan,
}

/// Computes the frame for the current state: a pure mapping, callable every
/// tick.
///
/// The title and footer take three rows each when the height allows; the
/// list takes the rest. In navigation mode the entry under the cursor is
/// highlighted; in text-input mode the list is dimmed, nothing is
/// highlighted, and the footer carries the buffer.
pub fn render_plan(state: &PickerState, height: u16) -> (p: RenderPlan)
    requires
        state@.wf(),
    ensures
        p.title_height + p.list_height + p.footer_height == height,
        p.title_height as int == (if height >= 3 {
            3
        } else {
            height as int
        }),
        p.footer_height as int == (if height >= 6 {
            3
        } else if height >= 3 {
            height - 3
        } else {
            0
        }),
        p.items@.len() == state@.sessions.len(),
        forall|i: int|
            0 <= i < p.items@.len() ==> p.items@[i]@ == "  "@ + state@.sessions[i],
        p.dimmed == (state@.editing is Some),
        (state@.editing is Some || state@.sessions.len() == 0) ==> p.highlighted is None,
        (state@.editing is None && state@.sessions.len() > 0) ==> (p.highlighted matches Some(h)
            && h as int == state@.selection),
        (match state@.editing {
            Some(b) => p.footer matches FooterPlan::EntryInput(t) && t@ == b,
            None => p.footer == FooterPlan::Legend,
        }),
{
    let title_height: u16 = if height >= 3 {
        3
    } else {
        height
    };
    let rem: u16 = height - title_height;
    let footer_height: u16 = if rem >= 3 {
        3
    } else {
        rem
    };
    let list_height: u16 = rem - footer_height;
    let sessions = state.sessions();
    let mut items: Vec<String> = Vec::new();
    let mut idx: usize = 0;
    while idx < sessions.len()
        invariant
            0 <= idx <= sessions.len(),
            sessions@.map_values(|s: String| s@) == state@.sessions,
            items@.len() == idx,
            forall|i: int| 0 <= i < idx ==> items@[i]@ == "  "@ + state@.sessions[i],
        decreases sessions.len() - idx,
    {
        let item = String::from_str("  ").concat(sessions[idx].as_str());
        items.push(item);
        idx = idx + 1;
    }
    let dimmed = state.is_editing();
    let highlighted: Option<usize> = if state.is_editing() || state.session_count() == 0 {
        None
    } else {
        Some(state.selection_index())
    };
    let footer = match state.buffer_text() {
        Some(b) => FooterPlan::EntryInput(b.clone()),
        None => FooterPlan::Legend,
    };
    RenderPlan { title_height, list_height, footer_height, items, highlighted, dimmed, footer }
}

} // verus!
