//! The picker's state machine: a list of session names, a selection cursor,
//! and an optional in-progress "new session name" buffer, with pure
//! transitions driven by key events.

use vstd::prelude::*;

verus! {

use vstd::arithmetic::div_mod::lemma_add_mod_noop_right;
use vstd::arithmetic::div_mod::lemma_mod_multiples_vanish;
use vstd::arithmetic::div_mod::lemma_mod_self_0;
use vstd::arithmetic::div_mod::lemma_small_mod;
use vstd::string::StringExecFns;
use crate::MoveDir;
use crate::action::ActionSpec;
use crate::action::ExitAction;
use crate::action::opt_action_view;
use crate::chars::allowed_char;
use crate::chars::check_alphanumeric;
use crate::chars::pop_char;
use crate::chars::push_char;
use crate::chars::trim_spec;
use crate::chars::trim_str;

/// The mathematical state of the picker: session names in display form, the
/// selection cursor, and the text buffer while a new name is being entered.
#[verifier::ext_equal]
pub struct PickerSpec {
    pub sessions: Seq<Seq<char>>,
    pub selection: int,
    pub editing: Option<Seq<char>>,
}

/// How far one move shifts the cursor, modulo the list length.
pub open spec fn move_delta(dir: MoveDir, len: int) -> int {
    match dir {
        MoveDir::Down => 1,
        MoveDir::Up => len - 1,
    }
}

impl PickerSpec {
    /// The selection cursor stays inside the list; an empty list pins it to
    /// zero.
    pub open spec fn wf(self) -> bool {
        if self.sessions.len() == 0 {
            self.selection == 0
        } else {
            0 <= self.selection < self.sessions.len()
        }
    }

    /// One cursor move: a step in `dir` with circular wrap-around, a no-op
    /// on an empty list.
    pub open spec fn move_selection_spec(self, dir: MoveDir) -> PickerSpec {
        if self.sessions.len() == 0 {
            self
        } else {
            let len = self.sessions.len() as int;
            PickerSpec { selection: (self.selection + move_delta(dir, len)) % len, ..self }
        }
    }

    /// Entering text-input mode with an empty buffer.
    pub open spec fn begin_entry_spec(self) -> PickerSpec {
        PickerSpec { editing: Some(Seq::empty()), ..self }
    }

    /// Appending `c` to the buffer, if it is a character a session name may
    /// contain; anything else leaves the state unchanged.
    pub open spec fn edit_buffer_spec(self, c: char) -> PickerSpec {
        match self.editing {
            Some(b) => if allowed_char(c) {
                PickerSpec { editing: Some(b.push(c)), ..self }
            } else {
                self
            },
            None => self,
        }
    }

    /// Removing the last buffer character, a no-op on an empty buffer.
    pub open spec fn backspace_spec(self) -> PickerSpec {
        match self.editing {
            Some(b) => if b.len() > 0 {
                PickerSpec { editing: Some(b.drop_last()), ..self }
            } else {
                self
            },
            None => self,
        }
    }

    /// Discarding the buffer and returning to navigation.
    pub open spec fn cancel_spec(self) -> PickerSpec {
        PickerSpec { editing: None, ..self }
    }

    /// Confirming the buffer: an empty-after-trimming buffer cancels the
    /// entry; otherwise the trimmed name becomes a create decision.
    pub open spec fn confirm_spec(self) -> (PickerSpec, Option<ActionSpec>) {
        match self.editing {
            Some(b) => if trim_spec(b).len() == 0 {
                (self.cancel_spec(), None)
            } else {
                (self.cancel_spec(), Some(ActionSpec::Create(Some(trim_spec(b)))))
            },
            None => (self, None),
        }
    }
}

/// The picker's state. The buffer field only carries meaning while
/// `editing` is set; leaving text-input mode clears it.
pub struct PickerState {
    sessions: Vec<String>,
    selection: usize,
    editing: bool,
    buffer: String,
}

impl View for PickerState {
    type V = PickerSpec;

    closed spec fn view(&self) -> PickerSpec {
        PickerSpec {
            sessions: self.sessions@.map_values(|s: String| s@),
            selection: self.selection as int,
            editing: if self.editing {
                Some(self.buffer@)
            } else {
                None
            },
        }
    }
}

impl PickerState {
    /// Builds the initial state from the session list reported by the
    /// environment, with the cursor on the first entry.
    pub fn new(sessions: Vec<String>) -> (r: PickerState)
        ensures
            r@.sessions == sessions@.map_values(|s: String| s@),
            r@.selection == 0,
            r@.editing is None,
            r@.wf(),
    {
        PickerState { sessions, selection: 0, editing: false, buffer: String::new() }
    }

    /// The number of sessions in the list.
    pub fn session_count(&self) -> (r: usize)
        ensures
            r == self@.sessions.len(),
    {
        self.sessions.len()
    }

    /// Whether the picker is in text-input mode.
    pub fn is_editing(&self) -> (r: bool)
        ensures
            r == (self@.editing is Some),
    {
        self.editing
    }

    /// The session list in display form.
    pub fn sessions(&self) -> (r: &Vec<String>)
        ensures
            r@.map_values(|s: String| s@) == self@.sessions,
    {
        &self.sessions
    }

    /// The cursor position. Meaningful only while the list is non-empty.
    pub fn selection_index(&self) -> (r: usize)
        ensures
            r as int == self@.selection,
    {
        self.selection
    }

    /// The text entered so far, while in text-input mode.
    pub fn buffer_text(&self) -> (r: Option<&String>)
        ensures
            match self@.editing {
                Some(b) => r matches Some(x) && x@ == b,
                None => r is None,
            },
    {
        if self.editing {
            Some(&self.buffer)
        } else {
            None
        }
    }

    /// The display-form name under the cursor, or nothing when the list is
    /// empty.
    pub fn selected(&self) -> (r: Option<&String>)
        requires
            self@.wf(),
        ensures
            self@.sessions.len() == 0 ==> r is None,
            self@.sessions.len() > 0 ==> (r matches Some(name) && name@ == self@.sessions[self@.selection]),
    {
        if self.sessions.len() == 0 {
            None
        } else {
            Some(&self.sessions[self.selection])
        }
    }

    /// Moves the cursor one step with circular wrap-around; a no-op on an
    /// empty list.
    pub fn move_selection(&mut self, dir: MoveDir)
        requires
            old(self)@.wf(),
            old(self)@.editing is None,
        ensures
            final(self)@ == old(self)@.move_selection_spec(dir),
            old(self)@.sessions.len() == 0 ==> final(self)@ == old(self)@,
            final(self)@.wf(),
    {
        let len = self.sessions.len();
        if len == 0 {
            return ;
        }
        let i = self.selection;
        let next: usize = match dir {
            MoveDir::Down => if i + 1 == len {
                0
            } else {
                i + 1
            },
            MoveDir::Up => if i == 0 {
                len - 1
            } else {
                i - 1
            },
        };
        proof {
            let l = len as int;
            match dir {
                MoveDir::Down => {
                    if i + 1 == len {
                        lemma_mod_self_0(l);
                    } else {
                        lemma_small_mod((i + 1) as nat, len as nat);
                    }
                },
                MoveDir::Up => {
                    if i == 0 {
                        lemma_small_mod((len - 1) as nat, len as nat);
                    } else {
                        lemma_mod_multiples_vanish(1, i - 1, l);
                        lemma_small_mod((i - 1) as nat, len as nat);
                        assert(i + move_delta(dir, l) == l * 1 + (i - 1));
                    }
                },
            }
        }
        self.selection = next;
    }

    /// Switches to text-input mode with an empty buffer.
    pub fn begin_new_session_entry(&mut self)
        requires
            old(self)@.wf(),
            old(self)@.editing is None,
        ensures
            final(self)@ == old(self)@.begin_entry_spec(),
            final(self)@.wf(),
    {
        self.editing = true;
        self.buffer = String::new();
    }

    /// Appends `c` to the buffer if it is alphanumeric, `-` or `_`; any
    /// other character is rejected and the state is unchanged.
    pub fn edit_buffer(&mut self, c: char)
        requires
            old(self)@.wf(),
            old(self)@.editing is Some,
        ensures
            final(self)@ == old(self)@.edit_buffer_spec(c),
            !allowed_char(c) ==> final(self)@ == old(self)@,
            final(self)@.wf(),
    {
        if check_alphanumeric(c) || c == '-' || c == '_' {
            push_char(&mut self.buffer, c);
        }
    }

    /// Removes the last buffer character; a no-op on an empty buffer.
    pub fn backspace_buffer(&mut self)
        requires
            old(self)@.wf(),
            old(self)@.editing is Some,
        ensures
            final(self)@ == old(self)@.backspace_spec(),
            final(self)@.wf(),
    {
        let _ = pop_char(&mut self.buffer);
    }

    /// Discards the buffer and returns to navigation.
    pub fn cancel_entry(&mut self)
        requires
            old(self)@.wf(),
        ensures
            final(self)@ == old(self)@.cancel_spec(),
            final(self)@.wf(),
    {
        self.editing = false;
        self.buffer = String::new();
    }

    /// Confirms the buffer: when the trimmed buffer is empty this cancels
    /// the entry and decides nothing; otherwise it decides to create a
    /// session with the trimmed name.
    pub fn confirm_entry(&mut self) -> (r: Option<ExitAction>)
        requires
            old(self)@.wf(),
            old(self)@.editing is Some,
        ensures
            final(self)@ == old(self)@.confirm_spec().0,
            opt_action_view(r) == old(self)@.confirm_spec().1,
            final(self)@.wf(),
    {
        let t = trim_str(self.buffer.as_str());
        let r = if t.is_empty() {
            None
        } else {
            Some(ExitAction::CreateSession(Some(String::from_str(t))))
        };
        self.editing = false;
        self.buffer = String::new();
        r
    }
}

/// `k` cursor moves in the same direction, applied in order.
pub open spec fn iterate_move(p: PickerSpec, dir: MoveDir, k: nat) -> PickerSpec
    decreases k,
{
    if k == 0 {
        p
    } else {
        iterate_move(p, dir, (k - 1) as nat).move_selection_spec(dir)
    }
}

proof fn lemma_iterate_move_mod(p: PickerSpec, dir: MoveDir, k: nat)
    requires
        p.wf(),
        p.sessions.len() > 0,
    ensures
        iterate_move(p, dir, k).sessions == p.sessions,
        iterate_move(p, dir, k).editing == p.editing,
        iterate_move(p, dir, k).selection == (p.selection + k * move_delta(
            dir,
            p.sessions.len() as int,
        )) % (p.sessions.len() as int),
    decreases k,
{
    let len = p.sessions.len() as int;
    let d = move_delta(dir, len);
    if k == 0 {
        assert(k * d == 0);
        lemma_small_mod(p.selection as nat, p.sessions.len());
    } else {
        lemma_iterate_move_mod(p, dir, (k - 1) as nat);
        let q = iterate_move(p, dir, (k - 1) as nat);
        let x = p.selection + (k - 1) * d;
        lemma_add_mod_noop_right(d, x, len);
        assert((k as int - 1) * d + d == k as int * d) by (nonlinear_arith);
        assert(q.move_selection_spec(dir).selection == (d + x % len) % len);
    }
}

/// Wrap-around closure: on a non-empty list, moving the selection once per
/// session in the same direction returns the cursor to where it started,
/// and leaves the rest of the state untouched.
pub proof fn lemma_move_selection_cycle(p: PickerSpec, dir: MoveDir)
    requires
        p.wf(),
        p.sessions.len() > 0,
    ensures
        iterate_move(p, dir, p.sessions.len()) == p,
{
    let len = p.sessions.len() as int;
    let d = move_delta(dir, len);
    lemma_iterate_move_mod(p, dir, p.sessions.len());
    lemma_mod_multiples_vanish(d, p.selection, len);
    assert(p.selection + p.sessions.len() * d == len * d + p.selection);
    assert(len * d == d * len) by (nonlinear_arith);
    lemma_small_mod(p.selection as nat, p.sessions.len());
    assert(iterate_move(p, dir, p.sessions.len()) =~= p);
}

/// On an empty list, a cursor move changes nothing at all.
pub proof fn lemma_move_selection_empty(p: PickerSpec, dir: MoveDir)
    requires
        p.sessions.len() == 0,
    ensures
        p.move_selection_spec(dir) == p,
{
}

/// Confirming an empty-after-trimming buffer is the same as cancelling the
/// entry: the state returns to navigation and no decision is produced.
pub proof fn lemma_confirm_empty_is_cancel(p: PickerSpec)
    requires
        p.editing matches Some(b) && trim_spec(b).len() == 0,
    ensures
        p.confirm_spec().0 == p.cancel_spec(),
        p.confirm_spec().1 is None,
{
}

} // verus!
