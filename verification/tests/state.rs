use zellij_picker::MoveDir;
use zellij_picker::action::ExitAction;
use zellij_picker::state::PickerState;

fn sessions(names: &[&str]) -> Vec<String> {
    names.iter().map(|s| s.to_string()).collect()
}

#[test]
fn move_selection_down_cycles_back_to_start() {
    let mut st = PickerState::new(sessions(&["a", "b", "c"]));
    assert_eq!(st.selected().map(|s| s.as_str()), Some("a"));
    for _ in 0..3 {
        st.move_selection(MoveDir::Down);
    }
    assert_eq!(st.selected().map(|s| s.as_str()), Some("a"));
}

#[test]
fn move_selection_up_cycles_back_to_start() {
    let mut st = PickerState::new(sessions(&["a", "b", "c"]));
    st.move_selection(MoveDir::Down);
    assert_eq!(st.selected().map(|s| s.as_str()), Some("b"));
    for _ in 0..3 {
        st.move_selection(MoveDir::Up);
    }
    assert_eq!(st.selected().map(|s| s.as_str()), Some("b"));
}

#[test]
fn move_selection_wraps_at_both_ends() {
    let mut st = PickerState::new(sessions(&["a", "b"]));
    st.move_selection(MoveDir::Up);
    assert_eq!(st.selected().map(|s| s.as_str()), Some("b"));
    st.move_selection(MoveDir::Down);
    assert_eq!(st.selected().map(|s| s.as_str()), Some("a"));
}

#[test]
fn empty_list_moves_are_noops_and_selected_is_none() {
    let mut st = PickerState::new(Vec::new());
    assert!(st.selected().is_none());
    st.move_selection(MoveDir::Down);
    assert!(st.selected().is_none());
    st.move_selection(MoveDir::Up);
    assert!(st.selected().is_none());
    assert_eq!(st.session_count(), 0);
}

#[test]
fn edit_buffer_rejects_unsafe_characters() {
    let mut st = PickerState::new(sessions(&["a"]));
    st.begin_new_session_entry();
    st.edit_buffer('a');
    st.edit_buffer('!');
    st.edit_buffer(' ');
    st.edit_buffer('\t');
    st.edit_buffer('.');
    st.edit_buffer('/');
    assert_eq!(st.buffer_text().map(|s| s.as_str()), Some("a"));
    let r = st.confirm_entry();
    assert_eq!(r, Some(ExitAction::CreateSession(Some("a".to_string()))));
}

#[test]
fn edit_buffer_accepts_hyphen_underscore_and_alphanumerics() {
    let mut st = PickerState::new(Vec::new());
    st.begin_new_session_entry();
    for c in ['w', 'o', 'r', 'k', '-', '_', '9'] {
        st.edit_buffer(c);
    }
    assert_eq!(st.buffer_text().map(|s| s.as_str()), Some("work-_9"));
}

#[test]
fn confirm_on_empty_buffer_cancels() {
    let mut st = PickerState::new(sessions(&["a"]));
    st.begin_new_session_entry();
    assert!(st.is_editing());
    let r = st.confirm_entry();
    assert_eq!(r, None);
    assert!(!st.is_editing());
    assert_eq!(st.selected().map(|s| s.as_str()), Some("a"));
}

#[test]
fn confirm_work_1_creates_named_session() {
    let mut st = PickerState::new(Vec::new());
    st.begin_new_session_entry();
    for c in ['w', 'o', 'r', 'k', '-', '1'] {
        st.edit_buffer(c);
    }
    let r = st.confirm_entry();
    assert_eq!(r, Some(ExitAction::CreateSession(Some("work-1".to_string()))));
    assert!(!st.is_editing());
}

#[test]
fn backspace_removes_last_character() {
    let mut st = PickerState::new(Vec::new());
    st.begin_new_session_entry();
    st.edit_buffer('a');
    st.edit_buffer('b');
    st.backspace_buffer();
    let r = st.confirm_entry();
    assert_eq!(r, Some(ExitAction::CreateSession(Some("a".to_string()))));
}

#[test]
fn backspace_on_empty_buffer_is_noop() {
    let mut st = PickerState::new(Vec::new());
    st.begin_new_session_entry();
    st.backspace_buffer();
    assert_eq!(st.buffer_text().map(|s| s.as_str()), Some(""));
    assert_eq!(st.confirm_entry(), None);
}

#[test]
fn cancel_entry_discards_buffer() {
    let mut st = PickerState::new(sessions(&["a"]));
    st.begin_new_session_entry();
    st.edit_buffer('x');
    st.cancel_entry();
    assert!(!st.is_editing());
    assert!(st.buffer_text().is_none());
    st.begin_new_session_entry();
    assert_eq!(st.buffer_text().map(|s| s.as_str()), Some(""));
}
