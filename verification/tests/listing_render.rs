use zellij_picker::listing::parse_session_list;
use zellij_picker::render::{render_plan, FooterPlan};
use zellij_picker::state::PickerState;

fn sessions(names: &[&str]) -> Vec<String> {
    names.iter().map(|s| s.to_string()).collect()
}

#[test]
fn listing_splits_into_trimmed_lines() {
    assert_eq!(parse_session_list("alpha\nbeta\n"), vec!["alpha", "beta"]);
}

#[test]
fn listing_drops_blank_lines_and_padding() {
    assert_eq!(parse_session_list(" a \n\n  b\r\n \n"), vec!["a", "b"]);
}

#[test]
fn empty_listing_gives_no_sessions() {
    assert_eq!(parse_session_list(""), Vec::<String>::new());
    assert_eq!(parse_session_list("\n\n"), Vec::<String>::new());
}

#[test]
fn listing_drops_unicode_whitespace_lines() {
    assert_eq!(parse_session_list("\u{00a0}\na\n"), vec!["a"]);
    assert_eq!(parse_session_list("\u{3000}b\u{2009}\n"), vec!["b"]);
}

#[test]
fn listing_without_trailing_newline_keeps_last_line() {
    assert_eq!(parse_session_list("one"), vec!["one"]);
    assert_eq!(parse_session_list("one\ntwo"), vec!["one", "two"]);
}

#[test]
fn navigation_frame_highlights_the_selection() {
    let st = PickerState::new(sessions(&["alpha", "beta"]));
    let p = render_plan(&st, 20);
    assert_eq!(p.title_height, 3);
    assert_eq!(p.list_height, 14);
    assert_eq!(p.footer_height, 3);
    assert_eq!(p.items, vec!["  alpha", "  beta"]);
    assert_eq!(p.highlighted, Some(0));
    assert!(!p.dimmed);
    assert_eq!(p.footer, FooterPlan::Legend);
}

#[test]
fn text_entry_frame_is_dimmed_and_shows_the_buffer() {
    let mut st = PickerState::new(sessions(&["alpha"]));
    st.begin_new_session_entry();
    st.edit_buffer('x');
    let p = render_plan(&st, 10);
    assert_eq!(p.highlighted, None);
    assert!(p.dimmed);
    assert_eq!(p.footer, FooterPlan::EntryInput("x".to_string()));
}

#[test]
fn small_heights_shrink_the_fixed_regions_last() {
    let st = PickerState::new(Vec::new());
    let p = render_plan(&st, 4);
    assert_eq!(p.title_height, 3);
    assert_eq!(p.footer_height, 1);
    assert_eq!(p.list_height, 0);
    let q = render_plan(&st, 2);
    assert_eq!(q.title_height, 2);
    assert_eq!(q.footer_height, 0);
    assert_eq!(q.list_height, 0);
}

#[test]
fn empty_list_has_no_highlight() {
    let st = PickerState::new(Vec::new());
    let p = render_plan(&st, 12);
    assert!(p.items.is_empty());
    assert_eq!(p.highlighted, None);
}
