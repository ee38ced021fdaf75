use syncnote::models::Note;
use syncnote::ui::{
    display_title, editor_stats, filter_notes_dashboard, filter_notes_sidebar, insert_snippet,
    is_active_path, load_more, user_initial, visible_notes,
};

fn note(id: i64, title: &str, body: &str) -> Note {
    Note { id, title: title.into(), body: body.into(), updated_at: "t".into() }
}

#[test]
fn searching_notes() {
    let notes = vec![note(1, "Shopping", "milk"), note(2, "Work", "Deploy Friday"), note(3, "", "misc")];
    let ids = |v: Vec<Note>| v.into_iter().map(|n| n.id).collect::<Vec<_>>();
    assert_eq!(ids(filter_notes_sidebar(notes.clone(), "  ")), vec![1, 2, 3]);
    assert_eq!(ids(filter_notes_sidebar(notes.clone(), "FRI")), vec![2]);
    assert_eq!(ids(filter_notes_sidebar(notes.clone(), "i")), vec![1, 2, 3]);
    assert_eq!(ids(filter_notes_dashboard(notes.clone(), "  MILK ")), vec![1]);
    assert_eq!(ids(filter_notes_dashboard(notes.clone(), "")), vec![1, 2, 3]);
    assert_eq!(ids(filter_notes_sidebar(notes, "milk ")), Vec::<i64>::new());
}

#[test]
fn pagination() {
    assert_eq!(visible_notes(10, 30), (10, false));
    assert_eq!(visible_notes(30, 30), (30, false));
    assert_eq!(visible_notes(45, 30), (30, true));
    assert_eq!(load_more(30), 60);
}

#[test]
fn titles_and_initials() {
    assert_eq!(display_title(" "), "Untitled");
    assert_eq!(display_title("x"), "x");
    assert_eq!(user_initial(&Some("bob".into()), "z@x"), "B");
    assert_eq!(user_initial(&Some("".into()), "zed@x"), "Z");
    assert_eq!(user_initial(&None, "ßa@x"), "SS");
    assert_eq!(user_initial(&None, ""), "?");
}

#[test]
fn editor_helpers() {
    assert_eq!(editor_stats("  hello  big\nworld "), "3 words · 19 chars");
    assert_eq!(editor_stats(""), "0 words · 0 chars");
    let t = "a b\u{3000}c";
    assert_eq!(editor_stats(t), format!("{} words · {} chars", t.split_whitespace().count(), t.chars().count()));
    assert_eq!(insert_snippet("", "**", "bold", "**"), "**bold**");
    assert_eq!(insert_snippet("x\n", "- ", "item", ""), "x\n- item");
    assert_eq!(insert_snippet("x", "- ", "item", ""), "x\n- item");
}

#[test]
fn nav_highlight() {
    assert!(is_active_path("/app", "/app", true));
    assert!(!is_active_path("/app/shared", "/app", true));
    assert!(is_active_path("/app/shared/3", "/app/shared", false));
    assert!(!is_active_path("/ap", "/app", false));
}
