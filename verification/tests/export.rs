use syncnote::autosave::{debounce_new, on_change, on_timer, Debounce};
use syncnote::export::{print_document, PRINT_NO_CONTENT};

#[test]
fn print_document_holds_title_date_and_rendered_body() {
    let doc = print_document("  Plan <A> ", "2024-05-01 10:00:00", "# Hi", "https://notes.example");
    assert!(doc.starts_with("<!DOCTYPE html>"));
    assert!(doc.contains("<base href=\"https://notes.example/\">"));
    assert!(doc.contains("<title>Plan &lt;A&gt;</title>"));
    assert!(doc.contains("<h1 class=\"note-title\">Plan &lt;A&gt;</h1>"));
    assert!(doc.contains("<p class=\"note-meta\">Last updated: 2024-05-01 10:00:00</p>"));
    assert!(doc.contains("<div class=\"prose-note\"><h1>Hi</h1>\n</div>"));
    assert!(doc.ends_with("</html>"));
}

#[test]
fn print_document_of_blank_note() {
    let doc = print_document("   ", "d", " \n ", "");
    assert!(doc.contains("<title>Untitled Note</title>"));
    assert!(doc.contains(PRINT_NO_CONTENT));
    assert!(!doc.contains("<base"));
}

#[test]
fn print_document_renders_non_ascii_body() {
    assert!(print_document("t", "d", "héllo", "").contains("<div class=\"prose-note\"><p>héllo</p>\n</div>"));
}

#[test]
fn debounce_writes_only_for_latest_change() {
    let d = debounce_new();
    assert_eq!(d, Debounce { epoch: 0, saved: true });
    let (d, first) = on_change(d);
    let (d, second) = on_change(d);
    assert!(!d.saved);
    let (d, wrote) = on_timer(d, first);
    assert!(!wrote);
    assert!(!d.saved);
    let (d, wrote) = on_timer(d, second);
    assert!(wrote);
    assert!(d.saved);
    assert_eq!(d.epoch, 2);
}
