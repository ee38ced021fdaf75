use syncnote::roles::MemberRole;

#[test]
fn role_names_round_trip() {
    for r in [MemberRole::Owner, MemberRole::Editor, MemberRole::Viewer] {
        assert_eq!(MemberRole::parse(r.as_str()), Some(r));
    }
}

#[test]
fn role_names_are_lowercase_words() {
    assert_eq!(MemberRole::Owner.as_str(), "owner");
    assert_eq!(MemberRole::Editor.as_str(), "editor");
    assert_eq!(MemberRole::Viewer.as_str(), "viewer");
}

#[test]
fn unknown_role_names_are_refused() {
    assert_eq!(MemberRole::parse("Owner"), None);
    assert_eq!(MemberRole::parse(""), None);
    assert_eq!(MemberRole::parse("admin"), None);
    assert_eq!(MemberRole::parse("viewer "), None);
}

#[test]
fn only_owner_and_editor_can_edit() {
    assert!(MemberRole::Owner.can_edit());
    assert!(MemberRole::Editor.can_edit());
    assert!(!MemberRole::Viewer.can_edit());
}
