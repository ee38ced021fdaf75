use vstd::prelude::*;

verus! {

/// A member's role on a shared page.
#[derive(Debug, Clone, Copy, PartialEq, Eq, Structural)]
pub enum MemberRole {
    Owner,
    Editor,
    Viewer,
}

/// The lowercase wire/database name of a role.
pub open spec fn role_name(r: MemberRole) -> Seq<char> {
    match r {
        MemberRole::Owner => seq!['o', 'w', 'n', 'e', 'r'],
        MemberRole::Editor => seq!['e', 'd', 'i', 't', 'o', 'r'],
        MemberRole::Viewer => seq!['v', 'i', 'e', 'w', 'e', 'r'],
    }
}

/// The role whose name is exactly `s`, if any.
pub open spec fn role_of_name(s: Seq<char>) -> Option<MemberRole> {
    if s == role_name(MemberRole::Owner) {
        Some(MemberRole::Owner)
    } else if s == role_name(MemberRole::Editor) {
        Some(MemberRole::Editor)
    } else if s == role_name(MemberRole::Viewer) {
        Some(MemberRole::Viewer)
    } else {
        None
    }
}

/// Owners and editors may change a page's body; viewers may only read it.
pub open spec fn role_can_edit(r: MemberRole) -> bool {
    r == MemberRole::Owner || r == MemberRole::Editor
}

impl MemberRole {
    pub fn as_str(self) -> (s: &'static str)
        ensures
            s@ == role_name(self),
    {
        match self {
            MemberRole::Owner => {
                proof {
                    reveal_strlit("owner");
                }
                "owner"
            },
            MemberRole::Editor => {
                proof {
                    reveal_strlit("editor");
                }
                "editor"
            },
            MemberRole::Viewer => {
                proof {
                    reveal_strlit("viewer");
                }
                "viewer"
            },
        }
    }

    pub fn parse(s: &str) -> (r: Option<Self>)
        ensures
            r == role_of_name(s@),
    {
        let n = s.unicode_len();
        if n == 5 && s.get_char(0) == 'o' && s.get_char(1) == 'w' && s.get_char(2) == 'n'
            && s.get_char(3) == 'e' && s.get_char(4) == 'r' {
            assert(s@ =~= role_name(MemberRole::Owner));
            return Some(MemberRole::Owner);
        }
        if n == 6 && s.get_char(0) == 'e' && s.get_char(1) == 'd' && s.get_char(2) == 'i'
            && s.get_char(3) == 't' && s.get_char(4) == 'o' && s.get_char(5) == 'r' {
            assert(s@ =~= role_name(MemberRole::Editor));
            return Some(MemberRole::Editor);
        }
        if n == 6 && s.get_char(0) == 'v' && s.get_char(1) == 'i' && s.get_char(2) == 'e'
            && s.get_char(3) == 'w' && s.get_char(4) == 'e' && s.get_char(5) == 'r' {
            assert(s@ =~= role_name(MemberRole::Viewer));
            return Some(MemberRole::Viewer);
        }
        proof {
            if s@ == role_name(MemberRole::Owner) {
                assert(s@[1] == 'w');
            }
            if s@ == role_name(MemberRole::Editor) {
                assert(s@[1] == 'd');
            }
            if s@ == role_name(MemberRole::Viewer) {
                assert(s@[1] == 'i');
            }
        }
        None
    }

    pub fn can_edit(self) -> (b: bool)
        ensures
            b == role_can_edit(self),
    {
        matches!(self, MemberRole::Owner | MemberRole::Editor)
    }
}

/// Parsing the name of any role gives back that role.
pub proof fn lemma_parse_as_str(r: MemberRole)
    ensures
        role_of_name(role_name(r)) == Some(r),
{
    let o = role_name(MemberRole::Owner);
    let e = role_name(MemberRole::Editor);
    let v = role_name(MemberRole::Viewer);
    assert(o[1] != e[1] && o.len() != e.len());
    assert(o.len() != v.len());
    assert(e[0] != v[0]);
}

/// A string that parses as a role is exactly that role's name.
pub proof fn lemma_as_str_parse(s: Seq<char>, r: MemberRole)
    requires
        role_of_name(s) == Some(r),
    ensures
        role_name(r) == s,
{
}

/// Only viewers are denied editing.
pub proof fn lemma_can_edit_iff_not_viewer(r: MemberRole)
    ensures
        role_can_edit(r) <==> r != MemberRole::Viewer,
{
}

} // verus!
