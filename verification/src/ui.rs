//! What the pages compute from what they show: note search, titles, the
//! avatar initial, editor statistics and snippets, navigation highlights.

use vstd::prelude::*;

use crate::models::{AttachmentInfo, AuthOutcome, Note};
use crate::text::{
    chars_of, contains_chars, contains_seq, int_decimal, is_white_space, is_whitespace, lowercase,
    nat_decimal, occurs_at, push_i64_decimal, push_str, push_u64_decimal, str_eq, starts_with, string_from_chars, to_lowercase,
    to_owned_string, trim, trim_string, trims_to_empty,
};

verus! {

// ---------------------------------------------------------------------------
// Note search
// ---------------------------------------------------------------------------

/// A note matches a (lowercased) query when its lowercased title or body
/// contains it.
pub open spec fn note_matches(n: Note, q: Seq<char>) -> bool {
    contains_seq(lowercase(n.title@), q) || contains_seq(lowercase(n.body@), q)
}

/// The notes of `s` that match `q`, in order.
pub open spec fn matching_notes(s: Seq<Note>, q: Seq<char>) -> Seq<Note>
    decreases s.len(),
{
    if s.len() == 0 {
        Seq::empty()
    } else if note_matches(s.last(), q) {
        matching_notes(s.drop_last(), q).push(s.last())
    } else {
        matching_notes(s.drop_last(), q)
    }
}

/// Searching a list is searching its parts one after the other: the
/// result for `a + b` is the result for `a` followed by the result for `b`.
pub proof fn lemma_note_search_concat(a: Seq<Note>, b: Seq<Note>, q: Seq<char>)
    ensures
        matching_notes(a + b, q) == matching_notes(a, q) + matching_notes(b, q),
    decreases b.len(),
{
    if b.len() == 0 {
        assert(a + b =~= a);
        assert(matching_notes(a, q) + matching_notes(b, q) =~= matching_notes(a, q));
    } else {
        lemma_note_search_concat(a, b.drop_last(), q);
        assert((a + b).drop_last() =~= a + b.drop_last());
        assert((a + b).last() == b.last());
        assert(matching_notes(a, q) + matching_notes(b.drop_last(), q).push(b.last()) =~= (
        matching_notes(a, q) + matching_notes(b.drop_last(), q)).push(b.last()));
    }
}

/// One note is found exactly when its lowercased title or its lowercased
/// body contains the query; together with `lemma_note_search_concat` this
/// fixes the result of every search.
pub proof fn lemma_note_search_single(n: Note, q: Seq<char>)
    ensures
        matching_notes(seq![n], q) == if contains_seq(lowercase(n.title@), q) || contains_seq(
            lowercase(n.body@),
            q,
        ) {
            seq![n]
        } else {
            Seq::<Note>::empty()
        },
{
    let one = seq![n];
    assert(one.drop_last() =~= Seq::<Note>::empty());
    assert(one.last() == n);
    assert(matching_notes(one.drop_last(), q) == Seq::<Note>::empty());
    assert(Seq::<Note>::empty().push(n) =~= one);
}

/// A note of the list is in the search result exactly when its lowercased
/// title or body contains the query, and nothing else is.
pub proof fn lemma_note_search_members(s: Seq<Note>, q: Seq<char>)
    ensures
        forall|x: Note|
            #[trigger] matching_notes(s, q).contains(x) <==> (s.contains(x) && (contains_seq(
                lowercase(x.title@),
                q,
            ) || contains_seq(lowercase(x.body@), q))),
    decreases s.len(),
{
    if s.len() > 0 {
        lemma_note_search_members(s.drop_last(), q);
        assert(s =~= s.drop_last().push(s.last()));
        assert forall|x: Note| #[trigger] s.contains(x) <==> (s.drop_last().contains(x) || x
            == s.last()) by {
            if s.contains(x) {
                let k = choose|k: int| 0 <= k < s.len() && s[k] == x;
                if k < s.len() - 1 {
                    assert(s.drop_last()[k] == x);
                }
            }
            if s.drop_last().contains(x) {
                let k = choose|k: int| 0 <= k < s.len() - 1 && s.drop_last()[k] == x;
                assert(s[k] == x);
            }
            if x == s.last() {
                assert(s[s.len() - 1] == x);
            }
        }
        let m = matching_notes(s.drop_last(), q);
        assert forall|x: Note| #[trigger] m.push(s.last()).contains(x) <==> (m.contains(x) || x
            == s.last()) by {
            if m.push(s.last()).contains(x) {
                let k = choose|k: int| 0 <= k < m.len() + 1 && m.push(s.last())[k] == x;
                if k < m.len() {
                    assert(m[k] == x);
                }
            }
            if m.contains(x) {
                let k = choose|k: int| 0 <= k < m.len() && m[k] == x;
                assert(m.push(s.last())[k] == x);
            }
            if x == s.last() {
                assert(m.push(s.last())[m.len() as int] == x);
            }
        }
    }
}

pub fn note_matches_query(n: &Note, q: &[char]) -> (b: bool)
    ensures
        b == note_matches(*n, q@),
{
    let t = to_lowercase(n.title.as_str());
    let b = to_lowercase(n.body.as_str());
    contains_chars(chars_of(t.as_str()).as_slice(), q) || contains_chars(
        chars_of(b.as_str()).as_slice(),
        q,
    )
}

fn keep_matching(notes: &Vec<Note>, q: &[char]) -> (r: Vec<Note>)
    ensures
        r@ == matching_notes(notes@, q@),
{
    let mut out: Vec<Note> = Vec::new();
    let mut i: usize = 0;
    while i < notes.len()
        invariant
            i <= notes@.len(),
            out@ == matching_notes(notes@.subrange(0, i as int), q@),
        decreases notes.len() - i,
    {
        assert(notes@.subrange(0, i + 1).drop_last() =~= notes@.subrange(0, i as int));
        if note_matches_query(&notes[i], q) {
            out.push(notes[i].copy());
        }
        i = i + 1;
    }
    assert(notes@.subrange(0, notes@.len() as int) =~= notes@);
    out
}

/// The sidebar's search: the query is lowercased; a query that trims to
/// nothing shows every note.
pub fn filter_notes_sidebar(notes: Vec<Note>, query: &str) -> (r: Vec<Note>)
    ensures
        trim(lowercase(query@)).len() == 0 ==> r@ == notes@,
        trim(lowercase(query@)).len() != 0 ==> r@ == matching_notes(notes@, lowercase(query@)),
{
    let q = to_lowercase(query);
    if trims_to_empty(q.as_str()) {
        return notes;
    }
    let qv = chars_of(q.as_str());
    keep_matching(&notes, qv.as_slice())
}

/// The dashboard's search: the query is trimmed, then lowercased; an empty
/// query shows every note.
pub fn filter_notes_dashboard(notes: Vec<Note>, query: &str) -> (r: Vec<Note>)
    ensures
        lowercase(trim(query@)).len() == 0 ==> r@ == notes@,
        lowercase(trim(query@)).len() != 0 ==> r@ == matching_notes(notes@, lowercase(trim(query@))),
{
    let t = trim_string(query);
    let q = to_lowercase(t.as_str());
    let qv = chars_of(q.as_str());
    if qv.len() == 0 {
        return notes;
    }
    keep_matching(&notes, qv.as_slice())
}

/// How many notes a list shows before "Load more".
pub const NOTES_PAGE: usize = 30;

/// The number of notes shown of `total` with the display limit `limit`, and
/// whether "Load more" is offered.
pub fn visible_notes(total: usize, limit: usize) -> (r: (usize, bool))
    ensures
        r.0 == if total < limit {
            total
        } else {
            limit
        },
        r.1 == (total > limit),
{
    if total < limit {
        (total, false)
    } else {
        (limit, total > limit)
    }
}

/// "Load more" raises the display limit by a page.
pub fn load_more(limit: usize) -> (r: usize)
    requires
        limit + NOTES_PAGE <= usize::MAX,
    ensures
        r == limit + NOTES_PAGE,
{
    limit + NOTES_PAGE
}

// ---------------------------------------------------------------------------
// Titles and names
// ---------------------------------------------------------------------------

/// A note's title in lists: `Untitled` when blank.
pub fn display_title(title: &str) -> (r: String)
    ensures
        trim(title@).len() == 0 ==> r@ == "Untitled"@,
        trim(title@).len() != 0 ==> r@ == title@,
{
    if trims_to_empty(title) {
        to_owned_string("Untitled")
    } else {
        to_owned_string(title)
    }
}

/// The uppercase mapping of a character, as `char::to_uppercase` yields it.
pub uninterp spec fn uppercase_of(c: char) -> Seq<char>;

/// std `char::to_uppercase`, collected into a string. The contract names the
/// result, which depends on the character alone.
#[verifier::external_body]
fn char_to_uppercase(c: char) -> (s: String)
    ensures
        s@ == uppercase_of(c),
{
    c.to_uppercase().collect()
}

/// The text the avatar initial comes from: a non-empty display name, or
/// the email address.
pub open spec fn initial_source(display_name: Option<Seq<char>>, email: Seq<char>) -> Seq<char> {
    match display_name {
        Some(n) => if n.len() > 0 {
            n
        } else {
            email
        },
        None => email,
    }
}

/// The avatar's letter: the uppercased first character of the display name
/// (or email), `?` when there is none.
pub fn user_initial(display_name: &Option<String>, email: &str) -> (r: String)
    ensures
        ({
            let src = initial_source(
                match display_name {
                    Some(n) => Some(n@),
                    None => None,
                },
                email@,
            );
            if src.len() == 0 {
                r@ == "?"@
            } else {
                r@ == uppercase_of(src[0])
            }
        }),
{
    let src: Vec<char> = match display_name {
        Some(n) => {
            let v = chars_of(n.as_str());
            if v.len() > 0 {
                v
            } else {
                chars_of(email)
            }
        },
        None => chars_of(email),
    };
    if src.len() == 0 {
        to_owned_string("?")
    } else {
        char_to_uppercase(src[0])
    }
}

// ---------------------------------------------------------------------------
// Editor
// ---------------------------------------------------------------------------

/// The number of words (maximal runs of non-white-space) of a text, as
/// `split_whitespace().count()` gives it.
pub open spec fn word_count(s: Seq<char>) -> nat
    decreases s.len(),
{
    if s.len() == 0 {
        0
    } else {
        word_count(s.drop_last()) + if !is_white_space(s.last()) && (s.len() == 1
            || is_white_space(s[s.len() - 2])) {
            1nat
        } else {
            0nat
        }
    }
}

proof fn lemma_word_count_after_space(s: Seq<char>, b: Seq<char>)
    requires
        s.len() > 0,
        is_white_space(s.last()),
    ensures
        word_count(s + b) == word_count(s) + word_count(b),
    decreases b.len(),
{
    if b.len() == 0 {
        assert(s + b =~= s);
    } else {
        lemma_word_count_after_space(s, b.drop_last());
        let c = s + b;
        assert(c.drop_last() =~= s + b.drop_last());
        assert(c.last() == b.last());
        if b.len() == 1 {
            assert(c[c.len() - 2] == s.last());
        } else {
            assert(c[c.len() - 2] == b[b.len() - 2]);
        }
    }
}

proof fn lemma_word_count_trailing_space(a: Seq<char>, w: char)
    requires
        is_white_space(w),
    ensures
        word_count(a.push(w)) == word_count(a),
{
    assert(a.push(w).drop_last() =~= a);
}

/// Words on either side of white space are counted apart: counting
/// `a`, a white space character and `b` counts the words of `a` and of `b`.
pub proof fn lemma_word_count_split(a: Seq<char>, w: char, b: Seq<char>)
    requires
        is_white_space(w),
    ensures
        word_count(a.push(w) + b) == word_count(a) + word_count(b),
{
    lemma_word_count_trailing_space(a, w);
    lemma_word_count_after_space(a.push(w), b);
}

/// A text of white space alone has no word; a non-empty text without white
/// space is one word.
pub proof fn lemma_word_count_single(s: Seq<char>)
    ensures
        (forall|i: int| 0 <= i < s.len() ==> is_white_space(#[trigger] s[i])) ==> word_count(s)
            == 0,
        (s.len() > 0 && forall|i: int| 0 <= i < s.len() ==> !is_white_space(#[trigger] s[i]))
            ==> word_count(s) == 1,
    decreases s.len(),
{
    if s.len() > 0 {
        lemma_word_count_single(s.drop_last());
        if forall|i: int| 0 <= i < s.len() ==> is_white_space(#[trigger] s[i]) {
            assert forall|i: int| 0 <= i < s.drop_last().len() implies is_white_space(
                #[trigger] s.drop_last()[i],
            ) by {
                assert(s.drop_last()[i] == s[i]);
            }
            assert(is_white_space(s[s.len() - 1]));
        }
        if s.len() > 0 && forall|i: int| 0 <= i < s.len() ==> !is_white_space(#[trigger] s[i]) {
            assert(!is_white_space(s[s.len() - 1]));
            if s.len() > 1 {
                assert forall|i: int| 0 <= i < s.drop_last().len() implies !is_white_space(
                    #[trigger] s.drop_last()[i],
                ) by {
                    assert(s.drop_last()[i] == s[i]);
                }
                assert(!is_white_space(s[s.len() - 2]));
            } else {
                assert(word_count(s.drop_last()) == 0);
            }
        }
    }
}

pub fn count_words(s: &[char]) -> (n: usize)
    ensures
        n == word_count(s@),
{
    let mut n: usize = 0;
    let mut i: usize = 0;
    while i < s.len()
        invariant
            i <= s@.len(),
            n == word_count(s@.subrange(0, i as int)),
            n <= i,
        decreases s.len() - i,
    {
        assert(s@.subrange(0, i + 1).drop_last() =~= s@.subrange(0, i as int));
        if !is_whitespace(s[i]) && (i == 0 || is_whitespace(s[i - 1])) {
            n = n + 1;
        }
        i = i + 1;
    }
    assert(s@.subrange(0, s@.len() as int) =~= s@);
    n
}

/// The editor's footer: `{words} words · {chars} chars`.
pub fn editor_stats(text: &str) -> (r: String)
    ensures
        r@ == nat_decimal(word_count(text@)) + " words · "@ + nat_decimal(text@.len())
            + " chars"@,
{
    let v = chars_of(text);
    let words = count_words(v.as_slice());
    let mut out: Vec<char> = Vec::new();
    push_u64_decimal(&mut out, words as u64);
    push_str(&mut out, " words · ");
    push_u64_decimal(&mut out, v.len() as u64);
    push_str(&mut out, " chars");
    string_from_chars(out.as_slice())
}

/// Inserting a snippet (a toolbar button): it goes on a line of its own, so
/// a newline is added first unless the body is empty or ends in one.
pub fn insert_snippet(body: &str, prefix: &str, placeholder: &str, suffix: &str) -> (r: String)
    ensures
        (body@.len() == 0 || body@.last() == '\n') ==> r@ == body@ + prefix@ + placeholder@
            + suffix@,
        !(body@.len() == 0 || body@.last() == '\n') ==> r@ == body@ + "\n"@ + prefix@
            + placeholder@ + suffix@,
{
    let v = chars_of(body);
    let mut r = to_owned_string(body);
    if !(v.len() == 0 || v[v.len() - 1] == '\n') {
        r.append("\n");
    }
    r.append(prefix);
    r.append(placeholder);
    r.append(suffix);
    r
}

// ---------------------------------------------------------------------------
// Navigation
// ---------------------------------------------------------------------------

/// A navigation link is highlighted when the current path is its path
/// (`exact`) or lies under it.
pub fn is_active_path(current: &str, path: &str, exact: bool) -> (b: bool)
    ensures
        exact ==> b == (current@ == path@),
        !exact ==> b == occurs_at(current@, 0, path@),
{
    if exact {
        str_eq(current, path)
    } else {
        starts_with(current, path)
    }
}


// ---------------------------------------------------------------------------
// Attachments in the editor, shared-note errors
// ---------------------------------------------------------------------------

/// The Markdown an uploaded or picked file is inserted as, on its own
/// paragraph: an image for `image/*` types, a link otherwise.
pub fn attachment_markdown(filename: &str, content_type: &str, url: &str) -> (r: String)
    ensures
        occurs_at(content_type@, 0, "image/"@) ==> r@ == "\n\n!["@ + filename@ + "]("@ + url@
            + ")\n\n"@,
        !occurs_at(content_type@, 0, "image/"@) ==> r@ == "\n\n["@ + filename@ + "]("@ + url@
            + ")\n\n"@,
{
    let mut r = if starts_with(content_type, "image/") {
        to_owned_string("\n\n![")
    } else {
        to_owned_string("\n\n[")
    };
    r.append(filename);
    r.append("](");
    r.append(url);
    r.append(")\n\n");
    r
}

/// The message a shared note's password form shows for a failed unlock.
pub fn shared_note_error_message(msg: &str) -> (r: String)
    ensures
        contains_seq(msg@, "wrong_password"@) ==> r@ == "Incorrect password. Please try again."@,
        !contains_seq(msg@, "wrong_password"@) ==> r@ == msg@,
{
    if contains_chars(chars_of(msg).as_slice(), chars_of("wrong_password").as_slice()) {
        to_owned_string("Incorrect password. Please try again.")
    } else {
        to_owned_string(msg)
    }
}

// ---------------------------------------------------------------------------
// Files page
// ---------------------------------------------------------------------------

/// A file matches a (lowercased) query when its lowercased name contains it.
pub open spec fn file_matches(a: AttachmentInfo, q: Seq<char>) -> bool {
    contains_seq(lowercase(a.filename@), q)
}

/// The files of `s` that match `q`, in order.
pub open spec fn matching_files(s: Seq<AttachmentInfo>, q: Seq<char>) -> Seq<AttachmentInfo>
    decreases s.len(),
{
    if s.len() == 0 {
        Seq::empty()
    } else if file_matches(s.last(), q) {
        matching_files(s.drop_last(), q).push(s.last())
    } else {
        matching_files(s.drop_last(), q)
    }
}

/// Searching a list of files is searching its parts one after the other.
pub proof fn lemma_file_search_concat(a: Seq<AttachmentInfo>, b: Seq<AttachmentInfo>, q: Seq<char>)
    ensures
        matching_files(a + b, q) == matching_files(a, q) + matching_files(b, q),
    decreases b.len(),
{
    if b.len() == 0 {
        assert(a + b =~= a);
        assert(matching_files(a, q) + matching_files(b, q) =~= matching_files(a, q));
    } else {
        lemma_file_search_concat(a, b.drop_last(), q);
        assert((a + b).drop_last() =~= a + b.drop_last());
        assert((a + b).last() == b.last());
        assert(matching_files(a, q) + matching_files(b.drop_last(), q).push(b.last()) =~= (
        matching_files(a, q) + matching_files(b.drop_last(), q)).push(b.last()));
    }
}

/// One file is found exactly when its lowercased name contains the query:
/// nothing but the name is searched. With `lemma_file_search_concat` this
/// fixes the result of every search.
pub proof fn lemma_file_search_single(a: AttachmentInfo, q: Seq<char>)
    ensures
        matching_files(seq![a], q) == if contains_seq(lowercase(a.filename@), q) {
            seq![a]
        } else {
            Seq::<AttachmentInfo>::empty()
        },
{
    let one = seq![a];
    assert(one.drop_last() =~= Seq::<AttachmentInfo>::empty());
    assert(one.last() == a);
    assert(matching_files(one.drop_last(), q) == Seq::<AttachmentInfo>::empty());
    assert(Seq::<AttachmentInfo>::empty().push(a) =~= one);
}

/// Two files with the same name are found alike, whatever else differs.
pub proof fn lemma_file_search_by_name_only(a: AttachmentInfo, b: AttachmentInfo, q: Seq<char>)
    requires
        a.filename@ == b.filename@,
    ensures
        (matching_files(seq![a], q).len() == 1) == (matching_files(seq![b], q).len() == 1),
        matching_files(seq![a], q).len() == 1 <==> contains_seq(lowercase(a.filename@), q),
{
    lemma_file_search_single(a, q);
    lemma_file_search_single(b, q);
}

/// The files page's search: the query is trimmed, then lowercased; an
/// empty query shows every file.
pub fn filter_files(files: Vec<AttachmentInfo>, query: &str) -> (r: Vec<AttachmentInfo>)
    ensures
        lowercase(trim(query@)).len() == 0 ==> r@ == files@,
        lowercase(trim(query@)).len() != 0 ==> r@ == matching_files(files@, lowercase(trim(query@))),
{
    let t = trim_string(query);
    let q = to_lowercase(t.as_str());
    let qv = chars_of(q.as_str());
    if qv.len() == 0 {
        return files;
    }
    let mut out: Vec<AttachmentInfo> = Vec::new();
    let mut i: usize = 0;
    while i < files.len()
        invariant
            i <= files@.len(),
            qv@ == lowercase(trim(query@)),
            out@ == matching_files(files@.subrange(0, i as int), qv@),
        decreases files.len() - i,
    {
        assert(files@.subrange(0, i + 1).drop_last() =~= files@.subrange(0, i as int));
        let name = to_lowercase(files[i].filename.as_str());
        if contains_chars(chars_of(name.as_str()).as_slice(), qv.as_slice()) {
            out.push(files[i].copy());
        }
        i = i + 1;
    }
    assert(files@.subrange(0, files@.len() as int) =~= files@);
    out
}

/// How a download link's use is shown: `n of max downloads used`, or
/// `n downloads, unlimited`.
pub fn share_link_usage(download_count: i64, max_downloads: Option<i64>) -> (r: String)
    ensures
        match max_downloads {
            Some(max) => r@ == int_decimal(download_count as int) + " of "@ + int_decimal(max as int)
                + " downloads used"@,
            None => r@ == int_decimal(download_count as int) + " downloads, unlimited"@,
        },
{
    let mut v: Vec<char> = Vec::new();
    push_i64_decimal(&mut v, download_count);
    match max_downloads {
        Some(max) => {
            push_str(&mut v, " of ");
            push_i64_decimal(&mut v, max);
            push_str(&mut v, " downloads used");
        },
        None => push_str(&mut v, " downloads, unlimited"),
    }
    string_from_chars(v.as_slice())
}

/// When a download link expires, as shown: its expiry, or `never expires`.
pub fn share_link_expiry(expires_at: &Option<String>) -> (r: String)
    ensures
        match expires_at {
            Some(e) => r@ == e@,
            None => r@ == "never expires"@,
        },
{
    match expires_at {
        Some(e) => e.clone(),
        None => to_owned_string("never expires"),
    }
}

/// The details after a sign-up invite's uses: ` · expires {e}` and
/// ` · {note}`, each where present.
pub fn invite_details(expires_at: &Option<String>, note: &Option<String>) -> (r: String)
    ensures
        r@ == (match expires_at {
            Some(e) => " · expires "@ + e@,
            None => Seq::empty(),
        }) + (match note {
            Some(n) => " · "@ + n@,
            None => Seq::empty(),
        }),
{
    let mut r = String::new();
    if let Some(e) = expires_at {
        r.append(" · expires ");
        r.append(e.as_str());
    }
    if let Some(n) = note {
        r.append(" · ");
        r.append(n.as_str());
    }
    r
}

// ---------------------------------------------------------------------------
// Form feedback
// ---------------------------------------------------------------------------

/// The error line of the sign-in and sign-up forms for the answer they got
/// (`Err`: the call itself failed): a refusal's message, or `fallback` when
/// it carries none; nothing on success or before an answer.
pub fn form_error(result: &Option<Result<AuthOutcome, String>>, fallback: &str) -> (r: String)
    ensures
        match result {
            Some(Ok(o)) => if o.ok {
                r@ == Seq::<char>::empty()
            } else {
                match o.message {
                    Some(m) => r@ == m@,
                    None => r@ == fallback@,
                }
            },
            Some(Err(_)) => r@ == "Server error, please try again"@,
            None => r@ == Seq::<char>::empty(),
        },
{
    match result {
        Some(Ok(o)) => if o.ok {
            String::new()
        } else {
            match &o.message {
                Some(m) => m.clone(),
                None => to_owned_string(fallback),
            }
        },
        Some(Err(_)) => to_owned_string("Server error, please try again"),
        None => String::new(),
    }
}

/// The feedback of an account form: `done` on success, else the refusal's
/// message (or `fallback`), or a generic line when the call failed; the flag
/// marks an error. Nothing before an answer.
pub fn settings_feedback(result: &Option<Result<AuthOutcome, String>>, done: &str, fallback: &str) -> (r:
    Option<(String, bool)>)
    ensures
        match result {
            Some(Ok(o)) => if o.ok {
                r matches Some((m, e)) && m@ == done@ && !e
            } else {
                r matches Some((m, e)) && e && match o.message {
                    Some(x) => m@ == x@,
                    None => m@ == fallback@,
                }
            },
            Some(Err(_)) => r matches Some((m, e)) && e && m@ == "Server error, please try again"@,
            None => r is None,
        },
{
    match result {
        Some(Ok(o)) => if o.ok {
            Some((to_owned_string(done), false))
        } else {
            match &o.message {
                Some(m) => Some((m.clone(), true)),
                None => Some((to_owned_string(fallback), true)),
            }
        },
        Some(Err(_)) => Some((to_owned_string("Server error, please try again"), true)),
        None => None,
    }
}

} // verus!
