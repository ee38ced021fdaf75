use vstd::prelude::*;

use pulldown_cmark::{CowStr, Event, Options, Parser};

use crate::tag_safety::lemma_postprocess_no_raw_tags;
use crate::text::{
    chars_of, contains_seq, find_chars, find_from, is_ascii_digit, is_digit, is_white_space,
    is_whitespace, lemma_find_from, matches_at, occurs_at, push_chars, push_str, replace_all,
    replace_chars, string_from_chars,
};

verus! {

// ---------------------------------------------------------------------------
// Attribute escaping
// ---------------------------------------------------------------------------

/// How one character is written inside a double-quoted HTML attribute.
pub open spec fn escape_attr_char(c: char) -> Seq<char> {
    if c == '&' {
        "&amp;"@
    } else if c == '"' {
        "&quot;"@
    } else if c == '<' {
        "&lt;"@
    } else if c == '>' {
        "&gt;"@
    } else {
        seq![c]
    }
}

/// `s` escaped for a double-quoted HTML attribute.
pub open spec fn escape_attr(s: Seq<char>) -> Seq<char>
    decreases s.len(),
{
    if s.len() == 0 {
        Seq::empty()
    } else {
        escape_attr(s.drop_last()) + escape_attr_char(s.last())
    }
}

/// Appends `val[from..to]`, escaped for an HTML attribute, to `out`.
pub fn escape_attribute(out: &mut Vec<char>, val: &[char], from: usize, to: usize)
    requires
        from <= to <= val@.len(),
    ensures
        final(out)@ == old(out)@ + escape_attr(val@.subrange(from as int, to as int)),
{
    let ghost start = out@;
    let mut k = from;
    assert(val@.subrange(from as int, from as int) =~= Seq::<char>::empty());
    while k < to
        invariant
            from <= k <= to <= val@.len(),
            out@ == start + escape_attr(val@.subrange(from as int, k as int)),
        decreases to - k,
    {
        let c = val[k];
        let ghost before = out@;
        if c == '&' {
            push_str(out, "&amp;");
        } else if c == '"' {
            push_str(out, "&quot;");
        } else if c == '<' {
            push_str(out, "&lt;");
        } else if c == '>' {
            push_str(out, "&gt;");
        } else {
            out.push(c);
        }
        assert(out@ =~= before + escape_attr_char(c));
        assert(val@.subrange(from as int, k + 1).drop_last() =~= val@.subrange(
            from as int,
            k as int,
        ));
        k = k + 1;
        assert(out@ =~= start + escape_attr(val@.subrange(from as int, k as int)));
    }
}

// ---------------------------------------------------------------------------
// Inline math: `$...$`
// ---------------------------------------------------------------------------

/// A `$` at `i` may open an inline formula: it is not escaped by a preceding
/// backslash and not followed by a digit (a price such as `$10`), white space
/// or a second `$`.
pub open spec fn opens_inline(c: Seq<char>, i: int) -> bool {
    &&& c[i] == '$'
    &&& !(i > 0 && c[i - 1] == '\\')
    &&& !(i + 1 < c.len() && is_ascii_digit(c[i + 1]))
    &&& !(i + 1 < c.len() && (is_white_space(c[i + 1]) || c[i + 1] == '$'))
}

/// A `$` at `j` closes an inline formula: not escaped, not after white space.
pub open spec fn closes_inline(c: Seq<char>, j: int) -> bool {
    c[j] == '$' && c[j - 1] != '\\' && !is_white_space(c[j - 1])
}

/// The closing `$` of an inline formula whose search starts at `j`; a line
/// break or a `<` before it ends the search.
pub open spec fn inline_close(c: Seq<char>, j: int) -> Option<int>
    decreases c.len() - j,
{
    if j < 1 || j >= c.len() {
        None
    } else if closes_inline(c, j) {
        Some(j)
    } else if c[j] == '\n' || c[j] == '<' {
        None
    } else {
        inline_close(c, j + 1)
    }
}

pub proof fn lemma_inline_close_bounds(c: Seq<char>, j: int)
    ensures
        inline_close(c, j) matches Some(k) ==> j <= k < c.len() && 1 <= k,
    decreases c.len() - j,
{
    if j < 1 || j >= c.len() {
    } else if closes_inline(c, j) {
    } else if c[j] == '\n' || c[j] == '<' {
    } else {
        lemma_inline_close_bounds(c, j + 1);
    }
}

/// The markup for an inline formula `f`: a KaTeX placeholder carrying the
/// expression, with `$f$` itself as its text.
pub open spec fn inline_span(f: Seq<char>) -> Seq<char> {
    "<span class=\"katex-math-inline\" data-expr=\""@ + escape_attr(f) + "\">$"@ + f
        + "$</span>"@
}

/// Inline math rendering of `c` from position `i` on.
pub open spec fn inline_from(c: Seq<char>, i: int) -> Seq<char>
    decreases c.len() - i,
{
    if i < 0 || i >= c.len() {
        Seq::empty()
    } else if opens_inline(c, i) && inline_close(c, i + 1) is Some {
        let e = inline_close(c, i + 1)->0;
        proof {
            lemma_inline_close_bounds(c, i + 1);
        }
        inline_span(c.subrange(i + 1, e)) + inline_from(c, e + 1)
    } else {
        seq![c[i]] + inline_from(c, i + 1)
    }
}

/// Inline math rendering of a whole text.
pub open spec fn inline_math(c: Seq<char>) -> Seq<char> {
    inline_from(c, 0)
}

fn find_inline_close(c: &[char], j: usize) -> (r: Option<usize>)
    requires
        j >= 1,
    ensures
        match r {
            Some(k) => inline_close(c@, j as int) == Some(k as int),
            None => inline_close(c@, j as int) is None,
        },
{
    let n = c.len();
    let mut k = j;
    while k < n
        invariant
            1 <= j <= k,
            n == c@.len(),
            inline_close(c@, j as int) == inline_close(c@, k as int),
        decreases n - k,
    {
        if c[k] == '$' && c[k - 1] != '\\' && !is_whitespace(c[k - 1]) {
            return Some(k);
        }
        if c[k] == '\n' || c[k] == '<' {
            return None;
        }
        k = k + 1;
    }
    None
}

/// Wraps every inline formula `$...$` of `text` in a KaTeX placeholder.
pub fn process_inline_math(text: &[char]) -> (out: Vec<char>)
    ensures
        out@ == inline_math(text@),
{
    let n = text.len();
    let mut out: Vec<char> = Vec::new();
    let mut i: usize = 0;
    while i < n
        invariant
            i <= n == text@.len(),
            out@ + inline_from(text@, i as int) == inline_math(text@),
        decreases n - i,
    {
        if text[i] == '$' {
            let is_escaped = i > 0 && text[i - 1] == '\\';
            let next_is_digit = i + 1 < n && is_digit(text[i + 1]);
            let next_is_space = i + 1 < n && (is_whitespace(text[i + 1]) || text[i + 1] == '$');
            if !is_escaped && !next_is_digit && !next_is_space {
                let found_end = find_inline_close(text, i + 1);
                if let Some(end) = found_end {
                    proof {
                        lemma_inline_close_bounds(text@, i + 1);
                    }
                    let ghost before = out@;
                    push_str(&mut out, "<span class=\"katex-math-inline\" data-expr=\"");
                    escape_attribute(&mut out, text, i + 1, end);
                    push_str(&mut out, "\">$");
                    push_chars(&mut out, text, i + 1, end);
                    push_str(&mut out, "$</span>");
                    assert(out@ =~= before + inline_span(text@.subrange(i + 1, end as int)));
                    assert(before + inline_from(text@, i as int) =~= out@ + inline_from(
                        text@,
                        end + 1,
                    ));
                    i = end + 1;
                    continue ;
                }
            }
        }
        let ghost before = out@;
        out.push(text[i]);
        assert(before + inline_from(text@, i as int) =~= out@ + inline_from(text@, i + 1));
        i = i + 1;
    }
    assert(out@ =~= out@ + inline_from(text@, i as int));
    out
}

// ---------------------------------------------------------------------------
// Block math: `$$...$$`
// ---------------------------------------------------------------------------

/// The block formula delimiter `$$`.
pub open spec fn dollars() -> Seq<char> {
    seq!['$', '$']
}

/// The markup for a block formula `f`.
pub open spec fn block_div(f: Seq<char>) -> Seq<char> {
    "<div class=\"katex-math-block\" data-expr=\""@ + escape_attr(f) + "\">$$"@ + f
        + "$$</div>"@
}

/// Math rendering of a text outside code: block formulas `$$...$$` first,
/// inline formulas in the text between them. An unclosed `$$` stays as it is.
pub open spec fn math_text(t: Seq<char>) -> Seq<char>
    decreases t.len(),
{
    match find_from(t, dollars(), 0) {
        None => inline_math(t),
        Some(st) => {
            proof {
                lemma_find_from(t, dollars(), 0);
            }
            let after = t.subrange(st + 2, t.len() as int);
            match find_from(after, dollars(), 0) {
                Some(e) => {
                    proof {
                        lemma_find_from(after, dollars(), 0);
                    }
                    inline_math(t.subrange(0, st)) + block_div(after.subrange(0, e)) + math_text(
                        after.subrange(e + 2, after.len() as int),
                    )
                },
                None => inline_math(t.subrange(0, st)) + "$$"@ + math_text(after),
            }
        },
    }
}

fn subvec(s: &[char], from: usize, to: usize) -> (r: Vec<char>)
    requires
        from <= to <= s@.len(),
    ensures
        r@ == s@.subrange(from as int, to as int),
{
    let mut r: Vec<char> = Vec::new();
    push_chars(&mut r, s, from, to);
    assert(r@ =~= s@.subrange(from as int, to as int));
    r
}

/// Renders the block and inline formulas of a text that lies outside code.
pub fn process_math_in_text(text: &[char]) -> (out: Vec<char>)
    ensures
        out@ == math_text(text@),
{
    let dd: Vec<char> = vec!['$', '$'];
    assert(dd@ =~= dollars());
    let mut out: Vec<char> = Vec::new();
    let mut rem: Vec<char> = subvec(text, 0, text.len());
    assert(text@.subrange(0, text@.len() as int) =~= text@);
    loop
        invariant
            dd@ == dollars(),
            out@ + math_text(rem@) == math_text(text@),
        decreases rem@.len(),
    {
        proof {
            lemma_find_from(rem@, dollars(), 0);
        }
        match find_chars(rem.as_slice(), dd.as_slice(), 0) {
            None => {
                let inl = process_inline_math(rem.as_slice());
                let ghost before = out@;
                push_chars(&mut out, inl.as_slice(), 0, inl.len());
                assert(inl@.subrange(0, inl@.len() as int) =~= inl@);
                return out;
            },
            Some(start) => {
                assert(occurs_at(rem@, start as int, dollars()));
                assert(dollars().len() == 2);
                assert(start + 2 <= rem@.len());
                assert(rem@.len() == rem.len());
                let prefix = subvec(rem.as_slice(), 0, start);
                let after = subvec(rem.as_slice(), start + 2, rem.len());
                let inl = process_inline_math(prefix.as_slice());
                push_chars(&mut out, inl.as_slice(), 0, inl.len());
                assert(inl@.subrange(0, inl@.len() as int) =~= inl@);
                proof {
                    lemma_find_from(after@, dollars(), 0);
                }
                match find_chars(after.as_slice(), dd.as_slice(), 0) {
                    Some(end) => {
                        push_str(&mut out, "<div class=\"katex-math-block\" data-expr=\"");
                        escape_attribute(&mut out, after.as_slice(), 0, end);
                        push_str(&mut out, "\">$$");
                        push_chars(&mut out, after.as_slice(), 0, end);
                        push_str(&mut out, "$$</div>");
                        let next = subvec(after.as_slice(), end + 2, after.len());
                        assert(out@ + math_text(next@) =~= math_text(text@));
                        rem = next;
                    },
                    None => {
                        push_str(&mut out, "$$");
                        assert(out@ + math_text(after@) =~= math_text(text@));
                        rem = after;
                    },
                }
            },
        }
    }
}


// ---------------------------------------------------------------------------
// Code regions: no math inside `<code ...>`/`<pre ...>` ... `</code>`/`</pre>`
// ---------------------------------------------------------------------------

pub open spec fn code_open_tag() -> Seq<char> {
    seq!['<', 'c', 'o', 'd', 'e']
}

pub open spec fn pre_open_tag() -> Seq<char> {
    seq!['<', 'p', 'r', 'e']
}

pub open spec fn code_close_tag() -> Seq<char> {
    seq!['<', '/', 'c', 'o', 'd', 'e', '>']
}

pub open spec fn pre_close_tag() -> Seq<char> {
    seq!['<', '/', 'p', 'r', 'e', '>']
}

pub open spec fn gt() -> Seq<char> {
    seq!['>']
}

/// A code region opens at `i` (and its tag is closed by a later `>`).
pub open spec fn code_opens_at(h: Seq<char>, i: int) -> bool {
    (occurs_at(h, i, code_open_tag()) || occurs_at(h, i, pre_open_tag())) && find_from(
        h,
        gt(),
        i,
    ) is Some
}

/// A code region closes at `i`.
pub open spec fn code_closes_at(h: Seq<char>, i: int) -> bool {
    (occurs_at(h, i, code_close_tag()) || occurs_at(h, i, pre_close_tag())) && find_from(
        h,
        gt(),
        i,
    ) is Some
}

/// Position just past the `>` that ends the tag starting at `i`.
pub open spec fn tag_end(h: Seq<char>, i: int) -> int {
    find_from(h, gt(), i)->0 + 1
}

pub proof fn lemma_tag_end(h: Seq<char>, i: int)
    requires
        0 <= i,
        find_from(h, gt(), i) is Some,
    ensures
        i < tag_end(h, i) <= h.len(),
{
    lemma_find_from(h, gt(), i);
}

/// What is left once the scan reaches the end: the pending text, with math
/// rendered unless it lies inside code.
pub open spec fn scan_tail(h: Seq<char>, last: int, in_code: bool) -> Seq<char> {
    if last < h.len() {
        if in_code {
            h.subrange(last, h.len() as int)
        } else {
            math_text(h.subrange(last, h.len() as int))
        }
    } else {
        Seq::empty()
    }
}

/// Math rendering of `h` from scan position `i`, with text pending since
/// `last`; `in_code` tells whether the scan is inside a code region.
pub open spec fn code_scan(h: Seq<char>, i: int, last: int, in_code: bool) -> Seq<char>
    decreases h.len() - i,
{
    if i < 0 || i >= h.len() {
        scan_tail(h, last, in_code)
    } else if !in_code && code_opens_at(h, i) {
        let e = tag_end(h, i);
        proof {
            lemma_tag_end(h, i);
        }
        math_text(h.subrange(last, i)) + h.subrange(i, e) + code_scan(h, e, e, true)
    } else if in_code && code_closes_at(h, i) {
        let e = tag_end(h, i);
        proof {
            lemma_tag_end(h, i);
        }
        h.subrange(last, e) + code_scan(h, e, e, false)
    } else {
        code_scan(h, i + 1, last, in_code)
    }
}

/// Math rendering of rendered HTML: block and inline formulas are turned into
/// KaTeX placeholders everywhere but inside code.
pub open spec fn render_math(h: Seq<char>) -> Seq<char> {
    code_scan(h, 0, 0, false)
}

struct TagPatterns {
    code_open: Vec<char>,
    pre_open: Vec<char>,
    code_close: Vec<char>,
    pre_close: Vec<char>,
    gt: Vec<char>,
}

impl TagPatterns {
    spec fn wf(&self) -> bool {
        &&& self.code_open@ == code_open_tag()
        &&& self.pre_open@ == pre_open_tag()
        &&& self.code_close@ == code_close_tag()
        &&& self.pre_close@ == pre_close_tag()
        &&& self.gt@ == gt()
    }

    fn new() -> (p: Self)
        ensures
            p.wf(),
    {
        let p = TagPatterns {
            code_open: vec!['<', 'c', 'o', 'd', 'e'],
            pre_open: vec!['<', 'p', 'r', 'e'],
            code_close: vec!['<', '/', 'c', 'o', 'd', 'e', '>'],
            pre_close: vec!['<', '/', 'p', 'r', 'e', '>'],
            gt: vec!['>'],
        };
        assert(p.code_open@ =~= code_open_tag());
        assert(p.pre_open@ =~= pre_open_tag());
        assert(p.code_close@ =~= code_close_tag());
        assert(p.pre_close@ =~= pre_close_tag());
        assert(p.gt@ =~= gt());
        p
    }
}

/// The end of the tag at `i` when a code region opens (`opening`) or closes
/// there.
fn code_tag_end(h: &[char], i: usize, opening: bool, pats: &TagPatterns) -> (r: Option<usize>)
    requires
        pats.wf(),
        i < h@.len(),
    ensures
        opening ==> (r is Some <==> code_opens_at(h@, i as int)),
        !opening ==> (r is Some <==> code_closes_at(h@, i as int)),
        r matches Some(e) ==> e == tag_end(h@, i as int),
{
    let starts = if opening {
        matches_at(h, i, pats.code_open.as_slice()) || matches_at(h, i, pats.pre_open.as_slice())
    } else {
        matches_at(h, i, pats.code_close.as_slice()) || matches_at(h, i, pats.pre_close.as_slice())
    };
    if !starts {
        return None;
    }
    proof {
        lemma_find_from(h@, gt(), i as int);
    }
    match find_chars(h, pats.gt.as_slice(), i) {
        Some(k) => {
            assert(occurs_at(h@, k as int, gt()));
            assert(gt().len() == 1);
            assert(h@.len() == h.len());
            Some(k + 1)
        },
        None => None,
    }
}

/// Turns `$$...$$` into block and `$...$` into inline KaTeX placeholders,
/// leaving everything inside `<code ...>`/`<pre ...>` regions as it is.
pub fn render_math_formulas(html: &[char]) -> (out: Vec<char>)
    ensures
        out@ == render_math(html@),
{
    let pats = TagPatterns::new();
    let n = html.len();
    let mut result: Vec<char> = Vec::new();
    let mut in_code = false;
    let mut last: usize = 0;
    let mut i: usize = 0;
    while i < n
        invariant
            pats.wf(),
            last <= i <= n == html@.len(),
            result@ + code_scan(html@, i as int, last as int, in_code) == render_math(html@),
        decreases n - i,
    {
        if !in_code {
            if let Some(end) = code_tag_end(html, i, true, &pats) {
                proof {
                    lemma_tag_end(html@, i as int);
                }
                let chunk = subvec(html, last, i);
                let rendered = process_math_in_text(chunk.as_slice());
                let ghost before = result@;
                push_chars(&mut result, rendered.as_slice(), 0, rendered.len());
                push_chars(&mut result, html, i, end);
                assert(rendered@.subrange(0, rendered@.len() as int) =~= rendered@);
                assert(before + code_scan(html@, i as int, last as int, in_code) =~= result@
                    + code_scan(html@, end as int, end as int, true));
                last = end;
                i = end;
                in_code = true;
                continue ;
            }
        } else {
            if let Some(end) = code_tag_end(html, i, false, &pats) {
                proof {
                    lemma_tag_end(html@, i as int);
                }
                let ghost before = result@;
                push_chars(&mut result, html, last, end);
                assert(before + code_scan(html@, i as int, last as int, in_code) =~= result@
                    + code_scan(html@, end as int, end as int, false));
                last = end;
                i = end;
                in_code = false;
                continue ;
            }
        }
        i = i + 1;
    }
    if last < n {
        let ghost before = result@;
        if in_code {
            push_chars(&mut result, html, last, n);
        } else {
            let chunk = subvec(html, last, n);
            let rendered = process_math_in_text(chunk.as_slice());
            push_chars(&mut result, rendered.as_slice(), 0, rendered.len());
            assert(rendered@.subrange(0, rendered@.len() as int) =~= rendered@);
        }
        assert(result@ =~= before + scan_tail(html@, last as int, in_code));
    } else {
        assert(result@ =~= result@ + scan_tail(html@, last as int, in_code));
    }
    result
}


// ---------------------------------------------------------------------------
// Attachment links
// ---------------------------------------------------------------------------

/// Links to uploaded attachments get `target="_blank" rel="external"
/// download`, so the client-side router leaves them to the browser.
pub open spec fn rewrite_links(h: Seq<char>) -> Seq<char> {
    replace_all(
        h,
        "<a href=\"/attachments/"@,
        "<a target=\"_blank\" rel=\"external\" download href=\"/attachments/"@,
    )
}

pub fn rewrite_attachment_links(html: &[char]) -> (out: Vec<char>)
    ensures
        out@ == rewrite_links(html@),
{
    let pat = chars_of("<a href=\"/attachments/");
    let rep = chars_of("<a target=\"_blank\" rel=\"external\" download href=\"/attachments/");
    proof {
        reveal_strlit("<a href=\"/attachments/");
    }
    replace_chars(html, pat.as_slice(), rep.as_slice())
}

// ---------------------------------------------------------------------------
// Markdown rendering
// ---------------------------------------------------------------------------

/// The extensions turned on when rendering notes and shared pages:
/// tables, strikethrough and task lists (pulldown-cmark's option bits).
pub const MARKDOWN_EXTENSIONS: u32 = 2 | 8 | 16;

// ---------------------------------------------------------------------------
// Raw HTML in the source
// ---------------------------------------------------------------------------

#[verifier::external_type_specification]
#[verifier::external_body]
pub struct ExEvent<'a>(Event<'a>);

#[verifier::external_type_specification]
#[verifier::external_body]
pub struct ExCowStr<'a>(CowStr<'a>);

/// The kind of a pulldown-cmark event, as far as the filter tells them
/// apart.
#[derive(Debug, Clone, Copy, PartialEq, Eq, Structural)]
pub enum EventKind {
    /// `Event::Html`: a raw HTML block of the source.
    Html,
    /// `Event::InlineHtml`: inline raw HTML of the source.
    InlineHtml,
    /// `Event::Text`.
    Text,
    /// Any other event.
    Other,
}

/// Which variant a pulldown-cmark event is.
pub uninterp spec fn event_kind(e: Event<'_>) -> EventKind;

/// The kind is raw HTML, which the HTML writer copies to the page as it is.
pub open spec fn is_raw_kind(k: EventKind) -> bool {
    k == EventKind::Html || k == EventKind::InlineHtml
}

/// A parser event as the renderer's filter sees it: raw HTML blocks and
/// inline HTML, text, and every other event.
pub enum MarkdownEvent<'a> {
    RawHtml(CowStr<'a>),
    InlineRawHtml(CowStr<'a>),
    Text(CowStr<'a>),
    Other(Event<'a>),
}

/// The event carries raw HTML from the source.
pub open spec fn is_raw_html(e: MarkdownEvent) -> bool {
    e is RawHtml || e is InlineRawHtml
}

/// What the filter makes of an event: raw HTML becomes text with the same
/// content (the HTML writer escapes text); everything else passes.
pub open spec fn neutralized<'a>(e: MarkdownEvent<'a>) -> MarkdownEvent<'a> {
    match e {
        MarkdownEvent::RawHtml(h) => MarkdownEvent::Text(h),
        MarkdownEvent::InlineRawHtml(h) => MarkdownEvent::Text(h),
        _ => e,
    }
}

/// Shared pages show other users' Markdown as HTML, so no raw HTML of the
/// source may pass: the filter turns it into text.
pub fn neutralize<'a>(e: MarkdownEvent<'a>) -> (r: MarkdownEvent<'a>)
    ensures
        r == neutralized(e),
        !is_raw_html(r),
{
    match e {
        MarkdownEvent::RawHtml(h) => MarkdownEvent::Text(h),
        MarkdownEvent::InlineRawHtml(h) => MarkdownEvent::Text(h),
        other => other,
    }
}

/// No event that leaves the filter is raw HTML, and raw HTML keeps its text.
pub proof fn lemma_no_raw_html_passes<'a>(e: MarkdownEvent<'a>)
    ensures
        !is_raw_html(neutralized(e)),
        e matches MarkdownEvent::RawHtml(h) ==> neutralized(e) == MarkdownEvent::Text(h),
        e matches MarkdownEvent::InlineRawHtml(h) ==> neutralized(e) == MarkdownEvent::Text(h),
        !is_raw_html(e) ==> neutralized(e) == e,
{
}

/// The kind of event a filter view stands for.
pub open spec fn kind_of(m: MarkdownEvent) -> EventKind {
    match m {
        MarkdownEvent::RawHtml(_) => EventKind::Html,
        MarkdownEvent::InlineRawHtml(_) => EventKind::InlineHtml,
        MarkdownEvent::Text(_) => EventKind::Text,
        MarkdownEvent::Other(e) => event_kind(e),
    }
}

/// pulldown-cmark `Event`, told apart into the filter's view: `Html` and
/// `InlineHtml` (raw HTML), `Text`, and the rest as they are. Stated: the
/// view stands for the event's kind, and what is left as `Other` is of no
/// kind the filter names.
#[verifier::external_body]
fn classify_event<'a>(e: Event<'a>) -> (r: MarkdownEvent<'a>)
    ensures
        kind_of(r) == event_kind(e),
        r matches MarkdownEvent::Other(x) ==> x == e && event_kind(e) == EventKind::Other,
{
    match e {
        Event::Html(h) => MarkdownEvent::RawHtml(h),
        Event::InlineHtml(h) => MarkdownEvent::InlineRawHtml(h),
        Event::Text(t) => MarkdownEvent::Text(t),
        other => MarkdownEvent::Other(other),
    }
}

/// The filter's view back as a pulldown-cmark `Event`, of the kind the
/// view stands for.
#[verifier::external_body]
fn event_of<'a>(e: MarkdownEvent<'a>) -> (r: Event<'a>)
    ensures
        event_kind(r) == kind_of(e),
{
    match e {
        MarkdownEvent::RawHtml(h) => Event::Html(h),
        MarkdownEvent::InlineRawHtml(h) => Event::InlineHtml(h),
        MarkdownEvent::Text(t) => Event::Text(t),
        MarkdownEvent::Other(other) => other,
    }
}

/// One parser event through the filter: never raw HTML on the way out, and
/// every event but raw HTML keeps its kind.
fn safe_event<'a>(e: Event<'a>) -> (r: Event<'a>)
    ensures
        !is_raw_kind(event_kind(r)),
        !is_raw_kind(event_kind(e)) ==> event_kind(r) == event_kind(e),
{
    event_of(neutralize(classify_event(e)))
}

// ---------------------------------------------------------------------------
// Markdown rendering
// ---------------------------------------------------------------------------

/// The HTML that pulldown-cmark's `html::push_html` writes for the events
/// its parser gives for `src` with the option bits `options`, each event
/// passed through `safe_event`.
pub uninterp spec fn commonmark_html(src: Seq<char>, options: u32) -> Seq<char>;

/// The opening of a `<script` tag.
pub open spec fn script_open() -> Seq<char> {
    seq!['<', 's', 'c', 'r', 'i', 'p', 't']
}

/// The opening of an `<iframe` tag.
pub open spec fn iframe_open() -> Seq<char> {
    seq!['<', 'i', 'f', 'r', 'a', 'm', 'e']
}

/// No `<script` or `<iframe` tag opens anywhere in `h`.
pub open spec fn no_raw_tags(h: Seq<char>) -> bool {
    !contains_seq(h, script_open()) && !contains_seq(h, iframe_open())
}

/// pulldown-cmark `Parser::new_ext` followed by `html::push_html`, with every
/// event handed through the library's `safe_event` on the way. The contract
/// names the result, which depends on the source and the option bits alone.
/// It states one fact of it: no `<script` or `<iframe` tag opens in it. The
/// HTML writer copies only `Html` and `InlineHtml` events unescaped, and
/// `safe_event` lets none of them through; every other piece of the source
/// (text, code, link and image targets, titles, code block languages) it
/// writes escaped, with `<` as `&lt;` or `%3C`, and its own tags are none of
/// these two. What else the HTML holds is not stated.
#[verifier::external_body]
fn commonmark_to_html(src: &str, options: u32) -> (html: String)
    ensures
        html@ == commonmark_html(src@, options),
        no_raw_tags(html@),
{
    let parser = Parser::new_ext(src, Options::from_bits_truncate(options)).map(safe_event);
    let mut out = String::new();
    pulldown_cmark::html::push_html(&mut out, parser);
    out
}

/// What is done to the HTML that the Markdown renderer produced.
pub open spec fn postprocess(h: Seq<char>) -> Seq<char> {
    render_math(rewrite_links(h))
}

/// The page HTML for the Markdown source `src`.
pub open spec fn rendered_markdown(src: Seq<char>) -> Seq<char> {
    postprocess(commonmark_html(src, MARKDOWN_EXTENSIONS))
}

/// Rewrites attachment links and renders math in HTML that the Markdown
/// renderer produced.
pub fn postprocess_html(html: &str) -> (out: String)
    ensures
        out@ == postprocess(html@),
{
    let h = chars_of(html);
    let linked = rewrite_attachment_links(h.as_slice());
    let rendered = render_math_formulas(linked.as_slice());
    string_from_chars(rendered.as_slice())
}

/// Renders Markdown to HTML with math support (`$...$` inline, `$$...$$`
/// block). Raw HTML in the source is shown as text, never passed through
/// (`safe_event`): shared pages show other users' Markdown as HTML.
pub fn render_markdown(src: &str) -> (html: String)
    ensures
        html@ == rendered_markdown(src@),
        no_raw_tags(html@),
{
    let raw = commonmark_to_html(src, MARKDOWN_EXTENSIONS);
    proof {
        lemma_postprocess_no_raw_tags(raw@);
    }
    postprocess_html(raw.as_str())
}

} // verus!

verus! {

/// A character that could end or break out of a double-quoted attribute.
pub open spec fn attr_breaking(c: char) -> bool {
    c == '"' || c == '<' || c == '>'
}

/// An escaped attribute value never holds a quote or an angle bracket, so a
/// formula cannot end the `data-expr` attribute or open a tag.
pub proof fn lemma_escape_attr_safe(s: Seq<char>)
    ensures
        forall|i: int| 0 <= i < escape_attr(s).len() ==> !attr_breaking(#[trigger] escape_attr(s)[i]),
    decreases s.len(),
{
    if s.len() > 0 {
        lemma_escape_attr_safe(s.drop_last());
        reveal_strlit("&amp;");
        reveal_strlit("&quot;");
        reveal_strlit("&lt;");
        reveal_strlit("&gt;");
        let a = escape_attr(s.drop_last());
        let b = escape_attr_char(s.last());
        assert forall|i: int| 0 <= i < b.len() implies !attr_breaking(#[trigger] b[i]) by {}
        assert forall|i: int| 0 <= i < escape_attr(s).len() implies !attr_breaking(
            #[trigger] escape_attr(s)[i],
        ) by {
            if i < a.len() {
                assert(escape_attr(s)[i] == a[i]);
            } else {
                assert(escape_attr(s)[i] == b[i - a.len()]);
            }
        }
    }
}

/// `s` has no dollar sign.
pub open spec fn dollar_free(s: Seq<char>) -> bool {
    forall|i: int| 0 <= i < s.len() ==> #[trigger] s[i] != '$'
}

proof fn lemma_inline_from_dollar_free(c: Seq<char>, i: int)
    requires
        dollar_free(c),
        0 <= i <= c.len(),
    ensures
        inline_from(c, i) == c.subrange(i, c.len() as int),
    decreases c.len() - i,
{
    if i < c.len() {
        lemma_inline_from_dollar_free(c, i + 1);
        assert(seq![c[i]] + c.subrange(i + 1, c.len() as int) =~= c.subrange(i, c.len() as int));
    } else {
        assert(c.subrange(i, c.len() as int) =~= Seq::<char>::empty());
    }
}

/// Text without a dollar sign goes through math rendering unchanged.
pub proof fn lemma_math_text_dollar_free(t: Seq<char>)
    requires
        dollar_free(t),
    ensures
        math_text(t) == t,
{
    lemma_find_from(t, dollars(), 0);
    if find_from(t, dollars(), 0) is Some {
        let k = find_from(t, dollars(), 0)->0;
        assert(t.subrange(k, k + 2)[0] == t[k]);
    }
    lemma_inline_from_dollar_free(t, 0);
    assert(t.subrange(0, t.len() as int) =~= t);
}

proof fn lemma_code_scan_dollar_free(h: Seq<char>, i: int, last: int, in_code: bool)
    requires
        dollar_free(h),
        0 <= last <= i <= h.len(),
    ensures
        code_scan(h, i, last, in_code) == h.subrange(last, h.len() as int),
    decreases h.len() - i,
{
    if i >= h.len() {
        if last < h.len() && !in_code {
            lemma_math_text_dollar_free(h.subrange(last, h.len() as int));
        }
        if last == h.len() {
            assert(h.subrange(last, h.len() as int) =~= Seq::<char>::empty());
        }
    } else if !in_code && code_opens_at(h, i) {
        let e = tag_end(h, i);
        lemma_tag_end(h, i);
        lemma_code_scan_dollar_free(h, e, e, true);
        lemma_math_text_dollar_free(h.subrange(last, i));
        assert(h.subrange(last, i) + h.subrange(i, e) + h.subrange(e, h.len() as int)
            =~= h.subrange(last, h.len() as int));
    } else if in_code && code_closes_at(h, i) {
        let e = tag_end(h, i);
        lemma_tag_end(h, i);
        lemma_code_scan_dollar_free(h, e, e, false);
        assert(h.subrange(last, e) + h.subrange(e, h.len() as int) =~= h.subrange(
            last,
            h.len() as int,
        ));
    } else {
        lemma_code_scan_dollar_free(h, i + 1, last, in_code);
    }
}

/// HTML without a dollar sign goes through math rendering unchanged.
pub proof fn lemma_render_math_dollar_free(h: Seq<char>)
    requires
        dollar_free(h),
    ensures
        render_math(h) == h,
{
    lemma_code_scan_dollar_free(h, 0, 0, false);
    assert(h.subrange(0, h.len() as int) =~= h);
}

proof fn lemma_inline_close_runs(c: Seq<char>, lo: int, n: int, j: int)
    requires
        1 <= lo <= j <= n < c.len(),
        c[n] == '$',
        c[n - 1] != '\\' && !is_white_space(c[n - 1]),
        forall|k: int| lo <= k < n ==> #[trigger] c[k] != '$' && c[k] != '\n' && c[k] != '<',
    ensures
        inline_close(c, j) == Some(n),
    decreases n - j,
{
    if j < n {
        lemma_inline_close_runs(c, lo, n, j + 1);
    }
}

proof fn lemma_inline_from_plain(c: Seq<char>, p: int, i: int)
    requires
        0 <= i <= p <= c.len(),
        forall|k: int| 0 <= k < p ==> #[trigger] c[k] != '$',
    ensures
        inline_from(c, i) == c.subrange(i, p) + inline_from(c, p),
    decreases p - i,
{
    if i < p {
        lemma_inline_from_plain(c, p, i + 1);
        assert(c.subrange(i, p) =~= seq![c[i]] + c.subrange(i + 1, p));
    } else {
        assert(c.subrange(i, p) + inline_from(c, p) =~= inline_from(c, p));
    }
}

/// An inline formula may hold any text but `$`, a line break or `<`, spaces
/// included: after a text `t` without `$` that does not end with a
/// backslash, `$f$` becomes the KaTeX placeholder of `f` and `t` stays as it
/// is, when `f` is not empty, does not start with white space or a digit,
/// and does not end with white space or a backslash.
pub proof fn lemma_inline_formula(t: Seq<char>, f: Seq<char>)
    requires
        forall|k: int| 0 <= k < t.len() ==> #[trigger] t[k] != '$',
        t.len() > 0 ==> t.last() != '\\',
        f.len() > 0,
        !is_white_space(f[0]) && !is_ascii_digit(f[0]),
        !is_white_space(f.last()) && f.last() != '\\',
        forall|k: int| 0 <= k < f.len() ==> #[trigger] f[k] != '$' && f[k] != '\n' && f[k] != '<',
    ensures
        inline_math(t + seq!['$'] + f + seq!['$']) == t + inline_span(f),
{
    let c = t + seq!['$'] + f + seq!['$'];
    let p = t.len() as int;
    let n = p + f.len() + 1;
    assert forall|k: int| 0 <= k < p implies #[trigger] c[k] != '$' by {
        assert(c[k] == t[k]);
    }
    lemma_inline_from_plain(c, p, 0);
    assert(c.subrange(0, p) =~= t);
    assert forall|k: int| p + 1 <= k < n implies #[trigger] c[k] != '$' && c[k] != '\n' && c[k]
        != '<' by {
        assert(c[k] == f[k - p - 1]);
    }
    assert(c[n - 1] == f.last());
    assert(c[n] == '$');
    lemma_inline_close_runs(c, p + 1, n, p + 1);
    assert(c[p + 1] == f[0]);
    assert(c[p] == '$');
    if p > 0 {
        assert(c[p - 1] == t.last());
    }
    assert(opens_inline(c, p));
    assert(c.subrange(p + 1, n) =~= f);
    assert(inline_from(c, n + 1) == Seq::<char>::empty());
    assert(inline_span(f) + Seq::<char>::empty() =~= inline_span(f));
}

proof fn lemma_find_first(s: Seq<char>, pat: Seq<char>, i: int, p: int)
    requires
        0 <= i <= p,
        occurs_at(s, p, pat),
        forall|m: int| i <= m < p ==> !#[trigger] occurs_at(s, m, pat),
    ensures
        find_from(s, pat, i) == Some(p),
    decreases p - i,
{
    if i < p {
        lemma_find_first(s, pat, i + 1, p);
    }
}

/// A block formula: after a text `t` without `$`, `$$f$$` with `f` without
/// `$` becomes the KaTeX block of `f` and `t` stays as it is.
pub proof fn lemma_block_formula(t: Seq<char>, f: Seq<char>)
    requires
        dollar_free(t),
        dollar_free(f),
    ensures
        math_text(t + dollars() + f + dollars()) == t + block_div(f),
{
    let c = t + dollars() + f + dollars();
    let p = t.len() as int;
    assert forall|m: int| 0 <= m < p implies !#[trigger] occurs_at(c, m, dollars()) by {
        if occurs_at(c, m, dollars()) {
            assert(c.subrange(m, m + 2)[0] == c[m]);
            assert(c[m] == t[m]);
        }
    }
    assert(c.subrange(p, p + 2) =~= dollars());
    lemma_find_first(c, dollars(), 0, p);
    let after = c.subrange(p + 2, c.len() as int);
    assert(after =~= f + dollars());
    let e = f.len() as int;
    assert forall|m: int| 0 <= m < e implies !#[trigger] occurs_at(after, m, dollars()) by {
        if occurs_at(after, m, dollars()) {
            assert(after.subrange(m, m + 2)[0] == after[m]);
            assert(after[m] == f[m]);
        }
    }
    assert(after.subrange(e, e + 2) =~= dollars());
    lemma_find_first(after, dollars(), 0, e);
    assert(c.subrange(0, p) =~= t);
    assert(after.subrange(0, e) =~= f);
    let rest = after.subrange(e + 2, after.len() as int);
    assert(rest =~= Seq::<char>::empty());
    lemma_math_text_dollar_free(t);
    lemma_math_text_dollar_free(rest);
    assert(dollar_free(t));
    assert(inline_math(t) == t) by {
        lemma_inline_from_dollar_free(t, 0);
        assert(t.subrange(0, t.len() as int) =~= t);
    }
    assert(t + block_div(f) + Seq::<char>::empty() =~= t + block_div(f));
}

} // verus!
