//! Post-processing never opens a `<script` or `<iframe` tag that was not
//! already in the HTML: the math placeholders and the attachment link
//! rewrite only add markup of their own, and no tag opening can run across
//! the seam between a piece of the input and such markup.

use vstd::prelude::*;

use crate::markdown::{
    block_div, code_closes_at, code_opens_at, code_scan, dollars, escape_attr, gt,
    iframe_open, inline_close, inline_from, inline_math, inline_span, lemma_escape_attr_safe,
    lemma_inline_close_bounds, lemma_tag_end, math_text, no_raw_tags, opens_inline,
    postprocess, rewrite_links, script_open, tag_end,
};
use crate::text::{contains_seq, find_from, lemma_find_from, occurs_at, replace_from};

verus! {

/// One of the two tag openings that must never come from the renderer.
pub open spec fn banned_opening(p: Seq<char>) -> bool {
    p == script_open() || p == iframe_open()
}

/// A letter that follows `<` in one of the two tag openings.
pub open spec fn tag_letter(c: char) -> bool {
    c == 's' || c == 'c' || c == 'r' || c == 'i' || c == 'p' || c == 't' || c == 'f' || c == 'a'
        || c == 'm' || c == 'e'
}

/// `p` occurs nowhere in `s`.
pub open spec fn free_of(s: Seq<char>, p: Seq<char>) -> bool {
    forall|i: int| !#[trigger] occurs_at(s, i, p)
}

/// No tag opening can run across the seam of `a + b`: `b` starts with no
/// letter of one, or `a` ends with neither `<` nor such a letter.
pub open spec fn seam_ok(a: Seq<char>, b: Seq<char>) -> bool {
    a.len() == 0 || b.len() == 0 || !tag_letter(b[0]) || (!tag_letter(a.last()) && a.last()
        != '<')
}

proof fn lemma_opening_shape(p: Seq<char>)
    requires
        banned_opening(p),
    ensures
        p.len() == 7,
        p[0] == '<',
        forall|k: int| 1 <= k < 7 ==> tag_letter(#[trigger] p[k]),
{
}

proof fn lemma_free_concat(a: Seq<char>, b: Seq<char>, p: Seq<char>)
    requires
        banned_opening(p),
        free_of(a, p),
        free_of(b, p),
        seam_ok(a, b),
    ensures
        free_of(a + b, p),
{
    lemma_opening_shape(p);
    let s = a + b;
    let n = a.len() as int;
    assert forall|i: int| !#[trigger] occurs_at(s, i, p) by {
        if occurs_at(s, i, p) {
            if i + 7 <= n {
                assert(a.subrange(i, i + 7) =~= s.subrange(i, i + 7));
                assert(occurs_at(a, i, p));
            } else if i >= n {
                assert(b.subrange(i - n, i - n + 7) =~= s.subrange(i, i + 7));
                assert(occurs_at(b, i - n, p));
            } else {
                assert(s.subrange(i, i + 7)[n - i] == p[n - i]);
                assert(s[n] == b[0]);
                assert(tag_letter(b[0]));
                assert(s.subrange(i, i + 7)[n - 1 - i] == p[n - 1 - i]);
                assert(s[n - 1] == a.last());
                if n - 1 - i > 0 {
                    assert(tag_letter(p[n - 1 - i]));
                }
            }
        }
    }
}

proof fn lemma_free_sub(s: Seq<char>, x: int, y: int, p: Seq<char>)
    requires
        banned_opening(p),
        free_of(s, p),
        0 <= x <= y <= s.len(),
    ensures
        free_of(s.subrange(x, y), p),
{
    let t = s.subrange(x, y);
    assert forall|i: int| !#[trigger] occurs_at(t, i, p) by {
        if occurs_at(t, i, p) {
            assert(t.subrange(i, i + p.len()) =~= s.subrange(x + i, x + i + p.len()));
            assert(occurs_at(s, x + i, p));
        }
    }
}

proof fn lemma_free_without_lt(s: Seq<char>, p: Seq<char>)
    requires
        banned_opening(p),
        forall|i: int| 0 <= i < s.len() ==> #[trigger] s[i] != '<',
    ensures
        free_of(s, p),
{
    assert forall|i: int| !#[trigger] occurs_at(s, i, p) by {
        if occurs_at(s, i, p) {
            assert(s.subrange(i, i + 7)[0] == p[0]);
        }
    }
}

proof fn lemma_escape_attr_free(f: Seq<char>, p: Seq<char>)
    requires
        banned_opening(p),
    ensures
        free_of(escape_attr(f), p),
{
    lemma_escape_attr_safe(f);
    lemma_free_without_lt(escape_attr(f), p);
}

/// Every `<` of `s` is followed by two characters that begin neither tag
/// opening after the `<`.
pub open spec fn lt_harmless(s: Seq<char>) -> bool {
    forall|i: int|
        0 <= i < s.len() && #[trigger] s[i] == '<' ==> i + 2 < s.len() && !(s[i + 1] == 's'
            && s[i + 2] == 'c') && !(s[i + 1] == 'i' && s[i + 2] == 'f')
}

proof fn lemma_free_lt_harmless(s: Seq<char>, p: Seq<char>)
    requires
        banned_opening(p),
        lt_harmless(s),
    ensures
        free_of(s, p),
{
    assert forall|i: int| !#[trigger] occurs_at(s, i, p) by {
        if occurs_at(s, i, p) {
            let w = s.subrange(i, i + 7);
            assert(w[0] == s[i] && w[1] == s[i + 1] && w[2] == s[i + 2]);
        }
    }
}

proof fn lemma_markup_free(p: Seq<char>)
    requires
        banned_opening(p),
    ensures
        free_of("<span class=\"katex-math-inline\" data-expr=\""@, p),
        free_of("\">$"@, p),
        free_of("$</span>"@, p),
        free_of("<div class=\"katex-math-block\" data-expr=\""@, p),
        free_of("\">$$"@, p),
        free_of("$$</div>"@, p),
        free_of("$$"@, p),
        free_of("<a target=\"_blank\" rel=\"external\" download href=\"/attachments/"@, p),
{
    reveal_strlit("<span class=\"katex-math-inline\" data-expr=\"");
    reveal_strlit("\">$");
    reveal_strlit("$</span>");
    reveal_strlit("<div class=\"katex-math-block\" data-expr=\"");
    reveal_strlit("\">$$");
    reveal_strlit("$$</div>");
    reveal_strlit("$$");
    reveal_strlit("<a target=\"_blank\" rel=\"external\" download href=\"/attachments/");
    lemma_free_lt_harmless("<span class=\"katex-math-inline\" data-expr=\""@, p);
    lemma_free_lt_harmless("\">$"@, p);
    lemma_free_lt_harmless("$</span>"@, p);
    lemma_free_lt_harmless("<div class=\"katex-math-block\" data-expr=\""@, p);
    lemma_free_lt_harmless("\">$$"@, p);
    lemma_free_lt_harmless("$$</div>"@, p);
    lemma_free_lt_harmless("$$"@, p);
    lemma_free_lt_harmless(
        "<a target=\"_blank\" rel=\"external\" download href=\"/attachments/"@,
        p,
    );
}

proof fn lemma_markup_piece_free(f: Seq<char>, open: Seq<char>, mid: Seq<char>, close: Seq<char>, p: Seq<char>)
    requires
        banned_opening(p),
        free_of(f, p),
        free_of(open, p),
        free_of(mid, p),
        free_of(close, p),
        open.len() > 0 && open.last() == '"',
        mid.len() > 0 && mid[0] == '"' && mid.last() == '$',
        close.len() > 0 && close[0] == '$',
    ensures
        free_of(open + escape_attr(f) + mid + f + close, p),
{
    lemma_escape_attr_free(f, p);
    let e = escape_attr(f);
    lemma_free_concat(open, e, p);
    let a = open + e;
    if e.len() > 0 {
        assert(a.last() == e.last());
    } else {
        assert(a =~= open);
    }
    lemma_free_concat(a, mid, p);
    let b = a + mid;
    assert(b.last() == mid.last());
    lemma_free_concat(b, f, p);
    let c = b + f;
    lemma_free_concat(c, close, p);
}

proof fn lemma_inline_span_free(f: Seq<char>, p: Seq<char>)
    requires
        banned_opening(p),
        free_of(f, p),
    ensures
        free_of(inline_span(f), p),
        inline_span(f).len() > 0,
        inline_span(f)[0] == '<',
        inline_span(f).last() == '>',
{
    lemma_markup_free(p);
    reveal_strlit("<span class=\"katex-math-inline\" data-expr=\"");
    reveal_strlit("\">$");
    reveal_strlit("$</span>");
    lemma_markup_piece_free(
        f,
        "<span class=\"katex-math-inline\" data-expr=\""@,
        "\">$"@,
        "$</span>"@,
        p,
    );
}

proof fn lemma_block_div_free(f: Seq<char>, p: Seq<char>)
    requires
        banned_opening(p),
        free_of(f, p),
    ensures
        free_of(block_div(f), p),
        block_div(f).len() > 0,
        block_div(f)[0] == '<',
        block_div(f).last() == '>',
{
    lemma_markup_free(p);
    reveal_strlit("<div class=\"katex-math-block\" data-expr=\"");
    reveal_strlit("\">$$");
    reveal_strlit("$$</div>");
    lemma_markup_piece_free(
        f,
        "<div class=\"katex-math-block\" data-expr=\""@,
        "\">$$"@,
        "$$</div>"@,
        p,
    );
}

/// Inline math rendering, from `i` on, after the untouched text `c[k..i]`.
proof fn lemma_inline_from_free(c: Seq<char>, k: int, i: int, p: Seq<char>)
    requires
        banned_opening(p),
        free_of(c, p),
        0 <= k <= i <= c.len(),
    ensures
        free_of(c.subrange(k, i) + inline_from(c, i), p),
    decreases c.len() - i,
{
    lemma_free_sub(c, k, i, p);
    if i >= c.len() {
        assert(c.subrange(k, i) + inline_from(c, i) =~= c.subrange(k, i));
    } else if opens_inline(c, i) && inline_close(c, i + 1) is Some {
        let e = inline_close(c, i + 1)->0;
        lemma_inline_close_bounds(c, i + 1);
        lemma_free_sub(c, i + 1, e, p);
        lemma_inline_span_free(c.subrange(i + 1, e), p);
        let span = inline_span(c.subrange(i + 1, e));
        lemma_inline_from_free(c, e + 1, e + 1, p);
        let rest = inline_from(c, e + 1);
        assert(c.subrange(e + 1, e + 1) + rest =~= rest);
        lemma_free_concat(c.subrange(k, i), span, p);
        let a = c.subrange(k, i) + span;
        assert(a.last() == span.last());
        lemma_free_concat(a, rest, p);
        assert(c.subrange(k, i) + inline_from(c, i) =~= a + rest);
    } else {
        lemma_inline_from_free(c, k, i + 1, p);
        assert(c.subrange(k, i) + inline_from(c, i) =~= c.subrange(k, i + 1) + inline_from(
            c,
            i + 1,
        ));
    }
}

proof fn lemma_inline_math_free(c: Seq<char>, p: Seq<char>)
    requires
        banned_opening(p),
        free_of(c, p),
    ensures
        free_of(inline_math(c), p),
{
    lemma_inline_from_free(c, 0, 0, p);
    assert(c.subrange(0, 0) + inline_from(c, 0) =~= inline_math(c));
}

proof fn lemma_math_text_free(t: Seq<char>, p: Seq<char>)
    requires
        banned_opening(p),
        free_of(t, p),
    ensures
        free_of(math_text(t), p),
    decreases t.len(),
{
    lemma_markup_free(p);
    reveal_strlit("$$");
    lemma_find_from(t, dollars(), 0);
    match find_from(t, dollars(), 0) {
        None => {
            lemma_inline_math_free(t, p);
        },
        Some(st) => {
            lemma_free_sub(t, 0, st, p);
            lemma_inline_math_free(t.subrange(0, st), p);
            let head = inline_math(t.subrange(0, st));
            lemma_free_sub(t, st + 2, t.len() as int, p);
            let after = t.subrange(st + 2, t.len() as int);
            lemma_find_from(after, dollars(), 0);
            match find_from(after, dollars(), 0) {
                Some(e) => {
                    lemma_free_sub(after, 0, e, p);
                    lemma_block_div_free(after.subrange(0, e), p);
                    let div = block_div(after.subrange(0, e));
                    lemma_free_sub(after, e + 2, after.len() as int, p);
                    lemma_math_text_free(after.subrange(e + 2, after.len() as int), p);
                    lemma_free_concat(head, div, p);
                    let a = head + div;
                    assert(a.last() == div.last());
                    lemma_free_concat(a, math_text(after.subrange(e + 2, after.len() as int)), p);
                },
                None => {
                    lemma_math_text_free(after, p);
                    lemma_free_concat(head, "$$"@, p);
                    let a = head + "$$"@;
                    assert(a.last() == '$');
                    lemma_free_concat(a, math_text(after), p);
                },
            }
        },
    }
}

proof fn lemma_tag_end_gt(h: Seq<char>, i: int)
    requires
        0 <= i,
        find_from(h, gt(), i) is Some,
    ensures
        i < tag_end(h, i) <= h.len(),
        h[tag_end(h, i) - 1] == '>',
{
    lemma_tag_end(h, i);
    lemma_find_from(h, gt(), i);
    let k = find_from(h, gt(), i)->0;
    assert(h.subrange(k, k + 1)[0] == h[k]);
}

proof fn lemma_code_scan_free(h: Seq<char>, i: int, last: int, in_code: bool, p: Seq<char>)
    requires
        banned_opening(p),
        free_of(h, p),
        0 <= last <= i <= h.len(),
    ensures
        free_of(code_scan(h, i, last, in_code), p),
    decreases h.len() - i,
{
    if i >= h.len() {
        if last < h.len() {
            lemma_free_sub(h, last, h.len() as int, p);
            if !in_code {
                lemma_math_text_free(h.subrange(last, h.len() as int), p);
            }
        } else {
            assert(free_of(Seq::<char>::empty(), p));
        }
    } else if !in_code && code_opens_at(h, i) {
        let e = tag_end(h, i);
        lemma_tag_end_gt(h, i);
        lemma_code_scan_free(h, e, e, true, p);
        lemma_free_sub(h, last, i, p);
        lemma_math_text_free(h.subrange(last, i), p);
        lemma_free_sub(h, i, e, p);
        let tag = h.subrange(i, e);
        assert(tag[0] == '<') by {
            assert(h.subrange(i, i + 4)[0] == h[i]);
        }
        lemma_free_concat(math_text(h.subrange(last, i)), tag, p);
        let a = math_text(h.subrange(last, i)) + tag;
        assert(a.last() == '>');
        lemma_free_concat(a, code_scan(h, e, e, true), p);
    } else if in_code && code_closes_at(h, i) {
        let e = tag_end(h, i);
        lemma_tag_end_gt(h, i);
        lemma_code_scan_free(h, e, e, false, p);
        lemma_free_sub(h, last, e, p);
        assert(h.subrange(last, e).last() == '>');
        lemma_free_concat(h.subrange(last, e), code_scan(h, e, e, false), p);
    } else {
        lemma_code_scan_free(h, i + 1, last, in_code, p);
    }
}

proof fn lemma_replace_from_free(
    s: Seq<char>,
    pat: Seq<char>,
    rep: Seq<char>,
    k: int,
    i: int,
    p: Seq<char>,
)
    requires
        banned_opening(p),
        free_of(s, p),
        free_of(rep, p),
        rep.len() > 0,
        rep[0] == '<',
        !tag_letter(rep.last()) && rep.last() != '<',
        0 <= k <= i <= s.len(),
    ensures
        free_of(s.subrange(k, i) + replace_from(s, pat, rep, i), p),
    decreases s.len() - i,
{
    lemma_free_sub(s, k, i, p);
    if i >= s.len() {
        assert(s.subrange(k, i) + replace_from(s, pat, rep, i) =~= s.subrange(k, i));
    } else if pat.len() > 0 && occurs_at(s, i, pat) {
        let j = i + pat.len();
        lemma_replace_from_free(s, pat, rep, j, j, p);
        let rest = replace_from(s, pat, rep, j);
        assert(s.subrange(j, j) + rest =~= rest);
        lemma_free_concat(s.subrange(k, i), rep, p);
        let a = s.subrange(k, i) + rep;
        assert(a.last() == rep.last());
        lemma_free_concat(a, rest, p);
        assert(s.subrange(k, i) + replace_from(s, pat, rep, i) =~= a + rest);
    } else {
        lemma_replace_from_free(s, pat, rep, k, i + 1, p);
        assert(s.subrange(k, i) + replace_from(s, pat, rep, i) =~= s.subrange(k, i + 1)
            + replace_from(s, pat, rep, i + 1));
    }
}

proof fn lemma_postprocess_free(h: Seq<char>, p: Seq<char>)
    requires
        banned_opening(p),
        free_of(h, p),
    ensures
        free_of(postprocess(h), p),
{
    lemma_markup_free(p);
    let rep = "<a target=\"_blank\" rel=\"external\" download href=\"/attachments/"@;
    reveal_strlit("<a target=\"_blank\" rel=\"external\" download href=\"/attachments/");
    lemma_replace_from_free(h, "<a href=\"/attachments/"@, rep, 0, 0, p);
    let linked = rewrite_links(h);
    assert(h.subrange(0, 0) + replace_from(h, "<a href=\"/attachments/"@, rep, 0) =~= linked);
    lemma_code_scan_free(linked, 0, 0, false, p);
}

proof fn lemma_free_iff(s: Seq<char>, p: Seq<char>)
    ensures
        free_of(s, p) <==> !contains_seq(s, p),
{
}

/// Post-processing opens no `<script` or `<iframe` tag: where the HTML holds
/// none, the page holds none either.
pub proof fn lemma_postprocess_no_raw_tags(h: Seq<char>)
    requires
        no_raw_tags(h),
    ensures
        no_raw_tags(postprocess(h)),
{
    lemma_free_iff(h, script_open());
    lemma_free_iff(h, iframe_open());
    lemma_postprocess_free(h, script_open());
    lemma_postprocess_free(h, iframe_open());
    lemma_free_iff(postprocess(h), script_open());
    lemma_free_iff(postprocess(h), iframe_open());
}

} // verus!
