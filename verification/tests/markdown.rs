use pulldown_cmark::CowStr;
use syncnote::markdown::{neutralize, MarkdownEvent};
use syncnote::markdown::{
    escape_attribute, postprocess_html, process_inline_math, process_math_in_text,
    render_markdown, render_math_formulas, rewrite_attachment_links,
};

fn chars(s: &str) -> Vec<char> {
    s.chars().collect()
}

fn text(v: Vec<char>) -> String {
    v.into_iter().collect()
}

fn inline(s: &str) -> String {
    text(process_inline_math(&chars(s)))
}

fn math(s: &str) -> String {
    text(process_math_in_text(&chars(s)))
}

#[test]
fn escape_attribute_escapes_quotes_and_brackets() {
    let mut out = Vec::new();
    let v = chars("a<b & \"c\">");
    escape_attribute(&mut out, &v, 0, v.len());
    assert_eq!(text(out), "a&lt;b &amp; &quot;c&quot;&gt;");
}

#[test]
fn inline_formula_becomes_placeholder() {
    assert_eq!(
        inline("a $x^2$ b"),
        "a <span class=\"katex-math-inline\" data-expr=\"x^2\">$x^2$</span> b"
    );
}

#[test]
fn inline_formula_expression_is_escaped_in_attribute() {
    assert_eq!(
        inline("$a<b$"),
        "$a<b$",
        "a `<` ends the search for the closing dollar"
    );
    assert_eq!(
        inline("$a&\"b$"),
        "<span class=\"katex-math-inline\" data-expr=\"a&amp;&quot;b\">$a&\"b$</span>"
    );
}

#[test]
fn prices_and_escaped_dollars_are_not_math() {
    assert_eq!(inline("costs $10 and $20"), "costs $10 and $20");
    assert_eq!(inline("a \\$x$"), "a \\$x$");
    assert_eq!(inline("$ x$"), "$ x$");
    assert_eq!(inline("$x $"), "$x $");
    assert_eq!(inline("$"), "$");
}

#[test]
fn inline_formula_does_not_cross_lines() {
    assert_eq!(inline("$a\nb$"), "$a\nb$");
}

#[test]
fn block_formula_becomes_div() {
    assert_eq!(
        math("x $$a+b$$ y"),
        "x <div class=\"katex-math-block\" data-expr=\"a+b\">$$a+b$$</div> y"
    );
}

#[test]
fn unclosed_block_delimiter_stays() {
    assert_eq!(math("a $$ b"), "a $$ b");
}

#[test]
fn block_and_inline_together() {
    assert_eq!(
        math("$$q$$ and $r$"),
        "<div class=\"katex-math-block\" data-expr=\"q\">$$q$$</div> and <span class=\"katex-math-inline\" data-expr=\"r\">$r$</span>"
    );
}

#[test]
fn math_inside_code_is_left_alone() {
    let h = chars("<p>$a$</p><pre><code>$b$</code></pre><code>$$c$$</code>");
    assert_eq!(
        text(render_math_formulas(&h)),
        "<p><span class=\"katex-math-inline\" data-expr=\"a\">$a$</span></p><pre><code>$b$</code></pre><code>$$c$$</code>"
    );
}

#[test]
fn non_ascii_text_renders() {
    assert_eq!(text(render_math_formulas(&chars("<p>é ∑</p>"))), "<p>é ∑</p>");
    assert_eq!(
        text(render_math_formulas(&chars("<p>é $∑x$</p>"))),
        "<p>é <span class=\"katex-math-inline\" data-expr=\"∑x\">$∑x$</span></p>"
    );
}

#[test]
fn attachment_links_open_outside_the_router() {
    assert_eq!(
        text(rewrite_attachment_links(&chars("<a href=\"/attachments/7\">f</a> <a href=\"/x\">g</a>"))),
        "<a target=\"_blank\" rel=\"external\" download href=\"/attachments/7\">f</a> <a href=\"/x\">g</a>"
    );
}

#[test]
fn postprocess_combines_links_and_math() {
    assert_eq!(
        postprocess_html("<a href=\"/attachments/1\">$x$</a>"),
        "<a target=\"_blank\" rel=\"external\" download href=\"/attachments/1\"><span class=\"katex-math-inline\" data-expr=\"x\">$x$</span></a>"
    );
}

#[test]
fn render_markdown_renders_paragraph_with_math() {
    assert_eq!(
        render_markdown("Hello $x$"),
        "<p>Hello <span class=\"katex-math-inline\" data-expr=\"x\">$x$</span></p>\n"
    );
}

#[test]
fn render_markdown_supports_tables_and_strikethrough() {
    let html = render_markdown("~~old~~\n\n| a | b |\n|---|---|\n| 1 | 2 |\n");
    assert!(html.contains("<del>old</del>"));
    assert!(html.contains("<table>"));
}

#[test]
fn render_markdown_supports_task_lists() {
    let html = render_markdown("- [x] done\n");
    assert!(html.contains("checkbox"));
}

#[test]
fn raw_html_is_shown_as_text() {
    let html = render_markdown("<script>alert(1)</script>\n\nok <b>x</b>");
    assert!(!html.contains("<script>"));
    assert!(!html.contains("<b>"));
    assert!(html.contains("&lt;script&gt;"));
    assert!(html.contains("&lt;b&gt;"));
}

#[test]
fn code_spans_keep_dollars() {
    assert_eq!(render_markdown("`$x$`"), "<p><code>$x$</code></p>\n");
}

#[test]
fn markdown_attachment_link_is_rewritten() {
    assert_eq!(
        render_markdown("[f](/attachments/5)"),
        "<p><a target=\"_blank\" rel=\"external\" download href=\"/attachments/5\">f</a></p>\n"
    );
}

#[test]
fn render_markdown_renders_non_ascii_text() {
    assert_eq!(render_markdown("café"), "<p>café</p>\n");
    assert_eq!(render_markdown("hello"), "<p>hello</p>\n");
}

#[test]
fn filter_turns_raw_html_into_text() {
    match neutralize(MarkdownEvent::RawHtml(CowStr::from("<script>"))) {
        MarkdownEvent::Text(t) => assert_eq!(&*t, "<script>"),
        _ => panic!("raw HTML passed"),
    }
    match neutralize(MarkdownEvent::InlineRawHtml(CowStr::from("<b>"))) {
        MarkdownEvent::Text(t) => assert_eq!(&*t, "<b>"),
        _ => panic!("inline HTML passed"),
    }
    match neutralize(MarkdownEvent::Text(CowStr::from("a"))) {
        MarkdownEvent::Text(t) => assert_eq!(&*t, "a"),
        _ => panic!("text changed"),
    }
}

#[test]
fn inline_iframe_and_script_never_open() {
    let html = render_markdown("see <iframe src=\"https://x\"></iframe> and <script>x()</script> here");
    assert!(!html.contains("<iframe"));
    assert!(!html.contains("<script"));
    assert!(html.contains("&lt;iframe"));
}

#[test]
fn math_around_raw_tags_opens_none() {
    let html = render_markdown("$$<script>a()</script>$$ and $<iframe>$");
    assert!(!html.contains("<script"));
    assert!(!html.contains("<iframe"));
    assert!(html.contains("katex-math-block"));
}

#[test]
fn link_target_cannot_open_tags() {
    let html = render_markdown("[x](<<script>y>) ![a <iframe>](/attachments/1 \"<script>\")");
    assert!(!html.contains("<script"));
    assert!(!html.contains("<iframe"));
}

#[test]
fn postprocess_opens_no_tag_across_math() {
    let out = postprocess_html("<p>&lt;scr$x$ipt</p>");
    assert!(!out.contains("<script"));
}
