//! The printable document a note is exported as: a standalone HTML page
//! that renders the note (math included) and opens the print dialog, from
//! which the browser saves a PDF.

use vstd::prelude::*;

use crate::markdown::{render_markdown, rendered_markdown};
use crate::text::{escape_html, html_escaped, to_owned_string, trim, trim_string, trims_to_empty};

verus! {

pub const PRINT_DOC_0: &'static str = r#"<!DOCTYPE html>
<html>
<head>
<meta charset="utf-8">
"#;
pub const PRINT_DOC_1: &'static str = r#"
<title>"#;
pub const PRINT_DOC_2: &'static str = r#"</title>
<link rel="stylesheet" href="https://cdn.jsdelivr.net/npm/katex@0.16.11/dist/katex.min.css" crossorigin="anonymous">
<style>
  * { box-sizing: border-box; }
  body {
    font-family: -apple-system, BlinkMacSystemFont, "Segoe UI", Roboto, Helvetica, Arial, sans-serif;
    color: #0f172a;
    background-color: #ffffff;
    padding: 2cm;
    line-height: 1.6;
    margin: 0;
  }
  .preview-bar {
    position: sticky;
    top: 0;
    left: 0;
    right: 0;
    background: #f8fafc;
    border-bottom: 1px solid #e2e8f0;
    padding: 10px 20px;
    margin: -2cm -2cm 1.5cm -2cm;
    display: flex;
    align-items: center;
    justify-content: space-between;
    box-shadow: 0 1px 3px rgba(0,0,0,0.05);
    z-index: 100;
  }
  .preview-title {
    font-size: 13px;
    font-weight: 600;
    color: #475569;
    display: flex;
    align-items: center;
    gap: 8px;
  }
  .preview-actions {
    display: flex;
    gap: 8px;
  }
  .btn {
    display: inline-flex;
    align-items: center;
    gap: 6px;
    padding: 6px 14px;
    font-size: 13px;
    font-weight: 500;
    border-radius: 6px;
    cursor: pointer;
    border: none;
    transition: background 0.15s;
    text-decoration: none;
  }
  .btn-primary {
    background: #4f46e5;
    color: #ffffff;
  }
  .btn-primary:hover {
    background: #4338ca;
  }
  .btn-secondary {
    background: #e2e8f0;
    color: #334155;
  }
  .btn-secondary:hover {
    background: #cbd5e1;
  }
  h1.note-title {
    font-size: 1.875rem;
    font-weight: 700;
    margin-top: 0;
    margin-bottom: 0.35rem;
    color: #0f172a;
  }
  p.note-meta {
    font-size: 0.8125rem;
    color: #64748b;
    margin-top: 0;
    margin-bottom: 1.5rem;
    border-bottom: 1px solid #e2e8f0;
    padding-bottom: 0.75rem;
  }
  .prose-note h1 { font-size: 1.5rem; font-weight: 700; margin: 1.25rem 0 0.5rem; color: #0f172a; }
  .prose-note h2 { font-size: 1.25rem; font-weight: 700; margin: 1.25rem 0 0.5rem; color: #1e293b; }
  .prose-note h3 { font-size: 1.1rem; font-weight: 600; margin: 1rem 0 0.25rem; color: #334155; }
  .prose-note p { margin: 0.75rem 0; }
  .prose-note ul { list-style: disc; padding-left: 1.5rem; margin: 0.75rem 0; }
  .prose-note ol { list-style: decimal; padding-left: 1.5rem; margin: 0.75rem 0; }
  .prose-note li { margin: 0.25rem 0; }
  .prose-note a { color: #2563eb; text-decoration: underline; }
  .prose-note code { background: #f1f5f9; border-radius: 0.25rem; padding: 0.15rem 0.35rem; font-family: ui-monospace, SFMono-Regular, Menlo, Monaco, Consolas, monospace; font-size: 0.875em; }
  .prose-note pre { background: #f8fafc; border: 1px solid #e2e8f0; border-radius: 0.5rem; padding: 1rem; overflow-x: auto; margin: 0.75rem 0; }
  .prose-note pre code { background: transparent; padding: 0; font-size: 0.875rem; }
  .prose-note blockquote { border-left: 4px solid #cbd5e1; padding-left: 1rem; color: #475569; font-style: italic; margin: 0.75rem 0; }
  .prose-note table { width: 100%; border-collapse: collapse; margin: 1rem 0; }
  .prose-note th, .prose-note td { border: 1px solid #cbd5e1; padding: 0.5rem 0.75rem; text-align: left; font-size: 0.875rem; }
  .prose-note th { background: #f8fafc; font-weight: 600; }
  .prose-note hr { border: none; border-top: 1px solid #e2e8f0; margin: 1.5rem 0; }
  .prose-note img { max-width: 100%; height: auto; border-radius: 0.375rem; margin: 0.75rem 0; }
  .katex-math-block { display: flex; justify-content: center; margin: 1rem 0; overflow-x: auto; }
  .katex-math-inline { display: inline-block; }
  @media print {
    body { padding: 0 !important; }
    .no-print { display: none !important; }
    h1, h2, h3 { page-break-after: avoid; }
    pre, blockquote, table, img { page-break-inside: avoid; }
  }
</style>
</head>
<body>
<div class="preview-bar no-print">
  <div class="preview-title">
    <svg width="16" height="16" fill="none" stroke="currentColor" viewBox="0 0 24 24">
      <path stroke-linecap="round" stroke-linejoin="round" stroke-width="2" d="M12 10v6m0 0l-3-3m3 3l3-3m2 8H7a2 2 0 01-2-2V5a2 2 0 012-2h5.586a1 1 0 01.707.293l5.414 5.414a1 1 0 01.293.707V19a2 2 0 01-2 2z"/>
    </svg>
    <span>SyncNote — PDF Export Preview</span>
  </div>
  <div class="preview-actions">
    <button class="btn btn-primary" onclick="window.print()">
      <svg width="14" height="14" fill="none" stroke="currentColor" viewBox="0 0 24 24">
        <path stroke-linecap="round" stroke-linejoin="round" stroke-width="2" d="M17 17h2a2 2 0 002-2v-4a2 2 0 00-2-2H5a2 2 0 00-2 2v4a2 2 0 002 2h2m2 4h6a2 2 0 002-2v-4a2 2 0 00-2-2H9a2 2 0 00-2 2v4a2 2 0 002 2zm8-12V5a2 2 0 00-2-2H9a2 2 0 00-2 2v4h10z"/>
      </svg>
      <span>Print / Save as PDF</span>
    </button>
    <button class="btn btn-secondary" onclick="window.close()">Close</button>
  </div>
</div>
<h1 class="note-title">"#;
pub const PRINT_DOC_3: &'static str = r#"</h1>
<p class="note-meta">Last updated: "#;
pub const PRINT_DOC_4: &'static str = r#"</p>
<div class="prose-note">"#;
pub const PRINT_DOC_5: &'static str = r#"</div>
<script src="https://cdn.jsdelivr.net/npm/katex@0.16.11/dist/katex.min.js" crossorigin="anonymous"></script>
<script>
  function renderMathAndPrint() {
    var k = (typeof katex !== 'undefined') ? katex : (window.opener && window.opener.katex ? window.opener.katex : null);
    if (k) {
      document.querySelectorAll('.katex-math-inline').forEach(function(el) {
        var expr = el.getAttribute('data-expr');
        if (expr) { try { k.render(expr, el, { throwOnError: false, displayMode: false }); } catch (e) {} }
      });
      document.querySelectorAll('.katex-math-block').forEach(function(el) {
        var expr = el.getAttribute('data-expr');
        if (expr) { try { k.render(expr, el, { throwOnError: false, displayMode: true }); } catch (e) {} }
      });
    }
    setTimeout(function() {
      window.focus();
      window.print();
    }, 250);
  }
  if (document.readyState === 'complete') {
    renderMathAndPrint();
  } else {
    window.addEventListener('load', renderMathAndPrint);
  }
</script>
</body>
</html>"#;

/// What a note without content prints instead.
pub const PRINT_NO_CONTENT: &'static str = "<p style=\"color: #94a3b8; font-style: italic;\">No content in this note.</p>";

/// The title a note prints under: the trimmed title, `Untitled Note` when
/// blank.
pub open spec fn print_title(title: Seq<char>) -> Seq<char> {
    if trim(title).len() == 0 {
        "Untitled Note"@
    } else {
        trim(title)
    }
}

/// The `<base>` element that resolves the note's relative links (its
/// attachments) against the app's origin; none without an origin.
pub open spec fn base_tag(origin: Seq<char>) -> Seq<char> {
    if origin.len() == 0 {
        Seq::empty()
    } else {
        "<base href=\""@ + origin + "/\">"@
    }
}

/// The printed body: the rendered Markdown, or a placeholder for a blank
/// note.
pub open spec fn print_content(body: Seq<char>) -> Seq<char> {
    if trim(body).len() == 0 {
        PRINT_NO_CONTENT@
    } else {
        rendered_markdown(body)
    }
}

/// The whole document; title and date are HTML-escaped, the rendered body
/// is inserted as it is.
pub open spec fn print_document_text(
    title: Seq<char>,
    updated_at: Seq<char>,
    body: Seq<char>,
    origin: Seq<char>,
) -> Seq<char> {
    let t = html_escaped(print_title(title));
    PRINT_DOC_0@ + base_tag(origin) + PRINT_DOC_1@ + t + PRINT_DOC_2@ + t + PRINT_DOC_3@
        + html_escaped(updated_at) + PRINT_DOC_4@ + print_content(body) + PRINT_DOC_5@
}

fn print_title_of(title: &str) -> (r: String)
    ensures
        r@ == print_title(title@),
{
    let t = trim_string(title);
    if t.as_str().is_empty() {
        to_owned_string("Untitled Note")
    } else {
        t
    }
}

fn base_tag_of(origin: &str) -> (r: String)
    ensures
        r@ == base_tag(origin@),
{
    if origin.is_empty() {
        String::new()
    } else {
        let mut s = to_owned_string("<base href=\"");
        s.append(origin);
        s.append("/\">");
        s
    }
}

/// The printable document of a note, with `origin` the app's origin as the
/// browser reports it.
pub fn print_document(title: &str, updated_at: &str, body: &str, origin: &str) -> (r: String)
    ensures
        r@ == print_document_text(title@, updated_at@, body@, origin@),
{
    let content = if trims_to_empty(body) {
        to_owned_string(PRINT_NO_CONTENT)
    } else {
        render_markdown(body)
    };
    let t = escape_html(print_title_of(title).as_str());
    let mut s = to_owned_string(PRINT_DOC_0);
    s.append(base_tag_of(origin).as_str());
    s.append(PRINT_DOC_1);
    s.append(t.as_str());
    s.append(PRINT_DOC_2);
    s.append(t.as_str());
    s.append(PRINT_DOC_3);
    s.append(escape_html(updated_at).as_str());
    s.append(PRINT_DOC_4);
    s.append(content.as_str());
    s.append(PRINT_DOC_5);
    s
}

} // verus!
