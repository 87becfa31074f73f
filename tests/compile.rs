use slides_compiler::ast::{Attr, Block, Inline};
use slides_compiler::compiler::{compile, write_code_block};
use slides_compiler::highlight::Highlighter;
use slides_compiler::text::{escape_href, escape_text};

fn t(s: &str) -> Vec<char> {
    s.chars().collect()
}

fn s(v: &[char]) -> String {
    v.iter().collect()
}

fn no_attr() -> Attr {
    Attr { id: Vec::new(), classes: Vec::new(), pairs: Vec::new() }
}

fn class_attr(c: &str) -> Attr {
    Attr { id: Vec::new(), classes: vec![t(c)], pairs: Vec::new() }
}

fn run(doc: Vec<Block>) -> String {
    let hl = Highlighter::new();
    s(&compile(&doc, &hl))
}

fn para(xs: Vec<Inline>) -> Block {
    Block::Para(xs)
}

fn text(x: &str) -> Inline {
    Inline::Str(t(x))
}

#[test]
fn escape_text_escapes_markup_characters() {
    assert_eq!(s(&escape_text(&t("a<b & \"c\" 'd' >"))), "a&lt;b &amp; &quot;c&quot; &#39;d&#39; &gt;");
    assert_eq!(s(&escape_text(&t(""))), "");
    assert_eq!(s(&escape_text(&t("plain text"))), "plain text");
}

#[test]
fn escape_href_escapes_quote_and_ampersand() {
    let mut out: Vec<char> = Vec::new();
    escape_href(&mut out, &t("http://x.org/?a=1&b=\"2\""));
    assert_eq!(s(&out), "http://x.org/?a=1&amp;b=%222%22");
}

#[test]
fn str_is_escaped_in_output() {
    assert_eq!(run(vec![para(vec![text("1 < 2 & 3")])]), "<p>1 &lt; 2 &amp; 3</p>");
}

#[test]
fn header_note_scenario() {
    let out = run(vec![
        Block::Header(1, no_attr(), vec![text("A")]),
        para(vec![text("hi"), Inline::Note(vec![para(vec![text("note text")])])]),
    ]);
    assert!(out.contains("<pres-slide id=\"slide-0\">"));
    assert!(out.contains("<h1>A</h1>"));
    assert!(out.contains(
        "<p>hi<a id=\"fnref-1\" class=\"footnote-ref\" href=\"#fn-1\" role=\"doc-noteref\">1</a></p>"
    ));
    assert!(out.contains("<ol slot=\"footnotes\"><li value=\"1\" role=\"doc-endnote\" id=\"fn-1\">"));
    assert!(out.contains(
        "note text <a class=\"footnote-back\" role=\"doc-backlink\" href=\"#fnref-1\">\u{21a9}</a>"
    ));
    assert!(out.ends_with("</li></ol></pres-slide>"));
    assert_eq!(
        out,
        "<pres-slide id=\"slide-0\"><h1>A</h1><p>hi<a id=\"fnref-1\" class=\"footnote-ref\" href=\"#fn-1\" role=\"doc-noteref\">1</a></p><ol slot=\"footnotes\"><li value=\"1\" role=\"doc-endnote\" id=\"fn-1\"><p>note text <a class=\"footnote-back\" role=\"doc-backlink\" href=\"#fnref-1\">\u{21a9}</a></p></li></ol></pres-slide>"
    );
}

#[test]
fn each_level_one_header_opens_one_slide() {
    let out = run(vec![
        Block::Header(1, no_attr(), vec![text("One")]),
        para(vec![text("a")]),
        Block::Header(2, no_attr(), vec![text("Sub")]),
        Block::Header(1, no_attr(), vec![text("Two")]),
        Block::Div(no_attr(), vec![Block::Header(1, no_attr(), vec![text("Three")])]),
    ]);
    assert_eq!(out.matches("<pres-slide ").count(), 3);
    assert_eq!(out.matches("</pres-slide>").count(), 3);
    let a = out.find("id=\"slide-0\"").unwrap();
    let b = out.find("id=\"slide-1\"").unwrap();
    let c = out.find("id=\"slide-2\"").unwrap();
    assert!(a < b && b < c);
    assert!(out.contains("<h2>Sub</h2>"));
}

#[test]
fn no_level_one_header_opens_no_slide() {
    let out = run(vec![Block::Header(2, no_attr(), vec![text("x")]), para(vec![text("y")])]);
    assert_eq!(out, "<h2>x</h2><p>y</p>");
}

#[test]
fn master_attribute_goes_on_the_slide() {
    let a = Attr { id: t("intro"), classes: Vec::new(), pairs: vec![(t("master"), t("title"))] };
    let out = run(vec![Block::Header(1, a, vec![text("T")])]);
    assert_eq!(
        out,
        "<pres-slide master=\"title\" id=\"slide-0\"><h1 id=\"intro\" master=\"title\">T</h1><ol slot=\"footnotes\"></ol></pres-slide>"
    );
}

#[test]
fn footnotes_are_numbered_in_document_order() {
    let out = run(vec![
        Block::Header(1, no_attr(), vec![text("S")]),
        para(vec![Inline::Note(vec![para(vec![text("first")])]), Inline::Note(vec![Block::Plain(vec![text("second")])])]),
        Block::Header(1, no_attr(), vec![text("S2")]),
        para(vec![Inline::Note(vec![para(vec![text("third")])])]),
    ]);
    for n in 1..4 {
        assert!(out.contains(&format!("<a id=\"fnref-{n}\" class=\"footnote-ref\" href=\"#fn-{n}\"")));
        assert!(out.contains(&format!("<li value=\"{n}\" role=\"doc-endnote\" id=\"fn-{n}\">")));
    }
    assert!(out.find("fnref-1").unwrap() < out.find("fnref-2").unwrap());
    assert!(out.contains("id=\"fn-2\">second</li>"));
    assert!(out.contains("<p>third <a class=\"footnote-back\" role=\"doc-backlink\" href=\"#fnref-3\">"));
    let first_slide_end = out.find("</pres-slide>").unwrap();
    assert!(out.find("id=\"fn-3\"").unwrap() > first_slide_end);
}

#[test]
fn footnote_inside_footnote_loses_its_entry() {
    let inner = Inline::Note(vec![para(vec![text("inner")])]);
    let out = run(vec![
        Block::Header(1, no_attr(), vec![text("S")]),
        para(vec![Inline::Note(vec![para(vec![text("outer"), inner])]), Inline::Note(vec![para(vec![text("next")])])]),
    ]);
    assert!(out.contains("<a id=\"fnref-2\""));
    assert!(!out.contains("inner"));
    assert_eq!(out.matches("id=\"fnref-2\"").count(), 2);
}

#[test]
fn figure_class_div_becomes_figure() {
    let out = run(vec![Block::Div(class_attr("figure"), vec![para(vec![text("x")])])]);
    assert_eq!(out, "<figure slot=\"figure\"><p>x</p></figure>");
}

#[test]
fn figure_class_span_keeps_its_slot() {
    let a = Attr { id: Vec::new(), classes: vec![t("figure")], pairs: vec![(t("slot"), t("left"))] };
    let out = run(vec![Block::Plain(vec![Inline::Span(a, vec![text("x")])])]);
    assert_eq!(out, "<figure slot=\"left\">x</figure>");
}

#[test]
fn tag_key_names_the_tag() {
    let a = Attr { id: Vec::new(), classes: vec![t("c")], pairs: vec![(t("tag"), t("section")), (t("k"), t("v"))] };
    let out = run(vec![Block::Div(a, vec![])]);
    assert_eq!(out, "<section class=\"c\" k=\"v\"></section>");
    let out2 = run(vec![Block::Plain(vec![Inline::Span(class_attr("details"), vec![text("d")])])]);
    assert_eq!(out2, "<details>d</details>");
    let out3 = run(vec![Block::Plain(vec![Inline::Span(class_attr("other"), vec![text("d")])])]);
    assert_eq!(out3, "<span class=\"other\">d</span>");
}

#[test]
fn ordered_list_start() {
    let item = || vec![Block::Plain(vec![text("i")])];
    assert_eq!(run(vec![Block::OrderedList(1, vec![item()])]), "<ol><li>i</li></ol>");
    assert_eq!(run(vec![Block::OrderedList(5, vec![item(), item()])]), "<ol start=\"5\"><li>i</li><li>i</li></ol>");
    assert_eq!(run(vec![Block::OrderedList(-2, vec![])]), "<ol start=\"-2\"></ol>");
}

#[test]
fn bullet_and_definition_lists() {
    assert_eq!(run(vec![Block::BulletList(vec![vec![Block::Plain(vec![text("a")])]])]), "<ul><li>a</li></ul>");
    let d = Block::DefinitionList(vec![(vec![text("term")], vec![vec![Block::Plain(vec![text("d1")])], vec![]])]);
    assert_eq!(run(vec![d]), "<dl><dt>term</dt><dd>d1</dd><dd></dd></dl>");
}

#[test]
fn figure_image() {
    let img = Inline::Image(no_attr(), vec![text("ignored")], t("a.png"), t("fig:Caption"));
    let out = run(vec![Block::Plain(vec![img])]);
    assert_eq!(
        out,
        "<figure slot=\"figure\"><img slot=\"figure\" alt=\"Caption\" src=\"a.png\"></img></figure>"
    );
    assert!(!out.contains("fig:"));
}

#[test]
fn plain_image() {
    let img = Inline::Image(no_attr(), vec![], t("b.png?x=1&y=2"), t(""));
    assert_eq!(run(vec![Block::Plain(vec![img])]), "<img src=\"b.png?x=1&amp;y=2\"></img>");
}

#[test]
fn link_with_title() {
    let l = Inline::Link(class_attr("ext"), vec![text("here")], t("http://e.org"), t("a \"t\""));
    assert_eq!(
        run(vec![Block::Plain(vec![l])]),
        "<a class=\"ext\" title=\"a &quot;t&quot;\" href=\"http://e.org\">here</a>"
    );
}

#[test]
fn inline_formatting() {
    let xs = vec![
        Inline::Emph(vec![text("e")]),
        Inline::Strong(vec![text("s")]),
        Inline::Strikeout(vec![text("d")]),
        Inline::Superscript(vec![text("p")]),
        Inline::Subscript(vec![text("b")]),
        Inline::SmallCaps(vec![text("c")]),
        Inline::Quoted(vec![text("q")]),
        Inline::Space,
        Inline::SoftBreak,
        Inline::LineBreak,
        Inline::Cite,
        Inline::Math,
    ];
    assert_eq!(
        run(vec![Block::Plain(xs)]),
        "<em>e</em><strong>s</strong><del>d</del><sup>p</sup><sub>b</sub><span class=\"smallcaps\">c</span><q>q</q> \n<br/>"
    );
}

#[test]
fn inline_code_gets_inline_class() {
    let out = run(vec![Block::Plain(vec![Inline::Code(class_attr("rust"), t("a<b"))])]);
    assert_eq!(out, "<code class=\"rust inline\">a&lt;b</code>");
    let out2 = run(vec![Block::Plain(vec![Inline::Code(class_attr("inline"), t("x"))])]);
    assert_eq!(out2, "<code class=\"inline\">x</code>");
}

#[test]
fn raw_content_by_format() {
    assert_eq!(run(vec![Block::RawBlock(t("html"), t("<figure>"))]), "<figure slot=\"figure\">");
    assert_eq!(run(vec![Block::RawBlock(t("html5"), t("<div>"))]), "<div>");
    assert_eq!(run(vec![Block::RawBlock(t("latex"), t("\\x"))]), "");
    assert_eq!(run(vec![Block::Plain(vec![Inline::RawInline(t("html4"), t("<figure>"))])]), "<figure>");
    assert_eq!(run(vec![Block::Plain(vec![Inline::RawInline(t("tex"), t("y"))])]), "");
}

#[test]
fn other_blocks() {
    assert_eq!(run(vec![Block::HorizontalRule, Block::Table, Block::Null]), "<hr/>");
    assert_eq!(run(vec![Block::BlockQuote(vec![para(vec![text("q")])])]), "<bq><p>q</p></bq>");
    assert_eq!(run(vec![Block::LineBlock(vec![vec![text("a")], vec![text("b")]])]), "ab");
}

#[test]
fn code_block_without_known_syntax_is_escaped() {
    assert_eq!(run(vec![Block::CodeBlock(no_attr(), t("a < b"))]), "<pre><code>a &lt; b</code></pre>");
    assert_eq!(
        run(vec![Block::CodeBlock(class_attr("no-such-language-xyz"), t("a < b"))]),
        "<pre><code class=\"no-such-language-xyz\">a &lt; b</code></pre>"
    );
}

#[test]
fn code_block_with_known_syntax_is_highlighted() {
    let out = run(vec![Block::CodeBlock(class_attr("rust"), t("fn main() {}\n"))]);
    assert!(out.starts_with("<pre><code class=\"rust\">"));
    assert!(out.ends_with("</code></pre>"));
    assert!(out.contains("<span class=\""));
    assert!(out.contains("main"));
}

#[test]
fn code_block_markup_from_highlighter_result() {
    let mut out: Vec<char> = Vec::new();
    write_code_block(&mut out, &class_attr("rust"), &t("x<y"), &Some(t("<span class=\"k\">x</span>")));
    assert_eq!(s(&out), "<pre><code class=\"rust\"><span class=\"k\">x</span></code></pre>");
    let mut out2: Vec<char> = Vec::new();
    write_code_block(&mut out2, &class_attr("rust"), &t("x<y"), &None);
    assert_eq!(s(&out2), "<pre><code class=\"rust\">x&lt;y</code></pre>");
}
