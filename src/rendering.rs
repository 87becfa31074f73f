//! What the compiler writes: the rendering of each node as a function of
//! the compile state, and the slide and footnote bookkeeping.
use vstd::prelude::*;
use crate::ast::{Attr, AttrView, Block, Inline};
use crate::attrs::{attr_html, find_key, has_class_spec, resolve_tag};
use crate::highlight::highlighted;
use crate::text::{decimal, escape_href_spec, escape_text_spec, signed_decimal};

verus! {

/// The state of one compilation: the next footnote number, the number of
/// slides opened so far, whether a slide is open, the markup written, and
/// the footnote entries waiting for the end of the current slide.
pub ghost struct CompileState {
    pub next_note: nat,
    pub slide: nat,
    pub in_slide: bool,
    pub out: Seq<char>,
    pub queue: Seq<char>,
}

/// The state with `s` written.
pub open spec fn emit(st: CompileState, s: Seq<char>) -> CompileState {
    CompileState { out: st.out + s, ..st }
}

/// Closing a slide: its footnotes in a trailing list, then the slide's end
/// tag; the queue is emptied.
pub open spec fn end_slide_spec(st: CompileState) -> CompileState {
    CompileState {
        out: st.out + "<ol slot=\"footnotes\">"@ + st.queue + "</ol></pres-slide>"@,
        queue: Seq::empty(),
        ..st
    }
}

/// The start tag of slide number `n`, with the header's `master` if any.
pub open spec fn slide_open_html(a: AttrView, n: nat) -> Seq<char> {
    match find_key(a.pairs, "master"@) {
        Some(i) => "<pres-slide master=\""@ + a.pairs[i].1 + "\" id=\"slide-"@ + decimal(n) + "\">"@,
        None => "<pres-slide id=\"slide-"@ + decimal(n) + "\">"@,
    }
}

/// A level-1 header: close the open slide, if any, and open the next.
pub open spec fn open_slide_spec(st: CompileState, a: AttrView) -> CompileState {
    let st1 = if st.in_slide { end_slide_spec(st) } else { st };
    CompileState {
        in_slide: true,
        slide: st1.slide + 1,
        out: st1.out + slide_open_html(a, st1.slide),
        ..st1
    }
}

/// Whether raw content in this format passes through.
pub open spec fn is_html_format(f: Seq<char>) -> bool {
    f == "html"@ || f == "html5"@ || f == "html4"@
}

/// What a raw block writes.
pub open spec fn raw_block_html(f: Seq<char>, t: Seq<char>) -> Seq<char> {
    if !is_html_format(f) {
        Seq::empty()
    } else if t == "<figure>"@ {
        "<figure slot=\"figure\">"@
    } else {
        t
    }
}

/// What a raw inline writes.
pub open spec fn raw_inline_html(f: Seq<char>, t: Seq<char>) -> Seq<char> {
    if is_html_format(f) { t } else { Seq::empty() }
}

/// The syntax token of a code block: its first class.
pub open spec fn code_token(a: AttrView) -> Option<Seq<char>> {
    if a.classes.len() > 0 { Some(a.classes[0]) } else { None }
}

/// A code block, given what the highlighter returned for it: the
/// highlighted markup as it is, or else the escaped text.
pub open spec fn code_block_html(a: AttrView, t: Seq<char>, hl: Option<Seq<char>>) -> Seq<char> {
    "<pre><code"@ + attr_html(a) + ">"@
        + (match hl { Some(h) => h, None => escape_text_spec(t) })
        + "</code></pre>"@
}

/// What the highlighter gives for a code block.
pub open spec fn code_highlight(a: AttrView, t: Seq<char>) -> Option<Seq<char>> {
    match code_token(a) {
        Some(tok) => highlighted(tok, t),
        None => None,
    }
}

/// Inline code gets the class `inline` unless it has it.
pub open spec fn with_inline_class(a: AttrView) -> AttrView {
    if has_class_spec(a, "inline"@) { a } else { AttrView { classes: a.classes.push("inline"@), ..a } }
}

/// The start tag of an ordered list.
pub open spec fn ol_open_html(start: int) -> Seq<char> {
    if start != 1 { "<ol start=\""@ + signed_decimal(start) + "\">"@ } else { "<ol>"@ }
}

/// Whether an image title marks a figure.
pub open spec fn is_figure_title(t: Seq<char>) -> bool {
    t.len() >= 4 && t.take(4) == "fig:"@
}

/// The `img` element for attributes `a`, alternative text `t` and `url`.
pub open spec fn img_html(a: AttrView, t: Seq<char>, url: Seq<char>) -> Seq<char> {
    "<img"@ + attr_html(a)
        + (if t.len() == 0 { Seq::empty() } else { " alt=\""@ + escape_text_spec(t) + "\""@ })
        + " src=\""@ + escape_href_spec(url) + "\">"@ + "</img>"@
}

/// A figure's attributes: a `slot="figure"` pair added unless a slot is set.
pub open spec fn figure_attrs(a: AttrView) -> AttrView {
    if find_key(a.pairs, "slot"@) is None {
        AttrView { pairs: a.pairs.push(("slot"@, "figure"@)), ..a }
    } else {
        a
    }
}

/// An image: inside a figure when its title starts with `fig:`, the rest of
/// the title as alternative text.
pub open spec fn image_html(a: AttrView, url: Seq<char>, title: Seq<char>) -> Seq<char> {
    if is_figure_title(title) {
        let a1 = figure_attrs(a);
        "<figure"@ + attr_html(a1) + ">"@ + img_html(a1, title.skip(4), url) + "</figure>"@
    } else {
        img_html(a, title, url)
    }
}

/// The start of a link, up to the description.
pub open spec fn link_open_html(a: AttrView, url: Seq<char>, title: Seq<char>) -> Seq<char> {
    "<a"@ + attr_html(a)
        + (if title.len() == 0 { Seq::empty() } else { " title=\""@ + escape_text_spec(title) + "\""@ })
        + " href=\""@ + escape_href_spec(url) + "\">"@
}

/// The reference to footnote `n`.
pub open spec fn note_ref_html(n: nat) -> Seq<char> {
    "<a id=\"fnref-"@ + decimal(n) + "\" class=\"footnote-ref\" href=\"#fn-"@ + decimal(n)
        + "\" role=\"doc-noteref\">"@ + decimal(n) + "</a>"@
}

/// The start of the entry of footnote `n`.
pub open spec fn note_open_html(n: nat) -> Seq<char> {
    "<li value=\""@ + decimal(n) + "\" role=\"doc-endnote\" id=\"fn-"@ + decimal(n) + "\">"@
}

/// The link from the entry of footnote `n` back to its reference.
pub open spec fn back_link_html(n: nat) -> Seq<char> {
    "<a class=\"footnote-back\" role=\"doc-backlink\" href=\"#fnref-"@ + decimal(n) + "\">\u{21a9}</a>"@
}

/// The tag, or the default one.
pub open spec fn tag_or(t: Option<Seq<char>>, d: Seq<char>) -> Seq<char> {
    match t { Some(x) => x, None => d }
}

/// Inline content between a start and an end tag.
pub open spec fn tagged_inlines(st: CompileState, tag: Seq<char>, xs: Seq<Inline>) -> CompileState
    decreases xs, 1int,
{
    emit(render_inlines(emit(st, "<"@ + tag + ">"@), xs), "</"@ + tag + ">"@)
}

/// Rendering one block.
pub open spec fn render_block(st: CompileState, b: Block) -> CompileState
    decreases b, 0int,
{
    match b {
        Block::Plain(xs) => render_inlines(st, xs@),
        Block::Para(xs) => emit(render_inlines(emit(st, "<p>"@), xs@), "</p>"@),
        Block::LineBlock(ls) => render_lines(st, ls@),
        Block::CodeBlock(a, t) => emit(st, code_block_html(a@, t@, code_highlight(a@, t@))),
        Block::RawBlock(f, t) => emit(st, raw_block_html(f@, t@)),
        Block::BlockQuote(bs) => emit(render_blocks(emit(st, "<bq>"@), bs@), "</bq>"@),
        Block::OrderedList(start, items) =>
            emit(render_groups(emit(st, ol_open_html(start as int)), items@, "<li>"@, "</li>"@), "</ol>"@),
        Block::BulletList(items) =>
            emit(render_groups(emit(st, "<ul>"@), items@, "<li>"@, "</li>"@), "</ul>"@),
        Block::DefinitionList(ds) => emit(render_defs(emit(st, "<dl>"@), ds@), "</dl>"@),
        Block::Header(lvl, a, xs) => {
            let st1 = if lvl == 1 { open_slide_spec(st, a@) } else { st };
            emit(
                render_inlines(emit(st1, "<h"@ + signed_decimal(lvl as int) + attr_html(a@) + ">"@), xs@),
                "</h"@ + signed_decimal(lvl as int) + ">"@,
            )
        },
        Block::HorizontalRule => emit(st, "<hr/>"@),
        Block::Table => st,
        Block::Div(a, bs) => {
            let (t, a1) = resolve_tag(a@);
            let tag = tag_or(t, "div"@);
            emit(render_blocks(emit(st, "<"@ + tag + attr_html(a1) + ">"@), bs@), "</"@ + tag + ">"@)
        },
        Block::Null => st,
    }
}

/// Rendering blocks in order.
pub open spec fn render_blocks(st: CompileState, bs: Seq<Block>) -> CompileState
    decreases bs, 0int,
{
    if bs.len() == 0 {
        st
    } else {
        render_blocks(render_block(st, bs[0]), bs.drop_first())
    }
}

/// Rendering groups of blocks, each between `open` and `close`.
pub open spec fn render_groups(st: CompileState, gs: Seq<Vec<Block>>, open: Seq<char>, close: Seq<char>) -> CompileState
    decreases gs, 0int,
{
    if gs.len() == 0 {
        st
    } else {
        render_groups(emit(render_blocks(emit(st, open), gs[0]@), close), gs.drop_first(), open, close)
    }
}

/// Rendering the lines of a line block, one after another.
pub open spec fn render_lines(st: CompileState, ls: Seq<Vec<Inline>>) -> CompileState
    decreases ls, 0int,
{
    if ls.len() == 0 {
        st
    } else {
        render_lines(render_inlines(st, ls[0]@), ls.drop_first())
    }
}

/// Rendering the entries of a definition list: the term, then each
/// definition.
pub open spec fn render_defs(st: CompileState, ds: Seq<(Vec<Inline>, Vec<Vec<Block>>)>) -> CompileState
    decreases ds, 0int,
{
    if ds.len() == 0 {
        st
    } else {
        let st1 = emit(render_inlines(emit(st, "<dt>"@), ds[0].0@), "</dt>"@);
        render_defs(render_groups(st1, ds[0].1@, "<dd>"@, "</dd>"@), ds.drop_first())
    }
}

/// Rendering one inline.
pub open spec fn render_inline(st: CompileState, x: Inline) -> CompileState
    decreases x, 2int,
{
    match x {
        Inline::Str(t) => emit(st, escape_text_spec(t@)),
        Inline::Emph(xs) => tagged_inlines(st, "em"@, xs@),
        Inline::Strong(xs) => tagged_inlines(st, "strong"@, xs@),
        Inline::Strikeout(xs) => tagged_inlines(st, "del"@, xs@),
        Inline::Superscript(xs) => tagged_inlines(st, "sup"@, xs@),
        Inline::Subscript(xs) => tagged_inlines(st, "sub"@, xs@),
        Inline::SmallCaps(xs) =>
            emit(render_inlines(emit(st, "<span class=\"smallcaps\">"@), xs@), "</span>"@),
        Inline::Quoted(xs) => tagged_inlines(st, "q"@, xs@),
        Inline::Cite => st,
        Inline::Code(a, t) =>
            emit(st, "<code"@ + attr_html(with_inline_class(a@)) + ">"@ + escape_text_spec(t@) + "</code>"@),
        Inline::Space => emit(st, " "@),
        Inline::SoftBreak => emit(st, "\n"@),
        Inline::LineBreak => emit(st, "<br/>"@),
        Inline::Math => st,
        Inline::RawInline(f, t) => emit(st, raw_inline_html(f@, t@)),
        Inline::Link(a, xs, url, title) =>
            emit(render_inlines(emit(st, link_open_html(a@, url@, title@)), xs@), "</a>"@),
        Inline::Image(a, _, url, title) => emit(st, image_html(a@, url@, title@)),
        Inline::Note(bs) => render_note(st, bs@),
        Inline::Span(a, xs) => {
            let (t, a1) = resolve_tag(a@);
            let tag = tag_or(t, "span"@);
            emit(render_inlines(emit(st, "<"@ + tag + attr_html(a1) + ">"@), xs@), "</"@ + tag + ">"@)
        },
    }
}

/// Rendering inlines in order.
pub open spec fn render_inlines(st: CompileState, xs: Seq<Inline>) -> CompileState
    decreases xs, 0int,
{
    if xs.len() == 0 {
        st
    } else {
        render_inlines(render_inline(st, xs[0]), xs.drop_first())
    }
}

/// The state in which a footnote's body is rendered: it continues the
/// slide numbering and the footnote count, writes after the entry's start
/// in the queue, and has a queue of its own.
pub open spec fn note_state(st: CompileState) -> CompileState {
    CompileState {
        next_note: st.next_note,
        slide: st.slide,
        in_slide: st.in_slide,
        out: st.queue,
        queue: Seq::empty(),
    }
}

/// A footnote: the reference where it stands, and its entry in the queue.
/// Of the body's own rendering only what it writes is kept.
pub open spec fn render_note(st: CompileState, bs: Seq<Block>) -> CompileState
    decreases bs, 2int,
{
    let n = st.next_note;
    let st1 = CompileState {
        next_note: n + 1,
        out: st.out + note_ref_html(n),
        queue: st.queue + note_open_html(n),
        ..st
    };
    let body = render_note_body(note_state(st1), bs, n);
    CompileState { queue: body.out + "</li>"@, ..st1 }
}

/// The body of footnote `n`: where it ends in a paragraph, the paragraph
/// ends with a space and the link back to the reference.
pub open spec fn render_note_body(st: CompileState, bs: Seq<Block>, n: nat) -> CompileState
    decreases bs, 1int,
{
    if bs.len() > 0 && bs.last() is Para {
        let xs = bs.last()->Para_0;
        let st1 = render_blocks(st, bs.drop_last());
        emit(render_inlines(emit(st1, "<p>"@), xs@), " "@ + back_link_html(n) + "</p>"@)
    } else {
        render_blocks(st, bs)
    }
}

/// The state in which a document starts.
pub open spec fn initial_state() -> CompileState {
    CompileState { next_note: 1, slide: 0, in_slide: false, out: Seq::empty(), queue: Seq::empty() }
}

/// The markup of a whole document: its blocks, then the last slide closed
/// if one is open.
pub open spec fn document_html(doc: Seq<Block>) -> Seq<char> {
    let st = render_blocks(initial_state(), doc);
    if st.in_slide { end_slide_spec(st).out } else { st.out }
}

} // verus!
