//! The compiler: a depth-first walk over the document tree that writes the
//! markup, opens and closes slides at level-1 headers, and collects each
//! slide's footnotes for the end of the slide.
use vstd::prelude::*;
use crate::ast::{Attr, Block, Inline};
use crate::attrs::{copy_attr, ensure_figure_slot, get_and_remove_tag, has_class, key_value, write_attr};
use crate::highlight::Highlighter;
use crate::rendering::{
    back_link_html, code_block_html, emit, end_slide_spec, document_html, image_html, img_html, initial_state,
    is_html_format, link_open_html, note_open_html, note_ref_html, note_state, ol_open_html,
    open_slide_spec, raw_block_html, raw_inline_html, render_block, render_blocks, render_defs,
    render_groups, render_inline, render_inlines, render_lines, render_note, render_note_body,
    slide_open_html, tag_or, tagged_inlines, with_inline_class, CompileState,
};
use crate::attrs::{attr_html, resolve_tag};
use crate::text::{escape_text_spec, signed_decimal};
use crate::text::{
    escape_href, escape_html, eq_str, push_decimal, push_signed_decimal, push_str, push_text, starts_with,
};

verus! {

/// The number of nodes in a block, itself included.
pub open spec fn block_nodes(b: Block) -> nat
    decreases b, 0int,
{
    match b {
        Block::Plain(xs) => 1 + inlines_nodes(xs@),
        Block::Para(xs) => 1 + inlines_nodes(xs@),
        Block::LineBlock(ls) => 1 + lines_nodes(ls@),
        Block::BlockQuote(bs) => 1 + blocks_nodes(bs@),
        Block::OrderedList(_, items) => 1 + groups_nodes(items@),
        Block::BulletList(items) => 1 + groups_nodes(items@),
        Block::DefinitionList(ds) => 1 + defs_nodes(ds@),
        Block::Header(_, _, xs) => 1 + inlines_nodes(xs@),
        Block::Div(_, bs) => 1 + blocks_nodes(bs@),
        _ => 1,
    }
}

/// The number of nodes in a sequence of blocks.
pub open spec fn blocks_nodes(bs: Seq<Block>) -> nat
    decreases bs, 0int,
{
    if bs.len() == 0 { 0 } else { block_nodes(bs[0]) + blocks_nodes(bs.drop_first()) }
}

/// The number of nodes in groups of blocks.
pub open spec fn groups_nodes(gs: Seq<Vec<Block>>) -> nat
    decreases gs, 0int,
{
    if gs.len() == 0 { 0 } else { blocks_nodes(gs[0]@) + groups_nodes(gs.drop_first()) }
}

/// The number of nodes in the lines of a line block.
pub open spec fn lines_nodes(ls: Seq<Vec<Inline>>) -> nat
    decreases ls, 0int,
{
    if ls.len() == 0 { 0 } else { inlines_nodes(ls[0]@) + lines_nodes(ls.drop_first()) }
}

/// The number of nodes in the entries of a definition list.
pub open spec fn defs_nodes(ds: Seq<(Vec<Inline>, Vec<Vec<Block>>)>) -> nat
    decreases ds, 0int,
{
    if ds.len() == 0 {
        0
    } else {
        inlines_nodes(ds[0].0@) + groups_nodes(ds[0].1@) + defs_nodes(ds.drop_first())
    }
}

/// The number of nodes in an inline, itself included.
pub open spec fn inline_nodes(x: Inline) -> nat
    decreases x, 0int,
{
    match x {
        Inline::Emph(xs) => 1 + inlines_nodes(xs@),
        Inline::Strong(xs) => 1 + inlines_nodes(xs@),
        Inline::Strikeout(xs) => 1 + inlines_nodes(xs@),
        Inline::Superscript(xs) => 1 + inlines_nodes(xs@),
        Inline::Subscript(xs) => 1 + inlines_nodes(xs@),
        Inline::SmallCaps(xs) => 1 + inlines_nodes(xs@),
        Inline::Quoted(xs) => 1 + inlines_nodes(xs@),
        Inline::Link(_, xs, _, _) => 1 + inlines_nodes(xs@),
        Inline::Note(bs) => 1 + blocks_nodes(bs@),
        Inline::Span(_, xs) => 1 + inlines_nodes(xs@),
        _ => 1,
    }
}

/// The number of nodes in a sequence of inlines.
pub open spec fn inlines_nodes(xs: Seq<Inline>) -> nat
    decreases xs, 0int,
{
    if xs.len() == 0 { 0 } else { inline_nodes(xs[0]) + inlines_nodes(xs.drop_first()) }
}

/// Counting the nodes of consecutive ranges of blocks adds up.
pub proof fn lemma_blocks_nodes_split(s: Seq<Block>, i: int, j: int, k: int)
    requires
        0 <= i <= j <= k <= s.len(),
    ensures
        blocks_nodes(s.subrange(i, j)) + blocks_nodes(s.subrange(j, k)) == blocks_nodes(s.subrange(i, k)),
    decreases j - i,
{
    if i < j {
        assert(s.subrange(i, j).drop_first() =~= s.subrange(i + 1, j));
        assert(s.subrange(i, k).drop_first() =~= s.subrange(i + 1, k));
        lemma_blocks_nodes_split(s, i + 1, j, k);
    } else {
        assert(s.subrange(i, j) =~= Seq::<Block>::empty());
    }
}

/// One compilation in progress.
pub struct SlidesVisitor {
    /// the next footnote number
    footnote_index: u64,
    /// whether a slide is open
    in_slide: bool,
    /// the number of slides opened so far
    slide_ind: u64,
    out: Vec<char>,
    footnote_buffer: Vec<char>,
}

impl View for SlidesVisitor {
    type V = CompileState;

    closed spec fn view(&self) -> CompileState {
        CompileState {
            next_note: self.footnote_index as nat,
            slide: self.slide_ind as nat,
            in_slide: self.in_slide,
            out: self.out@,
            queue: self.footnote_buffer@,
        }
    }
}

/// Writes a code block, given what the highlighter returned for it.
pub fn write_code_block(out: &mut Vec<char>, attrs: &Attr, text: &Vec<char>, highlighted: &Option<Vec<char>>)
    ensures
        final(out)@ == old(out)@ + code_block_html(
            attrs@,
            text@,
            match highlighted {
                Some(h) => Some(h@),
                None => None,
            },
        ),
{
    push_str(out, "<pre><code");
    write_attr(out, attrs);
    push_str(out, ">");
    match highlighted {
        Some(h) => push_text(out, h),
        None => escape_html(out, text),
    }
    push_str(out, "</code></pre>");
    assert(out@ =~= old(out)@ + code_block_html(
        attrs@,
        text@,
        match highlighted {
            Some(h) => Some(h@),
            None => None,
        },
    ));
}

/// Whether raw content in format `f` passes through.
fn html_format(f: &Vec<char>) -> (r: bool)
    ensures
        r == is_html_format(f@),
{
    eq_str(f, "html") || eq_str(f, "html5") || eq_str(f, "html4")
}

impl SlidesVisitor {
    /// A compiler at the start of a document.
    pub fn new() -> (r: Self)
        ensures
            r@ == initial_state(),
    {
        SlidesVisitor {
            footnote_index: 1,
            in_slide: false,
            slide_ind: 0,
            out: Vec::new(),
            footnote_buffer: Vec::new(),
        }
    }

    fn emit_str(&mut self, s: &str)
        ensures
            final(self)@ == emit(old(self)@, s@),
    {
        push_str(&mut self.out, s);
    }

    /// Closes the open slide: the queued footnotes in a trailing list, then
    /// the slide's end tag.
    pub fn end_slide(&mut self)
        ensures
            final(self)@ == end_slide_spec(old(self)@),
    {
        push_str(&mut self.out, "<ol slot=\"footnotes\">");
        push_text(&mut self.out, &self.footnote_buffer);
        self.footnote_buffer = Vec::new();
        push_str(&mut self.out, "</ol></pres-slide>");
        assert(self.out@ =~= old(self)@.out + ("<ol slot=\"footnotes\">"@ + old(self)@.queue + "</ol></pres-slide>"@));
    }

    /// Writes inline content between `<tag>` and `</tag>`.
    fn inlines_with_tag(&mut self, tag: &str, xs: &Vec<Inline>, hl: &Highlighter)
        requires
            old(self)@.next_note + inlines_nodes(xs@) <= u64::MAX,
            old(self)@.slide + inlines_nodes(xs@) <= u64::MAX,
        ensures
            final(self)@ == tagged_inlines(old(self)@, tag@, xs@),
            final(self)@.next_note <= old(self)@.next_note + inlines_nodes(xs@),
            final(self)@.slide <= old(self)@.slide + inlines_nodes(xs@),
        decreases xs, 1int, 0int,
    {
        let ghost st0 = self@;
        assert(xs@.skip(0) =~= xs@);
        push_str(&mut self.out, "<");
        push_str(&mut self.out, tag);
        push_str(&mut self.out, ">");
        assert(self.out@ =~= st0.out + ("<"@ + tag@ + ">"@));
        assert(self@ == emit(st0, "<"@ + tag@ + ">"@));
        self.visit_inlines(xs, 0, hl);
        let ghost st1 = self@;
        push_str(&mut self.out, "</");
        push_str(&mut self.out, tag);
        push_str(&mut self.out, ">");
        assert(self.out@ =~= st1.out + ("</"@ + tag@ + ">"@));
        assert(self@ == emit(st1, "</"@ + tag@ + ">"@));
        assert(xs@.skip(0) =~= xs@);
    }

    /// Writes blocks `from..to` of `bs`, in order.
    pub fn visit_blocks(&mut self, bs: &Vec<Block>, from: usize, to: usize, hl: &Highlighter)
        requires
            from <= to <= bs@.len(),
            old(self)@.next_note + blocks_nodes(bs@.subrange(from as int, to as int)) <= u64::MAX,
            old(self)@.slide + blocks_nodes(bs@.subrange(from as int, to as int)) <= u64::MAX,
        ensures
            final(self)@ == render_blocks(old(self)@, bs@.subrange(from as int, to as int)),
            final(self)@.next_note <= old(self)@.next_note + blocks_nodes(bs@.subrange(from as int, to as int)),
            final(self)@.slide <= old(self)@.slide + blocks_nodes(bs@.subrange(from as int, to as int)),
        decreases bs, 0int, to - from,
    {
        let ghost s = bs@.subrange(from as int, to as int);
        if from < to {
            assert(s.drop_first() =~= bs@.subrange(from + 1, to as int));
            assert(s[0] == bs@[from as int]);
            self.visit_block(&bs[from], hl);
            self.visit_blocks(bs, from + 1, to, hl);
        } else {
            assert(s =~= Seq::<Block>::empty());
        }
    }

    /// Writes groups `from..` of `gs`, each between `open` and `close`.
    fn visit_groups(&mut self, gs: &Vec<Vec<Block>>, from: usize, open: &str, close: &str, hl: &Highlighter)
        requires
            from <= gs@.len(),
            old(self)@.next_note + groups_nodes(gs@.skip(from as int)) <= u64::MAX,
            old(self)@.slide + groups_nodes(gs@.skip(from as int)) <= u64::MAX,
        ensures
            final(self)@ == render_groups(old(self)@, gs@.skip(from as int), open@, close@),
            final(self)@.next_note <= old(self)@.next_note + groups_nodes(gs@.skip(from as int)),
            final(self)@.slide <= old(self)@.slide + groups_nodes(gs@.skip(from as int)),
        decreases gs, 0int, gs@.len() - from,
    {
        let ghost s = gs@.skip(from as int);
        if from < gs.len() {
            assert(s.drop_first() =~= gs@.skip(from + 1));
            assert(s[0] == gs@[from as int]);
            let g = &gs[from];
            self.emit_str(open);
            assert(g@.subrange(0, g@.len() as int) =~= g@);
            self.visit_blocks(g, 0, g.len(), hl);
            self.emit_str(close);
            self.visit_groups(gs, from + 1, open, close, hl);
        } else {
            assert(s =~= Seq::<Vec<Block>>::empty());
        }
    }

    /// Writes lines `from..` of a line block.
    fn visit_lines(&mut self, ls: &Vec<Vec<Inline>>, from: usize, hl: &Highlighter)
        requires
            from <= ls@.len(),
            old(self)@.next_note + lines_nodes(ls@.skip(from as int)) <= u64::MAX,
            old(self)@.slide + lines_nodes(ls@.skip(from as int)) <= u64::MAX,
        ensures
            final(self)@ == render_lines(old(self)@, ls@.skip(from as int)),
            final(self)@.next_note <= old(self)@.next_note + lines_nodes(ls@.skip(from as int)),
            final(self)@.slide <= old(self)@.slide + lines_nodes(ls@.skip(from as int)),
        decreases ls, 0int, ls@.len() - from,
    {
        let ghost s = ls@.skip(from as int);
        if from < ls.len() {
            assert(s.drop_first() =~= ls@.skip(from + 1));
            assert(s[0] == ls@[from as int]);
            let l = &ls[from];
            assert(l@.skip(0) =~= l@);
            self.visit_inlines(l, 0, hl);
            self.visit_lines(ls, from + 1, hl);
        } else {
            assert(s =~= Seq::<Vec<Inline>>::empty());
        }
    }

    /// Writes entries `from..` of a definition list.
    fn visit_defs(&mut self, ds: &Vec<(Vec<Inline>, Vec<Vec<Block>>)>, from: usize, hl: &Highlighter)
        requires
            from <= ds@.len(),
            old(self)@.next_note + defs_nodes(ds@.skip(from as int)) <= u64::MAX,
            old(self)@.slide + defs_nodes(ds@.skip(from as int)) <= u64::MAX,
        ensures
            final(self)@ == render_defs(old(self)@, ds@.skip(from as int)),
            final(self)@.next_note <= old(self)@.next_note + defs_nodes(ds@.skip(from as int)),
            final(self)@.slide <= old(self)@.slide + defs_nodes(ds@.skip(from as int)),
        decreases ds, 0int, ds@.len() - from,
    {
        let ghost s = ds@.skip(from as int);
        if from < ds.len() {
            assert(s.drop_first() =~= ds@.skip(from + 1));
            assert(s[0] == ds@[from as int]);
            let d = &ds[from];
            self.emit_str("<dt>");
            assert(d.0@.skip(0) =~= d.0@);
            self.visit_inlines(&d.0, 0, hl);
            self.emit_str("</dt>");
            assert(d.1@.skip(0) =~= d.1@);
            self.visit_groups(&d.1, 0, "<dd>", "</dd>", hl);
            self.visit_defs(ds, from + 1, hl);
        } else {
            assert(s =~= Seq::<(Vec<Inline>, Vec<Vec<Block>>)>::empty());
        }
    }

    /// Writes inlines `from..` of `xs`, in order.
    pub fn visit_inlines(&mut self, xs: &Vec<Inline>, from: usize, hl: &Highlighter)
        requires
            from <= xs@.len(),
            old(self)@.next_note + inlines_nodes(xs@.skip(from as int)) <= u64::MAX,
            old(self)@.slide + inlines_nodes(xs@.skip(from as int)) <= u64::MAX,
        ensures
            final(self)@ == render_inlines(old(self)@, xs@.skip(from as int)),
            final(self)@.next_note <= old(self)@.next_note + inlines_nodes(xs@.skip(from as int)),
            final(self)@.slide <= old(self)@.slide + inlines_nodes(xs@.skip(from as int)),
        decreases xs, 0int, xs@.len() - from,
    {
        let ghost s = xs@.skip(from as int);
        if from < xs.len() {
            assert(s.drop_first() =~= xs@.skip(from + 1));
            assert(s[0] == xs@[from as int]);
            self.visit_inline(&xs[from], hl);
            self.visit_inlines(xs, from + 1, hl);
        } else {
            assert(s =~= Seq::<Inline>::empty());
        }
    }

    /// Writes a wrapper's start tag, `<tag attrs>`.
    fn open_tag(&mut self, tag: &Vec<char>, attrs: &Attr)
        ensures
            final(self)@ == emit(old(self)@, "<"@ + tag@ + attr_html_of(attrs) + ">"@),
    {
        push_str(&mut self.out, "<");
        push_text(&mut self.out, tag);
        write_attr(&mut self.out, attrs);
        push_str(&mut self.out, ">");
        assert(self.out@ =~= old(self)@.out + ("<"@ + tag@ + attr_html_of(attrs) + ">"@));
        assert(self@ == emit(old(self)@, "<"@ + tag@ + attr_html_of(attrs) + ">"@));
    }

    /// Writes a wrapper's end tag, `</tag>`.
    fn close_tag(&mut self, tag: &Vec<char>)
        ensures
            final(self)@ == emit(old(self)@, "</"@ + tag@ + ">"@),
    {
        push_str(&mut self.out, "</");
        push_text(&mut self.out, tag);
        push_str(&mut self.out, ">");
        assert(self.out@ =~= old(self)@.out + ("</"@ + tag@ + ">"@));
        assert(self@ == emit(old(self)@, "</"@ + tag@ + ">"@));
    }

    /// A wrapper's tag: the one it asks for, or `default`.
    fn wrapper_tag(attrs: &mut Attr, default: &str) -> (r: Vec<char>)
        ensures
            r@ == tag_or(resolve_tag(old(attrs)@).0, default@),
            final(attrs)@ == resolve_tag(old(attrs)@).1,
    {
        match get_and_remove_tag(attrs) {
            Some(t) => t,
            None => {
                let mut d: Vec<char> = Vec::new();
                push_str(&mut d, default);
                d
            },
        }
    }
}

impl SlidesVisitor {
    /// Writes a level-1 header's slide change: the open slide closed, if
    /// any, and the next one opened.
    fn open_slide(&mut self, attrs: &Attr)
        requires
            old(self)@.slide < u64::MAX,
        ensures
            final(self)@ == open_slide_spec(old(self)@, attrs@),
            final(self)@.slide == old(self)@.slide + 1,
            final(self)@.next_note == old(self)@.next_note,
    {
        if self.in_slide {
            self.end_slide();
        }
        self.in_slide = true;
        let ghost st1 = self@;
        match key_value(attrs, "master") {
            Some(m) => {
                push_str(&mut self.out, "<pres-slide master=\"");
                push_text(&mut self.out, &m);
                push_str(&mut self.out, "\" id=\"slide-");
                push_decimal(&mut self.out, self.slide_ind);
                push_str(&mut self.out, "\">");
            },
            None => {
                push_str(&mut self.out, "<pres-slide id=\"slide-");
                push_decimal(&mut self.out, self.slide_ind);
                push_str(&mut self.out, "\">");
            },
        }
        assert(self.out@ =~= st1.out + (slide_open_html(attrs@, self.slide_ind as nat)));
        self.slide_ind = self.slide_ind + 1;
    }

    /// Writes one block.
    pub fn visit_block(&mut self, b: &Block, hl: &Highlighter)
        requires
            old(self)@.next_note + block_nodes(*b) <= u64::MAX,
            old(self)@.slide + block_nodes(*b) <= u64::MAX,
        ensures
            final(self)@ == render_block(old(self)@, *b),
            final(self)@.next_note <= old(self)@.next_note + block_nodes(*b),
            final(self)@.slide <= old(self)@.slide + block_nodes(*b),
        decreases b, 0int, 0int,
    {
        let ghost st0 = self@;
        match b {
            Block::Plain(xs) => {
                assert(xs@.skip(0) =~= xs@);
                self.visit_inlines(xs, 0, hl);
            },
            Block::Para(xs) => {
                assert(xs@.skip(0) =~= xs@);
                self.emit_str("<p>");
                self.visit_inlines(xs, 0, hl);
                self.emit_str("</p>");
            },
            Block::LineBlock(ls) => {
                assert(ls@.skip(0) =~= ls@);
                self.visit_lines(ls, 0, hl);
            },
            Block::CodeBlock(a, t) => {
                let h = if a.classes.len() > 0 { hl.highlight(&a.classes[0], t) } else { None };
                write_code_block(&mut self.out, a, t, &h);
            },
            Block::RawBlock(f, t) => {
                if html_format(f) {
                    if eq_str(t, "<figure>") {
                        self.emit_str("<figure slot=\"figure\">");
                    } else {
                        push_text(&mut self.out, t);
                    }
                }
                assert(self.out@ =~= st0.out + (raw_block_html(f@, t@)));
                assert(self@ == emit(st0, raw_block_html(f@, t@)));
            },
            Block::BlockQuote(bs) => {
                assert(bs@.subrange(0, bs@.len() as int) =~= bs@);
                self.emit_str("<bq>");
                self.visit_blocks(bs, 0, bs.len(), hl);
                self.emit_str("</bq>");
            },
            Block::OrderedList(start, items) => {
                assert(items@.skip(0) =~= items@);
                if *start != 1 {
                    push_str(&mut self.out, "<ol start=\"");
                    push_signed_decimal(&mut self.out, *start);
                    push_str(&mut self.out, "\">");
                } else {
                    push_str(&mut self.out, "<ol>");
                }
                assert(self.out@ =~= st0.out + (ol_open_html(*start as int)));
                assert(self@ == emit(st0, ol_open_html(*start as int)));
                self.visit_groups(items, 0, "<li>", "</li>", hl);
                self.emit_str("</ol>");
            },
            Block::BulletList(items) => {
                assert(items@.skip(0) =~= items@);
                self.emit_str("<ul>");
                self.visit_groups(items, 0, "<li>", "</li>", hl);
                self.emit_str("</ul>");
            },
            Block::DefinitionList(ds) => {
                assert(ds@.skip(0) =~= ds@);
                self.emit_str("<dl>");
                self.visit_defs(ds, 0, hl);
                self.emit_str("</dl>");
            },
            Block::Header(lvl, a, xs) => {
                assert(xs@.skip(0) =~= xs@);
                if *lvl == 1 {
                    self.open_slide(a);
                }
                let ghost st1 = self@;
                push_str(&mut self.out, "<h");
                push_signed_decimal(&mut self.out, *lvl);
                write_attr(&mut self.out, a);
                push_str(&mut self.out, ">");
                assert(self.out@ =~= st1.out + ("<h"@ + signed_decimal(*lvl as int) + attr_html(a@) + ">"@));
                assert(self@ == emit(st1, "<h"@ + signed_decimal(*lvl as int) + attr_html(a@) + ">"@));
                self.visit_inlines(xs, 0, hl);
                let ghost st2 = self@;
                push_str(&mut self.out, "</h");
                push_signed_decimal(&mut self.out, *lvl);
                push_str(&mut self.out, ">");
                assert(self.out@ =~= st2.out + ("</h"@ + signed_decimal(*lvl as int) + ">"@));
                assert(self@ == emit(st2, "</h"@ + signed_decimal(*lvl as int) + ">"@));
            },
            Block::HorizontalRule => {
                self.emit_str("<hr/>");
            },
            Block::Table => {},
            Block::Div(a, bs) => {
                assert(bs@.subrange(0, bs@.len() as int) =~= bs@);
                let mut a1 = copy_attr(a);
                let tag = Self::wrapper_tag(&mut a1, "div");
                self.open_tag(&tag, &a1);
                self.visit_blocks(bs, 0, bs.len(), hl);
                self.close_tag(&tag);
            },
            Block::Null => {},
        }
    }

    /// Writes a footnote's reference, and queues its entry: the body
    /// rendered by a compiler of its own that writes into the queue.
    fn visit_note(&mut self, bs: &Vec<Block>, hl: &Highlighter)
        requires
            old(self)@.next_note + 1 + blocks_nodes(bs@) <= u64::MAX,
            old(self)@.slide + 1 + blocks_nodes(bs@) <= u64::MAX,
        ensures
            final(self)@ == render_note(old(self)@, bs@),
            final(self)@.next_note == old(self)@.next_note + 1,
            final(self)@.slide == old(self)@.slide,
        decreases bs, 2int, 0int,
    {
        let num = self.footnote_index;
        self.footnote_index = num + 1;
        push_str(&mut self.out, "<a id=\"fnref-");
        push_decimal(&mut self.out, num);
        push_str(&mut self.out, "\" class=\"footnote-ref\" href=\"#fn-");
        push_decimal(&mut self.out, num);
        push_str(&mut self.out, "\" role=\"doc-noteref\">");
        push_decimal(&mut self.out, num);
        push_str(&mut self.out, "</a>");
        push_str(&mut self.footnote_buffer, "<li value=\"");
        push_decimal(&mut self.footnote_buffer, num);
        push_str(&mut self.footnote_buffer, "\" role=\"doc-endnote\" id=\"fn-");
        push_decimal(&mut self.footnote_buffer, num);
        push_str(&mut self.footnote_buffer, "\">");
        let ghost st1 = self@;
        assert(self.out@ =~= old(self)@.out + (note_ref_html(num as nat)));
        assert(self.footnote_buffer@ =~= old(self)@.queue + note_open_html(num as nat));
        assert(st1 == CompileState {
            next_note: (num + 1) as nat,
            out: old(self)@.out + note_ref_html(num as nat),
            queue: old(self)@.queue + note_open_html(num as nat),
            ..old(self)@
        });
        let mut queue: Vec<char> = Vec::new();
        core::mem::swap(&mut queue, &mut self.footnote_buffer);
        let mut sub = SlidesVisitor {
            footnote_index: self.footnote_index,
            in_slide: self.in_slide,
            slide_ind: self.slide_ind,
            out: queue,
            footnote_buffer: Vec::new(),
        };
        assert(sub@ == note_state(st1));
        sub.visit_note_body(bs, num, hl);
        self.footnote_buffer = sub.out;
        push_str(&mut self.footnote_buffer, "</li>");
    }

    /// Writes a footnote's body; a closing paragraph gets a space and the
    /// link back to reference `num`.
    fn visit_note_body(&mut self, bs: &Vec<Block>, num: u64, hl: &Highlighter)
        requires
            old(self)@.next_note + blocks_nodes(bs@) <= u64::MAX,
            old(self)@.slide + blocks_nodes(bs@) <= u64::MAX,
        ensures
            final(self)@ == render_note_body(old(self)@, bs@, num as nat),
        decreases bs, 1int, 0int,
    {
        let n = bs.len();
        assert(bs@.subrange(0, n as int) =~= bs@);
        if n > 0 {
            if let Block::Para(xs) = &bs[n - 1] {
                proof {
                    lemma_blocks_nodes_split(bs@, 0, n - 1, n as int);
                    let last = bs@.subrange(n - 1, n as int);
                    assert(last.drop_first() =~= Seq::<Block>::empty());
                    assert(last[0] == bs@[n - 1]);
                    assert(bs@.subrange(0, n - 1) =~= bs@.drop_last());
                    assert(xs@.skip(0) =~= xs@);
                    assert(blocks_nodes(last.drop_first()) == 0);
                    assert(block_nodes(bs@[n - 1]) == 1 + inlines_nodes(xs@));
                }
                self.visit_blocks(bs, 0, n - 1, hl);
                self.emit_str("<p>");
                self.visit_inlines(xs, 0, hl);
                let ghost st2 = self@;
                push_str(&mut self.out, " <a class=\"footnote-back\" role=\"doc-backlink\" href=\"#fnref-");
                push_decimal(&mut self.out, num);
                push_str(&mut self.out, "\">\u{21a9}</a></p>");
                proof {
                    reveal_strlit(" <a class=\"footnote-back\" role=\"doc-backlink\" href=\"#fnref-");
                    reveal_strlit("<a class=\"footnote-back\" role=\"doc-backlink\" href=\"#fnref-");
                    reveal_strlit("\">\u{21a9}</a></p>");
                    reveal_strlit("\">\u{21a9}</a>");
                    reveal_strlit("</p>");
                    reveal_strlit(" ");
                }
                assert(self.out@ =~= st2.out + (" "@ + back_link_html(num as nat) + "</p>"@));
                assert(self@ == emit(st2, " "@ + back_link_html(num as nat) + "</p>"@));
                return;
            }
        }
        self.visit_blocks(bs, 0, n, hl);
    }

    /// Writes one inline.
    pub fn visit_inline(&mut self, x: &Inline, hl: &Highlighter)
        requires
            old(self)@.next_note + inline_nodes(*x) <= u64::MAX,
            old(self)@.slide + inline_nodes(*x) <= u64::MAX,
        ensures
            final(self)@ == render_inline(old(self)@, *x),
            final(self)@.next_note <= old(self)@.next_note + inline_nodes(*x),
            final(self)@.slide <= old(self)@.slide + inline_nodes(*x),
        decreases x, 2int, 0int,
    {
        let ghost st0 = self@;
        match x {
            Inline::Str(t) => {
                escape_html(&mut self.out, t);
            },
            Inline::Emph(xs) => self.inlines_with_tag("em", xs, hl),
            Inline::Strong(xs) => self.inlines_with_tag("strong", xs, hl),
            Inline::Strikeout(xs) => self.inlines_with_tag("del", xs, hl),
            Inline::Superscript(xs) => self.inlines_with_tag("sup", xs, hl),
            Inline::Subscript(xs) => self.inlines_with_tag("sub", xs, hl),
            Inline::SmallCaps(xs) => {
                assert(xs@.skip(0) =~= xs@);
                self.emit_str("<span class=\"smallcaps\">");
                self.visit_inlines(xs, 0, hl);
                self.emit_str("</span>");
            },
            Inline::Quoted(xs) => self.inlines_with_tag("q", xs, hl),
            Inline::Cite => {},
            Inline::Code(a, t) => {
                let mut a1 = copy_attr(a);
                if !has_class(&a1, "inline") {
                    let mut c: Vec<char> = Vec::new();
                    push_str(&mut c, "inline");
                    a1.classes.push(c);
                    assert(a1@.classes =~= a@.classes.push("inline"@));
                }
                assert(a1@ == with_inline_class(a@));
                push_str(&mut self.out, "<code");
                write_attr(&mut self.out, &a1);
                push_str(&mut self.out, ">");
                escape_html(&mut self.out, t);
                push_str(&mut self.out, "</code>");
                assert(self.out@ =~= st0.out + ("<code"@ + attr_html(with_inline_class(a@)) + ">"@ + escape_text_spec(t@) + "</code>"@));
            },
            Inline::Space => self.emit_str(" "),
            Inline::SoftBreak => self.emit_str("\n"),
            Inline::LineBreak => self.emit_str("<br/>"),
            Inline::Math => {},
            Inline::RawInline(f, t) => {
                if html_format(f) {
                    push_text(&mut self.out, t);
                }
                assert(self.out@ =~= st0.out + (raw_inline_html(f@, t@)));
                assert(self@ == emit(st0, raw_inline_html(f@, t@)));
            },
            Inline::Link(a, xs, url, title) => {
                assert(xs@.skip(0) =~= xs@);
                push_str(&mut self.out, "<a");
                write_attr(&mut self.out, a);
                if title.len() != 0 {
                    push_str(&mut self.out, " title=\"");
                    escape_html(&mut self.out, title);
                    push_str(&mut self.out, "\"");
                }
                push_str(&mut self.out, " href=\"");
                escape_href(&mut self.out, url);
                push_str(&mut self.out, "\">");
                assert(self.out@ =~= st0.out + (link_open_html(a@, url@, title@)));
                assert(self@ == emit(st0, link_open_html(a@, url@, title@)));
                self.visit_inlines(xs, 0, hl);
                self.emit_str("</a>");
            },
            Inline::Image(a, _, url, title) => {
                self.write_image(a, url, title);
            },
            Inline::Note(bs) => {
                self.visit_note(bs, hl);
            },
            Inline::Span(a, xs) => {
                assert(xs@.skip(0) =~= xs@);
                let mut a1 = copy_attr(a);
                let tag = Self::wrapper_tag(&mut a1, "span");
                self.open_tag(&tag, &a1);
                self.visit_inlines(xs, 0, hl);
                self.close_tag(&tag);
            },
        }
    }

    /// Writes an image, inside a figure when its title starts with `fig:`.
    fn write_image(&mut self, attrs: &Attr, url: &Vec<char>, title: &Vec<char>)
        ensures
            final(self)@ == emit(old(self)@, image_html(attrs@, url@, title@)),
    {
        proof {
            reveal_strlit("fig:");
        }
        if starts_with(title, "fig:") {
            let mut t: Vec<char> = Vec::new();
            let mut i: usize = 4;
            while i < title.len()
                invariant
                    4 <= i <= title@.len(),
                    t@ == title@.subrange(4, i as int),
                decreases title@.len() - i,
            {
                t.push(title[i]);
                i = i + 1;
                assert(title@.subrange(4, i as int) =~= title@.subrange(4, i - 1).push(title@[i - 1]));
            }
            assert(t@ =~= title@.skip(4));
            let mut a1 = copy_attr(attrs);
            ensure_figure_slot(&mut a1);
            push_str(&mut self.out, "<figure");
            write_attr(&mut self.out, &a1);
            push_str(&mut self.out, ">");
            write_img(&mut self.out, &a1, &t, url);
            push_str(&mut self.out, "</figure>");
            assert(self.out@ =~= old(self)@.out + image_html(attrs@, url@, title@));
        } else {
            write_img(&mut self.out, attrs, title, url);
        }
    }
}

/// Writes an `img` element.
fn write_img(out: &mut Vec<char>, attrs: &Attr, alt: &Vec<char>, url: &Vec<char>)
    ensures
        final(out)@ == old(out)@ + img_html(attrs@, alt@, url@),
{
    push_str(out, "<img");
    write_attr(out, attrs);
    if alt.len() != 0 {
        push_str(out, " alt=\"");
        escape_html(out, alt);
        push_str(out, "\"");
    }
    push_str(out, " src=\"");
    escape_href(out, url);
    push_str(out, "\">");
    push_str(out, "</img>");
    assert(out@ =~= old(out)@ + img_html(attrs@, alt@, url@));
}

/// Compiles a whole document: its blocks, then the last slide closed if
/// one is open.
pub fn compile(doc: &Vec<Block>, hl: &Highlighter) -> (r: Vec<char>)
    requires
        1 + blocks_nodes(doc@) <= u64::MAX,
    ensures
        r@ == document_html(doc@),
{
    let mut v = SlidesVisitor::new();
    assert(doc@.subrange(0, doc@.len() as int) =~= doc@);
    v.visit_blocks(doc, 0, doc.len(), hl);
    if v.in_slide {
        v.end_slide();
    }
    v.out
}

/// The attributes rendered, for a start tag.
pub open spec fn attr_html_of(a: &Attr) -> Seq<char> {
    crate::attrs::attr_html(a@)
}

} // verus!
