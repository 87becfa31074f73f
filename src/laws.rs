//! Properties of the library stated over its specifications.
use vstd::prelude::*;
use crate::ast::{AttrView, Block, Inline};
use crate::attrs::{find_key, resolve_tag};
use crate::rendering::{
    initial_state, render_block, render_blocks, render_defs, render_groups, render_inline,
    render_inlines, render_lines, render_note, render_note_body, tagged_inlines, CompileState,
};
use crate::text::{escape_char, escape_text_spec};

verus! {

/// Reading escaped text back: each entity stands for its character.
pub open spec fn unescape(s: Seq<char>) -> Seq<char>
    decreases s.len(),
{
    if s.len() >= 5 && s.take(5) == "&amp;"@ {
        seq!['&'] + unescape(s.skip(5))
    } else if s.len() >= 4 && s.take(4) == "&lt;"@ {
        seq!['<'] + unescape(s.skip(4))
    } else if s.len() >= 4 && s.take(4) == "&gt;"@ {
        seq!['>'] + unescape(s.skip(4))
    } else if s.len() >= 6 && s.take(6) == "&quot;"@ {
        seq!['"'] + unescape(s.skip(6))
    } else if s.len() >= 5 && s.take(5) == "&#39;"@ {
        seq!['\''] + unescape(s.skip(5))
    } else if s.len() > 0 {
        seq![s[0]] + unescape(s.drop_first())
    } else {
        Seq::empty()
    }
}

proof fn lemma_escape_append(a: Seq<char>, b: Seq<char>)
    ensures
        escape_text_spec(a + b) == escape_text_spec(a) + escape_text_spec(b),
    decreases b.len(),
{
    if b.len() == 0 {
        assert(a + b =~= a);
        assert(escape_text_spec(a) + escape_text_spec(b) =~= escape_text_spec(a));
    } else {
        assert((a + b).drop_last() =~= a + b.drop_last());
        assert((a + b).last() == b.last());
        lemma_escape_append(a, b.drop_last());
        assert(escape_text_spec(a + b) =~= escape_text_spec(a) + escape_text_spec(b));
    }
}

proof fn lemma_unescape_char(c: char, rest: Seq<char>)
    ensures
        unescape(escape_char(c) + rest) == seq![c] + unescape(rest),
{
    reveal_strlit("&amp;");
    reveal_strlit("&lt;");
    reveal_strlit("&gt;");
    reveal_strlit("&quot;");
    reveal_strlit("&#39;");
    let e = escape_char(c) + rest;
    assert forall|k: int| 0 < k <= e.len() implies #[trigger] e.take(k)[0] == e[0]
        && (k > 1 ==> e.take(k)[1] == e[1]) by {}
    if c == '&' {
        assert(e.take(5) =~= "&amp;"@);
        assert(e.skip(5) =~= rest);
    } else if c == '<' {
        assert(e.take(4) =~= "&lt;"@);
        assert(e.skip(4) =~= rest);
        assert(e[1] == 'l');
        assert(e.len() >= 5 ==> e.take(5) != "&amp;"@);
    } else if c == '>' {
        assert(e.take(4) =~= "&gt;"@);
        assert(e.skip(4) =~= rest);
        assert(e[1] == 'g');
        assert(e.len() >= 5 ==> e.take(5) != "&amp;"@);
        assert(e.take(4) != "&lt;"@);
    } else if c == '"' {
        assert(e.take(6) =~= "&quot;"@);
        assert(e.skip(6) =~= rest);
        assert(e[1] == 'q');
        assert(e.take(5) != "&amp;"@);
        assert(e.take(4) != "&lt;"@);
        assert(e.take(4) != "&gt;"@);
    } else if c == '\'' {
        assert(e.take(5) =~= "&#39;"@);
        assert(e.skip(5) =~= rest);
        assert(e[1] == '#');
        assert(e.take(5) != "&amp;"@);
        assert(e.take(4) != "&lt;"@);
        assert(e.take(4) != "&gt;"@);
        assert(e.len() >= 6 ==> e.take(6) != "&quot;"@);
    } else {
        assert(e[0] == c);
        assert(e.drop_first() =~= rest);
        assert(e.len() >= 4 ==> e.take(4)[0] == c && e.take(4) != "&lt;"@);
        assert(e.len() >= 5 ==> e.take(5)[0] == c && e.take(5) != "&amp;"@);
        assert(e.len() >= 6 ==> e.take(6)[0] == c && e.take(6) != "&quot;"@);
    }
}

/// Whether one of the five entities starts at `i` in `e`.
pub open spec fn entity_at(e: Seq<char>, i: int) -> bool {
    ||| (i + 5 <= e.len() && e.subrange(i, i + 5) == "&amp;"@)
    ||| (i + 4 <= e.len() && e.subrange(i, i + 4) == "&lt;"@)
    ||| (i + 4 <= e.len() && e.subrange(i, i + 4) == "&gt;"@)
    ||| (i + 6 <= e.len() && e.subrange(i, i + 6) == "&quot;"@)
    ||| (i + 5 <= e.len() && e.subrange(i, i + 5) == "&#39;"@)
}

proof fn lemma_entity_shift(p: Seq<char>, r: Seq<char>, j: int)
    requires
        0 <= j < r.len(),
        entity_at(r, j),
    ensures
        entity_at(p + r, p.len() + j),
{
    let e = p + r;
    let i = p.len() + j;
    assert forall|k: int| 0 <= k && j + k <= r.len() implies #[trigger] e.subrange(i, i + k) == r.subrange(j, j + k) by {
        assert(e.subrange(i, i + k) =~= r.subrange(j, j + k));
    }
    if j + 4 <= r.len() {
        assert(e.subrange(i, i + 4) == r.subrange(j, j + 4));
    }
    if j + 5 <= r.len() {
        assert(e.subrange(i, i + 5) == r.subrange(j, j + 5));
    }
    if j + 6 <= r.len() {
        assert(e.subrange(i, i + 6) == r.subrange(j, j + 6));
    }
}

proof fn lemma_escape_char_entities(c: char, r: Seq<char>)
    ensures
        forall|i: int| 0 <= i < escape_char(c).len() && (escape_char(c) + r)[i] == '&' ==> entity_at(escape_char(c) + r, i),
{
    reveal_strlit("&amp;");
    reveal_strlit("&lt;");
    reveal_strlit("&gt;");
    reveal_strlit("&quot;");
    reveal_strlit("&#39;");
    let p = escape_char(c);
    let e = p + r;
    assert(e.subrange(0, p.len() as int) =~= p);
}

/// Escaped text holds no `<`, `>` or quote characters, so nothing in it is
/// read as a tag or ends a quoted attribute value; every `&` in it starts
/// one of the five entities; and reading the entities back gives the text
/// again.
pub proof fn lemma_escape_text_safe(s: Seq<char>)
    ensures
        forall|i: int| 0 <= i < escape_text_spec(s).len() ==> {
            let c = #[trigger] escape_text_spec(s)[i];
            c != '<' && c != '>' && c != '"' && c != '\''
        },
        forall|i: int| 0 <= i < escape_text_spec(s).len() && #[trigger] escape_text_spec(s)[i] == '&'
            ==> entity_at(escape_text_spec(s), i),
        unescape(escape_text_spec(s)) == s,
    decreases s.len(),
{
    reveal_strlit("&amp;");
    reveal_strlit("&lt;");
    reveal_strlit("&gt;");
    reveal_strlit("&quot;");
    reveal_strlit("&#39;");
    if s.len() > 0 {
        let rest = s.drop_first();
        lemma_escape_text_safe(rest);
        assert(s =~= seq![s[0]] + rest);
        lemma_escape_append(seq![s[0]], rest);
        assert(seq![s[0]].drop_last() =~= Seq::<char>::empty());
        assert(escape_text_spec(seq![s[0]].drop_last()) =~= Seq::<char>::empty());
        assert(escape_text_spec(seq![s[0]]) =~= escape_char(s[0]));
        lemma_unescape_char(s[0], escape_text_spec(rest));
        let p = escape_char(s[0]);
        let r = escape_text_spec(rest);
        let e = escape_text_spec(s);
        assert(e == p + r);
        lemma_escape_char_entities(s[0], r);
        assert forall|i: int| 0 <= i < e.len() implies {
            let c = #[trigger] e[i];
            c != '<' && c != '>' && c != '"' && c != '\''
        } by {
            if i >= p.len() {
                assert(e[i] == r[i - p.len()]);
            }
        }
        assert forall|i: int| 0 <= i < e.len() && #[trigger] e[i] == '&' implies entity_at(e, i) by {
            if i >= p.len() {
                assert(e[i] == r[i - p.len()]);
                lemma_entity_shift(p, r, i - p.len());
            }
        }
    } else {
        assert(escape_text_spec(s) =~= Seq::<char>::empty());
    }
}

/// A wrapper whose sole class is `figure` (and which names no tag) becomes
/// a figure: the class is removed, and a `slot="figure"` pair is added
/// unless a slot is already set, so a slot never appears twice.
pub proof fn lemma_figure_wrapper(a: AttrView)
    requires
        a.classes == seq!["figure"@],
        find_key(a.pairs, "tag"@) is None,
    ensures
        resolve_tag(a).0 == Some("figure"@),
        resolve_tag(a).1.classes.len() == 0,
        resolve_tag(a).1.id == a.id,
        find_key(a.pairs, "slot"@) is None ==> resolve_tag(a).1.pairs == a.pairs.push(("slot"@, "figure"@)),
        find_key(a.pairs, "slot"@) is Some ==> resolve_tag(a).1.pairs == a.pairs,
{
}

/// Level-1 headers and footnotes of the top-level compilation, summed.
pub open spec fn tally_add(a: (nat, nat), b: (nat, nat)) -> (nat, nat) {
    (a.0 + b.0, a.1 + b.1)
}

/// The level-1 headers and the footnotes in a block, footnote bodies left
/// out (they are compiled apart).
pub open spec fn tally_block(b: Block) -> (nat, nat)
    decreases b, 0int,
{
    match b {
        Block::Plain(xs) => tally_inlines(xs@),
        Block::Para(xs) => tally_inlines(xs@),
        Block::LineBlock(ls) => tally_lines(ls@),
        Block::BlockQuote(bs) => tally_blocks(bs@),
        Block::OrderedList(_, items) => tally_groups(items@),
        Block::BulletList(items) => tally_groups(items@),
        Block::DefinitionList(ds) => tally_defs(ds@),
        Block::Header(lvl, _, xs) => tally_add((if lvl == 1 { 1nat } else { 0nat }, 0nat), tally_inlines(xs@)),
        Block::Div(_, bs) => tally_blocks(bs@),
        _ => (0, 0),
    }
}

/// The level-1 headers and the footnotes in a sequence of blocks.
pub open spec fn tally_blocks(bs: Seq<Block>) -> (nat, nat)
    decreases bs, 0int,
{
    if bs.len() == 0 { (0, 0) } else { tally_add(tally_block(bs[0]), tally_blocks(bs.drop_first())) }
}

/// The level-1 headers and the footnotes in groups of blocks.
pub open spec fn tally_groups(gs: Seq<Vec<Block>>) -> (nat, nat)
    decreases gs, 0int,
{
    if gs.len() == 0 { (0, 0) } else { tally_add(tally_blocks(gs[0]@), tally_groups(gs.drop_first())) }
}

/// The footnotes in the lines of a line block.
pub open spec fn tally_lines(ls: Seq<Vec<Inline>>) -> (nat, nat)
    decreases ls, 0int,
{
    if ls.len() == 0 { (0, 0) } else { tally_add(tally_inlines(ls[0]@), tally_lines(ls.drop_first())) }
}

/// The level-1 headers and the footnotes in a definition list.
pub open spec fn tally_defs(ds: Seq<(Vec<Inline>, Vec<Vec<Block>>)>) -> (nat, nat)
    decreases ds, 0int,
{
    if ds.len() == 0 {
        (0, 0)
    } else {
        tally_add(tally_add(tally_inlines(ds[0].0@), tally_groups(ds[0].1@)), tally_defs(ds.drop_first()))
    }
}

/// The footnotes in an inline, not counting those inside a footnote.
pub open spec fn tally_inline(x: Inline) -> (nat, nat)
    decreases x, 0int,
{
    match x {
        Inline::Emph(xs) => tally_inlines(xs@),
        Inline::Strong(xs) => tally_inlines(xs@),
        Inline::Strikeout(xs) => tally_inlines(xs@),
        Inline::Superscript(xs) => tally_inlines(xs@),
        Inline::Subscript(xs) => tally_inlines(xs@),
        Inline::SmallCaps(xs) => tally_inlines(xs@),
        Inline::Quoted(xs) => tally_inlines(xs@),
        Inline::Link(_, xs, _, _) => tally_inlines(xs@),
        Inline::Span(_, xs) => tally_inlines(xs@),
        Inline::Note(_) => (0, 1),
        _ => (0, 0),
    }
}

/// The footnotes in a sequence of inlines.
pub open spec fn tally_inlines(xs: Seq<Inline>) -> (nat, nat)
    decreases xs, 0int,
{
    if xs.len() == 0 { (0, 0) } else { tally_add(tally_inline(xs[0]), tally_inlines(xs.drop_first())) }
}

/// How rendering moves the counters, given the tally of what is rendered.
pub open spec fn advances(st: CompileState, r: CompileState, t: (nat, nat)) -> bool {
    &&& r.slide == st.slide + t.0
    &&& r.next_note == st.next_note + t.1
    &&& r.in_slide == (st.in_slide || t.0 > 0)
}

proof fn lemma_tally_block(st: CompileState, b: Block)
    ensures
        advances(st, render_block(st, b), tally_block(b)),
    decreases b, 0int,
{
    match b {
        Block::Plain(xs) => lemma_tally_inlines(st, xs@),
        Block::Para(xs) => lemma_tally_inlines(crate::rendering::emit(st, "<p>"@), xs@),
        Block::LineBlock(ls) => lemma_tally_lines(st, ls@),
        Block::BlockQuote(bs) => lemma_tally_blocks(crate::rendering::emit(st, "<bq>"@), bs@),
        Block::OrderedList(start, items) =>
            lemma_tally_groups(crate::rendering::emit(st, crate::rendering::ol_open_html(start as int)), items@, "<li>"@, "</li>"@),
        Block::BulletList(items) => lemma_tally_groups(crate::rendering::emit(st, "<ul>"@), items@, "<li>"@, "</li>"@),
        Block::DefinitionList(ds) => lemma_tally_defs(crate::rendering::emit(st, "<dl>"@), ds@),
        Block::Header(lvl, a, xs) => {
            let st1 = if lvl == 1 { crate::rendering::open_slide_spec(st, a@) } else { st };
            lemma_tally_inlines(
                crate::rendering::emit(st1, "<h"@ + crate::text::signed_decimal(lvl as int) + crate::attrs::attr_html(a@) + ">"@),
                xs@,
            );
        },
        Block::Div(a, bs) => {
            let (t, a1) = resolve_tag(a@);
            let tag = crate::rendering::tag_or(t, "div"@);
            lemma_tally_blocks(crate::rendering::emit(st, "<"@ + tag + crate::attrs::attr_html(a1) + ">"@), bs@);
        },
        _ => {},
    }
}

proof fn lemma_tally_blocks(st: CompileState, bs: Seq<Block>)
    ensures
        advances(st, render_blocks(st, bs), tally_blocks(bs)),
    decreases bs, 0int,
{
    if bs.len() > 0 {
        lemma_tally_block(st, bs[0]);
        lemma_tally_blocks(render_block(st, bs[0]), bs.drop_first());
    }
}

proof fn lemma_tally_groups(st: CompileState, gs: Seq<Vec<Block>>, open: Seq<char>, close: Seq<char>)
    ensures
        advances(st, render_groups(st, gs, open, close), tally_groups(gs)),
    decreases gs, 0int,
{
    if gs.len() > 0 {
        let st1 = crate::rendering::emit(st, open);
        lemma_tally_blocks(st1, gs[0]@);
        let st2 = crate::rendering::emit(render_blocks(st1, gs[0]@), close);
        lemma_tally_groups(st2, gs.drop_first(), open, close);
    }
}

proof fn lemma_tally_lines(st: CompileState, ls: Seq<Vec<Inline>>)
    ensures
        advances(st, render_lines(st, ls), tally_lines(ls)),
    decreases ls, 0int,
{
    if ls.len() > 0 {
        lemma_tally_inlines(st, ls[0]@);
        lemma_tally_lines(render_inlines(st, ls[0]@), ls.drop_first());
    }
}

proof fn lemma_tally_defs(st: CompileState, ds: Seq<(Vec<Inline>, Vec<Vec<Block>>)>)
    ensures
        advances(st, render_defs(st, ds), tally_defs(ds)),
    decreases ds, 0int,
{
    if ds.len() > 0 {
        let st0 = crate::rendering::emit(st, "<dt>"@);
        lemma_tally_inlines(st0, ds[0].0@);
        let st1 = crate::rendering::emit(render_inlines(st0, ds[0].0@), "</dt>"@);
        lemma_tally_groups(st1, ds[0].1@, "<dd>"@, "</dd>"@);
        lemma_tally_defs(render_groups(st1, ds[0].1@, "<dd>"@, "</dd>"@), ds.drop_first());
    }
}

proof fn lemma_tally_tagged(st: CompileState, tag: Seq<char>, xs: Seq<Inline>)
    ensures
        advances(st, tagged_inlines(st, tag, xs), tally_inlines(xs)),
    decreases xs, 1int,
{
    lemma_tally_inlines(crate::rendering::emit(st, "<"@ + tag + ">"@), xs);
}

proof fn lemma_tally_inline(st: CompileState, x: Inline)
    ensures
        advances(st, render_inline(st, x), tally_inline(x)),
    decreases x, 2int,
{
    match x {
        Inline::Emph(xs) => lemma_tally_tagged(st, "em"@, xs@),
        Inline::Strong(xs) => lemma_tally_tagged(st, "strong"@, xs@),
        Inline::Strikeout(xs) => lemma_tally_tagged(st, "del"@, xs@),
        Inline::Superscript(xs) => lemma_tally_tagged(st, "sup"@, xs@),
        Inline::Subscript(xs) => lemma_tally_tagged(st, "sub"@, xs@),
        Inline::SmallCaps(xs) => lemma_tally_inlines(crate::rendering::emit(st, "<span class=\"smallcaps\">"@), xs@),
        Inline::Quoted(xs) => lemma_tally_tagged(st, "q"@, xs@),
        Inline::Link(a, xs, url, title) =>
            lemma_tally_inlines(crate::rendering::emit(st, crate::rendering::link_open_html(a@, url@, title@)), xs@),
        Inline::Span(a, xs) => {
            let (t, a1) = resolve_tag(a@);
            let tag = crate::rendering::tag_or(t, "span"@);
            lemma_tally_inlines(crate::rendering::emit(st, "<"@ + tag + crate::attrs::attr_html(a1) + ">"@), xs@);
        },
        _ => {},
    }
}

proof fn lemma_tally_inlines(st: CompileState, xs: Seq<Inline>)
    ensures
        advances(st, render_inlines(st, xs), tally_inlines(xs)),
    decreases xs, 0int,
{
    if xs.len() > 0 {
        lemma_tally_inline(st, xs[0]);
        lemma_tally_inlines(render_inline(st, xs[0]), xs.drop_first());
    }
}

/// Slides and footnotes over a whole document with `k` level-1 headers and
/// `n` footnotes (outside footnote bodies): the slides get the numbers
/// `0..k` in turn, one each, and a slide is open at the end exactly when
/// `k > 0`, so the closing step ends it; the footnotes get the numbers
/// `1..=n` in turn, the next one being `n + 1`.
pub proof fn lemma_slides_and_footnotes(doc: Seq<Block>)
    ensures
        render_blocks(initial_state(), doc).slide == tally_blocks(doc).0,
        render_blocks(initial_state(), doc).in_slide == (tally_blocks(doc).0 > 0),
        render_blocks(initial_state(), doc).next_note == 1 + tally_blocks(doc).1,
{
    lemma_tally_blocks(initial_state(), doc);
}

/// Each footnote takes the current number and the next one follows it;
/// its reference links to the entry of that number, which it opens in the
/// queue.
pub proof fn lemma_footnote_numbering(st: CompileState, bs: Seq<Block>)
    ensures
        render_note(st, bs).next_note == st.next_note + 1,
        render_note(st, bs).out == st.out + crate::rendering::note_ref_html(st.next_note),
        render_note(st, bs).slide == st.slide,
        render_note(st, bs).in_slide == st.in_slide,
        crate::rendering::note_state(CompileState {
            next_note: st.next_note + 1,
            out: st.out + crate::rendering::note_ref_html(st.next_note),
            queue: st.queue + crate::rendering::note_open_html(st.next_note),
            ..st
        }).out == st.queue + crate::rendering::note_open_html(st.next_note),
{
}

} // verus!
