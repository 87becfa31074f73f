//! Attribute lookups, the tag resolver for wrapper nodes, and attribute
//! rendering.
use vstd::prelude::*;
use crate::ast::{Attr, AttrView};
use crate::text::{eq_str, push_str, push_text, copy_text};

verus! {

/// The index of the first pair at or after `i` whose key is `k`.
pub open spec fn find_key_from(ps: Seq<(Seq<char>, Seq<char>)>, k: Seq<char>, i: int) -> Option<int>
    decreases ps.len() - i,
{
    if i < 0 || i >= ps.len() {
        None
    } else if ps[i].0 == k {
        Some(i)
    } else {
        find_key_from(ps, k, i + 1)
    }
}

/// The index of the first pair whose key is `k`.
pub open spec fn find_key(ps: Seq<(Seq<char>, Seq<char>)>, k: Seq<char>) -> Option<int> {
    find_key_from(ps, k, 0)
}

/// The value of the first pair whose key is `k`.
pub open spec fn key_value_spec(a: AttrView, k: Seq<char>) -> Option<Seq<char>> {
    match find_key(a.pairs, k) {
        Some(i) => Some(a.pairs[i].1),
        None => None,
    }
}

/// The classes that a sole class may name to become the tag.
pub open spec fn semantic_tag(c: Seq<char>) -> bool {
    c == "figure"@ || c == "details"@ || c == "summary"@ || c == "figcaption"@
}

/// The tag a wrapper node asks for, and its attributes without what was
/// consumed; a figure gets a `slot="figure"` pair unless it has a slot.
pub open spec fn resolve_tag(a: AttrView) -> (Option<Seq<char>>, AttrView) {
    let (tag, a1) = match find_key(a.pairs, "tag"@) {
        Some(i) => (Some(a.pairs[i].1), AttrView { pairs: a.pairs.remove(i), ..a }),
        None => if a.classes.len() == 1 && semantic_tag(a.classes[0]) {
            (Some(a.classes[0]), AttrView { classes: Seq::empty(), ..a })
        } else {
            (None, a)
        },
    };
    if tag == Some("figure"@) && find_key(a1.pairs, "slot"@) is None {
        (tag, AttrView { pairs: a1.pairs.push(("slot"@, "figure"@)), ..a1 })
    } else {
        (tag, a1)
    }
}

/// The classes joined by single spaces, in order.
pub open spec fn join_classes(cs: Seq<Seq<char>>) -> Seq<char>
    decreases cs.len(),
{
    if cs.len() == 0 {
        Seq::empty()
    } else if cs.len() == 1 {
        cs[0]
    } else {
        join_classes(cs.drop_last()) + " "@ + cs.last()
    }
}

/// The pairs as ` key="value"`, in order.
pub open spec fn pairs_html(ps: Seq<(Seq<char>, Seq<char>)>) -> Seq<char>
    decreases ps.len(),
{
    if ps.len() == 0 {
        Seq::empty()
    } else {
        pairs_html(ps.drop_last()) + " "@ + ps.last().0 + "=\""@ + ps.last().1 + "\""@
    }
}

/// The attributes as they stand inside a start tag: ` id="…"` if there is
/// an identifier, ` class="…"` if there are classes, then each pair.
pub open spec fn attr_html(a: AttrView) -> Seq<char> {
    (if a.id.len() == 0 { Seq::empty() } else { " id=\""@ + a.id + "\""@ })
        + (if a.classes.len() == 0 { Seq::empty() } else { " class=\""@ + join_classes(a.classes) + "\""@ })
        + pairs_html(a.pairs)
}

/// Whether one of the classes is `c`.
pub open spec fn has_class_spec(a: AttrView, c: Seq<char>) -> bool {
    exists|i: int| 0 <= i < a.classes.len() && a.classes[i] == c
}

/// A fresh copy of the attributes.
pub fn copy_attr(a: &Attr) -> (r: Attr)
    ensures
        r@ == a@,
{
    let mut classes: Vec<Vec<char>> = Vec::new();
    let mut i: usize = 0;
    while i < a.classes.len()
        invariant
            i <= a.classes@.len(),
            classes@.len() == i,
            forall|j: int| 0 <= j < i ==> classes@[j]@ == a.classes@[j]@,
        decreases a.classes@.len() - i,
    {
        classes.push(copy_text(&a.classes[i]));
        i = i + 1;
    }
    let mut pairs: Vec<(Vec<char>, Vec<char>)> = Vec::new();
    let mut j: usize = 0;
    while j < a.pairs.len()
        invariant
            j <= a.pairs@.len(),
            pairs@.len() == j,
            forall|k: int| 0 <= k < j ==> pairs@[k].0@ == a.pairs@[k].0@ && pairs@[k].1@ == a.pairs@[k].1@,
        decreases a.pairs@.len() - j,
    {
        pairs.push((copy_text(&a.pairs[j].0), copy_text(&a.pairs[j].1)));
        j = j + 1;
    }
    let r = Attr { id: copy_text(&a.id), classes, pairs };
    assert(r@.classes =~= a@.classes);
    assert(r@.pairs =~= a@.pairs);
    r
}

/// Whether the attributes hold the class `target`.
pub fn has_class(attrs: &Attr, target: &str) -> (r: bool)
    ensures
        r == has_class_spec(attrs@, target@),
{
    let mut i: usize = 0;
    while i < attrs.classes.len()
        invariant
            i <= attrs.classes@.len(),
            forall|j: int| 0 <= j < i ==> attrs@.classes[j] != target@,
        decreases attrs.classes@.len() - i,
    {
        if eq_str(&attrs.classes[i], target) {
            assert(attrs@.classes[i as int] == target@);
            return true;
        }
        i = i + 1;
    }
    false
}

/// The index of the first pair whose key is `key`.
pub fn find_key_index(attrs: &Attr, key: &str) -> (r: Option<usize>)
    ensures
        match r {
            Some(i) => find_key(attrs@.pairs, key@) == Some(i as int) && i < attrs.pairs@.len(),
            None => find_key(attrs@.pairs, key@) is None,
        },
{
    let ghost ps = attrs@.pairs;
    let mut i: usize = 0;
    while i < attrs.pairs.len()
        invariant
            i <= attrs.pairs@.len(),
            ps == attrs@.pairs,
            find_key_from(ps, key@, 0) == find_key_from(ps, key@, i as int),
        decreases attrs.pairs@.len() - i,
    {
        if eq_str(&attrs.pairs[i].0, key) {
            return Some(i);
        }
        i = i + 1;
    }
    None
}

/// The value of the first pair whose key is `key`.
pub fn key_value(attrs: &Attr, key: &str) -> (r: Option<Vec<char>>)
    ensures
        match r {
            Some(v) => key_value_spec(attrs@, key@) == Some(v@),
            None => key_value_spec(attrs@, key@) is None,
        },
{
    match find_key_index(attrs, key) {
        Some(i) => Some(copy_text(&attrs.pairs[i].1)),
        None => None,
    }
}

/// Appends `("slot", "figure")` unless a `slot` key is there.
pub fn ensure_figure_slot(attrs: &mut Attr)
    ensures
        final(attrs)@ == (if find_key(old(attrs)@.pairs, "slot"@) is None {
            AttrView { pairs: old(attrs)@.pairs.push(("slot"@, "figure"@)), ..old(attrs)@ }
        } else {
            old(attrs)@
        }),
{
    if find_key_index(attrs, "slot").is_none() {
        let mut k: Vec<char> = Vec::new();
        push_str(&mut k, "slot");
        let mut v: Vec<char> = Vec::new();
        push_str(&mut v, "figure");
        attrs.pairs.push((k, v));
        assert(attrs@.pairs =~= old(attrs)@.pairs.push(("slot"@, "figure"@)));
    }
}

/// Decides which tag a wrapper node (div, span) stands for, removing what
/// it consumed: the first `tag` pair, or else a sole class among figure,
/// details, summary and figcaption. A figure gets a `slot="figure"` pair.
pub fn get_and_remove_tag(attrs: &mut Attr) -> (r: Option<Vec<char>>)
    ensures
        (match r {
            Some(t) => Some(t@),
            None => None::<Seq<char>>,
        }) == resolve_tag(old(attrs)@).0,
        final(attrs)@ == resolve_tag(old(attrs)@).1,
{
    let tag: Option<Vec<char>>;
    match find_key_index(attrs, "tag") {
        Some(i) => {
            let (_, v) = attrs.pairs.remove(i);
            assert(attrs@.pairs =~= old(attrs)@.pairs.remove(i as int));
            tag = Some(v);
        }
        None => {
            if attrs.classes.len() == 1 && (eq_str(&attrs.classes[0], "figure")
                || eq_str(&attrs.classes[0], "details") || eq_str(&attrs.classes[0], "summary")
                || eq_str(&attrs.classes[0], "figcaption"))
            {
                let c = attrs.classes.remove(0);
                assert(attrs@.classes =~= Seq::<Seq<char>>::empty());
                tag = Some(c);
            } else {
                tag = None;
            }
        }
    }
    let is_figure = match &tag {
        Some(t) => eq_str(t, "figure"),
        None => false,
    };
    if is_figure {
        ensure_figure_slot(attrs);
    }
    tag
}

/// Appends the attributes as they stand inside a start tag.
pub fn write_attr(out: &mut Vec<char>, attrs: &Attr)
    ensures
        final(out)@ == old(out)@ + attr_html(attrs@),
{
    let ghost a = attrs@;
    if attrs.id.len() != 0 {
        push_str(out, " id=\"");
        push_text(out, &attrs.id);
        push_str(out, "\"");
    }
    let ghost after_id = out@;
    if attrs.classes.len() > 0 {
        push_str(out, " class=\"");
        let ghost c0 = out@;
        let mut i: usize = 0;
        while i < attrs.classes.len()
            invariant
                a == attrs@,
                i <= attrs.classes@.len(),
                out@ == c0 + join_classes(a.classes.take(i as int)),
            decreases attrs.classes@.len() - i,
        {
            if i > 0 {
                push_str(out, " ");
            }
            push_text(out, &attrs.classes[i]);
            i = i + 1;
            assert(a.classes.take(i as int).drop_last() =~= a.classes.take(i - 1));
            assert(out@ =~= c0 + join_classes(a.classes.take(i as int)));
        }
        assert(a.classes.take(i as int) =~= a.classes);
        push_str(out, "\"");
    }
    let ghost p0 = out@;
    let mut j: usize = 0;
    while j < attrs.pairs.len()
        invariant
            a == attrs@,
            j <= attrs.pairs@.len(),
            out@ == p0 + pairs_html(a.pairs.take(j as int)),
        decreases attrs.pairs@.len() - j,
    {
        push_str(out, " ");
        push_text(out, &attrs.pairs[j].0);
        push_str(out, "=\"");
        push_text(out, &attrs.pairs[j].1);
        push_str(out, "\"");
        j = j + 1;
        assert(a.pairs.take(j as int).drop_last() =~= a.pairs.take(j - 1));
        assert(out@ =~= p0 + pairs_html(a.pairs.take(j as int)));
    }
    assert(a.pairs.take(j as int) =~= a.pairs);
    assert(out@ =~= old(out)@ + attr_html(attrs@));
}

} // verus!
