//! The document tree that the compiler consumes.
use vstd::prelude::*;

verus! {

/// Attributes of a node: an identifier, ordered classes, and ordered
/// key-value pairs whose keys need not be unique.
pub struct Attr {
    pub id: Vec<char>,
    pub classes: Vec<Vec<char>>,
    pub pairs: Vec<(Vec<char>, Vec<char>)>,
}

/// Attributes as plain sequences.
pub ghost struct AttrView {
    pub id: Seq<char>,
    pub classes: Seq<Seq<char>>,
    pub pairs: Seq<(Seq<char>, Seq<char>)>,
}

impl View for Attr {
    type V = AttrView;

    open spec fn view(&self) -> AttrView {
        AttrView {
            id: self.id@,
            classes: self.classes@.map_values(|c: Vec<char>| c@),
            pairs: self.pairs@.map_values(|p: (Vec<char>, Vec<char>)| (p.0@, p.1@)),
        }
    }
}

/// Block-level nodes. Tables are not rendered, so they carry nothing.
pub enum Block {
    Plain(Vec<Inline>),
    Para(Vec<Inline>),
    LineBlock(Vec<Vec<Inline>>),
    CodeBlock(Attr, Vec<char>),
    RawBlock(Vec<char>, Vec<char>),
    BlockQuote(Vec<Block>),
    OrderedList(i64, Vec<Vec<Block>>),
    BulletList(Vec<Vec<Block>>),
    DefinitionList(Vec<(Vec<Inline>, Vec<Vec<Block>>)>),
    Header(i64, Attr, Vec<Inline>),
    HorizontalRule,
    Table,
    Div(Attr, Vec<Block>),
    Null,
}

/// Inline-level nodes. Citations and math are not rendered, so they carry
/// nothing; a quotation keeps its content only. `Link` and `Image` hold
/// attributes, description, URL and title.
pub enum Inline {
    Str(Vec<char>),
    Emph(Vec<Inline>),
    Strong(Vec<Inline>),
    Strikeout(Vec<Inline>),
    Superscript(Vec<Inline>),
    Subscript(Vec<Inline>),
    SmallCaps(Vec<Inline>),
    Quoted(Vec<Inline>),
    Cite,
    Code(Attr, Vec<char>),
    Space,
    SoftBreak,
    LineBreak,
    Math,
    RawInline(Vec<char>, Vec<char>),
    Link(Attr, Vec<Inline>, Vec<char>, Vec<char>),
    Image(Attr, Vec<Inline>, Vec<char>, Vec<char>),
    Note(Vec<Block>),
    Span(Attr, Vec<Inline>),
}

} // verus!
