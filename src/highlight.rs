//! Syntax highlighting of code blocks, through syntect's classed HTML
//! generator over its default syntax definitions.
use vstd::prelude::*;
use syntect::html::{ClassStyle, ClassedHTMLGenerator};
use syntect::parsing::SyntaxSet;
use syntect::util::LinesWithEndings;

verus! {

#[verifier::external_type_specification]
#[verifier::external_body]
pub struct ExSyntaxSet(SyntaxSet);

/// The classed-span HTML that the default syntax definitions give for
/// `code` in the language named by `token`; `None` where no definition
/// answers to the token, or the tokenizer fails on the text.
pub uninterp spec fn highlighted(token: Seq<char>, code: Seq<char>) -> Option<Seq<char>>;

/// Relies on syntect's `SyntaxSet::load_defaults_newlines`: the bundled
/// syntax definitions, in the form that expects lines with their endings.
#[verifier::external_body]
fn load_default_syntaxes() -> SyntaxSet {
    SyntaxSet::load_defaults_newlines()
}

/// A highlighter over the default syntax definitions.
pub struct Highlighter {
    syntaxes: SyntaxSet,
}

impl Highlighter {
    pub fn new() -> Self {
        Highlighter { syntaxes: load_default_syntaxes() }
    }

    /// Relies on syntect's `SyntaxSet::find_syntax_by_token`, then
    /// `ClassedHTMLGenerator` (spaced class style) fed each line of `code`
    /// with its ending, then `finalize`: a function of the token and the
    /// text alone, as every `Highlighter` holds the default definitions.
    #[verifier::external_body]
    pub(crate) fn highlight(&self, token: &Vec<char>, code: &Vec<char>) -> (r: Option<Vec<char>>)
        ensures
            match r {
                Some(h) => highlighted(token@, code@) == Some(h@),
                None => highlighted(token@, code@) is None,
            },
    {
        let token: String = token.iter().collect();
        let code: String = code.iter().collect();
        let syntax = self.syntaxes.find_syntax_by_token(&token)?;
        let mut gen = ClassedHTMLGenerator::new_with_class_style(syntax, &self.syntaxes, ClassStyle::Spaced);
        for line in LinesWithEndings::from(&code) {
            gen.parse_html_for_line_which_includes_newline(line).ok()?;
        }
        Some(gen.finalize().chars().collect())
    }
}

} // verus!
