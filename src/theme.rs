//! Stylesheets for highlighted code, from a colour theme.
//!
//! Every rule is scoped under `pre > code > .source`.
use vstd::prelude::*;
use crate::text::{push_str, push_text, starts_with};

verus! {

/// Colours that apply to the whole code block.
pub struct Globals {
    pub foreground: Option<Vec<char>>,
}

/// One rule of a theme: the scopes it selects and how they look.
pub struct Rule {
    pub name: Option<Vec<char>>,
    pub scope: Vec<char>,
    pub foreground: Option<Vec<char>>,
    pub background: Option<Vec<char>>,
    pub font_style: Option<Vec<char>>,
}

/// A colour theme: named variables, global colours and rules.
pub struct Theme {
    pub name: Vec<char>,
    pub variables: Vec<(Vec<char>, Vec<char>)>,
    pub globals: Globals,
    pub rules: Vec<Rule>,
}

/// The CSS for a theme value: `var(X)` becomes a custom-property reference,
/// `color(...)` is not supported, and anything else stands as it is.
pub open spec fn css_value(v: Seq<char>) -> Option<Seq<char>> {
    if v.len() >= 5 && v.take(4) == "var("@ && v.last() == ')' {
        Some("var(--"@ + v.subrange(4, v.len() - 1) + ")"@)
    } else if v.len() >= 6 && v.take(6) == "color("@ {
        None
    } else {
        Some(v)
    }
}

/// The optional value's CSS, if the value is there and supported.
pub open spec fn opt_css(v: Option<Vec<char>>) -> Option<Seq<char>> {
    match v {
        Some(x) => css_value(x@),
        None => None,
    }
}

/// One declaration line `  prop value;`, or nothing.
pub open spec fn decl_line(prop: Seq<char>, v: Option<Seq<char>>) -> Seq<char> {
    match v {
        Some(x) => prop + x + ";\n"@,
        None => Seq::empty(),
    }
}

/// The selector prefix of every rule.
pub open spec fn selector_prefix() -> Seq<char> {
    "pre > code > .source ."@
}

/// The selector list for the rest `s` of a scope list, `cur` being the
/// part of the current scope read so far.
pub open spec fn selectors_from(s: Seq<char>, cur: Seq<char>) -> Seq<char>
    decreases s.len(),
{
    if s.len() >= 2 && s[0] == ',' && s[1] == ' ' {
        selector_prefix() + cur + ", "@ + selectors_from(s.skip(2), Seq::empty())
    } else if s.len() == 0 {
        selector_prefix() + cur
    } else {
        selectors_from(s.drop_first(), cur.push(s[0]))
    }
}

/// The selector list for a comma-separated scope list: each scope prefixed.
pub open spec fn selectors(scope: Seq<char>) -> Seq<char> {
    selectors_from(scope, Seq::empty())
}

/// The declaration for one word of a font style.
pub open spec fn font_option(w: Seq<char>) -> Seq<char> {
    if w == "bold"@ {
        "  font-weight: bold;\n"@
    } else if w == "italic"@ {
        "  font-style: italic;\n"@
    } else {
        "/* font option: "@ + w + " */\n"@
    }
}

/// The declarations for the rest `s` of a space-separated font style,
/// `cur` being the part of the current word read so far.
pub open spec fn font_options_from(s: Seq<char>, cur: Seq<char>) -> Seq<char>
    decreases s.len(),
{
    if s.len() == 0 {
        font_option(cur)
    } else if s[0] == ' ' {
        font_option(cur) + font_options_from(s.drop_first(), Seq::empty())
    } else {
        font_options_from(s.drop_first(), cur.push(s[0]))
    }
}

/// The CSS of a rule.
pub open spec fn rule_css(r: Rule) -> Seq<char> {
    let head = match r.name {
        Some(n) => "/* "@ + n@ + " */\n"@,
        None => Seq::empty(),
    };
    let fonts = match opt_css(r.font_style) {
        Some(st) => font_options_from(st, Seq::empty()),
        None => Seq::empty(),
    };
    head + selectors(r.scope@) + " {\n"@
        + decl_line("  color: "@, opt_css(r.foreground))
        + decl_line("  background: "@, opt_css(r.background))
        + fonts + "}\n"@
}

/// The custom-property lines of the variables.
pub open spec fn variables_css(vs: Seq<(Vec<char>, Vec<char>)>) -> Seq<char>
    decreases vs.len(),
{
    if vs.len() == 0 {
        Seq::empty()
    } else {
        variables_css(vs.drop_last()) + "  --"@ + vs.last().0@ + ": "@ + vs.last().1@ + ";\n"@
    }
}

/// The CSS of a sequence of rules, in order.
pub open spec fn rules_css(rs: Seq<Rule>) -> Seq<char>
    decreases rs.len(),
{
    if rs.len() == 0 {
        Seq::empty()
    } else {
        rules_css(rs.drop_last()) + rule_css(rs.last())
    }
}

/// The CSS of a theme.
pub open spec fn theme_css(t: Theme) -> Seq<char> {
    "/* "@ + t.name@ + " theme */\n"@ + "pre > code > .source {\n"@
        + variables_css(t.variables@)
        + decl_line("  color: "@, opt_css(t.globals.foreground))
        + "}\n"@ + rules_css(t.rules@)
}

/// The CSS for one theme value (see `css_value`).
pub fn val_to_css(val: &Vec<char>) -> (r: Option<Vec<char>>)
    ensures
        match r {
            Some(x) => css_value(val@) == Some(x@),
            None => css_value(val@) is None,
        },
{
    let n = val.len();
    proof {
        reveal_strlit("var(");
        reveal_strlit("color(");
    }
    if starts_with(val, "var(") && n >= 5 && val[n - 1] == ')' {
        let mut out: Vec<char> = Vec::new();
        push_str(&mut out, "var(--");
        let mut i: usize = 4;
        while i < n - 1
            invariant
                n == val@.len(),
                n >= 5,
                4 <= i <= n - 1,
                out@ == "var(--"@ + val@.subrange(4, i as int),
            decreases n - i,
        {
            out.push(val[i]);
            i = i + 1;
            assert(val@.subrange(4, i as int) =~= val@.subrange(4, i - 1).push(val@[i - 1]));
        }
        push_str(&mut out, ")");
        Some(out)
    } else if starts_with(val, "color(") {
        None
    } else {
        let mut out: Vec<char> = Vec::new();
        push_text(&mut out, val);
        assert(out@ =~= val@);
        Some(out)
    }
}

/// Appends `prop`, the CSS of `v` and `;\n`, when `v` is there and supported.
fn write_decl(w: &mut Vec<char>, prop: &str, v: &Option<Vec<char>>)
    ensures
        final(w)@ == old(w)@ + decl_line(prop@, opt_css(*v)),
{
    if let Some(x) = v {
        if let Some(c) = val_to_css(x) {
            push_str(w, prop);
            push_text(w, &c);
            push_str(w, ";\n");
            assert(w@ =~= old(w)@ + decl_line(prop@, opt_css(*v)));
        }
    }
}

/// Appends the selector list of a scope list.
fn write_selectors(w: &mut Vec<char>, scope: &Vec<char>)
    ensures
        final(w)@ == old(w)@ + selectors(scope@),
{
    let s = scope;
    let n = s.len();
    let mut i: usize = 0;
    let mut cur: Vec<char> = Vec::new();
    assert(s@.skip(0) =~= s@);
    while i < n
        invariant
            n == s@.len(),
            i <= n,
            w@ + selectors_from(s@.skip(i as int), cur@) == old(w)@ + selectors(s@),
        decreases n - i,
    {
        let ghost rest = s@.skip(i as int);
        if i + 1 < n && s[i] == ',' && s[i + 1] == ' ' {
            let ghost before = w@;
            push_str(w, "pre > code > .source .");
            push_text(w, &cur);
            push_str(w, ", ");
            assert(rest.skip(2) =~= s@.skip(i + 2));
            assert(w@ =~= before + selector_prefix() + cur@ + ", "@);
            cur = Vec::new();
            i = i + 2;
        } else {
            assert(rest.drop_first() =~= s@.skip(i + 1));
            cur.push(s[i]);
            i = i + 1;
        }
    }
    let ghost before = w@;
    assert(s@.skip(n as int) =~= Seq::<char>::empty());
    push_str(w, "pre > code > .source .");
    push_text(w, &cur);
    assert(w@ =~= before + selectors_from(s@.skip(n as int), cur@));
}

/// Appends the declaration for one font-style word.
fn write_font_option(w: &mut Vec<char>, word: &Vec<char>)
    ensures
        final(w)@ == old(w)@ + font_option(word@),
{
    if crate::text::eq_str(word, "bold") {
        push_str(w, "  font-weight: bold;\n");
    } else if crate::text::eq_str(word, "italic") {
        push_str(w, "  font-style: italic;\n");
    } else {
        push_str(w, "/* font option: ");
        push_text(w, word);
        push_str(w, " */\n");
        assert(w@ =~= old(w)@ + font_option(word@));
    }
}

/// Appends the declarations of a space-separated font style.
fn write_font_options(w: &mut Vec<char>, s: &Vec<char>)
    ensures
        final(w)@ == old(w)@ + font_options_from(s@, Seq::empty()),
{
    let n = s.len();
    let mut i: usize = 0;
    let mut cur: Vec<char> = Vec::new();
    assert(s@.skip(0) =~= s@);
    while i < n
        invariant
            n == s@.len(),
            i <= n,
            w@ + font_options_from(s@.skip(i as int), cur@) == old(w)@ + font_options_from(s@, Seq::empty()),
        decreases n - i,
    {
        let ghost rest = s@.skip(i as int);
        assert(rest.drop_first() =~= s@.skip(i + 1));
        if s[i] == ' ' {
            let ghost before = w@;
            write_font_option(w, &cur);
            assert(w@ =~= before + font_option(cur@));
            cur = Vec::new();
        } else {
            cur.push(s[i]);
        }
        i = i + 1;
    }
    assert(s@.skip(n as int) =~= Seq::<char>::empty());
    write_font_option(w, &cur);
}

impl Rule {
    /// Appends the CSS of this rule: its name as a comment, the selectors of
    /// its scopes, and its colours and font style.
    pub fn write(&self, w: &mut Vec<char>)
        ensures
            final(w)@ == old(w)@ + rule_css(*self),
    {
        let ghost start = w@;
        if let Some(n) = &self.name {
            push_str(w, "/* ");
            push_text(w, n);
            push_str(w, " */\n");
        }
        write_selectors(w, &self.scope);
        push_str(w, " {\n");
        write_decl(w, "  color: ", &self.foreground);
        write_decl(w, "  background: ", &self.background);
        if let Some(fs) = &self.font_style {
            if let Some(st) = val_to_css(fs) {
                write_font_options(w, &st);
            }
        }
        push_str(w, "}\n");
        assert(w@ =~= start + rule_css(*self));
    }
}

impl Theme {
    /// Appends the stylesheet of this theme: a comment with its name, a
    /// block with its variables and global colour, then each rule.
    pub fn write(&self, w: &mut Vec<char>)
        ensures
            final(w)@ == old(w)@ + theme_css(*self),
    {
        let ghost start = w@;
        push_str(w, "/* ");
        push_text(w, &self.name);
        push_str(w, " theme */\n");
        push_str(w, "pre > code > .source {\n");
        let ghost v0 = w@;
        let mut i: usize = 0;
        while i < self.variables.len()
            invariant
                i <= self.variables@.len(),
                w@ == v0 + variables_css(self.variables@.take(i as int)),
            decreases self.variables@.len() - i,
        {
            push_str(w, "  --");
            push_text(w, &self.variables[i].0);
            push_str(w, ": ");
            push_text(w, &self.variables[i].1);
            push_str(w, ";\n");
            i = i + 1;
            assert(self.variables@.take(i as int).drop_last() =~= self.variables@.take(i - 1));
            assert(w@ =~= v0 + variables_css(self.variables@.take(i as int)));
        }
        assert(self.variables@.take(i as int) =~= self.variables@);
        write_decl(w, "  color: ", &self.globals.foreground);
        push_str(w, "}\n");
        let ghost r0 = w@;
        let mut j: usize = 0;
        while j < self.rules.len()
            invariant
                j <= self.rules@.len(),
                w@ == r0 + rules_css(self.rules@.take(j as int)),
            decreases self.rules@.len() - j,
        {
            self.rules[j].write(w);
            j = j + 1;
            assert(self.rules@.take(j as int).drop_last() =~= self.rules@.take(j - 1));
            assert(w@ =~= r0 + rules_css(self.rules@.take(j as int)));
        }
        assert(self.rules@.take(j as int) =~= self.rules@);
        assert(w@ =~= start + theme_css(*self));
    }
}

} // verus!
