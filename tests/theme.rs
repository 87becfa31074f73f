use slides_compiler::theme::{val_to_css, Globals, Rule, Theme};

fn t(s: &str) -> Vec<char> {
    s.chars().collect()
}

fn s(v: &[char]) -> String {
    v.iter().collect()
}

#[test]
fn value_conversion() {
    assert_eq!(val_to_css(&t("var(fg)")).map(|v| s(&v)), Some("var(--fg)".to_string()));
    assert_eq!(val_to_css(&t("var()")).map(|v| s(&v)), Some("var(--)".to_string()));
    assert_eq!(val_to_css(&t("color(var(fg) alpha(0.5))")), None);
    assert_eq!(val_to_css(&t("#ffffff")).map(|v| s(&v)), Some("#ffffff".to_string()));
    assert_eq!(val_to_css(&t("var(x")).map(|v| s(&v)), Some("var(x".to_string()));
}

#[test]
fn rule_css() {
    let r = Rule {
        name: Some(t("Comment")),
        scope: t("comment, punctuation.comment"),
        foreground: Some(t("var(grey)")),
        background: Some(t("color(red)")),
        font_style: Some(t("bold italic underline")),
    };
    let mut out: Vec<char> = Vec::new();
    r.write(&mut out);
    assert_eq!(
        s(&out),
        "/* Comment */\npre > code > .source .comment, pre > code > .source .punctuation.comment {\n  color: var(--grey);\n  font-weight: bold;\n  font-style: italic;\n/* font option: underline */\n}\n"
    );
}

#[test]
fn theme_css() {
    let th = Theme {
        name: t("Mono"),
        variables: vec![(t("fg"), t("#000"))],
        globals: Globals { foreground: Some(t("var(fg)")) },
        rules: vec![Rule { name: None, scope: t("string"), foreground: None, background: Some(t("#eee")), font_style: None }],
    };
    let mut out: Vec<char> = Vec::new();
    th.write(&mut out);
    assert_eq!(
        s(&out),
        "/* Mono theme */\npre > code > .source {\n  --fg: #000;\n  color: var(--fg);\n}\npre > code > .source .string {\n  background: #eee;\n}\n"
    );
}
