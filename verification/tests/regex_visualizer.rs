use ast_grep_gui::i18n::UiLanguage;
use ast_grep_gui::regex_visualizer::{visualization_with, visualize_regex, RegexDiagramNode, RegexVisualKind};

#[test]
fn visualize_nested_regex() {
    let vis = visualize_regex(r"^(foo|bar)+\d{2}$", UiLanguage::English);
    assert!(vis.is_valid);
    assert_eq!(vis.stats.groups, 1);
    assert_eq!(vis.stats.alternations, 1);
    assert_eq!(vis.stats.quantifiers, 2);
    assert!(vis.lines.iter().any(|line| line.token == r"\d"));
}

#[test]
fn visualize_character_class() {
    let vis = visualize_regex(r"[A-Z_][A-Za-z0-9_]*", UiLanguage::Japanese);
    assert!(vis.is_valid);
    assert_eq!(vis.stats.char_classes, 2);
    assert!(vis.lines.iter().any(|line| line.label.contains("文字クラス")));
}

#[test]
fn diagram_builds_alternation_tree() {
    let vis = visualize_regex(r"(a|b).+$", UiLanguage::Japanese);
    let has_alt = match &vis.diagram.root {
        RegexDiagramNode::Sequence(items) => items
            .iter()
            .any(|item| matches!(item, RegexDiagramNode::Alternation(_) | RegexDiagramNode::Group { .. })),
        RegexDiagramNode::Alternation(_) => true,
        RegexDiagramNode::Group { .. } => true,
        _ => false,
    };
    assert!(has_alt);
}

#[test]
fn diagram_wraps_paren_in_group() {
    let vis = visualize_regex(r"(a|b)", UiLanguage::Japanese);
    match &vis.diagram.root {
        RegexDiagramNode::Group { child, meta } => {
            assert!(meta.title.contains("キャプチャ") || meta.title.contains("Capturing"));
            assert!(matches!(child.as_ref(), RegexDiagramNode::Alternation(_)));
        }
        _ => panic!("expected Group around (a|b)"),
    }
}

#[test]
fn invalid_regex_is_reported() {
    let vis = visualize_regex("(a", UiLanguage::English);
    assert!(!vis.is_valid);
    assert!(vis.error_message.is_some());
}

#[test]
fn given_error_marks_visualization_invalid() {
    let vis = visualization_with("a+", UiLanguage::English, Some("bad".to_string()));
    assert!(!vis.is_valid);
    assert_eq!(vis.error_message.as_deref(), Some("bad"));
    assert_eq!(vis.stats.quantifiers, 1);
}

#[test]
fn token_lines_spell_the_pattern() {
    for p in [r"^(foo|bar)+\d{2}$", r"[A-Z_][A-Za-z0-9_]*", r"(?:ab)?c.\\", r"a{x}b"] {
        let vis = visualize_regex(p, UiLanguage::English);
        let joined: String = vis.lines.iter().map(|l| l.token.as_str()).collect();
        assert_eq!(joined, p);
    }
}

#[test]
fn stats_count_the_lines() {
    for p in [r"^(foo|bar)+\d{2}$", r"[A-Z_][A-Za-z0-9_]*", r"((a|b)|c)*?[x", r"(ab"] {
        let vis = visualize_regex(p, UiLanguage::Japanese);
        let count = |k: RegexVisualKind| vis.lines.iter().filter(|l| l.kind == k).count();
        assert_eq!(vis.stats.groups, count(RegexVisualKind::Group));
        assert_eq!(vis.stats.alternations, count(RegexVisualKind::Alternation));
        assert_eq!(vis.stats.quantifiers, count(RegexVisualKind::Quantifier));
        assert_eq!(vis.stats.char_classes, vis.lines.iter().filter(|l| l.token.starts_with('[')).count());
    }
}
