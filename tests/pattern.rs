use broot_core::pattern::{chars_of, fuzzy_score_exec, literal_score_exec, InputPattern, PatternKind};

fn chars(s: &str) -> Vec<char> {
    s.chars().collect()
}

#[test]
fn literal_scores_whole_prefix_and_inner() {
    assert_eq!(literal_score_exec(&chars("lib.c"), &chars("lib.c")), Some(3));
    assert_eq!(literal_score_exec(&chars("lib"), &chars("lib.c")), Some(2));
    assert_eq!(literal_score_exec(&chars("b.c"), &chars("lib.c")), Some(1));
    assert_eq!(literal_score_exec(&chars("bl"), &chars("lib.c")), None);
    assert_eq!(literal_score_exec(&chars("long name"), &chars("lib")), None);
}

#[test]
fn fuzzy_counts_good_matches() {
    // l at start, i and b right after: three good matches
    assert_eq!(fuzzy_score_exec(&chars("lib"), &chars("lib.c")), Some(3));
    // l at start, then scattered
    assert_eq!(fuzzy_score_exec(&chars("lc"), &chars("lib.c")), Some(1));
    // scattered only
    assert_eq!(fuzzy_score_exec(&chars("ic"), &chars("lib.c")), Some(0));
    assert_eq!(fuzzy_score_exec(&chars("cl"), &chars("lib.c")), None);
    assert_eq!(fuzzy_score_exec(&chars(""), &chars("x")), Some(0));
}

#[test]
fn patterns_score_names() {
    let p = InputPattern::fuzzy("mc".to_string());
    assert_eq!(p.kind, PatternKind::Fuzzy);
    assert_eq!(p.score_of("main.c"), Some(1));
    assert_eq!(p.score_of("README.md"), None);
    let p = InputPattern::literal("main".to_string());
    assert_eq!(p.score_of("main.c"), Some(2));
    let none = InputPattern::fuzzy(String::new());
    assert!(none.is_none());
    assert_eq!(none.score_of("anything"), Some(0));
}

#[test]
fn regex_patterns() {
    let p = InputPattern::regex(r"^ma.*\.c$".to_string()).unwrap();
    assert_eq!(p.kind, PatternKind::Regex);
    assert_eq!(p.score_of("main.c"), Some(1));
    assert_eq!(p.score_of("lib.c"), None);
    assert!(InputPattern::regex("(unclosed".to_string()).is_err());
    assert!(InputPattern::regex(String::new()).unwrap().is_none());
}

#[test]
fn take_leaves_no_pattern() {
    let mut p = InputPattern::fuzzy("x".to_string());
    let q = p.take();
    assert!(p.is_none());
    assert_eq!(q.raw, "x");
    assert_eq!(chars_of("héllo"), vec!['h', 'é', 'l', 'l', 'o']);
}
