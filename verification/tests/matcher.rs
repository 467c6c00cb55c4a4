use doctor_doom_rs::error::ParseError;
use doctor_doom_rs::matcher::{classify, compile, Matcher, PatternKind};

#[test]
fn wildcard_matches_everything() {
    let matcher = compile("*").unwrap();
    assert!(matcher.matches("x.log"));
    assert!(matcher.matches(""));
    assert!(matcher.matches("*"));
    assert!(matcher.matches("späti \u{1F600}.tmp"));
    assert_eq!(matcher.pattern(), "*");
}

#[test]
fn empty_pattern_matches_nothing() {
    let matcher = compile("").unwrap();
    assert!(!matcher.matches("x.log"));
    assert!(!matcher.matches("*"));
    assert!(!matcher.matches(""));
    assert_eq!(matcher.pattern(), "");
}

#[test]
fn invalid_regex_is_rejected_at_construction() {
    assert!(matches!(
        compile("invalid[regex"),
        Err(ParseError::InvalidPattern)
    ));
    assert!(matches!(compile("(open"), Err(ParseError::InvalidPattern)));
}

#[test]
fn leading_star_is_no_regular_expression() {
    assert!(matches!(compile("*.tmp"), Err(ParseError::InvalidPattern)));
    assert!(matches!(compile("**"), Err(ParseError::InvalidPattern)));
}

#[test]
fn other_patterns_are_regular_expressions() {
    let matcher = compile(r"\.log$").unwrap();
    assert!(matcher.matches("x.log"));
    assert!(matcher.matches("archive.tar.log"));
    assert!(!matcher.matches("x.log.gz"));
    assert!(!matcher.matches("xlog"));
    assert_eq!(matcher.pattern(), r"\.log$");
}

#[test]
fn a_regular_expression_matches_anywhere_in_the_name() {
    let matcher = compile("tmp").unwrap();
    assert!(matcher.matches("tmp"));
    assert!(matcher.matches("a.tmp.bak"));
    assert!(!matcher.matches("t.m.p"));
    let anchored = compile("^tmp$").unwrap();
    assert!(anchored.matches("tmp"));
    assert!(!anchored.matches("a.tmp.bak"));
}

#[test]
fn a_matcher_serves_many_names() {
    let matcher = compile("^core\\.[0-9]+$").unwrap();
    let names = ["core.1", "core.22", "core.", "score.1", "core.333"];
    let expected = [true, true, false, false, true];
    for round in 0..3 {
        for (name, want) in names.iter().zip(expected.iter()) {
            assert_eq!(matcher.matches(name), *want, "round {}", round);
        }
    }
}

#[test]
fn classify_tells_the_three_kinds_apart() {
    assert_eq!(classify("*"), PatternKind::All);
    assert_eq!(classify(""), PatternKind::Nothing);
    assert_eq!(classify("**"), PatternKind::Expression);
    assert_eq!(classify(" "), PatternKind::Expression);
    assert_eq!(classify(".*"), PatternKind::Expression);
    assert_eq!(classify("invalid[regex"), PatternKind::Expression);
}

#[test]
fn ready_made_matchers() {
    let all = Matcher::all();
    assert_eq!(all.pattern(), "*");
    assert!(all.matches("anything"));
    let nothing = Matcher::nothing();
    assert_eq!(nothing.pattern(), "");
    assert!(!nothing.matches("anything"));
}

#[test]
fn from_compiled_follows_the_outcome_of_compiling() {
    let good = Matcher::from_compiled("^a+$", regex::Regex::new("^a+$")).unwrap();
    assert_eq!(good.pattern(), "^a+$");
    assert!(good.matches("aaa"));
    assert!(!good.matches("aab"));
    assert!(matches!(
        Matcher::from_compiled("a(", regex::Regex::new("a(")),
        Err(ParseError::InvalidPattern)
    ));
}

#[test]
fn error_messages_differ() {
    let all = [
        ParseError::InvalidFormat,
        ParseError::InvalidNumber,
        ParseError::Negative,
        ParseError::InvalidPattern,
    ];
    for (i, a) in all.iter().enumerate() {
        assert!(!a.message().is_empty());
        for b in all.iter().skip(i + 1) {
            assert_ne!(a.message(), b.message());
        }
    }
    assert_eq!(
        ParseError::InvalidFormat.message(),
        "missing or unknown unit suffix"
    );
}
