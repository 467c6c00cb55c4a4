use doctor_doom_rs::error::ParseError;
use doctor_doom_rs::matcher::{compile, Matcher};
use doctor_doom_rs::rule::{DoomRule, FileMetadata, Policy, RuleSet};
use doctor_doom_rs::units::{parse_duration, parse_size, ByteCount, Duration};

const DAY: u64 = 86_400;
const MB: u64 = 1024 * 1024;

fn file(name: &str, size_bytes: u64, age_secs: u64) -> FileMetadata {
    FileMetadata {
        name: name.to_string(),
        size_bytes,
        age: Duration { secs: age_secs },
    }
}

fn default_rule() -> DoomRule {
    DoomRule::from_strings("7d", "100M", "*").unwrap()
}

#[test]
fn default_rule_applies_to_old_large_file() {
    let rule = default_rule();
    assert!(rule.applies_to(&file("x.log", 150 * MB, 8 * DAY)));
}

#[test]
fn default_rule_spares_old_small_file() {
    let rule = default_rule();
    assert!(!rule.applies_to(&file("x.log", 50 * MB, 8 * DAY)));
}

#[test]
fn default_rule_spares_young_large_file() {
    let rule = default_rule();
    assert!(!rule.applies_to(&file("x.log", 150 * MB, 6 * DAY)));
    assert!(!rule.applies_to(&file("x.log", 50 * MB, 6 * DAY)));
}

#[test]
fn thresholds_are_inclusive() {
    let rule = default_rule();
    assert!(rule.applies_to(&file("x.log", 100 * MB, 7 * DAY)));
    assert!(!rule.applies_to(&file("x.log", 100 * MB - 1, 7 * DAY)));
    assert!(!rule.applies_to(&file("x.log", 100 * MB, 7 * DAY - 1)));
    assert!(rule.meets_thresholds(Duration { secs: 7 * DAY }, 100 * MB));
    assert!(!rule.meets_thresholds(Duration { secs: 7 * DAY }, 100 * MB - 1));
    assert!(!rule.meets_thresholds(Duration { secs: 7 * DAY - 1 }, 100 * MB));
    assert!(rule.meets_thresholds(Duration { secs: u64::MAX }, u64::MAX));
}

#[test]
fn the_name_must_match_too() {
    let rule = DoomRule::from_strings("7d", "100M", r"\.log$").unwrap();
    assert!(rule.applies_to(&file("x.log", 150 * MB, 8 * DAY)));
    assert!(!rule.applies_to(&file("x.txt", 150 * MB, 8 * DAY)));
    let never = DoomRule::from_strings("0s", "0B", "").unwrap();
    assert!(!never.applies_to(&file("x.log", u64::MAX, u64::MAX)));
}

#[test]
fn from_strings_holds_the_parsed_values() {
    let rule = DoomRule::from_strings("2h", "3K", "^a").unwrap();
    assert_eq!(rule.age(), Duration { secs: 7_200 });
    assert_eq!(rule.size(), ByteCount { bytes: 3_072 });
    assert_eq!(rule.name().pattern(), "^a");
    let month = DoomRule::from_strings("1M", "1M", "*").unwrap();
    assert_eq!(month.age(), Duration { secs: 2_592_000 });
    assert_eq!(month.size(), ByteCount { bytes: 1_048_576 });
}

#[test]
fn from_strings_reports_each_error() {
    assert!(matches!(
        DoomRule::from_strings("7", "100M", "*"),
        Err(ParseError::InvalidFormat)
    ));
    assert!(matches!(
        DoomRule::from_strings("7d", "100Q", "*"),
        Err(ParseError::InvalidFormat)
    ));
    assert!(matches!(
        DoomRule::from_strings("xd", "100M", "*"),
        Err(ParseError::InvalidNumber)
    ));
    assert!(matches!(
        DoomRule::from_strings("7d", "1e3M", "*"),
        Err(ParseError::InvalidNumber)
    ));
    assert!(matches!(
        DoomRule::from_strings("-7d", "100M", "*"),
        Err(ParseError::Negative)
    ));
    assert!(matches!(
        DoomRule::from_strings("7d", "-100M", "*"),
        Err(ParseError::Negative)
    ));
    assert!(matches!(
        DoomRule::from_strings("7d", "100M", "invalid[regex"),
        Err(ParseError::InvalidPattern)
    ));
}

#[test]
fn from_strings_reports_the_first_error() {
    assert!(matches!(
        DoomRule::from_strings("-7d", "100", "invalid[regex"),
        Err(ParseError::Negative)
    ));
    assert!(matches!(
        DoomRule::from_strings("7d", "100", "invalid[regex"),
        Err(ParseError::InvalidFormat)
    ));
}

#[test]
fn new_takes_the_parts_as_they_are() {
    let rule = DoomRule::new(
        Duration::from_secs(5),
        ByteCount::from_bytes(6),
        compile("^b").unwrap(),
    );
    assert_eq!(rule.age().as_secs(), 5);
    assert_eq!(rule.size().as_bytes(), 6);
    assert!(rule.applies_to(&file("b", 6, 5)));
    assert!(!rule.applies_to(&file("ab", 6, 5)));
}

#[test]
fn describe_rule() {
    assert_eq!(
        default_rule().describe(),
        "DoomRule { age: 7d, size: 100M, name: * }"
    );
    let rule = DoomRule::from_strings("90s", "1025B", r"\.tmp$").unwrap();
    assert_eq!(
        rule.describe(),
        r"DoomRule { age: 90s, size: 1025B, name: \.tmp$ }"
    );
}

#[test]
fn describe_keeps_the_texts_as_given() {
    let rule = DoomRule::from_strings("0168h", "102400K", "").unwrap();
    assert_eq!(
        rule.describe(),
        "DoomRule { age: 0168h, size: 102400K, name:  }"
    );
    assert_eq!(rule.age_text(), "0168h");
    assert_eq!(rule.size_text(), "102400K");
    assert_eq!(rule.age(), Duration { secs: 604_800 });
    assert_eq!(rule.size(), ByteCount { bytes: 104_857_600 });
    let zero = DoomRule::from_strings("-0d", "-00B", "a \"b\"\n").unwrap();
    assert_eq!(
        zero.describe(),
        "DoomRule { age: -0d, size: -00B, name: a \"b\"\n }"
    );
}

#[test]
fn threshold_texts_read_back_as_the_thresholds() {
    let texts = [("7d", "100M"), ("1w", "102400K"), ("0168h", "104857600B")];
    for (age, size) in texts {
        let rule = DoomRule::from_strings(age, size, "*").unwrap();
        assert_eq!(rule.age_text(), age);
        assert_eq!(rule.size_text(), size);
        assert_eq!(parse_duration(rule.age_text()), Ok(rule.age()));
        assert_eq!(parse_size(rule.size_text()), Ok(rule.size()));
        assert_eq!(rule.age(), Duration { secs: 604_800 });
        assert_eq!(rule.size(), ByteCount { bytes: 104_857_600 });
    }
}

#[test]
fn new_writes_the_thresholds_in_their_largest_exact_unit() {
    let rule = DoomRule::new(
        Duration::from_secs(604_800),
        ByteCount::from_bytes(1_536),
        Matcher::all(),
    );
    assert_eq!(rule.age_text(), "1w");
    assert_eq!(rule.size_text(), "1536B");
    assert_eq!(rule.describe(), "DoomRule { age: 1w, size: 1536B, name: * }");
    assert_eq!(parse_duration(rule.age_text()), Ok(rule.age()));
    assert_eq!(parse_size(rule.size_text()), Ok(rule.size()));
}

#[test]
fn empty_rule_set_never_deletes() {
    let set = RuleSet::new();
    assert!(set.is_empty());
    assert_eq!(set.len(), 0);
    assert!(!set.should_delete(&file("x.log", u64::MAX, u64::MAX)));
    assert!(!set.should_delete(&file("", 0, 0)));
    let every = RuleSet::with_policy(Policy::Every);
    assert!(!every.should_delete(&file("x.log", u64::MAX, u64::MAX)));
    let any = RuleSet::with_policy(Policy::Any);
    assert!(!any.should_delete(&file("x.log", u64::MAX, u64::MAX)));
}

#[test]
fn any_rule_suffices() {
    let mut set = RuleSet::new();
    set.push(DoomRule::from_strings("0s", "0B", r"\.tmp$").unwrap());
    set.push(DoomRule::from_strings("30d", "0B", "*").unwrap());
    assert_eq!(set.len(), 2);
    assert!(!set.is_empty());
    // a .tmp file of any age and size
    assert!(set.should_delete(&file("a.tmp", 0, 0)));
    assert!(set.should_delete(&file("a.tmp", 1, 29 * DAY)));
    assert!(set.should_delete(&file("a.tmp", u64::MAX, u64::MAX)));
    // another file only by its age
    assert!(set.should_delete(&file("a.log", 0, 30 * DAY)));
    assert!(!set.should_delete(&file("a.log", u64::MAX, 30 * DAY - 1)));
    assert!(!set.should_delete(&file("a.tmp.bak", 5, 5)));
}

#[test]
fn the_order_of_rules_does_not_matter() {
    let mut set = RuleSet::new();
    set.push(DoomRule::from_strings("30d", "0B", "*").unwrap());
    set.push(DoomRule::from_strings("0s", "0B", r"\.tmp$").unwrap());
    assert!(set.should_delete(&file("a.tmp", 0, 0)));
    assert!(set.should_delete(&file("a.log", 0, 30 * DAY)));
    assert!(!set.should_delete(&file("a.log", 0, 29 * DAY)));
}

#[test]
fn star_dot_tmp_is_rejected_as_a_pattern() {
    assert!(matches!(
        DoomRule::from_strings("0s", "0B", "*.tmp"),
        Err(ParseError::InvalidPattern)
    ));
}

#[test]
fn every_policy_wants_all_rules() {
    let mut set = RuleSet::with_policy(Policy::Every);
    set.push(DoomRule::from_strings("0s", "0B", r"\.tmp$").unwrap());
    set.push(DoomRule::from_strings("30d", "0B", "*").unwrap());
    assert!(set.should_delete(&file("a.tmp", 0, 30 * DAY)));
    assert!(!set.should_delete(&file("a.tmp", 0, 29 * DAY)));
    assert!(!set.should_delete(&file("a.log", 0, 30 * DAY)));
}

#[test]
fn single_rule_set_decides_as_its_rule() {
    let files = [
        file("x.log", 150 * MB, 8 * DAY),
        file("x.log", 50 * MB, 8 * DAY),
        file("x.log", 150 * MB, 6 * DAY),
    ];
    for policy in [Policy::Any, Policy::Every] {
        let mut set = RuleSet::with_policy(policy);
        set.push(default_rule());
        for f in files.iter() {
            assert_eq!(set.should_delete(f), default_rule().applies_to(f));
        }
    }
}

#[test]
fn wildcard_rule_ignores_the_name() {
    let rule = DoomRule::new(
        Duration::from_secs(1),
        ByteCount::from_bytes(1),
        Matcher::all(),
    );
    assert!(rule.applies_to(&file("", 1, 1)));
    assert!(rule.applies_to(&file("\u{1F600}", 1, 1)));
    assert!(!rule.applies_to(&file("a", 0, 1)));
}

#[test]
fn from_rules_takes_rules_and_policy() {
    let rules = vec![
        DoomRule::from_strings("0s", "0B", r"\.tmp$").unwrap(),
        DoomRule::from_strings("30d", "0B", "*").unwrap(),
    ];
    let any = RuleSet::from_rules(rules, Policy::Any);
    assert_eq!(any.len(), 2);
    assert!(any.should_delete(&file("a.tmp", 0, 0)));
    let rules = vec![
        DoomRule::from_strings("0s", "0B", r"\.tmp$").unwrap(),
        DoomRule::from_strings("30d", "0B", "*").unwrap(),
    ];
    let every = RuleSet::from_rules(rules, Policy::Every);
    assert!(!every.should_delete(&file("a.tmp", 0, 0)));
    assert!(every.should_delete(&file("a.tmp", 0, 31 * DAY)));
    let none = RuleSet::from_rules(Vec::new(), Policy::Every);
    assert!(none.is_empty());
    assert!(!none.should_delete(&file("a.tmp", u64::MAX, u64::MAX)));
}

fn shareable<T: Send + Sync>(_: &T) -> bool {
    true
}

#[test]
fn rules_can_be_shared_between_threads() {
    let mut set = RuleSet::new();
    set.push(default_rule());
    assert!(shareable(&set));
    assert!(shareable(&default_rule()));
    assert!(shareable(&compile("^a").unwrap()));
}
