//! Deletion rules: one rule is a conjunction of an age threshold, a size
//! threshold and a name pattern; a rule set combines the rules of one
//! clean-up pass into a single decision per file.

use vstd::prelude::*;
use vstd::string::StringExecFns;
use crate::error::ParseError;
use crate::matcher::{compile, pattern_matches, pattern_valid, Matcher};
use crate::units::{
    format_duration, format_duration_spec, format_size, format_size_spec, parse_duration,
    parse_duration_spec, parse_size, parse_size_spec, ByteCount, Duration,
};

verus! {

/// What is known of a file when it is judged. The file walker supplies it.
#[derive(Debug)]
pub struct FileMetadata {
    /// The file's name, without its directory.
    pub name: String,
    /// The file's size in bytes.
    pub size_bytes: u64,
    /// The time since the file was last modified.
    pub age: Duration,
}

/// A rule as a plain value: the two thresholds, each with the text that
/// stands for it, and the text of the pattern.
pub struct RuleView {
    pub age: Duration,
    pub size: ByteCount,
    pub name: Seq<char>,
    /// The age threshold as text, kept as it was given.
    pub age_text: Seq<char>,
    /// The size threshold as text, kept as it was given.
    pub size_text: Seq<char>,
}

impl RuleView {
    /// Whether a file of this age and size is at or above both thresholds.
    pub open spec fn thresholds_met(self, age: Duration, size_bytes: u64) -> bool {
        age.secs >= self.age.secs && size_bytes >= self.size.bytes
    }

    /// Whether each threshold is what its text reads as.
    pub open spec fn well_formed(self) -> bool {
        &&& parse_duration_spec(self.age_text) == Ok::<Duration, ParseError>(self.age)
        &&& parse_size_spec(self.size_text) == Ok::<ByteCount, ParseError>(self.size)
    }

    /// The rule as one line of text: the three texts as they were given, with
    /// nothing added to them and nothing changed in them.
    pub open spec fn describe(self) -> Seq<char> {
        "DoomRule { age: "@ + self.age_text + ", size: "@ + self.size_text + ", name: "@
            + self.name + " }"@
    }

    /// Whether the rule applies to the file: it is at least as old as the age
    /// threshold, at least as large as the size threshold, and its name
    /// matches the pattern. All three must hold.
    pub open spec fn applies_to(self, meta: &FileMetadata) -> bool {
        self.thresholds_met(meta.age, meta.size_bytes) && pattern_matches(self.name, meta.name@)
    }
}

/// The rule that the three texts describe, or the first error among them:
/// the age is read first, then the size, then the name pattern. The rule
/// keeps the texts of its thresholds as they are.
pub open spec fn rule_from_strings(age: Seq<char>, size: Seq<char>, name: Seq<char>) -> Result<
    RuleView,
    ParseError,
> {
    match parse_duration_spec(age) {
        Err(e) => Err(e),
        Ok(age_read) => match parse_size_spec(size) {
            Err(e) => Err(e),
            Ok(size_read) => if pattern_valid(name) {
                Ok(
                    RuleView {
                        age: age_read,
                        size: size_read,
                        name,
                        age_text: age,
                        size_text: size,
                    },
                )
            } else {
                Err(ParseError::InvalidPattern)
            },
        },
    }
}

/// One deletion rule. Its thresholds are numbers and its pattern is compiled:
/// whatever is wrong with a rule's text is found when the rule is built. The
/// texts of the thresholds are kept beside the numbers, for showing the rule
/// as it was written.
pub struct DoomRule {
    age: Duration,
    size: ByteCount,
    name: Matcher,
    age_text: String,
    size_text: String,
}

impl View for DoomRule {
    type V = RuleView;

    closed spec fn view(&self) -> RuleView {
        RuleView {
            age: self.age,
            size: self.size,
            name: self.name@,
            age_text: self.age_text@,
            size_text: self.size_text@,
        }
    }
}

impl DoomRule {
    /// Each threshold is what its text reads as.
    #[verifier::type_invariant]
    spec fn texts_agree(self) -> bool {
        self@.well_formed()
    }

    /// The rule with the given thresholds and pattern. The text of each
    /// threshold is written in its largest exact unit.
    pub fn new(age: Duration, size: ByteCount, name: Matcher) -> (rule: DoomRule)
        ensures
            rule@ == (RuleView {
                age,
                size,
                name: name@,
                age_text: format_duration_spec(age),
                size_text: format_size_spec(size),
            }),
            rule@.well_formed(),
    {
        DoomRule {
            age,
            size,
            name,
            age_text: format_duration(age),
            size_text: format_size(size),
        }
    }

    /// Builds a rule from its textual form, such as `7d`, `100M` and `*`.
    pub fn from_strings(age: &str, size: &str, name: &str) -> (r: Result<DoomRule, ParseError>)
        ensures
            match r {
                Ok(rule) => {
                    &&& rule_from_strings(age@, size@, name@) == Ok::<RuleView, ParseError>(rule@)
                    &&& rule@.well_formed()
                },
                Err(e) => rule_from_strings(age@, size@, name@) == Err::<RuleView, ParseError>(e),
            },
    {
        let age_read = match parse_duration(age) {
            Ok(age_read) => age_read,
            Err(e) => {
                return Err(e);
            },
        };
        let size_read = match parse_size(size) {
            Ok(size_read) => size_read,
            Err(e) => {
                return Err(e);
            },
        };
        match compile(name) {
            Ok(name) => Ok(
                DoomRule {
                    age: age_read,
                    size: size_read,
                    name,
                    age_text: age.to_owned(),
                    size_text: size.to_owned(),
                },
            ),
            Err(e) => Err(e),
        }
    }

    /// The age below which files are kept.
    pub fn age(&self) -> (age: Duration)
        ensures
            age == self@.age,
    {
        self.age
    }

    /// The size below which files are kept.
    pub fn size(&self) -> (size: ByteCount)
        ensures
            size == self@.size,
    {
        self.size
    }

    /// The pattern that a file's name must match.
    pub fn name(&self) -> (name: &Matcher)
        ensures
            name@ == self@.name,
    {
        &self.name
    }

    /// The age threshold as text, as the rule was given it. It reads as the
    /// rule's age.
    pub fn age_text(&self) -> (text: &str)
        ensures
            text@ == self@.age_text,
            parse_duration_spec(text@) == Ok::<Duration, ParseError>(self@.age),
    {
        proof {
            use_type_invariant(self);
        }
        self.age_text.as_str()
    }

    /// The size threshold as text, as the rule was given it. It reads as the
    /// rule's size.
    pub fn size_text(&self) -> (text: &str)
        ensures
            text@ == self@.size_text,
            parse_size_spec(text@) == Ok::<ByteCount, ParseError>(self@.size),
    {
        proof {
            use_type_invariant(self);
        }
        self.size_text.as_str()
    }

    /// The rule as one line of text, for logs. The thresholds stand in it as
    /// they were given, so each reads back as the rule's own threshold.
    pub fn describe(&self) -> (text: String)
        ensures
            text@ == self@.describe(),
            self@.well_formed(),
    {
        proof {
            use_type_invariant(self);
        }
        let mut text = "DoomRule { age: ".to_owned();
        text.append(self.age_text.as_str());
        text.append(", size: ");
        text.append(self.size_text.as_str());
        text.append(", name: ");
        text.append(self.name.pattern());
        text.append(" }");
        assert(text@ =~= self@.describe());
        text
    }

    /// Tells whether a file of this age and size is at or above both
    /// thresholds, whatever its name.
    pub fn meets_thresholds(&self, age: Duration, size_bytes: u64) -> (b: bool)
        ensures
            b == self@.thresholds_met(age, size_bytes),
    {
        age.secs >= self.age.secs && size_bytes >= self.size.bytes
    }

    /// Tells whether the rule applies to the file.
    pub fn applies_to(&self, meta: &FileMetadata) -> (b: bool)
        ensures
            b == self@.applies_to(meta),
    {
        self.meets_thresholds(meta.age, meta.size_bytes) && self.name.matches(meta.name.as_str())
    }
}

/// How the rules of a set are combined.
#[derive(Clone, Copy, Debug, PartialEq, Eq, Structural)]
pub enum Policy {
    /// A file is deleted where at least one rule applies to it.
    Any,
    /// A file is deleted where every rule applies to it, and there is one.
    Every,
}

/// Whether at least one of `rules` applies to the file.
pub open spec fn any_applies(rules: Seq<RuleView>, meta: &FileMetadata) -> bool {
    exists|i: int| 0 <= i < rules.len() && (#[trigger] rules[i]).applies_to(meta)
}

/// Whether each of `rules` applies to the file.
pub open spec fn every_applies(rules: Seq<RuleView>, meta: &FileMetadata) -> bool {
    forall|i: int| 0 <= i < rules.len() ==> (#[trigger] rules[i]).applies_to(meta)
}

/// The decision on a file under `rules` and `policy`. Without rules nothing
/// is deleted, under either policy.
pub open spec fn decision(rules: Seq<RuleView>, policy: Policy, meta: &FileMetadata) -> bool {
    match policy {
        Policy::Any => any_applies(rules, meta),
        Policy::Every => rules.len() > 0 && every_applies(rules, meta),
    }
}

/// The deletion policy of one clean-up pass: its rules and how they combine.
pub struct RuleSet {
    rules: Vec<DoomRule>,
    policy: Policy,
}

impl RuleSet {
    /// The rules of the set, in the order in which they were added.
    pub closed spec fn rules(&self) -> Seq<RuleView> {
        self.rules@.map_values(|rule: DoomRule| rule@)
    }

    /// How the rules combine.
    pub closed spec fn policy(&self) -> Policy {
        self.policy
    }

    /// Whether the set has the file deleted.
    pub open spec fn should_delete_spec(&self, meta: &FileMetadata) -> bool {
        decision(self.rules(), self.policy(), meta)
    }

    /// The set without rules, under which files are deleted where any rule
    /// applies.
    pub fn new() -> (set: RuleSet)
        ensures
            set.rules() == Seq::<RuleView>::empty(),
            set.policy() == Policy::Any,
    {
        let set = RuleSet { rules: Vec::new(), policy: Policy::Any };
        assert(set.rules() =~= Seq::<RuleView>::empty());
        set
    }

    /// The set without rules and with the given policy.
    pub fn with_policy(policy: Policy) -> (set: RuleSet)
        ensures
            set.rules() == Seq::<RuleView>::empty(),
            set.policy() == policy,
    {
        let set = RuleSet { rules: Vec::new(), policy };
        assert(set.rules() =~= Seq::<RuleView>::empty());
        set
    }

    /// The set of the given rules, in their order, with the given policy.
    pub fn from_rules(rules: Vec<DoomRule>, policy: Policy) -> (set: RuleSet)
        ensures
            set.rules() == rules@.map_values(|rule: DoomRule| rule@),
            set.policy() == policy,
    {
        RuleSet { rules, policy }
    }

    /// Adds a rule at the end.
    pub fn push(&mut self, rule: DoomRule)
        ensures
            final(self).rules() == old(self).rules().push(rule@),
            final(self).policy() == old(self).policy(),
    {
        self.rules.push(rule);
        assert(self.rules() =~= old(self).rules().push(rule@));
    }

    /// The number of rules.
    pub fn len(&self) -> (n: usize)
        ensures
            n == self.rules().len(),
    {
        self.rules.len()
    }

    /// Tells whether the set has no rules.
    pub fn is_empty(&self) -> (b: bool)
        ensures
            b == (self.rules().len() == 0),
    {
        self.rules.len() == 0
    }

    /// Decides whether the file is deleted.
    pub fn should_delete(&self, meta: &FileMetadata) -> (b: bool)
        ensures
            b == self.should_delete_spec(meta),
    {
        let n = self.rules.len();
        let every = match self.policy {
            Policy::Any => false,
            Policy::Every => true,
        };
        let mut i: usize = 0;
        while i < n
            invariant
                i <= n,
                n == self.rules.len(),
                n == self.rules().len(),
                every == (self.policy == Policy::Every),
                forall|j: int| 0 <= j < i ==> (#[trigger] self.rules()[j]).applies_to(meta) == every,
            decreases n - i,
        {
            let applies = self.rules[i].applies_to(meta);
            assert(self.rules()[i as int] == self.rules[i as int]@);
            if applies != every {
                return applies;
            }
            i += 1;
        }
        every && n > 0
    }
}

/// A set without rules deletes nothing, however old or large the file is and
/// whatever the policy.
pub proof fn lemma_empty_set_keeps_all(set: RuleSet, meta: &FileMetadata)
    requires
        set.rules().len() == 0,
    ensures
        !set.should_delete_spec(meta),
{
}

/// Under the policy `Any`, a file is deleted as soon as one rule of the set
/// applies to it, whatever the other rules say.
pub proof fn lemma_one_rule_suffices(set: RuleSet, i: int, meta: &FileMetadata)
    requires
        set.policy() == Policy::Any,
        0 <= i < set.rules().len(),
        set.rules()[i].applies_to(meta),
    ensures
        set.should_delete_spec(meta),
{
}

/// A rule whose thresholds are zero applies to exactly the files whose name
/// matches its pattern, whatever their age and size.
pub proof fn lemma_zero_thresholds(rule: RuleView, meta: &FileMetadata)
    requires
        rule.age.secs == 0,
        rule.size.bytes == 0,
    ensures
        rule.applies_to(meta) == pattern_matches(rule.name, meta.name@),
{
}

/// A rule with the wildcard pattern applies to exactly the files that are at
/// or above both thresholds: both, not one of them.
pub proof fn lemma_wildcard_rule(rule: RuleView, meta: &FileMetadata)
    requires
        rule.name == seq!['*'],
    ensures
        rule.applies_to(meta) == (meta.age.secs >= rule.age.secs && meta.size_bytes
            >= rule.size.bytes),
{
}

} // verus!
