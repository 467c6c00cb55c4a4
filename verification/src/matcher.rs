//! Matching file names against a pattern: `*` for every name, the empty
//! pattern for none, and a regular expression for anything else.
//!
//! Regular expressions are compiled and run by the `regex` crate. What it
//! answers is not proved here; it is given a name, and the contracts below say
//! how the library's answers follow from it.

use vstd::prelude::*;
use crate::error::ParseError;
use crate::text::chars_of;

verus! {

/// `regex::Regex`, a compiled regular expression. Nothing inside it is known
/// here: it is made by `Regex::new` and asked by `Regex::is_match`.
#[verifier::external_type_specification]
#[verifier::external_body]
pub struct ExRegex(regex::Regex);

/// `regex::Error`, the reason why a pattern did not compile. It is never
/// looked into.
#[verifier::external_type_specification]
#[verifier::external_body]
pub struct ExRegexError(regex::Error);

/// What `regex::Regex::new` returns for the pattern `pattern`: the compiled
/// expression, or the reason why there is none.
pub uninterp spec fn regex_new(pattern: Seq<char>) -> Result<regex::Regex, regex::Error>;

/// What `regex::Regex::is_match` returns for the compiled expression `re` and
/// the text `haystack`: whether the expression matches somewhere in the text.
pub uninterp spec fn regex_is_match(re: regex::Regex, haystack: Seq<char>) -> bool;

/// `regex::Regex::new` compiles a pattern under the crate's default
/// settings. Not proved: that what it returns is decided by the pattern alone.
/// Which patterns compile, and to what, is left to the crate.
pub assume_specification[ regex::Regex::new ](re: &str) -> (r: Result<regex::Regex, regex::Error>)
    ensures
        r == regex_new(re@),
;

/// `regex::Regex::is_match` tells whether the expression matches anywhere in
/// the text. Not proved: that its answer is decided by the compiled expression
/// and the text alone. Which texts match is left to the crate.
pub assume_specification[ regex::Regex::is_match ](re: &regex::Regex, haystack: &str) -> (b: bool)
    ensures
        b == regex_is_match(*re, haystack@),
;

/// Whether `pattern` is the wildcard: the single character `*`.
pub open spec fn is_wildcard(pattern: Seq<char>) -> bool {
    pattern.len() == 1 && pattern[0] == '*'
}

/// Whether a matcher can be built from `pattern`: it is the wildcard, or
/// empty, or a regular expression that compiles.
pub open spec fn pattern_valid(pattern: Seq<char>) -> bool {
    is_wildcard(pattern) || pattern.len() == 0 || regex_new(pattern) is Ok
}

/// Whether the file name `name` matches `pattern`. The wildcard matches every
/// name and the empty pattern none. Any other pattern is a regular expression,
/// which matches where it is found anywhere in the name; one that does not
/// compile matches nothing.
pub open spec fn pattern_matches(pattern: Seq<char>, name: Seq<char>) -> bool {
    if is_wildcard(pattern) {
        true
    } else if pattern.len() == 0 {
        false
    } else {
        match regex_new(pattern) {
            Ok(re) => regex_is_match(re, name),
            Err(_) => false,
        }
    }
}

/// How a pattern is read.
#[derive(Clone, Copy, Debug, PartialEq, Eq, Structural)]
pub enum PatternKind {
    /// The wildcard `*`: every name matches.
    All,
    /// The empty pattern: no name matches.
    Nothing,
    /// A regular expression.
    Expression,
}

/// The kind of the pattern `pattern`.
pub open spec fn pattern_kind(pattern: Seq<char>) -> PatternKind {
    if is_wildcard(pattern) {
        PatternKind::All
    } else if pattern.len() == 0 {
        PatternKind::Nothing
    } else {
        PatternKind::Expression
    }
}

/// Tells how `pattern` is read, without compiling anything.
pub fn classify(pattern: &str) -> (kind: PatternKind)
    ensures
        kind == pattern_kind(pattern@),
{
    let chars = chars_of(pattern);
    if chars.len() == 0 {
        PatternKind::Nothing
    } else if chars.len() == 1 && chars[0] == '*' {
        PatternKind::All
    } else {
        PatternKind::Expression
    }
}

/// What a matcher runs to decide on a name.
enum Engine {
    All,
    Nothing,
    Expression(regex::Regex),
}

/// A compiled name pattern. It holds no state that a match changes, so one
/// matcher serves any number of names.
pub struct Matcher {
    pattern: String,
    engine: Engine,
}

impl View for Matcher {
    type V = Seq<char>;

    /// The pattern that the matcher was compiled from.
    closed spec fn view(&self) -> Seq<char> {
        self.pattern@
    }
}

impl Matcher {
    /// The engine is the one that the pattern asks for, and a compiled
    /// expression is what the pattern compiles to.
    #[verifier::type_invariant]
    spec fn well_formed(self) -> bool {
        match self.engine {
            Engine::All => pattern_kind(self.pattern@) == PatternKind::All,
            Engine::Nothing => pattern_kind(self.pattern@) == PatternKind::Nothing,
            Engine::Expression(re) => pattern_kind(self.pattern@) == PatternKind::Expression
                && regex_new(self.pattern@) == Ok::<regex::Regex, regex::Error>(re),
        }
    }

    /// The matcher of the wildcard `*`.
    pub fn all() -> (m: Matcher)
        ensures
            m@ == seq!['*'],
    {
        proof {
            reveal_strlit("*");
        }
        let pattern = "*".to_owned();
        assert(pattern@ =~= seq!['*']);
        Matcher { pattern, engine: Engine::All }
    }

    /// The matcher of the empty pattern.
    pub fn nothing() -> (m: Matcher)
        ensures
            m@ == Seq::<char>::empty(),
    {
        Matcher { pattern: String::new(), engine: Engine::Nothing }
    }

    /// Builds the matcher of an expression pattern from what compiling it
    /// gave: the matcher where it compiled, `InvalidPattern` where it did not.
    pub fn from_compiled(pattern: &str, compiled: Result<regex::Regex, regex::Error>) -> (r: Result<
        Matcher,
        ParseError,
    >)
        requires
            pattern_kind(pattern@) == PatternKind::Expression,
            compiled == regex_new(pattern@),
        ensures
            compiled is Ok ==> r is Ok && r->Ok_0@ == pattern@,
            compiled is Err ==> r == Err::<Matcher, ParseError>(ParseError::InvalidPattern),
    {
        match compiled {
            Ok(re) => Ok(Matcher { pattern: pattern.to_owned(), engine: Engine::Expression(re) }),
            Err(_) => Err(ParseError::InvalidPattern),
        }
    }

    /// The pattern that the matcher was compiled from.
    pub fn pattern(&self) -> (p: &str)
        ensures
            p@ == self@,
    {
        self.pattern.as_str()
    }

    /// Tells whether the file name `name` matches.
    pub fn matches(&self, name: &str) -> (b: bool)
        ensures
            b == pattern_matches(self@, name@),
    {
        proof {
            use_type_invariant(self);
        }
        match &self.engine {
            Engine::All => true,
            Engine::Nothing => false,
            Engine::Expression(re) => re.is_match(name),
        }
    }
}

/// Compiles a name pattern. This is where a pattern is rejected: a matcher,
/// once built, answers for every name.
pub fn compile(pattern: &str) -> (r: Result<Matcher, ParseError>)
    ensures
        pattern_valid(pattern@) ==> r is Ok && r->Ok_0@ == pattern@,
        !pattern_valid(pattern@) ==> r == Err::<Matcher, ParseError>(ParseError::InvalidPattern),
{
    match classify(pattern) {
        PatternKind::All => Ok(Matcher::all()),
        PatternKind::Nothing => Ok(Matcher::nothing()),
        PatternKind::Expression => Matcher::from_compiled(pattern, regex::Regex::new(pattern)),
    }
}

/// The wildcard is a valid pattern and matches every name.
pub proof fn lemma_wildcard_matches_all(name: Seq<char>)
    ensures
        pattern_valid(seq!['*']),
        pattern_matches(seq!['*'], name),
{
}

/// The empty pattern is a valid pattern and matches no name.
pub proof fn lemma_empty_matches_nothing(name: Seq<char>)
    ensures
        pattern_valid(Seq::<char>::empty()),
        !pattern_matches(Seq::<char>::empty(), name),
{
}

} // verus!
