//! The configuration of one clean-up job: the directory to clean, the
//! directory for exported logs, the schedule, and the deletion rule.

use vstd::prelude::*;
use vstd::pervasive::unreached;
use vstd::string::StringExecFns;
use crate::decimal::{decimal_value, digits_value};
use crate::error::ParseError;
pub use crate::rule::DoomRule;
use crate::rule::{rule_from_strings, RuleView};
use crate::units::{ByteCount, Duration, DAY, MIB};

verus! {

/// The directory that is cleaned where none is configured.
pub open spec fn default_path() -> Seq<char> {
    "./"@
}

/// The directory for exported logs where none is configured.
pub open spec fn default_export() -> Seq<char> {
    "/var/log"@
}

/// The schedule where none is configured: weekly, at midnight on Sunday.
pub open spec fn default_circle() -> Seq<char> {
    "0 0 * * 0"@
}

/// The age threshold where none is configured.
pub open spec fn default_age() -> Seq<char> {
    "7d"@
}

/// The size threshold where none is configured.
pub open spec fn default_size() -> Seq<char> {
    "100M"@
}

/// The name pattern where none is configured.
pub open spec fn default_name() -> Seq<char> {
    "*"@
}

/// The rule that applies where none is configured: files of at least seven
/// days and at least 100 MiB, whatever their name. Its thresholds are written
/// as `7d` and `100M`.
pub open spec fn default_rule() -> RuleView {
    RuleView {
        age: Duration { secs: (7 * DAY) as u64 },
        size: ByteCount { bytes: (100 * MIB) as u64 },
        name: seq!['*'],
        age_text: default_age(),
        size_text: default_size(),
    }
}

/// The default rule is what its three default texts describe.
pub proof fn lemma_default_rule()
    ensures
        rule_from_strings(default_age(), default_size(), default_name()) == Ok::<
            RuleView,
            ParseError,
        >(default_rule()),
{
    reveal_strlit("7d");
    reveal_strlit("100M");
    reveal_strlit("*");
    let seven = seq!['7'];
    let hundred = seq!['1', '0', '0'];
    assert(default_age().drop_last() =~= seven);
    assert(default_size().drop_last() =~= hundred);
    assert(default_name() =~= seq!['*']);
    assert(digits_value(seven) == 7) by {
        assert(seven.drop_last() =~= Seq::<char>::empty());
        assert(digits_value(seven.drop_last()) == 0);
    }
    assert(digits_value(hundred) == 100) by {
        let ten = seq!['1', '0'];
        let one = seq!['1'];
        assert(hundred.drop_last() =~= ten);
        assert(ten.drop_last() =~= one);
        assert(one.drop_last() =~= Seq::<char>::empty());
        assert(digits_value(one.drop_last()) == 0);
        assert(digits_value(one) == 1);
        assert(digits_value(ten) == 10);
    }
    assert(decimal_value(seven) == Some(7int));
    assert(decimal_value(hundred) == Some(100int));
}

/// The values that the settings may have been given from outside, one field
/// for each setting; `None` where a setting was not given.
#[derive(Debug)]
pub struct DoomEnv {
    /// `DOOM_PATH`: the directory to clean.
    pub doom_path: Option<String>,
    /// `DOOM_EXPORT`: the directory for exported logs.
    pub doom_export: Option<String>,
    /// `DOOM_CIRCLE`: the schedule.
    pub doom_circle: Option<String>,
    /// `RULE_AGE`: the age threshold.
    pub rule_age: Option<String>,
    /// `RULE_SIZE`: the size threshold.
    pub rule_size: Option<String>,
    /// `RULE_NAME`: the name pattern.
    pub rule_name: Option<String>,
}

impl DoomEnv {
    /// The values where no setting was given.
    pub fn unset() -> (env: DoomEnv)
        ensures
            env.doom_path is None,
            env.doom_export is None,
            env.doom_circle is None,
            env.rule_age is None,
            env.rule_size is None,
            env.rule_name is None,
    {
        DoomEnv {
            doom_path: None,
            doom_export: None,
            doom_circle: None,
            rule_age: None,
            rule_size: None,
            rule_name: None,
        }
    }
}

/// The text of a setting: the value that was given, or else the default. A
/// value that was given and is empty stays empty.
pub open spec fn setting(value: Option<String>, default: Seq<char>) -> Seq<char> {
    match value {
        Some(text) => text@,
        None => default,
    }
}

/// The text of a setting, borrowed.
pub fn setting_of<'a>(value: &'a Option<String>, default: &'a str) -> (text: &'a str)
    ensures
        text@ == setting(*value, default@),
{
    match value {
        Some(text) => text.as_str(),
        None => default,
    }
}

/// The text of a setting, owned.
pub fn into_setting(value: Option<String>, default: &str) -> (text: String)
    ensures
        text@ == setting(value, default@),
{
    match value {
        Some(text) => text,
        None => default.to_owned(),
    }
}

/// The options as plain values.
pub struct OptionsView {
    pub doom_path: Seq<char>,
    pub doom_export: Seq<char>,
    pub circle: Seq<char>,
    pub rule: RuleView,
}

impl OptionsView {
    /// The options as one line of text.
    pub open spec fn describe(self) -> Seq<char> {
        "DoomOptions { doom_path: "@ + self.doom_path + ", doom_export: "@ + self.doom_export
            + ", circle: "@ + self.circle + ", rule: "@ + self.rule.describe() + " }"@
    }
}

/// The options that the given settings describe, each missing setting
/// replaced by its default, or the error in the rule's texts.
pub open spec fn options_from_env(env: DoomEnv) -> Result<OptionsView, ParseError> {
    match rule_from_strings(
        setting(env.rule_age, default_age()),
        setting(env.rule_size, default_size()),
        setting(env.rule_name, default_name()),
    ) {
        Ok(rule) => Ok(
            OptionsView {
                doom_path: setting(env.doom_path, default_path()),
                doom_export: setting(env.doom_export, default_export()),
                circle: setting(env.doom_circle, default_circle()),
                rule,
            },
        ),
        Err(e) => Err(e),
    }
}

/// The options where nothing is configured.
pub open spec fn default_options() -> OptionsView {
    OptionsView {
        doom_path: default_path(),
        doom_export: default_export(),
        circle: default_circle(),
        rule: default_rule(),
    }
}

/// The default rule is shown with its thresholds as `7d` and `100M`.
pub proof fn lemma_default_rule_text()
    ensures
        default_rule().describe() == "DoomRule { age: 7d, size: 100M, name: * }"@,
{
    reveal_strlit("DoomRule { age: ");
    reveal_strlit("7d");
    reveal_strlit(", size: ");
    reveal_strlit("100M");
    reveal_strlit(", name: ");
    reveal_strlit(" }");
    reveal_strlit("DoomRule { age: 7d, size: 100M, name: * }");
    assert(default_rule().describe() =~= "DoomRule { age: 7d, size: 100M, name: * }"@);
}

/// The default options are shown as one line with every default in it.
pub proof fn lemma_default_options_text()
    ensures
        default_options().describe()
            == "DoomOptions { doom_path: ./, doom_export: /var/log, circle: 0 0 * * 0, rule: DoomRule { age: 7d, size: 100M, name: * } }"@,
{
    lemma_default_rule_text();
    reveal_strlit("DoomOptions { doom_path: ");
    reveal_strlit("./");
    reveal_strlit(", doom_export: ");
    reveal_strlit("/var/log");
    reveal_strlit(", circle: ");
    reveal_strlit("0 0 * * 0");
    reveal_strlit(", rule: ");
    reveal_strlit("DoomRule { age: 7d, size: 100M, name: * }");
    reveal_strlit(" }");
    reveal_strlit(
        "DoomOptions { doom_path: ./, doom_export: /var/log, circle: 0 0 * * 0, rule: DoomRule { age: 7d, size: 100M, name: * } }",
    );
    assert(default_options().describe()
        =~= "DoomOptions { doom_path: ./, doom_export: /var/log, circle: 0 0 * * 0, rule: DoomRule { age: 7d, size: 100M, name: * } }"@);
}

/// All the options of one clean-up job.
pub struct DoomOptions {
    /// The directory that is cleaned.
    pub doom_path: String,
    /// The directory to which logs are exported.
    pub doom_export: String,
    /// The schedule of the job, as a cron expression.
    pub circle: String,
    /// The rule that decides which files are deleted.
    pub rule: DoomRule,
}

impl View for DoomOptions {
    type V = OptionsView;

    open spec fn view(&self) -> OptionsView {
        OptionsView {
            doom_path: self.doom_path@,
            doom_export: self.doom_export@,
            circle: self.circle@,
            rule: self.rule@,
        }
    }
}

impl DoomOptions {
    /// The options where nothing is configured.
    pub fn new() -> (options: DoomOptions)
        ensures
            options@ == default_options(),
    {
        proof {
            lemma_default_rule();
        }
        let rule = match DoomRule::from_strings("7d", "100M", "*") {
            Ok(rule) => rule,
            Err(_) => unreached(),
        };
        DoomOptions {
            doom_path: "./".to_owned(),
            doom_export: "/var/log".to_owned(),
            circle: "0 0 * * 0".to_owned(),
            rule,
        }
    }

    /// The options as one line of text, for logs.
    pub fn describe(&self) -> (text: String)
        ensures
            text@ == self@.describe(),
    {
        let mut text = "DoomOptions { doom_path: ".to_owned();
        text.append(self.doom_path.as_str());
        text.append(", doom_export: ");
        text.append(self.doom_export.as_str());
        text.append(", circle: ");
        text.append(self.circle.as_str());
        text.append(", rule: ");
        text.append(self.rule.describe().as_str());
        text.append(" }");
        assert(text@ =~= self@.describe());
        text
    }

    /// Replaces every option by the given value.
    pub fn assign(&mut self, doom_path: String, doom_export: String, circle: String, rule: DoomRule)
        ensures
            *final(self) == (DoomOptions { doom_path, doom_export, circle, rule }),
    {
        self.doom_path = doom_path;
        self.doom_export = doom_export;
        self.circle = circle;
        self.rule = rule;
    }

    /// Replaces every option by its setting in `env`, or by its default where
    /// `env` has none. Where the rule's texts are in error, the error is
    /// returned and the options stay as they were.
    pub fn assign_from_env(&mut self, env: DoomEnv) -> (r: Result<(), ParseError>)
        ensures
            match r {
                Ok(_) => options_from_env(env) == Ok::<OptionsView, ParseError>(final(self)@),
                Err(e) => {
                    &&& options_from_env(env) == Err::<OptionsView, ParseError>(e)
                    &&& *final(self) == *old(self)
                },
            },
    {
        let rule = match DoomRule::from_strings(
            setting_of(&env.rule_age, "7d"),
            setting_of(&env.rule_size, "100M"),
            setting_of(&env.rule_name, "*"),
        ) {
            Ok(rule) => rule,
            Err(e) => {
                return Err(e);
            },
        };
        self.doom_path = into_setting(env.doom_path, "./");
        self.doom_export = into_setting(env.doom_export, "/var/log");
        self.circle = into_setting(env.doom_circle, "0 0 * * 0");
        self.rule = rule;
        Ok(())
    }

    /// The options that the settings in `env` describe, each missing setting
    /// replaced by its default.
    pub fn new_and_assign_from_env(env: DoomEnv) -> (r: Result<DoomOptions, ParseError>)
        ensures
            match r {
                Ok(options) => options_from_env(env) == Ok::<OptionsView, ParseError>(options@),
                Err(e) => options_from_env(env) == Err::<OptionsView, ParseError>(e),
            },
    {
        let mut doom_options = DoomOptions::new();
        match doom_options.assign_from_env(env) {
            Ok(_) => Ok(doom_options),
            Err(e) => Err(e),
        }
    }
}

/// Where no setting is given, the options are the default ones.
pub proof fn lemma_unset_env_gives_defaults(env: DoomEnv)
    requires
        env.doom_path is None,
        env.doom_export is None,
        env.doom_circle is None,
        env.rule_age is None,
        env.rule_size is None,
        env.rule_name is None,
    ensures
        options_from_env(env) == Ok::<OptionsView, ParseError>(default_options()),
{
    lemma_default_rule();
}

} // verus!
