//! The policy under which templates are checked, and the outcome of a check.

use vstd::prelude::*;
use crate::error::{CustomCommandError, ErrorView};
use crate::paths::{join_path_chars, joined_path};
use crate::text::{
    chars_of, concat2, copy_strings, join_strings, joined, lemma_push_text, push_str, same_text,
    string_of,
};

verus! {

/// How strictly findings are treated.
#[derive(Debug, Clone, Copy, PartialEq, Eq, Structural)]
pub enum SecurityValidationLevel {
    /// Findings are computed and nothing follows from them.
    Off,
    /// Findings are reported as warnings.
    Warn,
    /// Findings block the expansion.
    Error,
}

impl Default for SecurityValidationLevel {
    fn default() -> (level: Self)
        ensures
            level == SecurityValidationLevel::Error,
    {
        SecurityValidationLevel::Error
    }
}

/// The policy: a level and the patterns that the user has exempted.
#[derive(Debug)]
pub struct SecurityValidationConfig {
    /// How strictly findings are treated.
    pub level: SecurityValidationLevel,
    /// The exempted patterns.
    pub ignored_patterns: Vec<String>,
}

/// A policy as plain texts.
pub struct ConfigView {
    pub level: SecurityValidationLevel,
    pub ignored_patterns: Seq<Seq<char>>,
}

impl View for SecurityValidationConfig {
    type V = ConfigView;

    open spec fn view(&self) -> ConfigView {
        ConfigView { level: self.level, ignored_patterns: self.ignored_patterns.deep_view() }
    }
}

impl Default for SecurityValidationConfig {
    fn default() -> (config: Self)
        ensures
            config@ == default_policy(),
    {
        let config = SecurityValidationConfig {
            level: SecurityValidationLevel::Error,
            ignored_patterns: Vec::new(),
        };
        proof {
            assert(config.ignored_patterns.deep_view() =~= Seq::empty());
        }
        config
    }
}

impl Clone for SecurityValidationConfig {
    fn clone(&self) -> (out: Self)
        ensures
            out@ == self@,
    {
        SecurityValidationConfig {
            level: self.level,
            ignored_patterns: copy_strings(&self.ignored_patterns),
        }
    }
}

/// The policy in force where none is stored: findings block, nothing is
/// exempted.
pub open spec fn default_policy() -> ConfigView {
    ConfigView { level: SecurityValidationLevel::Error, ignored_patterns: Seq::empty() }
}

/// The outcome of a check.
#[derive(Debug)]
pub struct SecurityValidationResult {
    /// What was found, one text for each finding.
    pub risks: Vec<String>,
    /// Whether the findings are to be shown as warnings.
    pub should_warn: bool,
    /// Whether the findings block the expansion.
    pub should_error: bool,
}

/// An outcome as plain texts.
pub struct OutcomeView {
    pub risks: Seq<Seq<char>>,
    pub should_warn: bool,
    pub should_error: bool,
}

impl View for SecurityValidationResult {
    type V = OutcomeView;

    open spec fn view(&self) -> OutcomeView {
        OutcomeView {
            risks: self.risks.deep_view(),
            should_warn: self.should_warn,
            should_error: self.should_error,
        }
    }
}

/// What was found where the policy is stored.
#[derive(Debug)]
pub enum StoredPolicy {
    /// Nothing is stored yet.
    Missing,
    /// The store could not be read; the text says why.
    Unreadable(String),
    /// What is stored is no policy; the text says why.
    Malformed(String),
    /// The stored policy.
    Loaded(SecurityValidationConfig),
}

/// The name of the file that holds the policy.
pub open spec fn policy_file_name() -> Seq<char> {
    "security_config.toml"@
}

/// The patterns without those that equal `pattern`, in order.
pub open spec fn without_pattern(patterns: Seq<Seq<char>>, pattern: Seq<char>) -> Seq<Seq<char>>
    decreases patterns.len(),
{
    if patterns.len() == 0 {
        Seq::empty()
    } else {
        let rest = without_pattern(patterns.drop_last(), pattern);
        if patterns.last() == pattern {
            rest
        } else {
            rest.push(patterns.last())
        }
    }
}

/// The words for a level in the summary of the policy.
pub open spec fn level_text(level: SecurityValidationLevel) -> Seq<char> {
    match level {
        SecurityValidationLevel::Error => "Enabled (Error)"@,
        SecurityValidationLevel::Warn => "Warning Only"@,
        SecurityValidationLevel::Off => "Disabled"@,
    }
}

/// The summary of a policy: its level, and the exemptions where there are
/// any.
pub open spec fn status_text(policy: ConfigView) -> Seq<char> {
    let head = "🔒 Security Validation: "@ + level_text(policy.level);
    if policy.ignored_patterns.len() == 0 {
        head
    } else {
        head + "\n📝 Ignored Patterns: "@ + joined(policy.ignored_patterns, ", "@)
    }
}

/// The policy in force and the place where it is stored.
#[derive(Debug)]
pub struct SecurityConfigManager {
    config_file_path: String,
    current_config: SecurityValidationConfig,
}

impl SecurityConfigManager {
    /// The path of the file that holds the policy.
    pub closed spec fn path(&self) -> Seq<char> {
        self.config_file_path@
    }

    /// The policy in force.
    pub closed spec fn policy(&self) -> ConfigView {
        self.current_config@
    }

    /// A manager for the policy stored in the directory `config_dir`, with
    /// the default policy in force until another is loaded.
    pub fn new(config_dir: &str) -> (manager: Self)
        ensures
            manager.path() == joined_path(config_dir@, policy_file_name()),
            manager.policy() == default_policy(),
    {
        let path = join_path_chars(&chars_of(config_dir), &chars_of("security_config.toml"));
        SecurityConfigManager {
            config_file_path: string_of(&path),
            current_config: SecurityValidationConfig::default(),
        }
    }

    /// The path of the file that holds the policy.
    pub fn config_file_path(&self) -> (path: &str)
        ensures
            path@ == self.path(),
    {
        self.config_file_path.as_str()
    }

    /// Takes over what was found in the store. A stored policy comes into
    /// force. Where nothing is stored the policy in force stays, and the
    /// answer `true` says that it is to be stored. A store that cannot be
    /// read, or holds no policy, is a configuration error and changes
    /// nothing.
    pub fn load_config(&mut self, stored: StoredPolicy) -> (out: Result<bool, CustomCommandError>)
        ensures
            final(self).path() == old(self).path(),
            match stored {
                StoredPolicy::Missing => out == Ok::<bool, CustomCommandError>(true) && final(self).policy() == old(self).policy(),
                StoredPolicy::Loaded(policy) => out == Ok::<bool, CustomCommandError>(false)
                    && final(self).policy() == policy@,
                StoredPolicy::Unreadable(reason) => out matches Err(e) && e@ == (
                ErrorView::ConfigError { message: reason@ }) && final(self).policy() == old(self).policy(),
                StoredPolicy::Malformed(reason) => out matches Err(e) && e@ == (
                ErrorView::ConfigError { message: "TOML parse error: "@ + reason@ }) && final(self).policy() == old(self).policy(),
            },
    {
        match stored {
            StoredPolicy::Missing => Ok(true),
            StoredPolicy::Loaded(policy) => {
                self.current_config = policy;
                Ok(false)
            },
            StoredPolicy::Unreadable(reason) => Err(CustomCommandError::config_error(reason)),
            StoredPolicy::Malformed(reason) => Err(
                CustomCommandError::config_error(concat2("TOML parse error: ", reason.as_str())),
            ),
        }
    }

    /// The policy in force.
    pub fn get_config(&self) -> (config: &SecurityValidationConfig)
        ensures
            config@ == self.policy(),
    {
        &self.current_config
    }

    /// Makes findings block.
    pub fn enable_security(&mut self)
        ensures
            final(self).path() == old(self).path(),
            final(self).policy() == (ConfigView {
                level: SecurityValidationLevel::Error,
                ..old(self).policy()
            }),
    {
        self.current_config.level = SecurityValidationLevel::Error;
    }

    /// Makes findings count for nothing.
    pub fn disable_security(&mut self)
        ensures
            final(self).path() == old(self).path(),
            final(self).policy() == (ConfigView {
                level: SecurityValidationLevel::Off,
                ..old(self).policy()
            }),
    {
        self.current_config.level = SecurityValidationLevel::Off;
    }

    /// Makes findings warnings.
    pub fn set_security_warn(&mut self)
        ensures
            final(self).path() == old(self).path(),
            final(self).policy() == (ConfigView {
                level: SecurityValidationLevel::Warn,
                ..old(self).policy()
            }),
    {
        self.current_config.level = SecurityValidationLevel::Warn;
    }

    /// Whether `pattern` is among the exemptions.
    fn is_exempted(&self, pattern: &str) -> (r: bool)
        ensures
            r == self.policy().ignored_patterns.contains(pattern@),
    {
        let mut i: usize = 0;
        while i < self.current_config.ignored_patterns.len()
            invariant
                i <= self.current_config.ignored_patterns.len(),
                forall|j: int|
                    0 <= j < i ==> self.current_config.ignored_patterns.deep_view()[j]
                        != pattern@,
            decreases self.current_config.ignored_patterns.len() - i,
        {
            if same_text(self.current_config.ignored_patterns[i].as_str(), pattern) {
                proof {
                    assert(self.current_config.ignored_patterns.deep_view()[i as int]
                        == pattern@);
                }
                return true;
            }
            i += 1;
        }
        false
    }

    /// Adds `pattern` to the exemptions unless it is among them. The answer
    /// says whether the policy changed.
    pub fn add_ignored_pattern(&mut self, pattern: String) -> (added: bool)
        ensures
            final(self).path() == old(self).path(),
            final(self).policy().level == old(self).policy().level,
            added == !old(self).policy().ignored_patterns.contains(pattern@),
            final(self).policy().ignored_patterns == if added {
                old(self).policy().ignored_patterns.push(pattern@)
            } else {
                old(self).policy().ignored_patterns
            },
    {
        if self.is_exempted(pattern.as_str()) {
            return false;
        }
        let ghost before = self.current_config.ignored_patterns;
        self.current_config.ignored_patterns.push(pattern);
        proof {
            lemma_push_text(before, self.current_config.ignored_patterns, pattern);
        }
        true
    }

    /// Takes `pattern` out of the exemptions, wherever it stands in them.
    pub fn remove_ignored_pattern(&mut self, pattern: &str)
        ensures
            final(self).path() == old(self).path(),
            final(self).policy().level == old(self).policy().level,
            final(self).policy().ignored_patterns == without_pattern(
                old(self).policy().ignored_patterns,
                pattern@,
            ),
    {
        let mut kept: Vec<String> = Vec::new();
        proof {
            assert(kept.deep_view() =~= Seq::empty());
        }
        let mut i: usize = 0;
        while i < self.current_config.ignored_patterns.len()
            invariant
                i <= self.current_config.ignored_patterns.len(),
                *self == *old(self),
                kept.deep_view() == without_pattern(
                    self.current_config.ignored_patterns.deep_view().take(i as int),
                    pattern@,
                ),
            decreases self.current_config.ignored_patterns.len() - i,
        {
            let ghost seen = self.current_config.ignored_patterns.deep_view().take(i + 1);
            proof {
                assert(seen.drop_last() =~= self.current_config.ignored_patterns.deep_view().take(
                    i as int,
                ));
                assert(seen.last() == self.current_config.ignored_patterns[i as int]@);
            }
            if !same_text(self.current_config.ignored_patterns[i].as_str(), pattern) {
                let ghost before = kept;
                let copy = self.current_config.ignored_patterns[i].clone();
                kept.push(copy);
                proof {
                    lemma_push_text(before, kept, copy);
                }
            }
            i += 1;
        }
        proof {
            let all = self.current_config.ignored_patterns.deep_view();
            assert(all.take(all.len() as int) =~= all);
        }
        self.current_config.ignored_patterns = kept;
    }

    /// The summary of the policy in force: see [`status_text`].
    pub fn get_status_string(&self) -> (status: String)
        ensures
            status@ == status_text(self.policy()),
    {
        let level = match self.current_config.level {
            SecurityValidationLevel::Error => "Enabled (Error)",
            SecurityValidationLevel::Warn => "Warning Only",
            SecurityValidationLevel::Off => "Disabled",
        };
        let mut status = chars_of("🔒 Security Validation: ");
        push_str(&mut status, level);
        if self.current_config.ignored_patterns.len() > 0 {
            push_str(&mut status, "\n📝 Ignored Patterns: ");
            let listed = join_strings(&self.current_config.ignored_patterns, ", ");
            push_str(&mut status, listed.as_str());
        }
        string_of(&status)
    }
}

} // verus!
