//! Regular-expression substitution on a name or on its stem.

use crate::text::{find_last, from_chars, to_chars};
use crate::utilities::mutation_pipeline::Mutation;
use vstd::prelude::*;
use vstd::string::StringExecFns;

verus! {

/// The stem of a name: what stands before its last `.`, or the whole name
/// where there is none. A name that starts with `.` has no extension: its
/// stem is all that follows the leading dot.
pub open spec fn stem(filename: Seq<char>) -> Seq<char> {
    if filename.len() > 0 && filename[0] == '.' {
        filename.skip(1)
    } else {
        match filename.index_of_last('.') {
            Some(dot) => filename.take(dot),
            None => filename,
        }
    }
}

/// The extension of a name: what follows its last `.`, without the dot; empty
/// where the name has no dot or starts with one.
pub open spec fn extension(filename: Seq<char>) -> Seq<char> {
    if filename.len() > 0 && filename[0] == '.' {
        Seq::empty()
    } else {
        match filename.index_of_last('.') {
            Some(dot) => filename.skip(dot + 1),
            None => Seq::empty(),
        }
    }
}

/// Whether `regex::Regex::new` accepts `pattern`. That is decided by the
/// pattern alone: by its syntax and by the size of the compiled expression,
/// held against the fixed limit that `Regex::new` sets.
pub uninterp spec fn regex_compiles(pattern: Seq<char>) -> bool;

/// The text that `regex::Regex::replace_all` returns for `haystack` and
/// `replacement` on the expression that `regex::Regex::new` compiles from
/// `pattern`.
pub uninterp spec fn regex_replaced(
    pattern: Seq<char>,
    haystack: Seq<char>,
    replacement: Seq<char>,
) -> Seq<char>;

/// Compiles `pattern` with `regex::Regex::new` and, where that succeeds,
/// replaces every match in `haystack` with `regex::Regex::replace_all`.
/// There is a result exactly for the patterns that compile, and the
/// replaced text is a function of the three strings. Which patterns compile
/// and what the replaced text is, is left to the expression engine.
#[verifier::external_body]
fn replace_all(pattern: &str, haystack: &str, replacement: &str) -> (outcome: Option<String>)
    ensures
        outcome is Some <==> regex_compiles(pattern@),
        outcome matches Some(replaced) ==> replaced@ == regex_replaced(
            pattern@,
            haystack@,
            replacement@,
        ),
{
    match ::regex::Regex::new(pattern) {
        Ok(compiled) => Some(compiled.replace_all(haystack, replacement).into_owned()),
        Err(_) => None,
    }
}

/// How a call of the mutation came to its result.
#[derive(Debug, Clone, Copy, PartialEq, Eq, Structural)]
pub enum RegexStatus {
    /// The mutation is disabled or its pattern is empty: the name is kept.
    Inactive,
    /// The pattern does not compile: the name is kept.
    InvalidPattern,
    /// The pattern compiles and was applied.
    Applied,
}

/// Replaces every match of a pattern in a name, or in its stem only.
pub struct RegexMutation {
    pub enabled: bool,
    pub pattern: String,
    pub substitution: String,
    pub including_extension: bool,
}

impl Default for RegexMutation {
    fn default() -> (mutation: Self)
        ensures
            mutation.enabled,
            mutation.pattern@ == Seq::<char>::empty(),
            mutation.substitution@ == Seq::<char>::empty(),
            !mutation.including_extension,
    {
        RegexMutation {
            enabled: true,
            pattern: String::new(),
            substitution: String::new(),
            including_extension: false,
        }
    }
}

impl RegexMutation {
    /// Whether the mutation does anything: it is enabled and has a pattern.
    pub open spec fn active(&self) -> bool {
        self.enabled && self.pattern@.len() > 0
    }

    /// The text the pattern is matched against: the whole name, or its stem
    /// where the extension is excluded.
    pub open spec fn haystack(&self, input: Seq<char>) -> Seq<char> {
        if self.including_extension {
            input
        } else {
            stem(input)
        }
    }

    /// The name built from the replaced text. Where the extension was
    /// excluded, a `.` and the extension are appended to it, also where the
    /// extension is empty.
    pub open spec fn assembled(&self, input: Seq<char>, replaced: Seq<char>) -> Seq<char> {
        if self.including_extension {
            replaced
        } else {
            replaced + seq!['.'] + extension(input)
        }
    }

    /// The name and status that follow from what the expression engine
    /// returned: `None` for a pattern that did not compile.
    pub open spec fn resolved(&self, input: Seq<char>, outcome: Option<Seq<char>>) -> (
        Seq<char>,
        RegexStatus,
    ) {
        match outcome {
            Some(replaced) => (self.assembled(input, replaced), RegexStatus::Applied),
            None => (input, RegexStatus::InvalidPattern),
        }
    }

    /// The name that an active mutation produces where its pattern compiles.
    pub open spec fn substituted(&self, input: Seq<char>) -> Seq<char> {
        self.assembled(
            input,
            regex_replaced(self.pattern@, self.haystack(input), self.substitution@),
        )
    }

    /// Splits `filename` into its stem and its extension.
    pub fn split_filename(filename: &str) -> (parts: (String, String))
        ensures
            parts.0@ == stem(filename@),
            parts.1@ == extension(filename@),
    {
        let chars = to_chars(filename);
        let len = chars.len();
        if len > 0 && chars[0] == '.' {
            (from_chars(&chars, 1, len), String::new())
        } else {
            match find_last(&chars, '.') {
                Some(dot) => {
                    proof {
                        chars@.index_of_last_ensures('.');
                    }
                    (from_chars(&chars, 0, dot), from_chars(&chars, dot + 1, len))
                },
                None => (filename.to_owned(), String::new()),
            }
        }
    }

    /// Builds the result of one call from what the expression engine
    /// returned for this mutation's pattern: the assembled name for
    /// `Some(replaced)`, the unchanged name for `None`.
    pub fn resolve(&self, input: &str, outcome: Option<String>) -> (result: (String, RegexStatus))
        ensures
            (result.0@, result.1) == self.resolved(
                input@,
                match outcome {
                    Some(replaced) => Some(replaced@),
                    None => None,
                },
            ),
    {
        match outcome {
            Some(replaced) => {
                if self.including_extension {
                    (replaced, RegexStatus::Applied)
                } else {
                    let parts = Self::split_filename(input);
                    let mut name = replaced;
                    name.push('.');
                    name.append(parts.1.as_str());
                    (name, RegexStatus::Applied)
                }
            },
            None => (input.to_owned(), RegexStatus::InvalidPattern),
        }
    }

    /// Applies the mutation and reports how the result came about, so that a
    /// pattern that does not compile can be told from a mutation that is
    /// switched off. An active mutation whose pattern compiles gives the
    /// substituted name; one whose pattern does not compile keeps the name.
    pub fn mutate_with_status(&self, input: &str) -> (result: (String, RegexStatus))
        ensures
            !self.active() ==> result.0@ == input@ && result.1 == RegexStatus::Inactive,
            self.active() && regex_compiles(self.pattern@) ==> result.0@ == self.substituted(
                input@,
            ) && result.1 == RegexStatus::Applied,
            self.active() && !regex_compiles(self.pattern@) ==> result.0@ == input@ && result.1
                == RegexStatus::InvalidPattern,
    {
        if self.enabled && !self.pattern.as_str().is_empty() {
            let outcome = if self.including_extension {
                replace_all(self.pattern.as_str(), input, self.substitution.as_str())
            } else {
                let parts = Self::split_filename(input);
                replace_all(self.pattern.as_str(), parts.0.as_str(), self.substitution.as_str())
            };
            self.resolve(input, outcome)
        } else {
            (input.to_owned(), RegexStatus::Inactive)
        }
    }
}

impl Mutation for RegexMutation {
    open spec fn enabled(&self) -> bool {
        self.enabled
    }

    open spec fn transforms(&self, input: Seq<char>, output: Seq<char>) -> bool {
        if self.pattern@.len() > 0 && regex_compiles(self.pattern@) {
            output == self.substituted(input)
        } else {
            output == input
        }
    }

    fn mutate(&self, input: &str) -> (output: String)
        ensures
            !self.active() ==> output@ == input@,
            self.active() && regex_compiles(self.pattern@) ==> output@ == self.substituted(input@),
            self.active() && !regex_compiles(self.pattern@) ==> output@ == input@,
    {
        self.mutate_with_status(input).0
    }
}

} // verus!
