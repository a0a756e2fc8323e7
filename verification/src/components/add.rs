//! Addition to a whole name: a prefix, a suffix and a text inserted at a
//! position.

use crate::text::{push_chars, to_chars};
use crate::utilities::mutation_pipeline::Mutation;
use vstd::prelude::*;
use vstd::string::StringExecFns;

verus! {

/// `text` with `insert` put in before the character at position `at`,
/// counted from 0; behind the text where `at` lies behind it.
pub open spec fn inserted(text: Seq<char>, insert: Seq<char>, at: nat) -> Seq<char> {
    if at >= text.len() {
        text + insert
    } else {
        text.take(at as int) + insert + text.skip(at as int)
    }
}

/// Where a label is put in a name.
#[derive(Debug, Clone, Copy, PartialEq, Eq, Structural)]
pub enum Placement {
    /// Before the name.
    Prefix,
    /// Behind the name.
    Suffix,
    /// Inside the name, before the character at this position, counted from
    /// 0.
    At(usize),
}

/// `text` with `label` put at `placement`. A label before or behind the name
/// is set off from it by `separator`; a label inside the name stands as it
/// is.
pub open spec fn placed(
    text: Seq<char>,
    label: Seq<char>,
    separator: Seq<char>,
    placement: Placement,
) -> Seq<char> {
    match placement {
        Placement::Prefix => label + separator + text,
        Placement::Suffix => text + separator + label,
        Placement::At(at) => inserted(text, label, at as nat),
    }
}

/// `text` with `insert` put in before the character at position `at`.
pub fn insert_at(text: &str, insert: &str, at: usize) -> (output: String)
    ensures
        output@ == inserted(text@, insert@, at as nat),
{
    let chars = to_chars(text);
    let length = chars.len();
    let cut = if at >= length {
        length
    } else {
        at
    };
    let mut output = String::new();
    push_chars(&mut output, &chars, 0, cut);
    output.append(insert);
    push_chars(&mut output, &chars, cut, length);
    output
}

/// `text` with `label` put at `placement`.
pub fn place(text: &str, label: &str, separator: &str, placement: Placement) -> (output: String)
    ensures
        output@ == placed(text@, label@, separator@, placement),
{
    match placement {
        Placement::Prefix => {
            let mut output = label.to_owned();
            output.append(separator);
            output.append(text);
            output
        },
        Placement::Suffix => {
            let mut output = text.to_owned();
            output.append(separator);
            output.append(label);
            output
        },
        Placement::At(at) => insert_at(text, label, at),
    }
}

/// A single space where `wanted`, nothing else.
pub open spec fn word_space(wanted: bool) -> Seq<char> {
    if wanted {
        seq![' ']
    } else {
        Seq::empty()
    }
}

/// Adds text to a whole name. An empty text adds nothing.
pub struct AddMutation {
    pub enabled: bool,
    pub prefix: String,
    pub insert: String,
    pub at_pos: usize,
    pub suffix: String,
    pub word_space: bool,
}

impl Default for AddMutation {
    fn default() -> (mutation: Self)
        ensures
            !mutation.enabled,
            mutation.prefix@ == Seq::<char>::empty(),
            mutation.insert@ == Seq::<char>::empty(),
            mutation.at_pos == 0,
            mutation.suffix@ == Seq::<char>::empty(),
            !mutation.word_space,
    {
        AddMutation {
            enabled: false,
            prefix: String::new(),
            insert: String::new(),
            at_pos: 0,
            suffix: String::new(),
            word_space: false,
        }
    }
}

impl AddMutation {
    /// The name with everything added: the insertion is made in the name as
    /// it was given, then the prefix is put before and the suffix behind.
    /// With `word_space` a space stands between a prefix that is not empty
    /// and the name, and between the name and a suffix that is not empty.
    pub open spec fn added(&self, input: Seq<char>) -> Seq<char> {
        self.prefix@ + word_space(self.word_space && self.prefix@.len() > 0) + inserted(
            input,
            self.insert@,
            self.at_pos as nat,
        ) + word_space(self.word_space && self.suffix@.len() > 0) + self.suffix@
    }

    /// The name this mutation produces for `input`.
    pub open spec fn mutated(&self, input: Seq<char>) -> Seq<char> {
        if self.enabled {
            self.added(input)
        } else {
            input
        }
    }

    /// Adds the prefix, the insertion and the suffix to `input`.
    pub fn add(&self, input: &str) -> (output: String)
        ensures
            output@ == self.added(input@),
    {
        let mut output = self.prefix.clone();
        if self.word_space && !self.prefix.as_str().is_empty() {
            output.push(' ');
        }
        output.append(insert_at(input, self.insert.as_str(), self.at_pos).as_str());
        if self.word_space && !self.suffix.as_str().is_empty() {
            output.push(' ');
        }
        output.append(self.suffix.as_str());
        output
    }
}

impl Mutation for AddMutation {
    open spec fn enabled(&self) -> bool {
        self.enabled
    }

    open spec fn transforms(&self, input: Seq<char>, output: Seq<char>) -> bool {
        output == self.added(input)
    }

    fn mutate(&self, input: &str) -> (output: String)
        ensures
            output@ == self.mutated(input@),
    {
        if self.enabled {
            self.add(input)
        } else {
            input.to_owned()
        }
    }
}

} // verus!
