//! Letter-case conversion of a whole name.

use crate::utilities::mutation_pipeline::Mutation;
use vstd::prelude::*;
use vstd::utf8::is_ascii_chars;

verus! {

/// The letter-case styles a name can be converted to.
#[derive(Debug, Clone, Copy, PartialEq, Eq, Structural)]
pub enum CaseType {
    /// Leaves the name as it is.
    Identity,
    LowerCamelCase,
    UpperCamelCase,
    ShoutyKebabCase,
    ShoutySnakeCase,
    SnakeCase,
    TitleCase,
    KebabCase,
    UpperCase,
    LowerCase,
}

impl Default for CaseType {
    fn default() -> (case_type: Self)
        ensures
            case_type == CaseType::Identity,
    {
        CaseType::Identity
    }
}

/// The upper-case form of an ASCII letter; any other character is unchanged.
pub open spec fn ascii_upper(c: char) -> char {
    if 'a' <= c && c <= 'z' {
        ((c as u32) - 32) as char
    } else {
        c
    }
}

/// The lower-case form of an ASCII letter; any other character is unchanged.
pub open spec fn ascii_lower(c: char) -> char {
    if 'A' <= c && c <= 'Z' {
        ((c as u32) + 32) as char
    } else {
        c
    }
}

/// What `str::to_uppercase` returns for a name.
pub uninterp spec fn unicode_uppercase(input: Seq<char>) -> Seq<char>;

/// The upper-case form of an ASCII letter; any other character unchanged.
pub fn to_ascii_upper(c: char) -> (upper: char)
    ensures
        upper == ascii_upper(c),
{
    if 'a' <= c && c <= 'z' {
        ((c as u8) - 32) as char
    } else {
        c
    }
}

/// The lower-case form of an ASCII letter; any other character unchanged.
pub fn to_ascii_lower(c: char) -> (lower: char)
    ensures
        lower == ascii_lower(c),
{
    if 'A' <= c && c <= 'Z' {
        ((c as u8) + 32) as char
    } else {
        c
    }
}

/// `input` with `a` to `z` turned into `A` to `Z` and every other character
/// kept.
fn ascii_uppercase_of(input: &str) -> (output: String)
    ensures
        output@ == input@.map_values(|c: char| ascii_upper(c)),
{
    let chars = crate::text::to_chars(input);
    let mut output = String::new();
    let mut i: usize = 0;
    while i < chars.len()
        invariant
            i <= chars@.len(),
            chars@ == input@,
            output@ == chars@.take(i as int).map_values(|c: char| ascii_upper(c)),
        decreases chars@.len() - i,
    {
        output.push(to_ascii_upper(chars[i]));
        i = i + 1;
    }
    assert(chars@.take(i as int) == chars@);
    output
}

/// `str::to_uppercase` is a function of the name alone.
#[verifier::external_body]
fn unicode_uppercase_of(input: &str) -> (output: String)
    ensures
        output@ == unicode_uppercase(input@),
{
    input.to_uppercase()
}

/// What `str::to_lowercase` returns for a name.
pub uninterp spec fn unicode_lowercase(input: Seq<char>) -> Seq<char>;

/// `input` with `A` to `Z` turned into `a` to `z` and every other character
/// kept.
fn ascii_lowercase_of(input: &str) -> (output: String)
    ensures
        output@ == input@.map_values(|c: char| ascii_lower(c)),
{
    let chars = crate::text::to_chars(input);
    let mut output = String::new();
    let mut i: usize = 0;
    while i < chars.len()
        invariant
            i <= chars@.len(),
            chars@ == input@,
            output@ == chars@.take(i as int).map_values(|c: char| ascii_lower(c)),
        decreases chars@.len() - i,
    {
        output.push(to_ascii_lower(chars[i]));
        i = i + 1;
    }
    assert(chars@.take(i as int) == chars@);
    output
}

/// `str::to_lowercase` is a function of the name alone.
#[verifier::external_body]
fn unicode_lowercase_of(input: &str) -> (output: String)
    ensures
        output@ == unicode_lowercase(input@),
{
    input.to_lowercase()
}

/// What `heck::AsLowerCamelCase` renders for a name.
pub uninterp spec fn lower_camel_case(input: Seq<char>) -> Seq<char>;

/// What `heck::AsUpperCamelCase` renders for a name.
pub uninterp spec fn upper_camel_case(input: Seq<char>) -> Seq<char>;

/// What `heck::AsShoutyKebabCase` renders for a name.
pub uninterp spec fn shouty_kebab_case(input: Seq<char>) -> Seq<char>;

/// What `heck::AsShoutySnakeCase` renders for a name.
pub uninterp spec fn shouty_snake_case(input: Seq<char>) -> Seq<char>;

/// What `heck::AsSnakeCase` renders for a name.
pub uninterp spec fn snake_case(input: Seq<char>) -> Seq<char>;

/// What `heck::AsTitleCase` renders for a name.
pub uninterp spec fn title_case(input: Seq<char>) -> Seq<char>;

/// What `heck::AsTrainCase` renders for a name.
pub uninterp spec fn train_case(input: Seq<char>) -> Seq<char>;

/// `heck::AsLowerCamelCase` renders a function of the name alone.
#[verifier::external_body]
fn lower_camel_case_of(input: &str) -> (output: String)
    ensures
        output@ == lower_camel_case(input@),
{
    heck::AsLowerCamelCase(input).to_string()
}

/// `heck::AsUpperCamelCase` renders a function of the name alone.
#[verifier::external_body]
fn upper_camel_case_of(input: &str) -> (output: String)
    ensures
        output@ == upper_camel_case(input@),
{
    heck::AsUpperCamelCase(input).to_string()
}

/// `heck::AsShoutyKebabCase` renders a function of the name alone.
#[verifier::external_body]
fn shouty_kebab_case_of(input: &str) -> (output: String)
    ensures
        output@ == shouty_kebab_case(input@),
{
    heck::AsShoutyKebabCase(input).to_string()
}

/// `heck::AsShoutySnakeCase` renders a function of the name alone.
#[verifier::external_body]
fn shouty_snake_case_of(input: &str) -> (output: String)
    ensures
        output@ == shouty_snake_case(input@),
{
    heck::AsShoutySnakeCase(input).to_string()
}

/// `heck::AsSnakeCase` renders a function of the name alone.
#[verifier::external_body]
fn snake_case_of(input: &str) -> (output: String)
    ensures
        output@ == snake_case(input@),
{
    heck::AsSnakeCase(input).to_string()
}

/// `heck::AsTitleCase` renders a function of the name alone.
#[verifier::external_body]
fn title_case_of(input: &str) -> (output: String)
    ensures
        output@ == title_case(input@),
{
    heck::AsTitleCase(input).to_string()
}

/// `heck::AsTrainCase` renders a function of the name alone.
#[verifier::external_body]
fn train_case_of(input: &str) -> (output: String)
    ensures
        output@ == train_case(input@),
{
    heck::AsTrainCase(input).to_string()
}

/// The upper-case form of a name: letter by letter for an ASCII name, by the
/// Unicode tables of the standard library for any other.
pub open spec fn uppercase(input: Seq<char>) -> Seq<char> {
    if is_ascii_chars(input) {
        input.map_values(|c: char| ascii_upper(c))
    } else {
        unicode_uppercase(input)
    }
}

/// The lower-case form of a name: letter by letter for an ASCII name, by the
/// Unicode tables of the standard library for any other.
pub open spec fn lowercase(input: Seq<char>) -> Seq<char> {
    if is_ascii_chars(input) {
        input.map_values(|c: char| ascii_lower(c))
    } else {
        unicode_lowercase(input)
    }
}

/// The name converted to `case_type`.
pub open spec fn converted(case_type: CaseType, input: Seq<char>) -> Seq<char> {
    match case_type {
        CaseType::Identity => input,
        CaseType::LowerCamelCase => lower_camel_case(input),
        CaseType::UpperCamelCase => upper_camel_case(input),
        CaseType::ShoutyKebabCase => shouty_kebab_case(input),
        CaseType::ShoutySnakeCase => shouty_snake_case(input),
        CaseType::SnakeCase => snake_case(input),
        CaseType::TitleCase => title_case(input),
        CaseType::KebabCase => train_case(input),
        CaseType::UpperCase => uppercase(input),
        CaseType::LowerCase => lowercase(input),
    }
}

/// The part of a name before its first `.`; a name that starts with `.` is
/// its own base name.
pub open spec fn base_name(filename: Seq<char>) -> Seq<char> {
    if filename.len() > 0 && filename[0] == '.' {
        filename
    } else {
        match filename.index_of_first('.') {
            Some(dot) => filename.take(dot),
            None => filename,
        }
    }
}

impl CaseType {
    /// The name of the style as it is shown to a user.
    pub fn label(&self) -> (label: String)
        ensures
            label@ == match *self {
                CaseType::Identity => "None"@,
                CaseType::LowerCamelCase => "lower_camel_case"@,
                CaseType::UpperCamelCase => "Upper_Camel_Case"@,
                CaseType::ShoutyKebabCase => "SHOUTY-KEBAB-CASE"@,
                CaseType::ShoutySnakeCase => "SHOUTY_SNAKE_CASE"@,
                CaseType::SnakeCase => "snake_case"@,
                CaseType::TitleCase => "Title Case"@,
                CaseType::KebabCase => "kebab-case"@,
                CaseType::UpperCase => "UPPER CASE"@,
                CaseType::LowerCase => "lower case"@,
            },
    {
        match self {
            CaseType::Identity => "None".to_owned(),
            CaseType::LowerCamelCase => "lower_camel_case".to_owned(),
            CaseType::UpperCamelCase => "Upper_Camel_Case".to_owned(),
            CaseType::ShoutyKebabCase => "SHOUTY-KEBAB-CASE".to_owned(),
            CaseType::ShoutySnakeCase => "SHOUTY_SNAKE_CASE".to_owned(),
            CaseType::SnakeCase => "snake_case".to_owned(),
            CaseType::TitleCase => "Title Case".to_owned(),
            CaseType::KebabCase => "kebab-case".to_owned(),
            CaseType::UpperCase => "UPPER CASE".to_owned(),
            CaseType::LowerCase => "lower case".to_owned(),
        }
    }

    /// Converts `input` to this style.
    pub fn convert(&self, input: &str) -> (output: String)
        ensures
            output@ == converted(*self, input@),
    {
        match self {
            CaseType::Identity => input.to_owned(),
            CaseType::LowerCamelCase => lower_camel_case_of(input),
            CaseType::UpperCamelCase => upper_camel_case_of(input),
            CaseType::ShoutyKebabCase => shouty_kebab_case_of(input),
            CaseType::ShoutySnakeCase => shouty_snake_case_of(input),
            CaseType::SnakeCase => snake_case_of(input),
            CaseType::TitleCase => title_case_of(input),
            CaseType::KebabCase => train_case_of(input),
            CaseType::UpperCase => if input.is_ascii() {
                ascii_uppercase_of(input)
            } else {
                unicode_uppercase_of(input)
            },
            CaseType::LowerCase => if input.is_ascii() {
                ascii_lowercase_of(input)
            } else {
                unicode_lowercase_of(input)
            },
        }
    }
}

/// Converts a whole name, extension included, to one letter-case style.
#[derive(Debug, Clone, Copy, PartialEq, Eq, Structural)]
pub struct CaseMutation {
    pub enabled: bool,
    pub case_type: CaseType,
}

impl Default for CaseMutation {
    fn default() -> (mutation: Self)
        ensures
            !mutation.enabled,
            mutation.case_type == CaseType::Identity,
    {
        CaseMutation { enabled: false, case_type: CaseType::Identity }
    }
}

impl CaseMutation {
    /// The name this mutation produces for `input`: the converted name when
    /// enabled, `input` itself when disabled.
    pub open spec fn mutated(&self, input: Seq<char>) -> Seq<char> {
        if self.enabled {
            converted(self.case_type, input)
        } else {
            input
        }
    }

    /// The part of `filename` before its first `.`; a name that starts with
    /// `.` is returned whole.
    pub fn extract_base_name(filename: &str) -> (base: String)
        ensures
            base@ == base_name(filename@),
    {
        let chars = crate::text::to_chars(filename);
        if chars.len() > 0 && chars[0] == '.' {
            filename.to_owned()
        } else {
            match crate::text::find_first(&chars, '.') {
                Some(dot) => {
                    proof {
                        chars@.index_of_first_ensures('.');
                    }
                    crate::text::from_chars(&chars, 0, dot)
                },
                None => filename.to_owned(),
            }
        }
    }
}

impl Mutation for CaseMutation {
    open spec fn enabled(&self) -> bool {
        self.enabled
    }

    open spec fn transforms(&self, input: Seq<char>, output: Seq<char>) -> bool {
        output == converted(self.case_type, input)
    }

    fn mutate(&self, input: &str) -> (output: String)
        ensures
            output@ == self.mutated(input@),
    {
        if self.enabled {
            self.case_type.convert(input)
        } else {
            input.to_owned()
        }
    }
}

/// For an ASCII name, converting to upper case a second time changes
/// nothing.
pub proof fn lemma_uppercase_idempotent_on_ascii(input: Seq<char>)
    requires
        is_ascii_chars(input),
    ensures
        is_ascii_chars(uppercase(input)),
        uppercase(uppercase(input)) == uppercase(input),
{
    let once = input.map_values(|c: char| ascii_upper(c));
    assert(is_ascii_chars(once));
    assert(once.map_values(|c: char| ascii_upper(c)) == once);
}

/// Applying the upper-case mutation twice to an ASCII name gives what
/// applying it once gives.
pub proof fn lemma_uppercase_mutation_idempotent_on_ascii(mutation: CaseMutation, input: Seq<char>)
    requires
        mutation.case_type == CaseType::UpperCase,
        is_ascii_chars(input),
    ensures
        mutation.mutated(mutation.mutated(input)) == mutation.mutated(input),
{
    lemma_uppercase_idempotent_on_ascii(input);
}

} // verus!
