//! The mutation settings as they are typed into a form, and their reading
//! into a configuration. A setting is checked when it is read, so that
//! applying a mutation never meets a malformed one.

use crate::components::add::{AddMutation, Placement};
use crate::components::auto_date::{AutoDateMutation, DateType};
use crate::components::case::{CaseMutation, CaseType};
use crate::components::numbering::NumberingMutation;
use crate::components::regex::RegexMutation;
use crate::components::remove::RemoveMutation;
use crate::components::replace::ReplaceMutation;
use crate::preview::MutationConfig;
use crate::text::{is_numeral, numeral_value, parse_number, split_words, texts_of, words_in};
use vstd::prelude::*;

verus! {

/// A field of the form that holds a number or a choice.
#[derive(Debug, Clone, Copy, PartialEq, Eq, Structural)]
pub enum FormField {
    RemoveFirstN,
    RemoveLastN,
    RemoveFrom,
    RemoveTo,
    AddAtPos,
    AutoDateType,
    NumberingMode,
    NumberingAt,
    NumberingStart,
    NumberingIncrement,
    NumberingPad,
    NumberingBreak,
    NumberingBase,
    NumberingBaseCase,
}

/// The number in a field: `unset` for an empty field, the number of a
/// decimal numeral that is at most `limit`, and none for any other text.
pub open spec fn number_in(text: Seq<char>, unset: nat, limit: nat) -> Option<nat> {
    if text.len() == 0 {
        Some(unset)
    } else if is_numeral(text) && numeral_value(text) <= limit {
        Some(numeral_value(text))
    } else {
        None
    }
}

/// The base in a field: 10 for an empty field, a number from 2 to 36, and
/// none for any other text.
pub open spec fn base_in(text: Seq<char>) -> Option<nat> {
    match number_in(text, 10, 36) {
        Some(base) => if base >= 2 {
            Some(base)
        } else {
            None
        },
        None => None,
    }
}

/// The kind of date in a field: `created`, `modified` or `current`; an
/// empty field stands for `current`.
pub open spec fn date_type_in(text: Seq<char>) -> Option<DateType> {
    if text.len() == 0 || text == "current"@ {
        Some(DateType::Current)
    } else if text == "created"@ {
        Some(DateType::Created)
    } else if text == "modified"@ {
        Some(DateType::Modified)
    } else {
        None
    }
}

/// The place of the number in a field: `prefix`, `suffix` or `insert`, the
/// last with the position `at`; an empty field stands for `prefix`.
pub open spec fn placement_in(text: Seq<char>, at: usize) -> Option<Placement> {
    if text.len() == 0 || text == "prefix"@ {
        Some(Placement::Prefix)
    } else if text == "suffix"@ {
        Some(Placement::Suffix)
    } else if text == "insert"@ {
        Some(Placement::At(at))
    } else {
        None
    }
}

/// Whether the letters of numerals are capitals, by a field: `upper` or
/// `lower`; an empty field stands for `lower`.
pub open spec fn upper_case_in(text: Seq<char>) -> Option<bool> {
    if text.len() == 0 || text == "lower"@ {
        Some(false)
    } else if text == "upper"@ {
        Some(true)
    } else {
        None
    }
}

/// Whether `text` reads `wanted`.
fn reads(text: &str, wanted: &str) -> (same: bool)
    ensures
        same == (text@ == wanted@),
{
    text.to_owned() == wanted.to_owned()
}

/// The number in a field that holds a count or a position.
pub fn read_count(text: &str, unset: usize) -> (count: Option<usize>)
    ensures
        match count {
            Some(count) => number_in(text@, unset as nat, usize::MAX as nat) == Some(count as nat),
            None => number_in(text@, unset as nat, usize::MAX as nat) is None,
        },
{
    if text.is_empty() {
        Some(unset)
    } else {
        match parse_number(text) {
            Some(number) => if number <= usize::MAX as u64 {
                Some(number as usize)
            } else {
                None
            },
            None => None,
        }
    }
}

/// The number in a field that holds an amount.
pub fn read_amount(text: &str, unset: u64) -> (amount: Option<u64>)
    ensures
        match amount {
            Some(amount) => number_in(text@, unset as nat, u64::MAX as nat) == Some(amount as nat),
            None => number_in(text@, unset as nat, u64::MAX as nat) is None,
        },
{
    if text.is_empty() {
        Some(unset)
    } else {
        parse_number(text)
    }
}

/// The base in a field.
pub fn read_base(text: &str) -> (base: Option<u8>)
    ensures
        match base {
            Some(base) => base_in(text@) == Some(base as nat),
            None => base_in(text@) is None,
        },
{
    if text.is_empty() {
        Some(10)
    } else {
        match parse_number(text) {
            Some(number) => if 2 <= number && number <= 36 {
                Some(number as u8)
            } else {
                None
            },
            None => None,
        }
    }
}

/// The kind of date in a field.
pub fn read_date_type(text: &str) -> (date_type: Option<DateType>)
    ensures
        date_type == date_type_in(text@),
{
    if text.is_empty() || reads(text, "current") {
        Some(DateType::Current)
    } else if reads(text, "created") {
        Some(DateType::Created)
    } else if reads(text, "modified") {
        Some(DateType::Modified)
    } else {
        None
    }
}

/// The place of the number in a field.
pub fn read_placement(text: &str, at: usize) -> (placement: Option<Placement>)
    ensures
        placement == placement_in(text@, at),
{
    if text.is_empty() || reads(text, "prefix") {
        Some(Placement::Prefix)
    } else if reads(text, "suffix") {
        Some(Placement::Suffix)
    } else if reads(text, "insert") {
        Some(Placement::At(at))
    } else {
        None
    }
}

/// Whether the letters of numerals are capitals, by a field.
pub fn read_upper_case(text: &str) -> (upper_case: Option<bool>)
    ensures
        upper_case == upper_case_in(text@),
{
    if text.is_empty() || reads(text, "lower") {
        Some(false)
    } else if reads(text, "upper") {
        Some(true)
    } else {
        None
    }
}

/// The settings of every mutation as they stand in the form. The regex and
/// the case mutation are chosen with switches and lists; every other
/// setting is typed as text.
pub struct MutationForm {
    pub regex: RegexMutation,
    pub case: CaseMutation,
    pub replace_match: String,
    pub replace_with: String,
    pub replace_case_sensitive: bool,
    pub replace_first_only: bool,
    pub replace_enabled: bool,
    pub remove_first_n: String,
    pub remove_last_n: String,
    pub remove_from: String,
    pub remove_to: String,
    pub remove_chars: String,
    pub remove_words: String,
    pub remove_trim: bool,
    pub remove_digits: bool,
    pub remove_accents: bool,
    pub remove_enabled: bool,
    pub add_prefix: String,
    pub add_insert: String,
    pub add_at_pos: String,
    pub add_suffix: String,
    pub add_word_space: bool,
    pub add_enabled: bool,
    pub auto_date_type: String,
    pub auto_date_format: String,
    pub auto_date_enabled: bool,
    pub numbering_mode: String,
    pub numbering_at: String,
    pub numbering_start: String,
    pub numbering_increment: String,
    pub numbering_separator: String,
    pub numbering_pad: String,
    pub numbering_break: String,
    pub numbering_base: String,
    pub numbering_base_case: String,
    pub numbering_enabled: bool,
}

impl MutationForm {
    /// Whether every text field is empty and every switch is off, but for
    /// the switch of the regex mutation, which is on.
    pub open spec fn is_blank(&self) -> bool {
        &&& self.regex.enabled
        &&& self.regex.pattern@.len() == 0
        &&& self.regex.substitution@.len() == 0
        &&& !self.regex.including_extension
        &&& !self.case.enabled
        &&& self.case.case_type == CaseType::Identity
        &&& self.replace_match@.len() == 0
        &&& self.replace_with@.len() == 0
        &&& !self.replace_case_sensitive
        &&& !self.replace_first_only
        &&& !self.replace_enabled
        &&& self.remove_first_n@.len() == 0
        &&& self.remove_last_n@.len() == 0
        &&& self.remove_from@.len() == 0
        &&& self.remove_to@.len() == 0
        &&& self.remove_chars@.len() == 0
        &&& self.remove_words@.len() == 0
        &&& !self.remove_trim
        &&& !self.remove_digits
        &&& !self.remove_accents
        &&& !self.remove_enabled
        &&& self.add_prefix@.len() == 0
        &&& self.add_insert@.len() == 0
        &&& self.add_at_pos@.len() == 0
        &&& self.add_suffix@.len() == 0
        &&& !self.add_word_space
        &&& !self.add_enabled
        &&& self.auto_date_type@.len() == 0
        &&& self.auto_date_format@.len() == 0
        &&& !self.auto_date_enabled
        &&& self.numbering_mode@.len() == 0
        &&& self.numbering_at@.len() == 0
        &&& self.numbering_start@.len() == 0
        &&& self.numbering_increment@.len() == 0
        &&& self.numbering_separator@.len() == 0
        &&& self.numbering_pad@.len() == 0
        &&& self.numbering_break@.len() == 0
        &&& self.numbering_base@.len() == 0
        &&& self.numbering_base_case@.len() == 0
        &&& !self.numbering_enabled
    }

    /// The first field, in the order of the form, whose text is neither
    /// empty nor well formed.
    pub open spec fn first_malformed(&self) -> Option<FormField> {
        if number_in(self.remove_first_n@, 0, usize::MAX as nat) is None {
            Some(FormField::RemoveFirstN)
        } else if number_in(self.remove_last_n@, 0, usize::MAX as nat) is None {
            Some(FormField::RemoveLastN)
        } else if number_in(self.remove_from@, 0, usize::MAX as nat) is None {
            Some(FormField::RemoveFrom)
        } else if number_in(self.remove_to@, 0, usize::MAX as nat) is None {
            Some(FormField::RemoveTo)
        } else if number_in(self.add_at_pos@, 0, usize::MAX as nat) is None {
            Some(FormField::AddAtPos)
        } else if date_type_in(self.auto_date_type@) is None {
            Some(FormField::AutoDateType)
        } else if number_in(self.numbering_at@, 0, usize::MAX as nat) is None {
            Some(FormField::NumberingAt)
        } else if placement_in(self.numbering_mode@, 0) is None {
            Some(FormField::NumberingMode)
        } else if number_in(self.numbering_start@, 1, u64::MAX as nat) is None {
            Some(FormField::NumberingStart)
        } else if number_in(self.numbering_increment@, 1, u64::MAX as nat) is None {
            Some(FormField::NumberingIncrement)
        } else if number_in(self.numbering_pad@, 0, usize::MAX as nat) is None {
            Some(FormField::NumberingPad)
        } else if number_in(self.numbering_break@, 0, u64::MAX as nat) is None {
            Some(FormField::NumberingBreak)
        } else if base_in(self.numbering_base@) is None {
            Some(FormField::NumberingBase)
        } else if upper_case_in(self.numbering_base_case@) is None {
            Some(FormField::NumberingBaseCase)
        } else {
            None
        }
    }

    /// Whether `config` holds what the form says: every text as it stands,
    /// every number and choice as its field reads, the words to remove as
    /// the words of their field. A date is put behind the name, with
    /// nothing between.
    pub open spec fn reads_as(&self, config: MutationConfig) -> bool {
        &&& config.regex == self.regex
        &&& config.case == self.case
        &&& config.replace == (ReplaceMutation {
            enabled: self.replace_enabled,
            find: self.replace_match,
            with: self.replace_with,
            case_sensitive: self.replace_case_sensitive,
            first_only: self.replace_first_only,
        })
        &&& config.remove.enabled == self.remove_enabled
        &&& number_in(self.remove_first_n@, 0, usize::MAX as nat) == Some(
            config.remove.first_n as nat,
        )
        &&& number_in(self.remove_last_n@, 0, usize::MAX as nat) == Some(
            config.remove.last_n as nat,
        )
        &&& number_in(self.remove_from@, 0, usize::MAX as nat) == Some(config.remove.from as nat)
        &&& number_in(self.remove_to@, 0, usize::MAX as nat) == Some(config.remove.to as nat)
        &&& config.remove.chars == self.remove_chars
        &&& texts_of(config.remove.words@) == words_in(self.remove_words@)
        &&& config.remove.digits == self.remove_digits
        &&& config.remove.accents == self.remove_accents
        &&& config.remove.trim == self.remove_trim
        &&& config.add.enabled == self.add_enabled
        &&& config.add.prefix == self.add_prefix
        &&& config.add.insert == self.add_insert
        &&& number_in(self.add_at_pos@, 0, usize::MAX as nat) == Some(config.add.at_pos as nat)
        &&& config.add.suffix == self.add_suffix
        &&& config.add.word_space == self.add_word_space
        &&& config.auto_date.enabled == self.auto_date_enabled
        &&& date_type_in(self.auto_date_type@) == Some(config.auto_date.date_type)
        &&& config.auto_date.format == self.auto_date_format
        &&& config.auto_date.mode == Placement::Suffix
        &&& config.auto_date.separator@.len() == 0
        &&& config.numbering.enabled == self.numbering_enabled
        &&& exists|at: usize|
            number_in(self.numbering_at@, 0, usize::MAX as nat) == Some(at as nat) && placement_in(
                self.numbering_mode@,
                at,
            ) == Some(config.numbering.mode)
        &&& number_in(self.numbering_start@, 1, u64::MAX as nat) == Some(
            config.numbering.start as nat,
        )
        &&& number_in(self.numbering_increment@, 1, u64::MAX as nat) == Some(
            config.numbering.increment as nat,
        )
        &&& number_in(self.numbering_pad@, 0, usize::MAX as nat) == Some(
            config.numbering.pad as nat,
        )
        &&& config.numbering.separator == self.numbering_separator
        &&& number_in(self.numbering_break@, 0, u64::MAX as nat) == Some(
            config.numbering.break_at as nat,
        )
        &&& base_in(self.numbering_base@) == Some(config.numbering.base as nat)
        &&& upper_case_in(self.numbering_base_case@) == Some(config.numbering.upper_case)
    }

    /// Reads the form into a configuration. Where a field is malformed the
    /// first such field is returned instead.
    pub fn config(&self) -> (outcome: Result<MutationConfig, FormField>)
        ensures
            match outcome {
                Ok(config) => self.first_malformed() is None && self.reads_as(config),
                Err(field) => self.first_malformed() == Some(field),
            },
    {
        let first_n = match read_count(self.remove_first_n.as_str(), 0) {
            Some(count) => count,
            None => return Err(FormField::RemoveFirstN),
        };
        let last_n = match read_count(self.remove_last_n.as_str(), 0) {
            Some(count) => count,
            None => return Err(FormField::RemoveLastN),
        };
        let from = match read_count(self.remove_from.as_str(), 0) {
            Some(count) => count,
            None => return Err(FormField::RemoveFrom),
        };
        let to = match read_count(self.remove_to.as_str(), 0) {
            Some(count) => count,
            None => return Err(FormField::RemoveTo),
        };
        let at_pos = match read_count(self.add_at_pos.as_str(), 0) {
            Some(count) => count,
            None => return Err(FormField::AddAtPos),
        };
        let date_type = match read_date_type(self.auto_date_type.as_str()) {
            Some(date_type) => date_type,
            None => return Err(FormField::AutoDateType),
        };
        let at = match read_count(self.numbering_at.as_str(), 0) {
            Some(count) => count,
            None => return Err(FormField::NumberingAt),
        };
        let mode = match read_placement(self.numbering_mode.as_str(), at) {
            Some(mode) => mode,
            None => return Err(FormField::NumberingMode),
        };
        let start = match read_amount(self.numbering_start.as_str(), 1) {
            Some(amount) => amount,
            None => return Err(FormField::NumberingStart),
        };
        let increment = match read_amount(self.numbering_increment.as_str(), 1) {
            Some(amount) => amount,
            None => return Err(FormField::NumberingIncrement),
        };
        let pad = match read_count(self.numbering_pad.as_str(), 0) {
            Some(count) => count,
            None => return Err(FormField::NumberingPad),
        };
        let break_at = match read_amount(self.numbering_break.as_str(), 0) {
            Some(amount) => amount,
            None => return Err(FormField::NumberingBreak),
        };
        let base = match read_base(self.numbering_base.as_str()) {
            Some(base) => base,
            None => return Err(FormField::NumberingBase),
        };
        let upper_case = match read_upper_case(self.numbering_base_case.as_str()) {
            Some(upper_case) => upper_case,
            None => return Err(FormField::NumberingBaseCase),
        };
        let config = MutationConfig {
            regex: RegexMutation {
                enabled: self.regex.enabled,
                pattern: self.regex.pattern.clone(),
                substitution: self.regex.substitution.clone(),
                including_extension: self.regex.including_extension,
            },
            case: self.case,
            replace: ReplaceMutation {
                enabled: self.replace_enabled,
                find: self.replace_match.clone(),
                with: self.replace_with.clone(),
                case_sensitive: self.replace_case_sensitive,
                first_only: self.replace_first_only,
            },
            remove: RemoveMutation {
                enabled: self.remove_enabled,
                first_n,
                last_n,
                from,
                to,
                chars: self.remove_chars.clone(),
                words: split_words(self.remove_words.as_str()),
                digits: self.remove_digits,
                accents: self.remove_accents,
                trim: self.remove_trim,
            },
            add: AddMutation {
                enabled: self.add_enabled,
                prefix: self.add_prefix.clone(),
                insert: self.add_insert.clone(),
                at_pos,
                suffix: self.add_suffix.clone(),
                word_space: self.add_word_space,
            },
            auto_date: AutoDateMutation {
                enabled: self.auto_date_enabled,
                date_type,
                format: self.auto_date_format.clone(),
                mode: Placement::Suffix,
                separator: String::new(),
            },
            numbering: NumberingMutation {
                enabled: self.numbering_enabled,
                mode,
                start,
                increment,
                pad,
                separator: self.numbering_separator.clone(),
                break_at,
                base,
                upper_case,
            },
        };
        assert(placement_in(self.numbering_mode@, 0) is None <==> placement_in(
            self.numbering_mode@,
            at,
        ) is None);
        Ok(config)
    }
}

impl Default for MutationForm {
    /// The form as it stands before anything is typed.
    fn default() -> (form: Self)
        ensures
            form.is_blank(),
    {
        MutationForm {
            regex: RegexMutation::default(),
            case: CaseMutation::default(),
            replace_match: String::new(),
            replace_with: String::new(),
            replace_case_sensitive: false,
            replace_first_only: false,
            replace_enabled: false,
            remove_first_n: String::new(),
            remove_last_n: String::new(),
            remove_from: String::new(),
            remove_to: String::new(),
            remove_chars: String::new(),
            remove_words: String::new(),
            remove_trim: false,
            remove_digits: false,
            remove_accents: false,
            remove_enabled: false,
            add_prefix: String::new(),
            add_insert: String::new(),
            add_at_pos: String::new(),
            add_suffix: String::new(),
            add_word_space: false,
            add_enabled: false,
            auto_date_type: String::new(),
            auto_date_format: String::new(),
            auto_date_enabled: false,
            numbering_mode: String::new(),
            numbering_at: String::new(),
            numbering_start: String::new(),
            numbering_increment: String::new(),
            numbering_separator: String::new(),
            numbering_pad: String::new(),
            numbering_break: String::new(),
            numbering_base: String::new(),
            numbering_base_case: String::new(),
            numbering_enabled: false,
        }
    }
}

} // verus!
