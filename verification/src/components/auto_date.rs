//! Date stamping: a time of the entry, or the current time, written into
//! its name.

use crate::components::add::{place, placed, Placement};
use crate::text::text_of;
use crate::utilities::mutation_pipeline::Mutation;
use vstd::prelude::*;

verus! {

/// Which time is written into a name.
#[derive(Debug, Clone, Copy, PartialEq, Eq, Structural)]
pub enum DateType {
    /// The time the entry was created.
    Created,
    /// The time the entry was last modified.
    Modified,
    /// The time of the refresh.
    Current,
}

/// The times known of one entry, in seconds since the Unix epoch. The file
/// system may report no creation or modification time.
#[derive(Debug, Clone, Copy, PartialEq, Eq, Structural)]
pub struct Moments {
    pub created: Option<i64>,
    pub modified: Option<i64>,
    pub current: i64,
}

/// The text that `chrono` writes for a time in UTC under a format pattern:
/// `DateTime::from_timestamp`, then `DateTime::format`. There is none for a
/// time that `chrono` cannot represent and for a pattern that it cannot
/// write.
pub uninterp spec fn utc_date_text(seconds: i64, format: Seq<char>) -> Option<Seq<char>>;

/// Builds the UTC time with `chrono::DateTime::from_timestamp` and writes it
/// under `format` with `chrono::DateTime::format`. The text is a function of
/// the two arguments: the time zone is fixed and no locale is read.
#[verifier::external_body]
fn format_utc(seconds: i64, format: &str) -> (text: Option<String>)
    ensures
        text_of(text) == utc_date_text(seconds, format@),
{
    match chrono::DateTime::from_timestamp(seconds, 0) {
        Some(moment) => {
            let mut text = String::new();
            match moment.format(format).write_to(&mut text) {
                Ok(()) => Some(text),
                Err(_) => None,
            }
        },
        None => None,
    }
}

/// Writes a date into a whole name.
pub struct AutoDateMutation {
    pub enabled: bool,
    /// Which time is written.
    pub date_type: DateType,
    /// The pattern the time is written under, in the notation of `strftime`.
    pub format: String,
    /// Where the date is put.
    pub mode: Placement,
    /// What stands between the date and the name.
    pub separator: String,
}

impl Default for AutoDateMutation {
    fn default() -> (mutation: Self)
        ensures
            !mutation.enabled,
            mutation.date_type == DateType::Current,
            mutation.format@ == Seq::<char>::empty(),
            mutation.mode == Placement::Suffix,
            mutation.separator@ == Seq::<char>::empty(),
    {
        AutoDateMutation {
            enabled: false,
            date_type: DateType::Current,
            format: String::new(),
            mode: Placement::Suffix,
            separator: String::new(),
        }
    }
}

impl AutoDateMutation {
    /// The time that is written, of the times known of an entry.
    pub open spec fn chosen(&self, moments: Moments) -> Option<i64> {
        match self.date_type {
            DateType::Created => moments.created,
            DateType::Modified => moments.modified,
            DateType::Current => Some(moments.current),
        }
    }

    /// The name with the written date `stamp` put into it; the name as it
    /// is where there is no date to write.
    pub open spec fn stamped(&self, input: Seq<char>, stamp: Option<Seq<char>>) -> Seq<char> {
        match stamp {
            Some(date) => placed(input, date, self.separator@, self.mode),
            None => input,
        }
    }

    /// The name of an entry with the chosen time written into it. The name
    /// stays as it is where the mutation is switched off, where the chosen
    /// time is not known, and where the time cannot be written under the
    /// pattern.
    pub open spec fn dated(&self, input: Seq<char>, moments: Moments) -> Seq<char> {
        if self.enabled {
            self.written(input, moments)
        } else {
            input
        }
    }

    /// The name with the chosen time written into it by a mutation that is
    /// switched on.
    pub open spec fn written(&self, input: Seq<char>, moments: Moments) -> Seq<char> {
        self.stamped(
            input,
            match self.chosen(moments) {
                Some(seconds) => utc_date_text(seconds, self.format@),
                None => None,
            },
        )
    }

    /// The time that is written, of the times known of an entry.
    pub fn choose_moment(&self, moments: Moments) -> (seconds: Option<i64>)
        ensures
            seconds == self.chosen(moments),
    {
        match self.date_type {
            DateType::Created => moments.created,
            DateType::Modified => moments.modified,
            DateType::Current => Some(moments.current),
        }
    }

    /// Puts the written date `stamp` into `input`; returns `input` where
    /// there is no date to write.
    pub fn stamp(&self, input: &str, stamp: Option<String>) -> (output: String)
        ensures
            output@ == self.stamped(input@, text_of(stamp)),
    {
        match stamp {
            Some(date) => place(input, date.as_str(), self.separator.as_str(), self.mode),
            None => input.to_owned(),
        }
    }

    /// Writes the chosen time of an entry into its name.
    pub fn date(&self, input: &str, moments: Moments) -> (output: String)
        ensures
            output@ == self.dated(input@, moments),
    {
        if self.enabled {
            let written = match self.choose_moment(moments) {
                Some(seconds) => format_utc(seconds, self.format.as_str()),
                None => None,
            };
            self.stamp(input, written)
        } else {
            input.to_owned()
        }
    }
}

/// A date stamping bound to the times of one entry: the mutation that writes
/// the chosen one of them into a name.
pub struct AutoDateAt<'a> {
    pub auto_date: &'a AutoDateMutation,
    pub moments: Moments,
}

impl<'a> Mutation for AutoDateAt<'a> {
    open spec fn enabled(&self) -> bool {
        self.auto_date.enabled
    }

    open spec fn transforms(&self, input: Seq<char>, output: Seq<char>) -> bool {
        output == self.auto_date.written(input, self.moments)
    }

    fn mutate(&self, input: &str) -> (output: String)
        ensures
            output@ == self.auto_date.dated(input@, self.moments),
    {
        self.auto_date.date(input, self.moments)
    }
}

} // verus!
