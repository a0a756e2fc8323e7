//! Sequential numbering of the names of one selection.

use crate::components::add::{place, placed, Placement};
use crate::utilities::mutation_pipeline::Mutation;
use vstd::arithmetic::div_mod::lemma_div_decreases;
use vstd::prelude::*;

verus! {

/// The character that stands for a digit of a numeral: `0` to `9`, then the
/// letters from `a`, or from `A` with `upper_case`.
pub open spec fn numeral_digit(digit: nat, upper_case: bool) -> char
    recommends
        digit < 36,
{
    if digit < 10 {
        (('0' as u32) + digit) as char
    } else if upper_case {
        (('A' as u32) + (digit - 10)) as char
    } else {
        (('a' as u32) + (digit - 10)) as char
    }
}

/// The numeral of `number` in `base`, without leading zeros.
pub open spec fn numeral(number: nat, base: nat, upper_case: bool) -> Seq<char>
    recommends
        2 <= base <= 36,
    decreases number,
{
    if base < 2 || number < base {
        seq![numeral_digit(number, upper_case)]
    } else {
        proof {
            lemma_div_decreases(number as int, base as int);
        }
        numeral(number / base, base, upper_case).push(numeral_digit(number % base, upper_case))
    }
}

/// `count` zeros.
pub open spec fn zeros(count: nat) -> Seq<char> {
    Seq::new(count, |i: int| '0')
}

/// `text` with zeros before it, as many as bring it to `width` characters.
pub open spec fn zero_padded(text: Seq<char>, width: nat) -> Seq<char> {
    if text.len() >= width {
        text
    } else {
        zeros((width - text.len()) as nat) + text
    }
}

/// Appends the numeral of `number` in `base` to `digits`.
fn push_numeral(digits: &mut Vec<char>, number: u128, base: u8, upper_case: bool)
    requires
        2 <= base <= 36,
    ensures
        final(digits)@ == old(digits)@ + numeral(number as nat, base as nat, upper_case),
    decreases number,
{
    if number >= base as u128 {
        proof {
            lemma_div_decreases(number as int, base as int);
        }
        push_numeral(digits, number / (base as u128), base, upper_case);
    }
    let digit = (number % (base as u128)) as u8;
    let shown = if digit < 10 {
        (48u8 + digit) as char
    } else if upper_case {
        (65u8 + (digit - 10)) as char
    } else {
        (97u8 + (digit - 10)) as char
    };
    digits.push(shown);
    proof {
        if number < base {
            assert(number % (base as u128) == number) by (nonlinear_arith)
                requires
                    number < base,
            ;
        }
    }
}

/// Puts a running number into each name of a selection.
pub struct NumberingMutation {
    pub enabled: bool,
    /// Where the number is put.
    pub mode: Placement,
    /// The number of the first name.
    pub start: u64,
    /// The distance from one number to the next.
    pub increment: u64,
    /// The least width of the number; shorter ones are filled with zeros.
    pub pad: usize,
    /// What stands between the number and the name.
    pub separator: String,
    /// The count of names after which the numbers start again; 0 for never.
    pub break_at: u64,
    /// The base of the numerals, from 2 to 36; any other stands for 10.
    pub base: u8,
    /// Whether the letters of the numerals are capitals.
    pub upper_case: bool,
}

impl Default for NumberingMutation {
    fn default() -> (mutation: Self)
        ensures
            !mutation.enabled,
            mutation.mode == Placement::Prefix,
            mutation.start == 1,
            mutation.increment == 1,
            mutation.pad == 0,
            mutation.separator@ == Seq::<char>::empty(),
            mutation.break_at == 0,
            mutation.base == 10,
            !mutation.upper_case,
    {
        NumberingMutation {
            enabled: false,
            mode: Placement::Prefix,
            start: 1,
            increment: 1,
            pad: 0,
            separator: String::new(),
            break_at: 0,
            base: 10,
            upper_case: false,
        }
    }
}

impl NumberingMutation {
    /// The base the numerals are written in.
    pub open spec fn radix(&self) -> nat {
        if 2 <= self.base <= 36 {
            self.base as nat
        } else {
            10
        }
    }

    /// The number of the name at position `ordinal` of the selection,
    /// counted from 0: `start` for the first name and `increment` more for
    /// each further one, starting again after every `break_at` names.
    pub open spec fn number_at(&self, ordinal: nat) -> nat {
        if self.break_at > 0 {
            (self.start + self.increment * (ordinal % (self.break_at as nat))) as nat
        } else {
            (self.start + self.increment * ordinal) as nat
        }
    }

    /// The number of the name at position `ordinal` as it is written.
    pub open spec fn label_at(&self, ordinal: nat) -> Seq<char> {
        zero_padded(
            numeral(self.number_at(ordinal), self.radix(), self.upper_case),
            self.pad as nat,
        )
    }

    /// The name at position `ordinal` with its number.
    pub open spec fn numbered(&self, input: Seq<char>, ordinal: nat) -> Seq<char> {
        if self.enabled {
            placed(input, self.label_at(ordinal), self.separator@, self.mode)
        } else {
            input
        }
    }

    /// The number of the name at position `ordinal` as it is written.
    pub fn label(&self, ordinal: u64) -> (label: String)
        ensures
            label@ == self.label_at(ordinal as nat),
    {
        let step = if self.break_at > 0 {
            ordinal % self.break_at
        } else {
            ordinal
        };
        assert(self.increment as u128 * step as u128 <= 0xffff_ffff_ffff_ffff
            * 0xffff_ffff_ffff_ffff) by (nonlinear_arith)
            requires
                self.increment <= 0xffff_ffff_ffff_ffff,
                step <= 0xffff_ffff_ffff_ffff,
        ;
        let number: u128 = self.start as u128 + self.increment as u128 * step as u128;
        let base = if 2 <= self.base && self.base <= 36 {
            self.base
        } else {
            10
        };
        let mut digits: Vec<char> = Vec::new();
        push_numeral(&mut digits, number, base, self.upper_case);
        let mut label = String::new();
        let width = digits.len();
        let mut filled: usize = width;
        while filled < self.pad
            invariant
                width <= filled,
                filled <= self.pad || filled == width,
                label@ == zeros((filled - width) as nat),
            decreases self.pad - filled,
        {
            label.push('0');
            filled = filled + 1;
        }
        crate::text::push_chars(&mut label, &digits, 0, width);
        label
    }

    /// Puts the number of position `ordinal` into `input`.
    pub fn number(&self, input: &str, ordinal: u64) -> (output: String)
        ensures
            output@ == self.numbered(input@, ordinal as nat),
    {
        if self.enabled {
            let label = self.label(ordinal);
            place(input, label.as_str(), self.separator.as_str(), self.mode)
        } else {
            input.to_owned()
        }
    }
}

/// A numbering bound to one position of the selection: the mutation that
/// puts the number of that position into a name.
pub struct NumberingAt<'a> {
    pub numbering: &'a NumberingMutation,
    pub ordinal: u64,
}

impl<'a> Mutation for NumberingAt<'a> {
    open spec fn enabled(&self) -> bool {
        self.numbering.enabled
    }

    open spec fn transforms(&self, input: Seq<char>, output: Seq<char>) -> bool {
        output == placed(
            input,
            self.numbering.label_at(self.ordinal as nat),
            self.numbering.separator@,
            self.numbering.mode,
        )
    }

    fn mutate(&self, input: &str) -> (output: String)
        ensures
            output@ == self.numbering.numbered(input@, self.ordinal as nat),
    {
        self.numbering.number(input, self.ordinal)
    }
}

} // verus!
