//! Removal of parts of a whole name: leading and trailing characters, a range
//! of positions, chosen characters, chosen words, digits, accents and
//! surrounding blanks.

use crate::components::replace::{replace_literal, replaced};
use crate::text::{from_chars, texts_of, to_chars};
use crate::utilities::mutation_pipeline::Mutation;
use vstd::prelude::*;

verus! {

/// Whether a character is one of the digits `0` to `9`.
pub open spec fn is_digit(c: char) -> bool {
    '0' <= c && c <= '9'
}

/// Whether a character is a combining diacritical mark (U+0300 to U+036F):
/// an accent that stands on the letter before it.
pub open spec fn is_accent(c: char) -> bool {
    '\u{300}' <= c && c <= '\u{36f}'
}

/// The base letter of a letter of Latin-1 that carries an accent: `A` for
/// `À` to `Å`, `c` for `ç`, and so on for the letters that are a base letter
/// and a combining mark in one character. Any other character is its own
/// base letter.
pub open spec fn base_letter(c: char) -> char {
    if '\u{c0}' <= c && c <= '\u{c5}' {
        'A'
    } else if c == '\u{c7}' {
        'C'
    } else if '\u{c8}' <= c && c <= '\u{cb}' {
        'E'
    } else if '\u{cc}' <= c && c <= '\u{cf}' {
        'I'
    } else if c == '\u{d1}' {
        'N'
    } else if '\u{d2}' <= c && c <= '\u{d6}' {
        'O'
    } else if '\u{d9}' <= c && c <= '\u{dc}' {
        'U'
    } else if c == '\u{dd}' {
        'Y'
    } else if '\u{e0}' <= c && c <= '\u{e5}' {
        'a'
    } else if c == '\u{e7}' {
        'c'
    } else if '\u{e8}' <= c && c <= '\u{eb}' {
        'e'
    } else if '\u{ec}' <= c && c <= '\u{ef}' {
        'i'
    } else if c == '\u{f1}' {
        'n'
    } else if '\u{f2}' <= c && c <= '\u{f6}' {
        'o'
    } else if '\u{f9}' <= c && c <= '\u{fc}' {
        'u'
    } else if c == '\u{fd}' || c == '\u{ff}' {
        'y'
    } else {
        c
    }
}

/// `text` without accents: the combining marks are dropped and the accented
/// letters of Latin-1 give way to their base letters.
pub open spec fn without_accents(text: Seq<char>) -> Seq<char> {
    text.filter(no_accent()).map_values(|c: char| base_letter(c))
}

/// Whether a character is a blank: a space, a tab, a line feed, a vertical
/// tab, a form feed or a carriage return.
pub open spec fn is_blank(c: char) -> bool {
    c == ' ' || ('\t' <= c && c <= '\r')
}

/// `text` without its first `count` characters.
pub open spec fn without_first(text: Seq<char>, count: nat) -> Seq<char> {
    if count >= text.len() {
        Seq::empty()
    } else {
        text.skip(count as int)
    }
}

/// `text` without its last `count` characters.
pub open spec fn without_last(text: Seq<char>, count: nat) -> Seq<char> {
    if count >= text.len() {
        Seq::empty()
    } else {
        text.take(text.len() - count)
    }
}

/// `text` without the characters at the positions `from` to `to`, both
/// counted from 1 and both included. Nothing is removed where `from` is 0,
/// lies behind the text, or lies behind `to`.
pub open spec fn without_range(text: Seq<char>, from: nat, to: nat) -> Seq<char> {
    if from == 0 || to < from || from > text.len() {
        text
    } else if to >= text.len() {
        text.take(from - 1)
    } else {
        text.take(from - 1) + text.skip(to as int)
    }
}

/// The test that keeps a character unless it occurs in `set`.
pub open spec fn outside(set: Seq<char>) -> spec_fn(char) -> bool {
    |c: char| !set.contains(c)
}

/// The test that keeps a character unless it is a digit.
pub open spec fn no_digit() -> spec_fn(char) -> bool {
    |c: char| !is_digit(c)
}

/// The test that keeps a character unless it is an accent.
pub open spec fn no_accent() -> spec_fn(char) -> bool {
    |c: char| !is_accent(c)
}

/// `text` without the occurrences of each of `words`, taken out one word
/// after the other in the order of the list.
pub open spec fn without_words(text: Seq<char>, words: Seq<Seq<char>>) -> Seq<char>
    decreases words.len(),
{
    if words.len() == 0 {
        text
    } else {
        replaced(without_words(text, words.drop_last()), words.last(), Seq::empty(), true, false)
    }
}

/// `text` without the blanks it starts with.
pub open spec fn trim_start(text: Seq<char>) -> Seq<char>
    decreases text.len(),
{
    if text.len() > 0 && is_blank(text[0]) {
        trim_start(text.skip(1))
    } else {
        text
    }
}

/// `text` without the blanks it ends with.
pub open spec fn trim_end(text: Seq<char>) -> Seq<char>
    decreases text.len(),
{
    if text.len() > 0 && is_blank(text.last()) {
        trim_end(text.drop_last())
    } else {
        text
    }
}

/// `text` without the blanks around it.
pub open spec fn trimmed(text: Seq<char>) -> Seq<char> {
    trim_end(trim_start(text))
}

/// Whether `c` occurs in `set`.
fn occurs_in(set: &Vec<char>, c: char) -> (found: bool)
    ensures
        found == set@.contains(c),
{
    let mut i: usize = 0;
    while i < set.len()
        invariant
            i <= set@.len(),
            forall|j: int| 0 <= j < i ==> set@[j] != c,
        decreases set@.len() - i,
    {
        if set[i] == c {
            return true;
        }
        i = i + 1;
    }
    false
}

/// What a filter keeps of `chars`.
#[derive(Clone, Copy)]
enum Keep<'a> {
    Outside(&'a Vec<char>),
    NoDigit,
    NoAccent,
}

impl<'a> Keep<'a> {
    spec fn test(self) -> spec_fn(char) -> bool {
        match self {
            Keep::Outside(set) => outside(set@),
            Keep::NoDigit => no_digit(),
            Keep::NoAccent => no_accent(),
        }
    }

    fn keeps(&self, c: char) -> (kept: bool)
        ensures
            kept == (self.test())(c),
    {
        match self {
            Keep::Outside(set) => !occurs_in(set, c),
            Keep::NoDigit => !('0' <= c && c <= '9'),
            Keep::NoAccent => !('\u{300}' <= c && c <= '\u{36f}'),
        }
    }
}

/// The characters of `chars` that `keep` keeps, in their order.
fn filtered(chars: &Vec<char>, keep: Keep) -> (kept: Vec<char>)
    ensures
        kept@ == chars@.filter(keep.test()),
{
    let mut kept: Vec<char> = Vec::new();
    let mut i: usize = 0;
    proof {
        reveal(Seq::filter);
    }
    while i < chars.len()
        invariant
            i <= chars@.len(),
            kept@ == chars@.take(i as int).filter(keep.test()),
        decreases chars@.len() - i,
    {
        proof {
            reveal(Seq::filter);
            assert(chars@.take(i as int + 1).drop_last() == chars@.take(i as int));
        }
        if keep.keeps(chars[i]) {
            kept.push(chars[i]);
        }
        i = i + 1;
    }
    proof {
        assert(chars@.take(i as int) == chars@);
    }
    kept
}

/// The base letter of `c`.
fn to_base_letter(c: char) -> (base: char)
    ensures
        base == base_letter(c),
{
    if '\u{c0}' <= c && c <= '\u{c5}' {
        'A'
    } else if c == '\u{c7}' {
        'C'
    } else if '\u{c8}' <= c && c <= '\u{cb}' {
        'E'
    } else if '\u{cc}' <= c && c <= '\u{cf}' {
        'I'
    } else if c == '\u{d1}' {
        'N'
    } else if '\u{d2}' <= c && c <= '\u{d6}' {
        'O'
    } else if '\u{d9}' <= c && c <= '\u{dc}' {
        'U'
    } else if c == '\u{dd}' {
        'Y'
    } else if '\u{e0}' <= c && c <= '\u{e5}' {
        'a'
    } else if c == '\u{e7}' {
        'c'
    } else if '\u{e8}' <= c && c <= '\u{eb}' {
        'e'
    } else if '\u{ec}' <= c && c <= '\u{ef}' {
        'i'
    } else if c == '\u{f1}' {
        'n'
    } else if '\u{f2}' <= c && c <= '\u{f6}' {
        'o'
    } else if '\u{f9}' <= c && c <= '\u{fc}' {
        'u'
    } else if c == '\u{fd}' || c == '\u{ff}' {
        'y'
    } else {
        c
    }
}

/// `chars` without accents.
fn unaccented(chars: &Vec<char>) -> (bare: Vec<char>)
    ensures
        bare@ == without_accents(chars@),
{
    let marked = filtered(chars, Keep::NoAccent);
    let mut bare: Vec<char> = Vec::new();
    let mut i: usize = 0;
    while i < marked.len()
        invariant
            i <= marked@.len(),
            bare@ == marked@.take(i as int).map_values(|c: char| base_letter(c)),
        decreases marked@.len() - i,
    {
        bare.push(to_base_letter(marked[i]));
        i = i + 1;
        assert(bare@ == marked@.take(i as int).map_values(|c: char| base_letter(c)));
    }
    assert(marked@.take(i as int) == marked@);
    bare
}

/// Whether `c` is a blank.
fn blank(c: char) -> (is: bool)
    ensures
        is == is_blank(c),
{
    c == ' ' || ('\t' <= c && c <= '\r')
}

/// Appends `chars[from..to]` to `kept`.
fn push_slice(kept: &mut Vec<char>, chars: &Vec<char>, from: usize, to: usize)
    requires
        from <= to <= chars@.len(),
    ensures
        final(kept)@ == old(kept)@ + chars@.subrange(from as int, to as int),
{
    let mut i: usize = from;
    while i < to
        invariant
            from <= i <= to <= chars@.len(),
            kept@ == old(kept)@ + chars@.subrange(from as int, i as int),
        decreases to - i,
    {
        kept.push(chars[i]);
        i = i + 1;
    }
}

/// `chars` without its first `first` and its last `last` characters and,
/// of what is left, without the positions `from` to `to`.
fn cut(chars: &Vec<char>, first: usize, last: usize, from: usize, to: usize) -> (kept: Vec<char>)
    ensures
        kept@ == without_range(
            without_last(without_first(chars@, first as nat), last as nat),
            from as nat,
            to as nat,
        ),
{
    let length = chars.len();
    let start = if first >= length {
        length
    } else {
        first
    };
    let end = if last >= length - start {
        start
    } else {
        length - last
    };
    let width = end - start;
    let mut kept: Vec<char> = Vec::new();
    if from == 0 || to < from || from > width {
        push_slice(&mut kept, chars, start, end);
    } else {
        push_slice(&mut kept, chars, start, start + (from - 1));
        if to < width {
            push_slice(&mut kept, chars, start + to, end);
        }
    }
    kept
}

/// `chars` without the blanks around it.
fn trim(chars: &Vec<char>) -> (kept: Vec<char>)
    ensures
        kept@ == trimmed(chars@),
{
    let length = chars.len();
    let mut start: usize = 0;
    assert(chars@.skip(0) == chars@);
    while start < length && blank(chars[start])
        invariant
            start <= length,
            length == chars@.len(),
            trim_start(chars@) == trim_start(chars@.skip(start as int)),
        decreases length - start,
    {
        assert(chars@.skip(start as int).skip(1) == chars@.skip(start as int + 1));
        start = start + 1;
    }
    let ghost headless = chars@.skip(start as int);
    let mut end: usize = length;
    while end > start && blank(chars[end - 1])
        invariant
            start <= end <= length,
            length == chars@.len(),
            trim_end(headless) == trim_end(chars@.subrange(start as int, end as int)),
        decreases end,
    {
        assert(chars@.subrange(start as int, end as int).drop_last() == chars@.subrange(
            start as int,
            end as int - 1,
        ));
        end = end - 1;
    }
    let mut kept: Vec<char> = Vec::new();
    push_slice(&mut kept, chars, start, end);
    kept
}

/// `text` without the occurrences of each of `words`.
fn drop_words(text: String, words: &Vec<String>) -> (kept: String)
    ensures
        kept@ == without_words(text@, texts_of(words@)),
{
    let mut kept = text;
    let mut i: usize = 0;
    while i < words.len()
        invariant
            i <= words@.len(),
            kept@ == without_words(text@, texts_of(words@).take(i as int)),
        decreases words@.len() - i,
    {
        proof {
            let done = texts_of(words@).take(i as int + 1);
            assert(done.drop_last() == texts_of(words@).take(i as int));
        }
        kept = replace_literal(kept.as_str(), words[i].as_str(), "", true, false);
        proof {
            reveal_strlit("");
            assert(""@ == Seq::<char>::empty());
        }
        i = i + 1;
    }
    assert(texts_of(words@).take(i as int) == texts_of(words@));
    kept
}

/// Removes parts of a whole name. Each part has its own setting; a count of
/// 0, an empty set and an empty list remove nothing.
pub struct RemoveMutation {
    pub enabled: bool,
    pub first_n: usize,
    pub last_n: usize,
    pub from: usize,
    pub to: usize,
    pub chars: String,
    pub words: Vec<String>,
    pub digits: bool,
    pub accents: bool,
    pub trim: bool,
}

impl Default for RemoveMutation {
    fn default() -> (mutation: Self)
        ensures
            !mutation.enabled,
            mutation.first_n == 0,
            mutation.last_n == 0,
            mutation.from == 0,
            mutation.to == 0,
            mutation.chars@ == Seq::<char>::empty(),
            mutation.words@ == Seq::<String>::empty(),
            !mutation.digits,
            !mutation.accents,
            !mutation.trim,
    {
        RemoveMutation {
            enabled: false,
            first_n: 0,
            last_n: 0,
            from: 0,
            to: 0,
            chars: String::new(),
            words: Vec::new(),
            digits: false,
            accents: false,
            trim: false,
        }
    }
}

impl RemoveMutation {
    /// What is left of `input` when every part that is set has been
    /// removed, in this order: the first characters, the last characters,
    /// the range of positions, the chosen characters, the chosen words, the
    /// digits, the accents, the blanks around the name.
    pub open spec fn removed(&self, input: Seq<char>) -> Seq<char> {
        let cut = without_range(
            without_last(without_first(input, self.first_n as nat), self.last_n as nat),
            self.from as nat,
            self.to as nat,
        );
        let chosen = without_words(cut.filter(outside(self.chars@)), texts_of(self.words@));
        let plain = if self.digits {
            chosen.filter(no_digit())
        } else {
            chosen
        };
        let bare = if self.accents {
            without_accents(plain)
        } else {
            plain
        };
        if self.trim {
            trimmed(bare)
        } else {
            bare
        }
    }

    /// The name this mutation produces for `input`.
    pub open spec fn mutated(&self, input: Seq<char>) -> Seq<char> {
        if self.enabled {
            self.removed(input)
        } else {
            input
        }
    }

    /// Removes every part that is set from `input`.
    pub fn remove(&self, input: &str) -> (output: String)
        ensures
            output@ == self.removed(input@),
    {
        let chars = to_chars(input);
        let cut = cut(&chars, self.first_n, self.last_n, self.from, self.to);
        let set = to_chars(self.chars.as_str());
        let chosen = filtered(&cut, Keep::Outside(&set));
        let text = from_chars(&chosen, 0, chosen.len());
        assert(text@ == chosen@);
        let mut rest = to_chars(drop_words(text, &self.words).as_str());
        if self.digits {
            rest = filtered(&rest, Keep::NoDigit);
        }
        if self.accents {
            rest = unaccented(&rest);
        }
        if self.trim {
            rest = trim(&rest);
        }
        let output = from_chars(&rest, 0, rest.len());
        output
    }
}

impl Mutation for RemoveMutation {
    open spec fn enabled(&self) -> bool {
        self.enabled
    }

    open spec fn transforms(&self, input: Seq<char>, output: Seq<char>) -> bool {
        output == self.removed(input)
    }

    fn mutate(&self, input: &str) -> (output: String)
        ensures
            output@ == self.mutated(input@),
    {
        if self.enabled {
            self.remove(input)
        } else {
            input.to_owned()
        }
    }
}

} // verus!
