//! Character-level helpers shared by the mutations and the form: moving
//! between strings and character vectors, searching a name for a separator,
//! writing and reading decimal numerals, and splitting a text into words.

use vstd::prelude::*;

verus! {

/// `String::push` appends exactly one character to the end of the string.
pub assume_specification[ String::push ](s: &mut String, ch: char)
    ensures
        final(s)@ == old(s)@.push(ch),
;

/// The view of an optional string.
pub open spec fn text_of(text: Option<String>) -> Option<Seq<char>> {
    match text {
        Some(text) => Some(text@),
        None => None,
    }
}

/// The characters of `s`, in order.
pub fn to_chars(s: &str) -> (chars: Vec<char>)
    ensures
        chars@ == s@,
{
    let mut chars: Vec<char> = Vec::new();
    for c in it: s.chars()
        invariant
            chars@ == it.seq().take(it.index() as int),
    {
        chars.push(c);
    }
    chars
}

/// Appends `chars[from..to]` to `text`.
pub fn push_chars(text: &mut String, chars: &Vec<char>, from: usize, to: usize)
    requires
        from <= to <= chars@.len(),
    ensures
        final(text)@ == old(text)@ + chars@.subrange(from as int, to as int),
{
    let mut i: usize = from;
    while i < to
        invariant
            from <= i <= to <= chars@.len(),
            text@ == old(text)@ + chars@.subrange(from as int, i as int),
        decreases to - i,
    {
        text.push(chars[i]);
        i = i + 1;
    }
}

/// The string made of `chars[from..to]`.
pub fn from_chars(chars: &Vec<char>, from: usize, to: usize) -> (s: String)
    requires
        from <= to <= chars@.len(),
    ensures
        s@ == chars@.subrange(from as int, to as int),
{
    let mut s = String::new();
    push_chars(&mut s, chars, from, to);
    s
}

/// The position of the first `needle` in `chars`, if there is one.
pub fn find_first(chars: &Vec<char>, needle: char) -> (found: Option<usize>)
    ensures
        match found {
            Some(k) => chars@.index_of_first(needle) == Some(k as int),
            None => chars@.index_of_first(needle) is None,
        },
{
    let mut i: usize = 0;
    while i < chars.len()
        invariant
            i <= chars@.len(),
            forall|j: int| 0 <= j < i ==> chars@[j] != needle,
        decreases chars@.len() - i,
    {
        if chars[i] == needle {
            proof {
                chars@.index_of_first_ensures(needle);
            }
            return Some(i);
        }
        i = i + 1;
    }
    proof {
        chars@.index_of_first_ensures(needle);
    }
    None
}

/// The position of the last `needle` in `chars`, if there is one.
pub fn find_last(chars: &Vec<char>, needle: char) -> (found: Option<usize>)
    ensures
        match found {
            Some(k) => chars@.index_of_last(needle) == Some(k as int),
            None => chars@.index_of_last(needle) is None,
        },
{
    let mut i: usize = chars.len();
    while i > 0
        invariant
            i <= chars@.len(),
            forall|j: int| i <= j < chars@.len() ==> chars@[j] != needle,
        decreases i,
    {
        i = i - 1;
        if chars[i] == needle {
            proof {
                chars@.index_of_last_ensures(needle);
            }
            return Some(i);
        }
    }
    proof {
        chars@.index_of_last_ensures(needle);
    }
    None
}

/// The character that stands for a decimal digit.
pub open spec fn digit_char(digit: nat) -> char
    recommends
        digit < 10,
{
    (('0' as u32) + digit) as char
}

/// The decimal numeral of `number`, without leading zeros.
pub open spec fn decimal(number: nat) -> Seq<char>
    decreases number,
{
    if number < 10 {
        seq![digit_char(number)]
    } else {
        decimal(number / 10).push(digit_char(number % 10))
    }
}

/// Appends the decimal numeral of `number` to `text`.
pub fn push_decimal(text: &mut String, number: u128)
    ensures
        final(text)@ == old(text)@ + decimal(number as nat),
    decreases number,
{
    if number >= 10 {
        push_decimal(text, number / 10);
    }
    let digit = (number % 10) as u8;
    text.push((48u8 + digit) as char);
    proof {
        let front = if number >= 10 {
            decimal((number / 10) as nat)
        } else {
            Seq::empty()
        };
        assert(old(text)@ + front.push(digit_char((number % 10) as nat)) == (old(text)@
            + front).push(digit_char((number % 10) as nat)));
    }
}

/// Whether `text` is a decimal numeral: one digit or more, and nothing
/// else.
pub open spec fn is_numeral(text: Seq<char>) -> bool {
    &&& text.len() > 0
    &&& forall|i: int| 0 <= i < text.len() ==> '0' <= #[trigger] text[i] <= '9'
}

/// The number that a decimal numeral stands for.
pub open spec fn numeral_value(text: Seq<char>) -> nat
    decreases text.len(),
{
    if text.len() == 0 {
        0
    } else {
        (numeral_value(text.drop_last()) * 10 + (text.last() as nat - '0' as nat)) as nat
    }
}

/// A numeral stands for no less than any of its beginnings.
pub proof fn lemma_numeral_value_grows(text: Seq<char>, count: int)
    requires
        is_numeral(text),
        0 <= count <= text.len(),
    ensures
        numeral_value(text.take(count)) <= numeral_value(text),
    decreases text.len() - count,
{
    if count < text.len() {
        let longer = text.take(count + 1);
        assert(longer.drop_last() == text.take(count));
        assert(longer.last() == text[count]);
        lemma_numeral_value_grows(text, count + 1);
    } else {
        assert(text.take(count) == text);
    }
}

/// The number that `text` stands for, where `text` is a decimal numeral of
/// a number that fits.
pub fn parse_number(text: &str) -> (number: Option<u64>)
    ensures
        number == if is_numeral(text@) && numeral_value(text@) <= u64::MAX {
            Some(numeral_value(text@) as u64)
        } else {
            None
        },
{
    let chars = to_chars(text);
    if chars.len() == 0 {
        return None;
    }
    let mut value: u64 = 0;
    let mut i: usize = 0;
    while i < chars.len()
        invariant
            i <= chars@.len(),
            chars@ == text@,
            chars@.len() > 0,
            forall|j: int| 0 <= j < i ==> '0' <= #[trigger] chars@[j] <= '9',
            value == numeral_value(chars@.take(i as int)),
        decreases chars@.len() - i,
    {
        let c = chars[i];
        if !('0' <= c && c <= '9') {
            return None;
        }
        let digit = (c as u8 - 48) as u64;
        proof {
            let longer = chars@.take(i as int + 1);
            assert(longer.drop_last() == chars@.take(i as int));
        }
        if value > (u64::MAX - digit) / 10 {
            proof {
                if is_numeral(chars@) {
                    lemma_numeral_value_grows(chars@, i as int + 1);
                }
            }
            return None;
        }
        value = value * 10 + digit;
        i = i + 1;
    }
    assert(chars@.take(i as int) == chars@);
    Some(value)
}

/// The words of a text: the longest stretches without a space, in their
/// order.
pub open spec fn words_in(text: Seq<char>) -> Seq<Seq<char>>
    decreases text.len(),
{
    match text.index_of_first(' ') {
        Some(space) => {
            let rest = if 0 <= space < text.len() {
                words_in(text.skip(space + 1))
            } else {
                Seq::empty()
            };
            if space > 0 {
                seq![text.take(space)] + rest
            } else {
                rest
            }
        },
        None => if text.len() > 0 {
            seq![text]
        } else {
            Seq::empty()
        },
    }
}

/// The views of a list of strings.
pub open spec fn texts_of(texts: Seq<String>) -> Seq<Seq<char>> {
    texts.map_values(|text: String| text@)
}

/// The words of a text: the longest stretches without a space, in their
/// order.
pub fn split_words(text: &str) -> (words: Vec<String>)
    ensures
        texts_of(words@) == words_in(text@),
{
    let chars = to_chars(text);
    let length = chars.len();
    let mut words: Vec<String> = Vec::new();
    let mut start: usize = 0;
    assert(chars@.skip(0) == chars@);
    loop
        invariant_except_break
            texts_of(words@) + words_in(chars@.skip(start as int)) == words_in(chars@),
        invariant
            start <= length,
            length == chars@.len(),
            chars@ == text@,
        ensures
            texts_of(words@) == words_in(text@),
        decreases length - start,
    {
        let ghost rest = chars@.skip(start as int);
        let mut end: usize = start;
        while end < length && chars[end] != ' '
            invariant
                start <= end <= length,
                length == chars@.len(),
                forall|k: int| start <= k < end ==> chars@[k] != ' ',
            decreases length - end,
        {
            end = end + 1;
        }
        proof {
            rest.index_of_first_ensures(' ');
            if end < length {
                assert(rest[end - start] == ' ');
                assert(rest.skip(end - start + 1) == chars@.skip(end as int + 1));
            }
            assert(rest.take(end - start) == chars@.subrange(start as int, end as int));
        }
        if end > start {
            words.push(from_chars(&chars, start, end));
        }
        if end == length {
            break;
        }
        start = end + 1;
    }
    words
}

} // verus!
