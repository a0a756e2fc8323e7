//! Literal find-and-replace on a whole name.

use crate::components::case::{ascii_lower, to_ascii_lower};
use crate::text::{push_chars, to_chars};
use crate::utilities::mutation_pipeline::Mutation;
use vstd::prelude::*;
use vstd::string::StringExecFns;

verus! {

/// Whether two characters stand for the same letter. Without case
/// sensitivity the ASCII letters match regardless of case; every other
/// character matches itself only.
pub open spec fn same_letter(first: char, second: char, case_sensitive: bool) -> bool {
    if case_sensitive {
        first == second
    } else {
        ascii_lower(first) == ascii_lower(second)
    }
}

/// Whether two texts are the same, letter for letter.
pub open spec fn same_text(first: Seq<char>, second: Seq<char>, case_sensitive: bool) -> bool {
    &&& first.len() == second.len()
    &&& forall|j: int|
        0 <= j < first.len() ==> same_letter(#[trigger] first[j], second[j], case_sensitive)
}

/// Whether `find` stands in `text` at position `at`.
pub open spec fn occurs_at(text: Seq<char>, find: Seq<char>, at: int, case_sensitive: bool) -> bool {
    &&& 0 <= at
    &&& at + find.len() <= text.len()
    &&& same_text(text.subrange(at, at + find.len()), find, case_sensitive)
}

/// `text` with the occurrences of `find` replaced by `with`. The text is
/// read from the left; an occurrence is replaced where it is met and reading
/// goes on behind it, so that occurrences do not overlap. With `first_only`
/// reading stops behind the first occurrence. An empty `find` occurs
/// nowhere.
pub open spec fn replaced(
    text: Seq<char>,
    find: Seq<char>,
    with: Seq<char>,
    case_sensitive: bool,
    first_only: bool,
) -> Seq<char>
    decreases text.len(),
{
    if find.len() == 0 || text.len() < find.len() {
        text
    } else if occurs_at(text, find, 0, case_sensitive) {
        with + if first_only {
            text.skip(find.len() as int)
        } else {
            replaced(text.skip(find.len() as int), find, with, case_sensitive, first_only)
        }
    } else {
        seq![text[0]] + replaced(text.skip(1), find, with, case_sensitive, first_only)
    }
}

/// Whether the characters `first` and `second` stand for the same letter.
fn is_same_letter(first: char, second: char, case_sensitive: bool) -> (same: bool)
    ensures
        same == same_letter(first, second, case_sensitive),
{
    if case_sensitive {
        first == second
    } else {
        to_ascii_lower(first) == to_ascii_lower(second)
    }
}

/// Whether `find` stands in `text` at position `at`.
fn occurs(text: &Vec<char>, find: &Vec<char>, at: usize, case_sensitive: bool) -> (found: bool)
    requires
        at + find@.len() <= text@.len(),
    ensures
        found == occurs_at(text@, find@, at as int, case_sensitive),
{
    let length = text.len();
    let ghost window = text@.subrange(at as int, at + find@.len());
    let mut j: usize = 0;
    while j < find.len()
        invariant
            j <= find@.len(),
            at + find@.len() <= text@.len(),
            length == text@.len(),
            window == text@.subrange(at as int, at + find@.len()),
            forall|k: int| 0 <= k < j ==> same_letter(#[trigger] window[k], find@[k], case_sensitive),
        decreases find@.len() - j,
    {
        if !is_same_letter(text[at + j], find[j], case_sensitive) {
            assert(!same_letter(window[j as int], find@[j as int], case_sensitive));
            return false;
        }
        j = j + 1;
    }
    true
}

/// `text` with the occurrences of `find` replaced by `with`, read from the
/// left and without overlap; only the first one with `first_only`.
pub fn replace_literal(
    text: &str,
    find: &str,
    with: &str,
    case_sensitive: bool,
    first_only: bool,
) -> (result: String)
    ensures
        result@ == replaced(text@, find@, with@, case_sensitive, first_only),
{
    let chars = to_chars(text);
    let wanted = to_chars(find);
    let length = chars.len();
    let width = wanted.len();
    if width == 0 {
        return text.to_owned();
    }
    let ghost whole = replaced(chars@, wanted@, with@, case_sensitive, first_only);
    let mut result = String::new();
    let mut i: usize = 0;
    assert(chars@.skip(0) == chars@);
    while length - i >= width
        invariant
            i <= length,
            length == chars@.len(),
            width == wanted@.len(),
            width > 0,
            chars@ == text@,
            wanted@ == find@,
            whole == replaced(chars@, wanted@, with@, case_sensitive, first_only),
            result@ + replaced(chars@.skip(i as int), wanted@, with@, case_sensitive, first_only)
                == whole,
        decreases length - i,
    {
        let ghost rest = chars@.skip(i as int);
        proof {
            assert(rest.subrange(0, 0 + width) == chars@.subrange(i as int, i + width));
        }
        if occurs(&chars, &wanted, i, case_sensitive) {
            let ghost before = result@;
            result.append(with);
            i = i + width;
            proof {
                assert(rest.skip(width as int) == chars@.skip(i as int));
            }
            if first_only {
                push_chars(&mut result, &chars, i, length);
                proof {
                    assert(replaced(rest, wanted@, with@, case_sensitive, first_only) == with@
                        + rest.skip(width as int));
                    assert(before + with@ + chars@.skip(i as int) == before + (with@
                        + chars@.skip(i as int)));
                }
                return result;
            }
        } else {
            result.push(chars[i]);
            i = i + 1;
            proof {
                assert(rest.skip(1) == chars@.skip(i as int));
            }
        }
    }
    push_chars(&mut result, &chars, i, length);
    result
}

/// Replaces a literal text in a whole name.
pub struct ReplaceMutation {
    pub enabled: bool,
    pub find: String,
    pub with: String,
    pub case_sensitive: bool,
    pub first_only: bool,
}

impl Default for ReplaceMutation {
    fn default() -> (mutation: Self)
        ensures
            !mutation.enabled,
            mutation.find@ == Seq::<char>::empty(),
            mutation.with@ == Seq::<char>::empty(),
            !mutation.case_sensitive,
            !mutation.first_only,
    {
        ReplaceMutation {
            enabled: false,
            find: String::new(),
            with: String::new(),
            case_sensitive: false,
            first_only: false,
        }
    }
}

impl ReplaceMutation {
    /// The name this mutation produces for `input`.
    pub open spec fn mutated(&self, input: Seq<char>) -> Seq<char> {
        if self.enabled {
            replaced(input, self.find@, self.with@, self.case_sensitive, self.first_only)
        } else {
            input
        }
    }
}

impl Mutation for ReplaceMutation {
    open spec fn enabled(&self) -> bool {
        self.enabled
    }

    open spec fn transforms(&self, input: Seq<char>, output: Seq<char>) -> bool {
        output == replaced(input, self.find@, self.with@, self.case_sensitive, self.first_only)
    }

    fn mutate(&self, input: &str) -> (output: String)
        ensures
            output@ == self.mutated(input@),
    {
        if self.enabled {
            replace_literal(
                input,
                self.find.as_str(),
                self.with.as_str(),
                self.case_sensitive,
                self.first_only,
            )
        } else {
            input.to_owned()
        }
    }
}

} // verus!
