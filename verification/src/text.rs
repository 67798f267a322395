//! Character sequences: searching, replacing, and writing numbers in decimal.

use vstd::prelude::*;

verus! {

/// `pattern` stands in `text` at position `at`.
pub open spec fn occurs_at(text: Seq<char>, pattern: Seq<char>, at: int) -> bool {
    &&& 0 <= at
    &&& at + pattern.len() <= text.len()
    &&& text.subrange(at, at + pattern.len()) == pattern
}

/// `pattern` stands somewhere in `text`.
pub open spec fn occurs_in(text: Seq<char>, pattern: Seq<char>) -> bool {
    exists|at: int| occurs_at(text, pattern, at)
}

/// `text` with each occurrence of `pattern` replaced by `with`. Occurrences
/// are found from the left and do not overlap; what was put in is not
/// searched again. An empty pattern occurs nowhere.
pub open spec fn replace_all(text: Seq<char>, pattern: Seq<char>, with: Seq<char>) -> Seq<char>
    decreases text.len(),
{
    if pattern.len() == 0 || text.len() == 0 {
        text
    } else if occurs_at(text, pattern, 0) {
        with + replace_all(text.skip(pattern.len() as int), pattern, with)
    } else {
        seq![text[0]] + replace_all(text.skip(1), pattern, with)
    }
}

/// A text in which the pattern does not occur is left as it is.
pub proof fn lemma_replace_all_absent(text: Seq<char>, pattern: Seq<char>, with: Seq<char>)
    requires
        !occurs_in(text, pattern),
    ensures
        replace_all(text, pattern, with) == text,
    decreases text.len(),
{
    if pattern.len() != 0 && text.len() != 0 {
        assert(!occurs_at(text, pattern, 0));
        let rest = text.skip(1);
        assert forall|at: int| !occurs_at(rest, pattern, at) by {
            if occurs_at(rest, pattern, at) {
                assert(rest.subrange(at, at + pattern.len()) == text.subrange(
                    at + 1,
                    at + 1 + pattern.len(),
                ));
                assert(occurs_at(text, pattern, at + 1));
            }
        }
        lemma_replace_all_absent(rest, pattern, with);
        assert(seq![text[0]] + rest == text);
    }
}

/// Where what replacing gives does not begin as `with` does, it begins with
/// the first character of the text, which was not replaced.
pub proof fn lemma_replace_all_keeps_first(text: Seq<char>, pattern: Seq<char>, with: Seq<char>)
    requires
        with.len() > 0,
        replace_all(text, pattern, with).len() > 0,
        replace_all(text, pattern, with)[0] != with[0],
    ensures
        text.len() > 0,
        !(pattern.len() > 0 && occurs_at(text, pattern, 0)),
        replace_all(text, pattern, with) == seq![text[0]] + replace_all(
            text.skip(1),
            pattern,
            with,
        ),
{
    if pattern.len() == 0 {
        assert(text == seq![text[0]] + text.skip(1));
    }
}

/// Where what replacing gives begins with a word that holds nowhere the
/// first character of `with`, the text begins with that word, which was not
/// replaced.
pub proof fn lemma_replace_all_keeps_prefix(
    text: Seq<char>,
    pattern: Seq<char>,
    with: Seq<char>,
    word: Seq<char>,
)
    requires
        with.len() > 0,
        !word.contains(with[0]),
        occurs_at(replace_all(text, pattern, with), word, 0),
    ensures
        occurs_at(text, word, 0),
    decreases word.len(),
{
    let out = replace_all(text, pattern, with);
    if word.len() == 0 {
        assert(text.subrange(0, 0) == word);
    } else {
        assert(out.subrange(0, word.len() as int)[0] == word[0]);
        assert(word.contains(word[0]));
        lemma_replace_all_keeps_first(text, pattern, with);
        let rest = text.skip(1);
        let tail = replace_all(rest, pattern, with);
        let shorter = word.skip(1);
        assert(tail.subrange(0, shorter.len() as int) == shorter) by {
            assert forall|i: int| 0 <= i < shorter.len() implies tail.subrange(
                0,
                shorter.len() as int,
            )[i] == shorter[i] by {
                assert(out.subrange(0, word.len() as int)[i + 1] == word[i + 1]);
                assert(out[i + 1] == tail[i]);
            }
        }
        assert forall|c: char| shorter.contains(c) implies word.contains(c) by {
            let i = choose|i: int| 0 <= i < shorter.len() && shorter[i] == c;
            assert(word[i + 1] == c);
        }
        lemma_replace_all_keeps_prefix(rest, pattern, with, shorter);
        assert(text.subrange(0, word.len() as int) == word) by {
            assert forall|i: int| 0 <= i < word.len() implies text.subrange(
                0,
                word.len() as int,
            )[i] == word[i] by {
                if i > 0 {
                    assert(rest.subrange(0, shorter.len() as int)[i - 1] == shorter[i - 1]);
                }
            }
        }
    }
}

/// Replacing does not make a word appear: if the word is the pattern itself,
/// or stood nowhere in the text, it stands nowhere in what replacing gives.
/// This holds of a word that does not hold the first character of `with`,
/// and whose first character `with` does not hold.
pub proof fn lemma_replace_all_makes_no(
    text: Seq<char>,
    pattern: Seq<char>,
    with: Seq<char>,
    word: Seq<char>,
)
    requires
        pattern.len() > 0,
        with.len() > 0,
        word.len() > 0,
        !word.contains(with[0]),
        !with.contains(word[0]),
        pattern == word || !occurs_in(text, word),
    ensures
        !occurs_in(replace_all(text, pattern, with), word),
    decreases text.len(),
{
    let out = replace_all(text, pattern, with);
    if text.len() > 0 {
        let replaced = occurs_at(text, pattern, 0);
        let used: int = if replaced { pattern.len() as int } else { 1 };
        let head = if replaced { with } else { seq![text[0]] };
        let rest = text.skip(used);
        let tail = replace_all(rest, pattern, with);
        assert(out == head + tail);
        if pattern != word {
            assert forall|at: int| !occurs_at(rest, word, at) by {
                if occurs_at(rest, word, at) {
                    assert(rest.subrange(at, at + word.len()) == text.subrange(
                        at + used,
                        at + used + word.len(),
                    ));
                    assert(occurs_at(text, word, at + used));
                }
            }
        }
        lemma_replace_all_makes_no(rest, pattern, with, word);
        assert forall|at: int| !occurs_at(out, word, at) by {
            if occurs_at(out, word, at) {
                assert(out.subrange(at, at + word.len())[0] == word[0]);
                if at >= head.len() {
                    assert(tail.subrange(at - head.len(), at - head.len() + word.len())
                        == out.subrange(at, at + word.len()));
                    assert(occurs_at(tail, word, at - head.len()));
                } else if replaced {
                    assert(with[at] == word[0]);
                    assert(with.contains(word[0]));
                } else {
                    lemma_replace_all_keeps_prefix(text, pattern, with, word);
                }
            }
        }
    } else {
        assert forall|at: int| !occurs_at(out, word, at) by {}
    }
}

/// An occurrence at the start of what follows `at` is an occurrence at `at`.
pub proof fn lemma_occurs_at_skip(text: Seq<char>, pattern: Seq<char>, at: int)
    requires
        0 <= at <= text.len(),
    ensures
        occurs_at(text.skip(at), pattern, 0) == occurs_at(text, pattern, at),
{
    if at + pattern.len() <= text.len() {
        assert(text.skip(at).subrange(0, pattern.len() as int) == text.subrange(
            at,
            at + pattern.len(),
        ));
    }
}

/// Whether `pattern` stands in `text` at `at`.
pub fn matches_at(text: &Vec<char>, pattern: &Vec<char>, at: usize) -> (r: bool)
    ensures
        r == occurs_at(text@, pattern@, at as int),
{
    if at > text.len() || pattern.len() > text.len() - at {
        return false;
    }
    let mut k: usize = 0;
    while k < pattern.len()
        invariant
            k <= pattern.len(),
            at + pattern.len() <= text.len(),
            forall|j: int| 0 <= j < k ==> text@[at + j] == pattern@[j],
        decreases pattern.len() - k,
    {
        if text[at + k] != pattern[k] {
            return false;
        }
        k += 1;
    }
    assert(text@.subrange(at as int, at + pattern.len()) =~= pattern@);
    true
}

/// Replaces each occurrence of `pattern` in `text` by `with`.
pub fn replace_chars(text: &Vec<char>, pattern: &Vec<char>, with: &Vec<char>) -> (out: Vec<char>)
    ensures
        out@ == replace_all(text@, pattern@, with@),
{
    let mut out: Vec<char> = Vec::new();
    let mut at: usize = 0;
    assert(text@.skip(0) == text@);
    while at < text.len()
        invariant
            at <= text.len(),
            out@ + replace_all(text@.skip(at as int), pattern@, with@) == replace_all(
                text@,
                pattern@,
                with@,
            ),
        decreases text.len() - at,
    {
        let ghost rest = text@.skip(at as int);
        let ghost done = out@;
        if pattern.len() > 0 && matches_at(text, pattern, at) {
            proof {
                lemma_occurs_at_skip(text@, pattern@, at as int);
                assert(rest.skip(pattern.len() as int) == text@.skip(at + pattern.len()));
            }
            let mut k: usize = 0;
            while k < with.len()
                invariant
                    k <= with.len(),
                    out@ == done + with@.take(k as int),
                decreases with.len() - k,
            {
                out.push(with[k]);
                k += 1;
            }
            at += pattern.len();
        } else {
            proof {
                lemma_occurs_at_skip(text@, pattern@, at as int);
                assert(rest.skip(1) == text@.skip(at + 1));
            }
            out.push(text[at]);
            at += 1;
        }
    }
    out
}

/// `String::push` of std: it appends one character to the end of the string
/// and leaves the rest as it was.
pub assume_specification[ String::push ](s: &mut String, c: char)
    ensures
        final(s)@ == old(s)@.push(c),
;

/// The characters of `s`, in order.
pub fn chars_of(s: &str) -> (out: Vec<char>)
    ensures
        out@ == s@,
{
    let mut out: Vec<char> = Vec::new();
    for c in it: s.chars()
        invariant
            out@ == it.seq().take(it.index() as int),
    {
        out.push(c);
    }
    out
}

/// The string made of `chars`, in order.
pub fn string_of(chars: &Vec<char>) -> (out: String)
    ensures
        out@ == chars@,
{
    let mut out = String::new();
    let mut k: usize = 0;
    while k < chars.len()
        invariant
            k <= chars.len(),
            out@ == chars@.take(k as int),
        decreases chars.len() - k,
    {
        out.push(chars[k]);
        k += 1;
    }
    out
}

/// The digit that stands for `d`, where `d` is below ten.
pub open spec fn digit(d: nat) -> char {
    if d == 0 {
        '0'
    } else if d == 1 {
        '1'
    } else if d == 2 {
        '2'
    } else if d == 3 {
        '3'
    } else if d == 4 {
        '4'
    } else if d == 5 {
        '5'
    } else if d == 6 {
        '6'
    } else if d == 7 {
        '7'
    } else if d == 8 {
        '8'
    } else {
        '9'
    }
}

/// `n` written in decimal, without sign or leading zeros.
pub open spec fn decimal(n: nat) -> Seq<char>
    decreases n,
{
    if n < 10 {
        seq![digit(n)]
    } else {
        decimal(n / 10).push(digit(n % 10))
    }
}

/// The number that the digit `c` stands for.
pub open spec fn digit_value(c: char) -> nat {
    if c == '1' {
        1
    } else if c == '2' {
        2
    } else if c == '3' {
        3
    } else if c == '4' {
        4
    } else if c == '5' {
        5
    } else if c == '6' {
        6
    } else if c == '7' {
        7
    } else if c == '8' {
        8
    } else if c == '9' {
        9
    } else {
        0
    }
}

/// The number that `digits` write in decimal.
pub open spec fn number_of(digits: Seq<char>) -> nat
    decreases digits.len(),
{
    if digits.len() == 0 {
        0
    } else {
        number_of(digits.drop_last()) * 10 + digit_value(digits.last())
    }
}

/// A number is read back from what it is written as: so different numbers
/// are written differently.
pub proof fn lemma_decimal_is_read_back(n: nat)
    ensures
        number_of(decimal(n)) == n,
    decreases n,
{
    if n < 10 {
        assert(decimal(n).drop_last() =~= Seq::<char>::empty());
        assert(number_of(decimal(n).drop_last()) == 0);
    } else {
        lemma_decimal_is_read_back(n / 10);
        assert(decimal(n).drop_last() =~= decimal(n / 10));
    }
}

/// A number that fits 32 bits has at most ten digits, each of them ASCII.
pub proof fn lemma_decimal_u32(n: nat)
    requires
        n <= u32::MAX,
    ensures
        1 <= decimal(n).len() <= 10,
        forall|i: int| 0 <= i < decimal(n).len() ==> '0' <= #[trigger] decimal(n)[i] <= '9',
{
    reveal_with_fuel(decimal, 11);
}

fn digit_char(d: u32) -> (c: char)
    requires
        d < 10,
    ensures
        c == digit(d as nat),
{
    match d {
        0 => '0',
        1 => '1',
        2 => '2',
        3 => '3',
        4 => '4',
        5 => '5',
        6 => '6',
        7 => '7',
        8 => '8',
        _ => '9',
    }
}

/// Appends `n`, written in decimal, to `out`.
pub fn push_decimal(out: &mut Vec<char>, n: u32)
    ensures
        final(out)@ == old(out)@ + decimal(n as nat),
    decreases n,
{
    if n >= 10 {
        push_decimal(out, n / 10);
    }
    out.push(digit_char(n % 10));
}

/// Appends the characters of `s` to `out`.
pub fn push_str(out: &mut Vec<char>, s: &str)
    ensures
        final(out)@ == old(out)@ + s@,
{
    for c in it: s.chars()
        invariant
            out@ == old(out)@ + it.seq().take(it.index() as int),
    {
        out.push(c);
    }
}

/// Whether `left` and `right` hold the same characters.
pub fn same_text(left: &str, right: &str) -> (same: bool)
    ensures
        same == (left@ == right@),
{
    let left = chars_of(left);
    let right = chars_of(right);
    if left.len() != right.len() {
        return false;
    }
    let same = matches_at(&left, &right, 0);
    assert(left@.subrange(0, left@.len() as int) == left@);
    same
}

} // verus!
