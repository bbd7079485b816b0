//! Splitting a line of input into words, and reading a number from a word.

use vstd::prelude::*;

verus! {

/// Whether `c` is white space: a character with the Unicode property
/// `White_Space`.
pub open spec fn is_space(c: char) -> bool {
    let n = c as u32;
    ||| 0x09 <= n <= 0x0D
    ||| n == 0x20
    ||| n == 0x85
    ||| n == 0xA0
    ||| n == 0x1680
    ||| 0x2000 <= n <= 0x200A
    ||| n == 0x2028
    ||| n == 0x2029
    ||| n == 0x202F
    ||| n == 0x205F
    ||| n == 0x3000
}

/// Tells whether `c` is white space.
pub fn is_space_char(c: char) -> (r: bool)
    ensures
        r == is_space(c),
{
    let n: u32 = c as u32;
    (0x09 <= n && n <= 0x0D) || n == 0x20 || n == 0x85 || n == 0xA0 || n == 0x1680 || (0x2000 <= n
        && n <= 0x200A) || n == 0x2028 || n == 0x2029 || n == 0x202F || n == 0x205F || n == 0x3000
}

/// The number of characters of `s` before its first white space.
pub open spec fn word_len(s: Seq<char>) -> nat
    decreases s.len(),
{
    if s.len() == 0 || is_space(s[0]) {
        0
    } else {
        1 + word_len(s.skip(1))
    }
}

/// A word is no longer than the text it starts, and holds a character where
/// the text starts with one that is no white space.
pub proof fn lemma_word_len_bounds(s: Seq<char>)
    ensures
        word_len(s) <= s.len(),
        s.len() > 0 && !is_space(s[0]) ==> word_len(s) >= 1,
    decreases s.len(),
{
    if s.len() > 0 && !is_space(s[0]) {
        lemma_word_len_bounds(s.skip(1));
    }
}

/// The words of `line`: its longest runs of characters that are no white
/// space, from left to right.
pub open spec fn words(line: Seq<char>) -> Seq<Seq<char>>
    decreases line.len(),
{
    if line.len() == 0 {
        Seq::empty()
    } else if is_space(line[0]) {
        words(line.skip(1))
    } else {
        let n = word_len(line) as int;
        proof {
            lemma_word_len_bounds(line);
        }
        seq![line.take(n)] + words(line.skip(n))
    }
}

/// The characters that `word_len` counts are no white space.
proof fn lemma_word_holds_no_space(s: Seq<char>, i: int)
    requires
        0 <= i < word_len(s),
    ensures
        i < s.len(),
        !is_space(s[i]),
    decreases s.len(),
{
    if i > 0 {
        lemma_word_holds_no_space(s.skip(1), i - 1);
    }
}

/// Whether `word` holds at least one character, and no white space.
pub open spec fn is_run(word: Seq<char>) -> bool {
    word.len() > 0 && forall|i: int| 0 <= i < word.len() ==> !is_space(#[trigger] word[i])
}

/// Every word of a line holds at least one character, and no white space.
pub proof fn lemma_words_hold_no_space(line: Seq<char>)
    ensures
        forall|k: int| 0 <= k < words(line).len() ==> is_run(#[trigger] words(line)[k]),
    decreases line.len(),
{
    if line.len() == 0 {
        assert(words(line).len() == 0);
    } else if is_space(line[0]) {
        lemma_words_hold_no_space(line.skip(1));
        assert(words(line) == words(line.skip(1)));
    } else {
        let n = word_len(line) as int;
        lemma_word_len_bounds(line);
        lemma_words_hold_no_space(line.skip(n));
        assert(words(line) == seq![line.take(n)] + words(line.skip(n)));
        assert forall|k: int| 0 <= k < words(line).len() implies is_run(
            #[trigger] words(line)[k],
        ) by {
            if k == 0 {
                assert(words(line)[0] == line.take(n));
                assert forall|i: int| 0 <= i < n implies !is_space(#[trigger] line.take(n)[i]) by {
                    lemma_word_holds_no_space(line, i);
                }
            } else {
                assert(words(line)[k] == words(line.skip(n))[k - 1]);
            }
        }
    }
}

/// Splits `line` at white space into its words.
pub fn split_words(line: &str) -> (tokens: Vec<String>)
    ensures
        tokens.deep_view() == words(line@),
{
    let n = line.unicode_len();
    let mut tokens: Vec<String> = Vec::new();
    let mut i: usize = 0;
    assert(line@.skip(0) =~= line@);
    assert(tokens.deep_view() =~= Seq::<Seq<char>>::empty());
    while i < n
        invariant
            i <= n,
            n == line@.len(),
            tokens.deep_view() + words(line@.skip(i as int)) == words(line@),
        decreases n - i,
    {
        let ghost rest = line@.skip(i as int);
        if is_space_char(line.get_char(i)) {
            assert(rest.skip(1) =~= line@.skip(i + 1));
            i = i + 1;
        } else {
            let start: usize = i;
            let mut j: usize = i + 1;
            assert(rest.skip(1) =~= line@.skip(j as int));
            while j < n && !is_space_char(line.get_char(j))
                invariant
                    start < j <= n,
                    n == line@.len(),
                    word_len(line@.skip(start as int)) == (j - start) + word_len(
                        line@.skip(j as int),
                    ),
                decreases n - j,
            {
                assert(line@.skip(j as int).skip(1) =~= line@.skip(j + 1));
                j = j + 1;
            }
            let token = String::from_str(line.substring_char(start, j));
            let ghost before = tokens.deep_view();
            tokens.push(token);
            proof {
                assert(word_len(rest) == j - start);
                assert(rest.take(j - start) =~= token@);
                assert(rest.skip(j - start) =~= line@.skip(j as int));
                assert(tokens.deep_view() =~= before.push(token@));
                assert(before.push(token@) + words(line@.skip(j as int)) =~= before + (seq![
                    token@,
                ] + words(line@.skip(j as int))));
            }
            i = j;
        }
    }
    assert(tokens.deep_view() + words(line@.skip(i as int)) =~= tokens.deep_view());
    tokens
}

/// Whether `c` is a decimal digit.
pub open spec fn is_digit(c: char) -> bool {
    0x30 <= c as u32 <= 0x39
}

/// The value of the decimal digit `c`.
pub open spec fn digit_value(c: char) -> nat {
    if is_digit(c) {
        (c as u32 - 0x30) as nat
    } else {
        0
    }
}

/// Whether `s` holds decimal digits only.
pub open spec fn all_digits(s: Seq<char>) -> bool {
    forall|i: int| 0 <= i < s.len() ==> is_digit(#[trigger] s[i])
}

/// The number that the digits of `s` write in decimal.
pub open spec fn digits_value(s: Seq<char>) -> nat
    decreases s.len(),
{
    if s.len() == 0 {
        0
    } else {
        10 * digits_value(s.drop_last()) + digit_value(s.last())
    }
}

/// The number that the word `s` writes: decimal digits, at least one, after
/// an optional plus sign, with a value that a `usize` holds.
pub open spec fn number(s: Seq<char>) -> Option<usize> {
    let digits = if s.len() > 0 && s[0] == '+' {
        s.skip(1)
    } else {
        s
    };
    if digits.len() > 0 && all_digits(digits) && digits_value(digits) <= usize::MAX {
        Some(digits_value(digits) as usize)
    } else {
        None
    }
}

/// Reading more digits never gives a smaller number.
pub proof fn lemma_digits_value_grows(s: Seq<char>, k: int)
    requires
        0 <= k <= s.len(),
    ensures
        digits_value(s.take(k)) <= digits_value(s),
    decreases s.len() - k,
{
    if k < s.len() {
        assert(s.take(k + 1).drop_last() =~= s.take(k));
        lemma_digits_value_grows(s, k + 1);
    } else {
        assert(s.take(k) =~= s);
    }
}

/// Reads the number that `word` writes.
pub fn parse_number(word: &str) -> (r: Option<usize>)
    ensures
        r == number(word@),
{
    let n = word.unicode_len();
    if n == 0 {
        return None;
    }
    let first: usize = if word.get_char(0) == '+' {
        1
    } else {
        0
    };
    if first == n {
        return None;
    }
    let ghost digits = word@.skip(first as int);
    assert(word@.skip(0) =~= word@);
    let mut value: usize = 0;
    let mut i: usize = first;
    assert(digits.take(0) =~= Seq::<char>::empty());
    while i < n
        invariant
            first <= i <= n,
            n == word@.len(),
            digits == word@.skip(first as int),
            digits == if word@[0] == '+' {
                word@.skip(1)
            } else {
                word@
            },
            all_digits(digits.take(i - first)),
            value == digits_value(digits.take(i - first)),
        decreases n - i,
    {
        let c = word.get_char(i);
        let code: u32 = c as u32;
        let ghost seen = digits.take(i - first);
        let ghost next = digits.take(i - first + 1);
        assert(next.drop_last() =~= seen);
        assert(next.last() == c);
        if code < 0x30 || code > 0x39 {
            assert(!is_digit(digits[i - first]));
            return None;
        }
        let d: usize = (code - 0x30) as usize;
        assert(digits_value(next) == 10 * value + d);
        let grown = match value.checked_mul(10) {
            Some(tens) => tens.checked_add(d),
            None => None,
        };
        match grown {
            Some(v) => {
                value = v;
            },
            None => {
                proof {
                    lemma_digits_value_grows(digits, i - first + 1);
                }
                return None;
            },
        }
        assert forall|k: int| 0 <= k < next.len() implies is_digit(#[trigger] next[k]) by {
            if k < seen.len() {
                assert(next[k] == seen[k]);
            }
        }
        i = i + 1;
    }
    assert(digits.take(i - first) =~= digits);
    Some(value)
}

} // verus!
