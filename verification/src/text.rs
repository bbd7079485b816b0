//! Building the texts that the task list shows: decimal numbers, words
//! joined by spaces, underlined cells.

use owo_colors::OwoColorize;
use vstd::prelude::*;

verus! {

/// The character of the decimal digit `d`.
pub open spec fn digit_char(d: int) -> char {
    if d == 0 {
        '0'
    } else if d == 1 {
        '1'
    } else if d == 2 {
        '2'
    } else if d == 3 {
        '3'
    } else if d == 4 {
        '4'
    } else if d == 5 {
        '5'
    } else if d == 6 {
        '6'
    } else if d == 7 {
        '7'
    } else if d == 8 {
        '8'
    } else {
        '9'
    }
}

/// The decimal numeral of `n`, without sign or leading zeros.
pub open spec fn decimal(n: nat) -> Seq<char>
    decreases n,
{
    if n < 10 {
        seq![digit_char(n as int)]
    } else {
        decimal(n / 10).push(digit_char((n % 10) as int))
    }
}

fn digit_text(d: usize) -> (r: &'static str)
    requires
        d < 10,
    ensures
        r@ == seq![digit_char(d as int)],
{
    proof {
        reveal_strlit("0");
        reveal_strlit("1");
        reveal_strlit("2");
        reveal_strlit("3");
        reveal_strlit("4");
        reveal_strlit("5");
        reveal_strlit("6");
        reveal_strlit("7");
        reveal_strlit("8");
        reveal_strlit("9");
    }
    let r: &'static str = if d == 0 {
        "0"
    } else if d == 1 {
        "1"
    } else if d == 2 {
        "2"
    } else if d == 3 {
        "3"
    } else if d == 4 {
        "4"
    } else if d == 5 {
        "5"
    } else if d == 6 {
        "6"
    } else if d == 7 {
        "7"
    } else if d == 8 {
        "8"
    } else {
        "9"
    };
    assert(r@ =~= seq![digit_char(d as int)]);
    r
}

/// Writes `n` in decimal.
pub fn decimal_text(n: usize) -> (r: String)
    ensures
        r@ == decimal(n as nat),
    decreases n,
{
    if n < 10 {
        String::from_str(digit_text(n))
    } else {
        let mut s = decimal_text(n / 10);
        s.append(digit_text(n % 10));
        assert(s@ =~= decimal((n / 10) as nat).push(digit_char((n % 10) as int)));
        s
    }
}

/// The words of `words`, in order, with one space between neighbours.
pub open spec fn joined(words: Seq<Seq<char>>) -> Seq<char>
    decreases words.len(),
{
    if words.len() == 0 {
        Seq::empty()
    } else if words.len() == 1 {
        words[0]
    } else {
        joined(words.drop_last()) + seq![' '] + words.last()
    }
}

/// Joins `words` with single spaces.
pub fn join_words(words: &Vec<String>) -> (r: String)
    ensures
        r@ == joined(words.deep_view()),
{
    let mut s = String::new();
    let mut i: usize = 0;
    while i < words.len()
        invariant
            i <= words.len(),
            s@ == joined(words.deep_view().take(i as int)),
        decreases words.len() - i,
    {
        let ghost all = words.deep_view();
        proof {
            reveal_strlit(" ");
            assert(all.take(i + 1).drop_last() =~= all.take(i as int));
            assert(all.take(i + 1).last() == words[i as int]@);
        }
        if i > 0 {
            s.append(" ");
        }
        s.append(words[i].as_str());
        proof {
            if i == 0 {
                assert(s@ =~= words[0]@);
            } else {
                assert(s@ =~= joined(all.take(i as int)) + seq![' '] + words[i as int]@);
            }
        }
        i = i + 1;
    }
    assert(words.deep_view().take(i as int) =~= words.deep_view());
    s
}

/// The escape sequence that switches underlining on.
pub open spec fn underline_on() -> Seq<char> {
    seq!['\u{1b}', '[', '4', 'm']
}

/// The escape sequence that switches every style off.
pub open spec fn style_off() -> Seq<char> {
    seq!['\u{1b}', '[', '0', 'm']
}

/// `text` as a terminal shows it underlined.
pub open spec fn underlined(text: Seq<char>) -> Seq<char> {
    underline_on() + text + style_off()
}

/// Calls `OwoColorize::underline` of owo-colors and writes out what it
/// displays: the escape sequence `ESC [ 4 m`, then `text`, then `ESC [ 0 m`.
#[verifier::external_body]
pub(crate) fn underline(text: &str) -> (r: String)
    ensures
        r@ == underlined(text@),
{
    format!("{}", text.underline())
}

} // verus!
