//! Rendering one line under the numbering policy: the decimal counter,
//! right-justified to width six, a tab, then the line text.

use vstd::prelude::*;
use crate::config::Config;

verus! {

/// The decimal digit d, for d < 10, as a character.
pub open spec fn dec_digit(d: nat) -> char {
    if d == 0 {
        '0'
    } else if d == 1 {
        '1'
    } else if d == 2 {
        '2'
    } else if d == 3 {
        '3'
    } else if d == 4 {
        '4'
    } else if d == 5 {
        '5'
    } else if d == 6 {
        '6'
    } else if d == 7 {
        '7'
    } else if d == 8 {
        '8'
    } else {
        '9'
    }
}

/// The decimal representation of n, most significant digit first, with no
/// leading zeros (n == 0 is the single digit "0").
pub open spec fn dec_rep(n: nat) -> Seq<char>
    decreases n,
{
    if n < 10 {
        seq![dec_digit(n)]
    } else {
        dec_rep(n / 10) + seq![dec_digit(n % 10)]
    }
}

/// n space characters.
pub open spec fn spaces(n: nat) -> Seq<char>
    decreases n,
{
    if n == 0 {
        Seq::empty()
    } else {
        spaces((n - 1) as nat) + seq![' ']
    }
}

/// The counter k right-justified in a field of width six: its decimal
/// representation, padded on the left with spaces when shorter than six
/// characters, untruncated when longer.
pub open spec fn padded_counter(k: nat) -> Seq<char> {
    if dec_rep(k).len() >= 6 {
        dec_rep(k)
    } else {
        spaces((6 - dec_rep(k).len()) as nat) + dec_rep(k)
    }
}

/// What a numbered line looks like: the counter k right-justified to width
/// six, a tab, then the line text.
pub open spec fn numbered_line(k: nat, line: Seq<char>) -> Seq<char> {
    padded_counter(k) + seq!['\t'] + line
}

/// Whether the policy gives this line a number: every line when
/// `number_lines` is set, otherwise only non-empty lines when
/// `number_nonblank_lines` is set. A line of whitespace is non-empty.
pub open spec fn line_gets_number(
    number_lines: bool,
    number_nonblank_lines: bool,
    line: Seq<char>,
) -> bool {
    number_lines || (number_nonblank_lines && line.len() > 0)
}

/// What is printed for one line when the counter stands at k.
pub open spec fn rendered_line(
    number_lines: bool,
    number_nonblank_lines: bool,
    k: nat,
    line: Seq<char>,
) -> Seq<char> {
    if line_gets_number(number_lines, number_nonblank_lines, line) {
        numbered_line(k, line)
    } else {
        line
    }
}

/// The counter after the line: it advances exactly when the line was numbered.
pub open spec fn counter_after(
    number_lines: bool,
    number_nonblank_lines: bool,
    k: nat,
    line: Seq<char>,
) -> nat {
    if line_gets_number(number_lines, number_nonblank_lines, line) {
        k + 1
    } else {
        k
    }
}

/// The digit d, for d < 10, as a one-character string slice.
fn digit_str(d: u64) -> (r: &'static str)
    requires
        d < 10,
    ensures
        r@ == seq![dec_digit(d as nat)],
{
    proof {
        reveal_strlit("0");
        reveal_strlit("1");
        reveal_strlit("2");
        reveal_strlit("3");
        reveal_strlit("4");
        reveal_strlit("5");
        reveal_strlit("6");
        reveal_strlit("7");
        reveal_strlit("8");
        reveal_strlit("9");
    }
    let r = match d {
        0 => "0",
        1 => "1",
        2 => "2",
        3 => "3",
        4 => "4",
        5 => "5",
        6 => "6",
        7 => "7",
        8 => "8",
        _ => "9",
    };
    proof {
        assert(r@ =~= seq![dec_digit(d as nat)]);
    }
    r
}

/// Appends the decimal representation of n, most significant digit first.
fn push_digits(s: &mut String, n: u64)
    ensures
        final(s)@ == old(s)@ + dec_rep(n as nat),
    decreases n,
{
    if n < 10 {
        s.append(digit_str(n));
    } else {
        push_digits(s, n / 10);
        s.append(digit_str(n % 10));
        proof {
            assert(s@ =~= old(s)@ + dec_rep(n as nat));
        }
    }
}

/// The counter n right-justified in a field of width six.
pub fn format_counter(n: u64) -> (s: String)
    ensures
        s@ == padded_counter(n as nat),
{
    let mut digits = String::new();
    push_digits(&mut digits, n);
    let nd = digits.as_str().unicode_len();
    let pad: usize = if nd < 6 {
        6 - nd
    } else {
        0
    };
    let mut s = String::new();
    let mut i: usize = 0;
    while i < pad
        invariant
            i <= pad,
            s@ == spaces(i as nat),
        decreases pad - i,
    {
        proof {
            reveal_strlit(" ");
            assert(" "@ =~= seq![' ']);
        }
        s.append(" ");
        i = i + 1;
    }
    s.append(digits.as_str());
    proof {
        assert(s@ =~= padded_counter(n as nat));
    }
    s
}

/// One step of the per-source loop: the line as it is to be printed when the
/// counter stands at `counter`, together with the counter for the next line.
pub fn render_line(config: &Config, counter: u64, line: &str) -> (r: (String, u64))
    requires
        counter < u64::MAX,
    ensures
        r.0@ == rendered_line(
            config.number_lines,
            config.number_nonblank_lines,
            counter as nat,
            line@,
        ),
        r.1 == counter_after(
            config.number_lines,
            config.number_nonblank_lines,
            counter as nat,
            line@,
        ),
{
    if config.number_lines || (config.number_nonblank_lines && !line.is_empty()) {
        let mut s = format_counter(counter);
        proof {
            reveal_strlit("\t");
            assert("\t"@ =~= seq!['\t']);
        }
        s.append("\t");
        s.append(line);
        proof {
            assert(s@ =~= numbered_line(counter as nat, line@));
        }
        (s, counter + 1)
    } else {
        (String::from_str(line), counter)
    }
}

} // verus!
