use vstd::prelude::*;

use crate::things::Thing;

verus! {

/// The character for one decimal digit.
pub open spec fn dec_digit_char(d: nat) -> char {
    if d == 0 {
        '0'
    } else if d == 1 {
        '1'
    } else if d == 2 {
        '2'
    } else if d == 3 {
        '3'
    } else if d == 4 {
        '4'
    } else if d == 5 {
        '5'
    } else if d == 6 {
        '6'
    } else if d == 7 {
        '7'
    } else if d == 8 {
        '8'
    } else {
        '9'
    }
}

/// The decimal representation of `n`, most significant digit first, with no
/// leading zeros (and `0` itself written as one digit).
pub open spec fn dec_digits(n: nat) -> Seq<char>
    decreases n,
{
    if n < 10 {
        seq![dec_digit_char(n)]
    } else {
        dec_digits(n / 10) + seq![dec_digit_char(n % 10)]
    }
}

/// The text of one rendered list item:
/// `:{source_port} --> {target_ip_address}:{target_port}`.
pub open spec fn rule_line(t: Thing) -> Seq<char> {
    ":"@ + dec_digits(t.source_port as nat) + " --> "@ + t.target_ip_address@ + ":"@
        + dec_digits(t.target_port as nat)
}

/// Appends the character for one decimal digit.
fn push_digit(s: &mut String, d: u16)
    requires
        d < 10,
    ensures
        final(s)@ == old(s)@ + seq![dec_digit_char(d as nat)],
{
    let t: &str = match d {
        0 => "0",
        1 => "1",
        2 => "2",
        3 => "3",
        4 => "4",
        5 => "5",
        6 => "6",
        7 => "7",
        8 => "8",
        _ => "9",
    };
    proof {
        reveal_strlit("0");
        reveal_strlit("1");
        reveal_strlit("2");
        reveal_strlit("3");
        reveal_strlit("4");
        reveal_strlit("5");
        reveal_strlit("6");
        reveal_strlit("7");
        reveal_strlit("8");
        reveal_strlit("9");
        assert(t@ =~= seq![dec_digit_char(d as nat)]);
    }
    s.append(t);
}

/// Appends the decimal representation of `n`.
fn push_dec(s: &mut String, n: u16)
    ensures
        final(s)@ == old(s)@ + dec_digits(n as nat),
    decreases n,
{
    if n >= 10 {
        push_dec(s, n / 10);
        push_digit(s, n % 10);
        proof {
            assert(s@ =~= old(s)@ + dec_digits(n as nat));
        }
    } else {
        push_digit(s, n);
    }
}

/// Formats one rule as its list-item text.
pub fn render_rule(t: &Thing) -> (line: String)
    ensures
        line@ == rule_line(*t),
{
    let mut line = String::from_str(":");
    push_dec(&mut line, t.source_port);
    line.append(" --> ");
    line.append(t.target_ip_address.as_str());
    line.append(":");
    push_dec(&mut line, t.target_port);
    proof {
        assert(line@ =~= rule_line(*t));
    }
    line
}

/// Every rule line is nonempty and opens with the colon that precedes the
/// source port, so no list rendering can be mistaken for one of the fixed
/// messages.
pub proof fn lemma_rule_line_starts_with_colon(t: Thing)
    ensures
        rule_line(t).len() >= 1,
        rule_line(t)[0] == ':',
{
    reveal_strlit(":");
}

} // verus!
