//! The score as the replay scene shows it: in decimal, zero-padded to seven
//! digits (as `format!("{:07}", score)` writes it).

use vstd::prelude::*;

verus! {

/// The character of the decimal digit `d` (`d < 10`).
pub open spec fn digit_char(d: nat) -> char {
    (('0' as int) + d) as char
}

/// The decimal digits of `n`, most significant first, without leading zeros
/// (`0` is written `0`).
pub open spec fn decimal_digits(n: nat) -> Seq<char>
    decreases n,
{
    if n < 10 {
        seq![digit_char(n)]
    } else {
        decimal_digits(n / 10).push(digit_char(n % 10))
    }
}

/// `s` with zeros in front, up to `width` characters; longer text is kept whole.
pub open spec fn zero_padded(s: Seq<char>, width: nat) -> Seq<char> {
    if s.len() >= width {
        s
    } else {
        Seq::new((width - s.len()) as nat, |i: int| '0') + s
    }
}

/// The text of one decimal digit.
fn digit_text(d: u32) -> (r: &'static str)
    requires
        d < 10,
    ensures
        r@ == seq![digit_char(d as nat)],
{
    match d {
        0 => {
            proof {
                reveal_strlit("0");
            }
            "0"
        },
        1 => {
            proof {
                reveal_strlit("1");
            }
            "1"
        },
        2 => {
            proof {
                reveal_strlit("2");
            }
            "2"
        },
        3 => {
            proof {
                reveal_strlit("3");
            }
            "3"
        },
        4 => {
            proof {
                reveal_strlit("4");
            }
            "4"
        },
        5 => {
            proof {
                reveal_strlit("5");
            }
            "5"
        },
        6 => {
            proof {
                reveal_strlit("6");
            }
            "6"
        },
        7 => {
            proof {
                reveal_strlit("7");
            }
            "7"
        },
        8 => {
            proof {
                reveal_strlit("8");
            }
            "8"
        },
        _ => {
            proof {
                reveal_strlit("9");
            }
            "9"
        },
    }
}

/// Appends the decimal digits of `n`.
fn append_decimal(out: &mut String, n: u32)
    ensures
        final(out)@ == old(out)@ + decimal_digits(n as nat),
    decreases n,
{
    if n >= 10 {
        append_decimal(out, n / 10);
    }
    out.append(digit_text(n % 10));
    proof {
        if n >= 10 {
            assert(old(out)@ + decimal_digits(n as nat) =~= old(out)@ + decimal_digits((n / 10) as nat)
                + seq![digit_char((n % 10) as nat)]);
        } else {
            assert(old(out)@ + decimal_digits(n as nat) =~= old(out)@ + seq![digit_char((n % 10) as nat)]);
        }
    }
}

/// The number of decimal digits of `n`.
fn decimal_len(n: u32) -> (r: usize)
    ensures
        r == decimal_digits(n as nat).len(),
        1 <= r <= 1 + n / 10,
    decreases n,
{
    if n >= 10 {
        decimal_len(n / 10) + 1
    } else {
        1
    }
}

/// The score text of the replay scene: the score in decimal, with zeros in
/// front up to seven digits.
pub fn score_text(score: u32) -> (r: String)
    ensures
        r@ == zero_padded(decimal_digits(score as nat), 7),
{
    let len = decimal_len(score);
    let mut text = String::new();
    let mut i: usize = len;
    while i < 7
        invariant
            len <= i <= 7 || (len > 7 && i == len),
            text@ == Seq::new((i - len) as nat, |j: int| '0'),
        decreases 7 - i,
    {
        proof {
            reveal_strlit("0");
        }
        text.append("0");
        i = i + 1;
        assert(text@ =~= Seq::new((i - len) as nat, |j: int| '0'));
    }
    append_decimal(&mut text, score);
    proof {
        if len >= 7 {
            assert(text@ =~= decimal_digits(score as nat));
        } else {
            assert(text@ =~= zero_padded(decimal_digits(score as nat), 7));
        }
    }
    text
}

} // verus!
