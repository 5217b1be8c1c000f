//! Rendering the timer state as text: the `HH:MM:SS (raw)` countdown line
//! and the auto-mode line.

use vstd::prelude::*;

use crate::timer::TimerState;

verus! {

/// The character for one decimal digit.
pub open spec fn digit_char(d: nat) -> char {
    if d == 0 {
        '0'
    } else if d == 1 {
        '1'
    } else if d == 2 {
        '2'
    } else if d == 3 {
        '3'
    } else if d == 4 {
        '4'
    } else if d == 5 {
        '5'
    } else if d == 6 {
        '6'
    } else if d == 7 {
        '7'
    } else if d == 8 {
        '8'
    } else {
        '9'
    }
}

/// The decimal digits of `n`, most significant first, with no leading zero
/// except for `n == 0` itself.
pub open spec fn dec_digits(n: nat) -> Seq<char>
    decreases n,
{
    if n < 10 {
        seq![digit_char(n)]
    } else {
        dec_digits(n / 10).push(digit_char(n % 10))
    }
}

/// The decimal digits of `n`, zero-padded on the left to at least two
/// characters.
pub open spec fn pad2(n: nat) -> Seq<char> {
    if n < 10 {
        seq!['0', digit_char(n)]
    } else {
        dec_digits(n)
    }
}

/// The countdown line for `remaining` seconds: hours, minutes and seconds,
/// each at least two digits, then the raw seconds count in parentheses.
pub open spec fn display_seq(remaining: nat) -> Seq<char> {
    pad2(remaining / 3600) + seq![':'] + pad2(remaining % 3600 / 60) + seq![':'] + pad2(
        remaining % 3600 % 60,
    ) + seq![' ', '('] + dec_digits(remaining) + seq![')']
}

/// The auto-mode line for the given flag.
pub open spec fn auto_mode_seq(auto: bool) -> Seq<char> {
    if auto {
        "Auto mode: true"@
    } else {
        "Auto mode: false"@
    }
}

/// The one-character string for a decimal digit.
fn digit_str(d: u32) -> (s: &'static str)
    requires
        d < 10,
    ensures
        s@ == seq![digit_char(d as nat)],
{
    if d == 0 {
        proof {
            reveal_strlit("0");
            assert("0"@ =~= seq!['0']);
        }
        "0"
    } else if d == 1 {
        proof {
            reveal_strlit("1");
            assert("1"@ =~= seq!['1']);
        }
        "1"
    } else if d == 2 {
        proof {
            reveal_strlit("2");
            assert("2"@ =~= seq!['2']);
        }
        "2"
    } else if d == 3 {
        proof {
            reveal_strlit("3");
            assert("3"@ =~= seq!['3']);
        }
        "3"
    } else if d == 4 {
        proof {
            reveal_strlit("4");
            assert("4"@ =~= seq!['4']);
        }
        "4"
    } else if d == 5 {
        proof {
            reveal_strlit("5");
            assert("5"@ =~= seq!['5']);
        }
        "5"
    } else if d == 6 {
        proof {
            reveal_strlit("6");
            assert("6"@ =~= seq!['6']);
        }
        "6"
    } else if d == 7 {
        proof {
            reveal_strlit("7");
            assert("7"@ =~= seq!['7']);
        }
        "7"
    } else if d == 8 {
        proof {
            reveal_strlit("8");
            assert("8"@ =~= seq!['8']);
        }
        "8"
    } else {
        proof {
            reveal_strlit("9");
            assert("9"@ =~= seq!['9']);
        }
        "9"
    }
}

/// `n` written out in decimal.
fn u32_to_dec(n: u32) -> (s: String)
    ensures
        s@ == dec_digits(n as nat),
    decreases n,
{
    if n < 10 {
        String::from_str(digit_str(n))
    } else {
        let mut s = u32_to_dec(n / 10);
        s.append(digit_str(n % 10));
        proof {
            assert(s@ =~= dec_digits(n as nat));
        }
        s
    }
}

/// `n` written out in decimal, zero-padded to at least two characters.
fn u32_pad2(n: u32) -> (s: String)
    ensures
        s@ == pad2(n as nat),
{
    if n < 10 {
        let mut s = String::from_str("0");
        s.append(digit_str(n));
        proof {
            reveal_strlit("0");
            assert(s@ =~= pad2(n as nat));
        }
        s
    } else {
        u32_to_dec(n)
    }
}

impl TimerState {
    /// The countdown line, `HH:MM:SS (raw_seconds)`: the remaining time
    /// split with integer division and modulo by 3600 and 60, each field
    /// zero-padded to two digits, then the raw seconds count.
    pub fn format_display(&self) -> (s: String)
        ensures
            s@ == display_seq(self.remaining_seconds as nat),
    {
        let r = self.remaining_seconds;
        let hours = r / 3600;
        let minutes = r % 3600 / 60;
        let seconds = r % 3600 % 60;
        let mut s = u32_pad2(hours);
        s.append(":");
        let m = u32_pad2(minutes);
        s.append(m.as_str());
        s.append(":");
        let sec = u32_pad2(seconds);
        s.append(sec.as_str());
        s.append(" (");
        let raw = u32_to_dec(r);
        s.append(raw.as_str());
        s.append(")");
        proof {
            reveal_strlit(":");
            reveal_strlit(" (");
            reveal_strlit(")");
            assert(":"@ =~= seq![':']);
            assert(" ("@ =~= seq![' ', '(']);
            assert(")"@ =~= seq![')']);
            assert(s@ =~= display_seq(self.remaining_seconds as nat));
        }
        s
    }

    /// The auto-mode line, `Auto mode: <true|false>`.
    pub fn format_auto_mode(&self) -> (s: String)
        ensures
            s@ == auto_mode_seq(self.auto_repeat),
    {
        if self.auto_repeat {
            String::from_str("Auto mode: true")
        } else {
            String::from_str("Auto mode: false")
        }
    }
}

} // verus!
