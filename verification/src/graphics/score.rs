//! The score: a counter that accrues on a fixed cadence while the game is
//! active, frozen by the player's death, restarted by a reset.

use vstd::prelude::*;
use vstd::string::StringExecFns;

verus! {

/// The session's score. `active` gates accrual: death sets it to false, a
/// reset back to true. Exactly one instance exists for the session.
#[derive(Clone, Copy, PartialEq, Eq, Structural, Debug)]
pub struct Score {
    pub value: i32,
    pub active: bool,
}

impl Score {
    /// The value never falls below -1: it starts at 0, a reset sets it to
    /// -1 so that the next accrual tick displays 0, and accrual only adds.
    pub open spec fn wf(self) -> bool {
        self.value >= -1
    }
}

/// Creates the session's score, ready to accrue from zero.
pub fn render_score() -> (s: Score)
    ensures
        s == (Score { value: 0, active: true }),
        s.wf(),
{
    Score { value: 0, active: true }
}

/// The character for one decimal digit.
pub open spec fn spec_digit_char(d: nat) -> char {
    if d == 0 {
        '0'
    } else if d == 1 {
        '1'
    } else if d == 2 {
        '2'
    } else if d == 3 {
        '3'
    } else if d == 4 {
        '4'
    } else if d == 5 {
        '5'
    } else if d == 6 {
        '6'
    } else if d == 7 {
        '7'
    } else if d == 8 {
        '8'
    } else {
        '9'
    }
}

/// The decimal digits of a number, most significant first, with no leading
/// zeros (a lone zero for 0).
pub open spec fn spec_decimal_digits(n: nat) -> Seq<char>
    decreases n,
{
    if n < 10 {
        seq![spec_digit_char(n)]
    } else {
        spec_decimal_digits(n / 10).push(spec_digit_char(n % 10))
    }
}

fn digit_str(d: u32) -> (c: &'static str)
    requires
        d < 10,
    ensures
        c@ == seq![spec_digit_char(d as nat)],
{
    if d == 0 {
        proof {
            reveal_strlit("0");
            assert("0"@ =~= seq![spec_digit_char(0)]);
        }
        "0"
    } else if d == 1 {
        proof {
            reveal_strlit("1");
            assert("1"@ =~= seq![spec_digit_char(1)]);
        }
        "1"
    } else if d == 2 {
        proof {
            reveal_strlit("2");
            assert("2"@ =~= seq![spec_digit_char(2)]);
        }
        "2"
    } else if d == 3 {
        proof {
            reveal_strlit("3");
            assert("3"@ =~= seq![spec_digit_char(3)]);
        }
        "3"
    } else if d == 4 {
        proof {
            reveal_strlit("4");
            assert("4"@ =~= seq![spec_digit_char(4)]);
        }
        "4"
    } else if d == 5 {
        proof {
            reveal_strlit("5");
            assert("5"@ =~= seq![spec_digit_char(5)]);
        }
        "5"
    } else if d == 6 {
        proof {
            reveal_strlit("6");
            assert("6"@ =~= seq![spec_digit_char(6)]);
        }
        "6"
    } else if d == 7 {
        proof {
            reveal_strlit("7");
            assert("7"@ =~= seq![spec_digit_char(7)]);
        }
        "7"
    } else if d == 8 {
        proof {
            reveal_strlit("8");
            assert("8"@ =~= seq![spec_digit_char(8)]);
        }
        "8"
    } else {
        proof {
            reveal_strlit("9");
            assert("9"@ =~= seq![spec_digit_char(9)]);
        }
        "9"
    }
}

/// Renders a number as its decimal string.
pub fn decimal_string(n: u32) -> (s: String)
    ensures
        s@ == spec_decimal_digits(n as nat),
    decreases n,
{
    if n < 10 {
        let mut s = String::new();
        s.append(digit_str(n));
        proof {
            assert(s@ =~= spec_decimal_digits(n as nat));
        }
        s
    } else {
        let mut s = decimal_string(n / 10);
        s.append(digit_str(n % 10));
        proof {
            assert(s@ =~= spec_decimal_digits(n as nat));
        }
        s
    }
}

/// Score accumulator, run once per score cadence period. While the game is
/// active it increments the value by one and returns the decimal string of
/// the new value for display; while inactive the tick is skipped entirely
/// and value and display stay frozen.
pub fn score_update_system(score: &mut Score) -> (text: Option<String>)
    requires
        old(score).wf(),
        old(score).active ==> old(score).value < i32::MAX,
    ensures
        old(score).active ==> *final(score) == (Score {
            value: (old(score).value + 1) as i32,
            active: true,
        }),
        !old(score).active ==> *final(score) == *old(score),
        match text {
            Some(t) => old(score).active && t@ == spec_decimal_digits(
                (old(score).value + 1) as nat,
            ),
            None => !old(score).active,
        },
        final(score).wf(),
{
    if score.active {
        score.value = score.value + 1;
        Some(decimal_string(score.value as u32))
    } else {
        None
    }
}

} // verus!
