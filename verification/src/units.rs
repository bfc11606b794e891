//! Lamports, the ledger's base unit, and SOL, the unit shown to people.
//!
//! One SOL is 10^9 lamports. A [`SolAmount`] holds a display amount exactly,
//! as whole SOL and billionths, so that converting in either direction loses
//! nothing.

use vstd::prelude::*;
use vstd::string::StringExecFns;

verus! {

/// The number of lamports in one SOL.
pub const LAMPORTS_PER_SOL: u64 = 1_000_000_000;

/// An amount in SOL with nine decimal places: `sol` whole SOL and `nanos`
/// billionths of one.
#[derive(Clone, Copy, Debug, PartialEq, Eq, Structural)]
pub struct SolAmount {
    pub sol: u64,
    pub nanos: u32,
}

impl SolAmount {
    /// The fraction is below one SOL, so that every amount has one form.
    pub open spec fn wf(self) -> bool {
        self.nanos < LAMPORTS_PER_SOL
    }

    /// The amount in lamports, as a mathematical integer.
    pub open spec fn lamports(self) -> int {
        self.sol * LAMPORTS_PER_SOL + self.nanos
    }

    /// The display form of a number of lamports.
    pub open spec fn of(lamports: u64) -> SolAmount {
        SolAmount {
            sol: lamports / LAMPORTS_PER_SOL,
            nanos: (lamports % LAMPORTS_PER_SOL) as u32,
        }
    }

    /// An amount of `sol` whole SOL and `nanos` billionths, or `None` where
    /// `nanos` is a whole SOL or more.
    pub fn new(sol: u64, nanos: u32) -> (r: Option<SolAmount>)
        ensures
            r == (if nanos < LAMPORTS_PER_SOL {
                Some(SolAmount { sol, nanos })
            } else {
                None
            }),
    {
        if (nanos as u64) < LAMPORTS_PER_SOL {
            Some(SolAmount { sol, nanos })
        } else {
            None
        }
    }

    /// Converts lamports to SOL.
    pub fn from_lamports(lamports: u64) -> (r: SolAmount)
        ensures
            r == Self::of(lamports),
            r.wf(),
            r.lamports() == lamports,
    {
        SolAmount {
            sol: lamports / LAMPORTS_PER_SOL,
            nanos: (lamports % LAMPORTS_PER_SOL) as u32,
        }
    }

    /// Converts SOL to lamports; `None` where the amount is more than a
    /// `u64` of lamports can hold.
    pub fn to_lamports(self) -> (r: Option<u64>)
        ensures
            r == (if self.lamports() <= u64::MAX {
                Some(self.lamports() as u64)
            } else {
                None
            }),
    {
        match self.sol.checked_mul(LAMPORTS_PER_SOL) {
            Some(whole) => whole.checked_add(self.nanos as u64),
            None => None,
        }
    }
}

/// Lamports converted to SOL and back are the lamports one started with.
pub proof fn lemma_lamports_round_trip(lamports: u64)
    ensures
        SolAmount::of(lamports).wf(),
        SolAmount::of(lamports).lamports() == lamports,
{
}

/// A well-formed SOL amount that fits in a `u64` of lamports, converted to
/// lamports and back, is the amount one started with.
pub proof fn lemma_sol_round_trip(amount: SolAmount)
    requires
        amount.wf(),
        amount.lamports() <= u64::MAX,
    ensures
        SolAmount::of(amount.lamports() as u64) == amount,
{
    let l: int = amount.lamports();
    assert(l / (LAMPORTS_PER_SOL as int) == amount.sol && l % (LAMPORTS_PER_SOL as int)
        == amount.nanos) by (nonlinear_arith)
        requires
            l == amount.sol * LAMPORTS_PER_SOL + amount.nanos,
            0 <= amount.nanos < LAMPORTS_PER_SOL,
            LAMPORTS_PER_SOL == 1_000_000_000,
    ;
}

/// The character of a decimal digit.
pub open spec fn digit_char(digit: nat) -> char {
    if digit == 0 {
        '0'
    } else if digit == 1 {
        '1'
    } else if digit == 2 {
        '2'
    } else if digit == 3 {
        '3'
    } else if digit == 4 {
        '4'
    } else if digit == 5 {
        '5'
    } else if digit == 6 {
        '6'
    } else if digit == 7 {
        '7'
    } else if digit == 8 {
        '8'
    } else {
        '9'
    }
}

/// A number in decimal, without leading zeros.
pub open spec fn decimal(n: nat) -> Seq<char>
    decreases n,
{
    if n < 10 {
        seq![digit_char(n)]
    } else {
        decimal(n / 10).push(digit_char(n % 10))
    }
}

/// The last `width` decimal digits of a number, with zeros in front where
/// the number has fewer.
pub open spec fn padded(n: nat, width: nat) -> Seq<char>
    decreases width,
{
    if width == 0 {
        seq![]
    } else {
        padded(n / 10, (width - 1) as nat).push(digit_char(n % 10))
    }
}

/// The last `width` decimal digits of a number, with zeros in front where
/// the number has fewer, and without the zeros at the end.
pub open spec fn trimmed(n: nat, width: nat) -> Seq<char>
    decreases width,
{
    if width == 0 {
        seq![]
    } else if n % 10 == 0 {
        trimmed(n / 10, (width - 1) as nat)
    } else {
        padded(n, width)
    }
}

/// The text of one decimal digit.
fn digit_text(digit: u64) -> (text: &'static str)
    requires
        digit < 10,
    ensures
        text@ == seq![digit_char(digit as nat)],
{
    proof {
        reveal_strlit("0");
        reveal_strlit("1");
        reveal_strlit("2");
        reveal_strlit("3");
        reveal_strlit("4");
        reveal_strlit("5");
        reveal_strlit("6");
        reveal_strlit("7");
        reveal_strlit("8");
        reveal_strlit("9");
    }
    let text: &'static str = if digit == 0 {
        "0"
    } else if digit == 1 {
        "1"
    } else if digit == 2 {
        "2"
    } else if digit == 3 {
        "3"
    } else if digit == 4 {
        "4"
    } else if digit == 5 {
        "5"
    } else if digit == 6 {
        "6"
    } else if digit == 7 {
        "7"
    } else if digit == 8 {
        "8"
    } else {
        "9"
    };
    text
}

/// Writes a number in decimal at the end of a text.
fn push_decimal(text: &mut String, n: u64)
    ensures
        final(text)@ == old(text)@ + decimal(n as nat),
    decreases n,
{
    if n >= 10 {
        push_decimal(text, n / 10);
    }
    text.append(digit_text(n % 10));
}

/// Writes the last `width` digits of a number at the end of a text.
fn push_padded(text: &mut String, n: u64, width: u64)
    ensures
        final(text)@ == old(text)@ + padded(n as nat, width as nat),
    decreases width,
{
    if width > 0 {
        push_padded(text, n / 10, width - 1);
        text.append(digit_text(n % 10));
    }
}

/// Writes the last `width` digits of a number, without the zeros at their
/// end, at the end of a text.
fn push_trimmed(text: &mut String, n: u64, width: u64)
    ensures
        final(text)@ == old(text)@ + trimmed(n as nat, width as nat),
    decreases width,
{
    if width > 0 {
        if n % 10 == 0 {
            push_trimmed(text, n / 10, width - 1);
        } else {
            push_padded(text, n, width);
        }
    }
}

impl SolAmount {
    /// The amount as it is shown: the whole SOL in decimal, then, where
    /// there is a fraction, a point and the billionths in nine digits
    /// without the zeros at their end.
    pub open spec fn text(self) -> Seq<char> {
        if self.nanos == 0 {
            decimal(self.sol as nat)
        } else {
            decimal(self.sol as nat) + seq!['.'] + trimmed(self.nanos as nat, 9)
        }
    }

    /// Writes the amount as it is shown.
    pub fn to_text(&self) -> (text: String)
        ensures
            text@ == self.text(),
    {
        let mut text = String::new();
        push_decimal(&mut text, self.sol);
        if self.nanos != 0 {
            proof {
                reveal_strlit(".");
            }
            text.append(".");
            push_trimmed(&mut text, self.nanos as u64, 9);
        }
        text
    }
}

} // verus!
