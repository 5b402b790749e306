//! Integers wide enough to hold any value of any supported primitive.

use vstd::prelude::*;

verus! {

/// The character of a decimal digit.
pub open spec fn digit_char(d: nat) -> char {
    if d == 0 {
        '0'
    } else if d == 1 {
        '1'
    } else if d == 2 {
        '2'
    } else if d == 3 {
        '3'
    } else if d == 4 {
        '4'
    } else if d == 5 {
        '5'
    } else if d == 6 {
        '6'
    } else if d == 7 {
        '7'
    } else if d == 8 {
        '8'
    } else {
        '9'
    }
}

/// The decimal digits of `n`, most significant first, without leading zeros.
pub open spec fn decimal_of(n: nat) -> Seq<char>
    decreases n,
{
    if n < 10 {
        seq![digit_char(n)]
    } else {
        decimal_of(n / 10) + seq![digit_char(n % 10)]
    }
}

fn digit_str(d: u128) -> (r: &'static str)
    requires
        d < 10,
    ensures
        r@ == seq![digit_char(d as nat)],
{
    proof {
        reveal_strlit("0");
        reveal_strlit("1");
        reveal_strlit("2");
        reveal_strlit("3");
        reveal_strlit("4");
        reveal_strlit("5");
        reveal_strlit("6");
        reveal_strlit("7");
        reveal_strlit("8");
        reveal_strlit("9");
    }
    match d {
        0 => "0",
        1 => "1",
        2 => "2",
        3 => "3",
        4 => "4",
        5 => "5",
        6 => "6",
        7 => "7",
        8 => "8",
        _ => "9",
    }
}

/// Renders `n` in decimal.
pub fn decimal(n: u128) -> (r: String)
    ensures
        r@ == decimal_of(n as nat),
    decreases n,
{
    if n < 10 {
        String::from_str(digit_str(n))
    } else {
        let head = decimal(n / 10);
        head.concat(digit_str(n % 10))
    }
}

/// An integer in `[-u128::MAX, u128::MAX]`, held as a sign and a magnitude.
///
/// This is wide enough for every bound of every supported primitive and for
/// the values just outside those bounds, save one above `u128::MAX`.
#[derive(Clone, Copy, Debug, PartialEq, Eq, Structural)]
pub struct Int {
    pub neg: bool,
    pub mag: u128,
}

impl View for Int {
    type V = int;

    open spec fn view(&self) -> int {
        if self.neg {
            -(self.mag as int)
        } else {
            self.mag as int
        }
    }
}

impl Int {
    /// Zero has no sign: a negative value has a non-zero magnitude.
    pub open spec fn wf(self) -> bool {
        self.neg ==> self.mag > 0
    }

    pub fn from_u128(n: u128) -> (r: Int)
        ensures
            r.wf(),
            r@ == n as int,
    {
        Int { neg: false, mag: n }
    }

    pub fn from_i128(n: i128) -> (r: Int)
        ensures
            r.wf(),
            r@ == n as int,
    {
        if n < 0 {
            let m: u128 = if n == i128::MIN {
                0x8000_0000_0000_0000_0000_0000_0000_0000u128
            } else {
                (-n) as u128
            };
            Int { neg: true, mag: m }
        } else {
            Int { neg: false, mag: n as u128 }
        }
    }

    /// Builds `-mag` when `neg` holds, else `mag`.
    pub fn from_parts(neg: bool, mag: u128) -> (r: Int)
        ensures
            r.wf(),
            r@ == (if neg { -(mag as int) } else { mag as int }),
    {
        Int { neg: neg && mag > 0, mag }
    }

    pub fn is_negative(&self) -> (r: bool)
        requires
            self.wf(),
        ensures
            r == (self@ < 0),
    {
        self.neg
    }

    pub fn is_zero(&self) -> (r: bool)
        requires
            self.wf(),
        ensures
            r == (self@ == 0),
    {
        self.mag == 0
    }

    /// The absolute value.
    pub fn magnitude(&self) -> (r: u128)
        requires
            self.wf(),
        ensures
            r as int == (if self@ < 0 { -self@ } else { self@ }),
    {
        self.mag
    }

    /// Whether `self <= other`.
    pub fn le(&self, other: &Int) -> (r: bool)
        requires
            self.wf(),
            other.wf(),
        ensures
            r == (self@ <= other@),
    {
        if self.neg {
            if other.neg {
                other.mag <= self.mag
            } else {
                true
            }
        } else {
            if other.neg {
                false
            } else {
                self.mag <= other.mag
            }
        }
    }

    /// Whether `self == other`, by value.
    pub fn same(&self, other: &Int) -> (r: bool)
        requires
            self.wf(),
            other.wf(),
        ensures
            r == (self@ == other@),
    {
        self.neg == other.neg && self.mag == other.mag
    }

    /// `self + 1`, or `None` where that leaves the representable range.
    pub fn checked_succ(&self) -> (r: Option<Int>)
        requires
            self.wf(),
        ensures
            r.is_some() <==> self@ < u128::MAX,
            r matches Some(s) ==> s.wf() && s@ == self@ + 1,
    {
        if self.neg {
            Some(Int { neg: self.mag > 1, mag: self.mag - 1 })
        } else if self.mag == u128::MAX {
            None
        } else {
            Some(Int { neg: false, mag: self.mag + 1 })
        }
    }

    /// `self - 1`, or `None` where that leaves the representable range.
    pub fn checked_pred(&self) -> (r: Option<Int>)
        requires
            self.wf(),
        ensures
            r.is_some() <==> self@ > -(u128::MAX as int),
            r matches Some(s) ==> s.wf() && s@ == self@ - 1,
    {
        if !self.neg {
            if self.mag == 0 {
                Some(Int { neg: true, mag: 1 })
            } else {
                Some(Int { neg: false, mag: self.mag - 1 })
            }
        } else if self.mag == u128::MAX {
            None
        } else {
            Some(Int { neg: true, mag: self.mag + 1 })
        }
    }
}

} // verus!
