//! Nibbles: bounded integers of four bits, each value a named variant.

use vstd::arithmetic::power::pow;
use vstd::math::abs;
use crate::model::{bounded_in_range, bounded_saturating, clamp, lemma_saturating_idempotent};
use vstd::prelude::*;

verus! {

/// The quotient of `a / b` rounded toward zero.
pub open spec fn trunc_div(a: int, b: int) -> int {
    let q = (abs(a) / abs(b)) as int;
    if (a < 0) != (b < 0) {
        -q
    } else {
        q
    }
}

/// The remainder of `a / b` rounded toward zero: it takes the sign of `a`.
pub open spec fn trunc_rem(a: int, b: int) -> int {
    let r = (abs(a) % abs(b)) as int;
    if a < 0 {
        -r
    } else {
        r
    }
}

/// A nibble times a byte stays well within 16 bits.
proof fn lemma_nibble_product(a: int, b: int)
    requires
        -8 <= a <= 15,
        -128 <= b <= 255,
    ensures
        -2048 <= a * b <= 4096,
{
    assert(-2048 <= a * b <= 4096) by (nonlinear_arith)
        requires
            -8 <= a <= 15,
            -128 <= b <= 255,
    ;
}

/// Powers of a base of magnitude at least two outgrow the exponent, with the
/// sign of the base for odd exponents and positive for even ones.
proof fn lemma_pow_grows(b: int, e: nat)
    requires
        b >= 2 || b <= -2,
    ensures
        if b < 0 && e % 2 == 1 {
            pow(b, e) <= -(e + 1)
        } else {
            pow(b, e) >= e + 1
        },
    decreases e,
{
    reveal(pow);
    if e > 0 {
        let e1 = (e - 1) as nat;
        lemma_pow_grows(b, e1);
        let p = pow(b, e1);
        assert(pow(b, e) == b * p);
        if b < 0 && e % 2 == 1 {
            assert(b * p <= -(e + 1)) by (nonlinear_arith)
                requires
                    b <= -2,
                    p >= e1 + 1,
                    e >= 1,
                    e1 == e - 1,
            ;
        } else if b < 0 {
            assert(b * p >= e + 1) by (nonlinear_arith)
                requires
                    b <= -2,
                    p <= -(e1 + 1),
                    e >= 1,
                    e1 == e - 1,
            ;
        } else {
            assert(b * p >= e + 1) by (nonlinear_arith)
                requires
                    b >= 2,
                    p >= e1 + 1,
                    e >= 1,
                    e1 == e - 1,
            ;
        }
    }
}

/// Powers of `-1`, `0` and `1`.
proof fn lemma_pow_unit(b: int, e: nat)
    requires
        -1 <= b <= 1,
    ensures
        pow(b, e) == (if e == 0 {
            1
        } else if b == 0 {
            0
        } else if b == 1 {
            1
        } else if e % 2 == 0 {
            1
        } else {
            -1
        }),
    decreases e,
{
    reveal(pow);
    if e > 0 {
        let e1 = (e - 1) as nat;
        lemma_pow_unit(b, e1);
        assert(pow(b, e) == b * pow(b, e1));
        assert((e % 2 == 0) == (e1 % 2 == 1));
    }
}

/// Clamping to `[-c, c]` between the factors of a product does not change
/// the clamped product.
proof fn lemma_clamp_mul(b: int, x: int, c: int)
    requires
        c >= 0,
    ensures
        clamp(b * clamp(x, -c, c), -c, c) == clamp(b * x, -c, c),
{
    if x > c {
        if b >= 1 {
            assert(b * x >= c && b * c >= c) by (nonlinear_arith)
                requires
                    b >= 1,
                    x > c,
                    c >= 0,
            ;
        } else if b <= -1 {
            assert(b * x <= -c && b * c <= -c) by (nonlinear_arith)
                requires
                    b <= -1,
                    x > c,
                    c >= 0,
            ;
        }
    } else if x < -c {
        if b >= 1 {
            assert(b * x <= -c && b * -c <= -c) by (nonlinear_arith)
                requires
                    b >= 1,
                    x < -c,
                    c >= 0,
            ;
        } else if b <= -1 {
            assert(b * x >= c && b * -c >= c) by (nonlinear_arith)
                requires
                    b <= -1,
                    x < -c,
                    c >= 0,
            ;
        }
    }
}

/// The power `b^exp` clamped to `[-256, 256]`, for a base of magnitude at
/// most 255.
fn clamped_pow(b: i32, exp: u32) -> (r: i32)
    requires
        -255 <= b <= 255,
    ensures
        r as int == clamp(pow(b as int, exp as nat), -256, 256),
{
    if -1 <= b && b <= 1 {
        proof {
            lemma_pow_unit(b as int, exp as nat);
        }
        if exp == 0 || b == 1 {
            1
        } else if b == 0 {
            0
        } else if exp % 2 == 0 {
            1
        } else {
            -1
        }
    } else if exp >= 300 {
        proof {
            lemma_pow_grows(b as int, exp as nat);
        }
        if b < 0 && exp % 2 == 1 {
            -256
        } else {
            256
        }
    } else {
        let mut acc: i32 = 1;
        let mut i: u32 = 0;
        proof {
            reveal(pow);
        }
        while i < exp
            invariant
                -255 <= b <= 255,
                i <= exp,
                acc as int == clamp(pow(b as int, i as nat), -256, 256),
            decreases exp - i,
        {
            proof {
                reveal(pow);
                lemma_clamp_mul(b as int, pow(b as int, i as nat), 256);
                assert(pow(b as int, (i + 1) as nat) == b * pow(b as int, i as nat));
                assert(-256 * 255 <= b * acc <= 256 * 255) by (nonlinear_arith)
                    requires
                        -255 <= b <= 255,
                        -256 <= acc <= 256,
                ;
            }
            let next = b * acc;
            acc = if next < -256 {
                -256
            } else if next > 256 {
                256
            } else {
                next
            };
            i = i + 1;
        }
        acc
    }
}

/// An unsigned nibble.
#[derive(Clone, Copy, Debug, PartialEq, Eq, Structural, PartialOrd, Ord, Hash)]
pub enum UNibble {
    U0, U1, U2, U3, U4, U5, U6, U7, U8, U9, U10, U11, U12, U13, U14, U15,
}

impl View for UNibble {
    type V = int;

    open spec fn view(&self) -> int {
        match self {
            UNibble::U0 => 0,
            UNibble::U1 => 1,
            UNibble::U2 => 2,
            UNibble::U3 => 3,
            UNibble::U4 => 4,
            UNibble::U5 => 5,
            UNibble::U6 => 6,
            UNibble::U7 => 7,
            UNibble::U8 => 8,
            UNibble::U9 => 9,
            UNibble::U10 => 10,
            UNibble::U11 => 11,
            UNibble::U12 => 12,
            UNibble::U13 => 13,
            UNibble::U14 => 14,
            UNibble::U15 => 15,
        }
    }
}

impl UNibble {
    /// The smallest value that this bounded integer can contain; 0.
    pub const MIN_VALUE: u8 = 0;

    /// The largest value that this bounded integer can contain; 15.
    pub const MAX_VALUE: u8 = 15;

    /// The smallest value of the bounded integer; 0.
    pub const MIN: UNibble = UNibble::U0;

    /// The largest value of the bounded integer; 15.
    pub const MAX: UNibble = UNibble::U15;

    /// Whether `v` lies in the range.
    pub open spec fn spec_in_range(v: int) -> bool {
        bounded_in_range(0, 15, v)
    }

    /// The variant that holds `v`, for `v` in the range.
    pub open spec fn from_value(v: int) -> UNibble {
        if v == 0 {
            UNibble::U0
        } else if v == 1 {
            UNibble::U1
        } else if v == 2 {
            UNibble::U2
        } else if v == 3 {
            UNibble::U3
        } else if v == 4 {
            UNibble::U4
        } else if v == 5 {
            UNibble::U5
        } else if v == 6 {
            UNibble::U6
        } else if v == 7 {
            UNibble::U7
        } else if v == 8 {
            UNibble::U8
        } else if v == 9 {
            UNibble::U9
        } else if v == 10 {
            UNibble::U10
        } else if v == 11 {
            UNibble::U11
        } else if v == 12 {
            UNibble::U12
        } else if v == 13 {
            UNibble::U13
        } else if v == 14 {
            UNibble::U14
        } else {
            UNibble::U15
        }
    }

    /// The bounded integer holding `v`, if `v` is in the range.
    pub open spec fn spec_new(v: int) -> Option<UNibble> {
        if Self::spec_in_range(v) {
            Some(Self::from_value(v))
        } else {
            None
        }
    }

    /// The bounded integer nearest to `v`.
    pub open spec fn spec_saturating(v: int) -> UNibble {
        Self::from_value(bounded_saturating(0, 15, v))
    }

    /// `new` yields a value exactly for the values in the range, and that
    /// value holds what it was given.
    pub proof fn lemma_new_exact(v: int)
        ensures
            Self::spec_new(v).is_some() == Self::spec_in_range(v),
            Self::spec_new(v) matches Some(x) ==> x@ == v,
    {
    }

    /// Saturating is idempotent: saturating the value of a saturated result
    /// gives that result again.
    pub proof fn lemma_saturating_idempotent(v: int)
        ensures
            Self::spec_saturating(Self::spec_saturating(v)@) == Self::spec_saturating(v),
    {
        lemma_saturating_idempotent(0, 15, v);
    }

    /// Every variant comes back from the checked constructor applied to its
    /// value.
    pub proof fn lemma_round_trip(x: UNibble)
        ensures
            Self::spec_new(x@) == Some(x),
    {
    }

    /// Checked addition and multiplication do not depend on the order of
    /// their operands.
    pub proof fn lemma_checked_commutes(a: UNibble, b: UNibble)
        ensures
            Self::spec_new(a@ + b@) == Self::spec_new(b@ + a@),
            Self::spec_new(a@ * b@) == Self::spec_new(b@ * a@),
    {
        assert(a@ * b@ == b@ * a@) by (nonlinear_arith);
    }


    /// Checks whether the given value is in the range of the bounded integer.
    pub fn in_range(n: u8) -> (r: bool)
        ensures
            r == (Self::MIN_VALUE <= n && n <= Self::MAX_VALUE),
            r == Self::spec_in_range(n as int),
    {
        n >= Self::MIN_VALUE && n <= Self::MAX_VALUE
    }

    /// Creates a bounded integer if the given value is within the range.
    pub fn new(n: u8) -> (r: Option<Self>)
        ensures
            r == Self::spec_new(n as int),
            r.is_some() == Self::spec_in_range(n as int),
            r matches Some(x) ==> x@ == n as int,
    {
        match n {
            0 => Some(UNibble::U0),
            1 => Some(UNibble::U1),
            2 => Some(UNibble::U2),
            3 => Some(UNibble::U3),
            4 => Some(UNibble::U4),
            5 => Some(UNibble::U5),
            6 => Some(UNibble::U6),
            7 => Some(UNibble::U7),
            8 => Some(UNibble::U8),
            9 => Some(UNibble::U9),
            10 => Some(UNibble::U10),
            11 => Some(UNibble::U11),
            12 => Some(UNibble::U12),
            13 => Some(UNibble::U13),
            14 => Some(UNibble::U14),
            15 => Some(UNibble::U15),
            _ => None,
        }
    }

    /// Creates a bounded integer from a value that the caller knows to be in
    /// the range.
    pub fn new_unchecked(n: u8) -> (r: Self)
        requires
            Self::spec_in_range(n as int),
        ensures
            r@ == n as int,
            r == Self::from_value(n as int),
    {
        match Self::new(n) {
            Some(x) => x,
            None => Self::MIN,
        }
    }

    /// Creates a bounded integer by setting the value to `MIN` or `MAX` if it
    /// is too low or too high respectively.
    pub fn new_saturating(n: u8) -> (r: Self)
        ensures
            r == Self::spec_saturating(n as int),
            r@ == clamp(n as int, 0, 15),
    {
        if n < Self::MIN_VALUE {
            Self::MIN
        } else if n > Self::MAX_VALUE {
            Self::MAX
        } else {
            match Self::new(n) {
                Some(x) => x,
                None => Self::MIN,
            }
        }
    }

    /// Returns the value of the bounded integer as a primitive type.
    pub fn get(self) -> (r: u8)
        ensures
            r as int == self@,
    {
        match self {
            UNibble::U0 => 0,
            UNibble::U1 => 1,
            UNibble::U2 => 2,
            UNibble::U3 => 3,
            UNibble::U4 => 4,
            UNibble::U5 => 5,
            UNibble::U6 => 6,
            UNibble::U7 => 7,
            UNibble::U8 => 8,
            UNibble::U9 => 9,
            UNibble::U10 => 10,
            UNibble::U11 => 11,
            UNibble::U12 => 12,
            UNibble::U13 => 13,
            UNibble::U14 => 14,
            UNibble::U15 => 15,
        }
    }

    /// Builds the bounded integer from an exact result held in a wider type.
    fn from_wide(v: u16) -> (r: Option<Self>)
        ensures
            r == Self::spec_new(v as int),
    {
        if v >= Self::MIN_VALUE as u16 && v <= Self::MAX_VALUE as u16 {
            Self::new(v as u8)
        } else {
            None
        }
    }

    /// Clamps an exact result held in a wider type.
    fn saturate_wide(v: u16) -> (r: Self)
        ensures
            r == Self::spec_saturating(v as int),
    {
        if v < Self::MIN_VALUE as u16 {
            Self::MIN
        } else if v > Self::MAX_VALUE as u16 {
            Self::MAX
        } else {
            Self::new_saturating(v as u8)
        }
    }

    /// Checked integer addition.
    pub fn checked_add(self, rhs: u8) -> (r: Option<Self>)
        ensures
            r == Self::spec_new(self@ + rhs),
    {
        Self::from_wide(self.get() as u16 + rhs as u16)
    }

    /// Saturating integer addition.
    pub fn saturating_add(self, rhs: u8) -> (r: Self)
        ensures
            r == Self::spec_saturating(self@ + rhs),
    {
        Self::saturate_wide(self.get() as u16 + rhs as u16)
    }

    /// Checked integer subtraction.
    pub fn checked_sub(self, rhs: u8) -> (r: Option<Self>)
        ensures
            r == Self::spec_new(self@ - rhs),
    {
        if rhs > self.get() {
            None
        } else {
            Self::new(self.get() - rhs)
        }
    }

    /// Saturating integer subtraction.
    pub fn saturating_sub(self, rhs: u8) -> (r: Self)
        ensures
            r == Self::spec_saturating(self@ - rhs),
    {
        if rhs > self.get() {
            Self::new_saturating(0)
        } else {
            Self::new_saturating(self.get() - rhs)
        }
    }

    /// Checked integer multiplication.
    pub fn checked_mul(self, rhs: u8) -> (r: Option<Self>)
        ensures
            r == Self::spec_new(self@ * rhs),
    {
        let a = self.get() as u16;
        let b = rhs as u16;
        proof {
            lemma_nibble_product(a as int, b as int);
        }
        Self::from_wide(a * b)
    }

    /// Saturating integer multiplication.
    pub fn saturating_mul(self, rhs: u8) -> (r: Self)
        ensures
            r == Self::spec_saturating(self@ * rhs),
    {
        let a = self.get() as u16;
        let b = rhs as u16;
        proof {
            lemma_nibble_product(a as int, b as int);
        }
        Self::saturate_wide(a * b)
    }

    /// Checked integer division; `None` for a zero divisor.
    pub fn checked_div(self, rhs: u8) -> (r: Option<Self>)
        ensures
            rhs == 0 ==> r.is_none(),
            rhs != 0 ==> r == Self::spec_new(trunc_div(self@, rhs as int)),
    {
        match self.get().checked_div(rhs) {
            Some(q) => Self::new(q),
            None => None,
        }
    }

    /// Checked integer remainder; `None` for a zero divisor.
    pub fn checked_rem(self, rhs: u8) -> (r: Option<Self>)
        ensures
            rhs == 0 ==> r.is_none(),
            rhs != 0 ==> r == Self::spec_new(trunc_rem(self@, rhs as int)),
    {
        match self.get().checked_rem(rhs) {
            Some(q) => Self::new(q),
            None => None,
        }
    }

    /// Checked Euclidean division; `None` for a zero divisor.
    pub fn checked_div_euclid(self, rhs: u8) -> (r: Option<Self>)
        ensures
            rhs == 0 ==> r.is_none(),
            rhs != 0 ==> r == Self::spec_new(self@ / (rhs as int)),
    {
        match self.get().checked_div_euclid(rhs) {
            Some(q) => Self::new(q),
            None => None,
        }
    }

    /// Checked Euclidean remainder, never negative; `None` for a zero
    /// divisor.
    pub fn checked_rem_euclid(self, rhs: u8) -> (r: Option<Self>)
        ensures
            rhs == 0 ==> r.is_none(),
            rhs != 0 ==> r == Self::spec_new(self@ % (rhs as int)),
    {
        match self.get().checked_rem_euclid(rhs) {
            Some(q) => Self::new(q),
            None => None,
        }
    }

    /// Checked exponentiation.
    pub fn checked_pow(self, exp: u32) -> (r: Option<Self>)
        ensures
            r == Self::spec_new(pow(self@, exp as nat)),
    {
        let c = clamped_pow(self.get() as i32, exp);
        if c >= Self::MIN_VALUE as i32 && c <= Self::MAX_VALUE as i32 {
            Self::new(c as u8)
        } else {
            None
        }
    }

    /// Saturating exponentiation.
    pub fn saturating_pow(self, exp: u32) -> (r: Self)
        ensures
            r == Self::spec_saturating(pow(self@, exp as nat)),
    {
        let c = clamped_pow(self.get() as i32, exp);
        if c < Self::MIN_VALUE as i32 {
            Self::MIN
        } else if c > Self::MAX_VALUE as i32 {
            Self::MAX
        } else {
            Self::new_saturating(c as u8)
        }
    }
}

/// A signed nibble.
#[derive(Clone, Copy, Debug, PartialEq, Eq, Structural, PartialOrd, Ord, Hash)]
pub enum SNibble {
    N8, N7, N6, N5, N4, N3, N2, N1, U0, P1, P2, P3, P4, P5, P6, P7,
}

impl View for SNibble {
    type V = int;

    open spec fn view(&self) -> int {
        match self {
            SNibble::N8 => -8,
            SNibble::N7 => -7,
            SNibble::N6 => -6,
            SNibble::N5 => -5,
            SNibble::N4 => -4,
            SNibble::N3 => -3,
            SNibble::N2 => -2,
            SNibble::N1 => -1,
            SNibble::U0 => 0,
            SNibble::P1 => 1,
            SNibble::P2 => 2,
            SNibble::P3 => 3,
            SNibble::P4 => 4,
            SNibble::P5 => 5,
            SNibble::P6 => 6,
            SNibble::P7 => 7,
        }
    }
}

impl SNibble {
    /// The smallest value that this bounded integer can contain; -8.
    pub const MIN_VALUE: i8 = -8;

    /// The largest value that this bounded integer can contain; 7.
    pub const MAX_VALUE: i8 = 7;

    /// The smallest value of the bounded integer; -8.
    pub const MIN: SNibble = SNibble::N8;

    /// The largest value of the bounded integer; 7.
    pub const MAX: SNibble = SNibble::P7;

    /// Whether `v` lies in the range.
    pub open spec fn spec_in_range(v: int) -> bool {
        bounded_in_range(-8, 7, v)
    }

    /// The variant that holds `v`, for `v` in the range.
    pub open spec fn from_value(v: int) -> SNibble {
        if v == -8 {
            SNibble::N8
        } else if v == -7 {
            SNibble::N7
        } else if v == -6 {
            SNibble::N6
        } else if v == -5 {
            SNibble::N5
        } else if v == -4 {
            SNibble::N4
        } else if v == -3 {
            SNibble::N3
        } else if v == -2 {
            SNibble::N2
        } else if v == -1 {
            SNibble::N1
        } else if v == 0 {
            SNibble::U0
        } else if v == 1 {
            SNibble::P1
        } else if v == 2 {
            SNibble::P2
        } else if v == 3 {
            SNibble::P3
        } else if v == 4 {
            SNibble::P4
        } else if v == 5 {
            SNibble::P5
        } else if v == 6 {
            SNibble::P6
        } else {
            SNibble::P7
        }
    }

    /// The bounded integer holding `v`, if `v` is in the range.
    pub open spec fn spec_new(v: int) -> Option<SNibble> {
        if Self::spec_in_range(v) {
            Some(Self::from_value(v))
        } else {
            None
        }
    }

    /// The bounded integer nearest to `v`.
    pub open spec fn spec_saturating(v: int) -> SNibble {
        Self::from_value(bounded_saturating(-8, 7, v))
    }

    /// `new` yields a value exactly for the values in the range, and that
    /// value holds what it was given.
    pub proof fn lemma_new_exact(v: int)
        ensures
            Self::spec_new(v).is_some() == Self::spec_in_range(v),
            Self::spec_new(v) matches Some(x) ==> x@ == v,
    {
    }

    /// Saturating is idempotent: saturating the value of a saturated result
    /// gives that result again.
    pub proof fn lemma_saturating_idempotent(v: int)
        ensures
            Self::spec_saturating(Self::spec_saturating(v)@) == Self::spec_saturating(v),
    {
        lemma_saturating_idempotent(-8, 7, v);
    }

    /// Every variant comes back from the checked constructor applied to its
    /// value.
    pub proof fn lemma_round_trip(x: SNibble)
        ensures
            Self::spec_new(x@) == Some(x),
    {
    }

    /// Checked addition and multiplication do not depend on the order of
    /// their operands.
    pub proof fn lemma_checked_commutes(a: SNibble, b: SNibble)
        ensures
            Self::spec_new(a@ + b@) == Self::spec_new(b@ + a@),
            Self::spec_new(a@ * b@) == Self::spec_new(b@ * a@),
    {
        assert(a@ * b@ == b@ * a@) by (nonlinear_arith);
    }


    /// Checks whether the given value is in the range of the bounded integer.
    pub fn in_range(n: i8) -> (r: bool)
        ensures
            r == (Self::MIN_VALUE <= n && n <= Self::MAX_VALUE),
            r == Self::spec_in_range(n as int),
    {
        n >= Self::MIN_VALUE && n <= Self::MAX_VALUE
    }

    /// Creates a bounded integer if the given value is within the range.
    pub fn new(n: i8) -> (r: Option<Self>)
        ensures
            r == Self::spec_new(n as int),
            r.is_some() == Self::spec_in_range(n as int),
            r matches Some(x) ==> x@ == n as int,
    {
        match n {
            -8 => Some(SNibble::N8),
            -7 => Some(SNibble::N7),
            -6 => Some(SNibble::N6),
            -5 => Some(SNibble::N5),
            -4 => Some(SNibble::N4),
            -3 => Some(SNibble::N3),
            -2 => Some(SNibble::N2),
            -1 => Some(SNibble::N1),
            0 => Some(SNibble::U0),
            1 => Some(SNibble::P1),
            2 => Some(SNibble::P2),
            3 => Some(SNibble::P3),
            4 => Some(SNibble::P4),
            5 => Some(SNibble::P5),
            6 => Some(SNibble::P6),
            7 => Some(SNibble::P7),
            _ => None,
        }
    }

    /// Creates a bounded integer from a value that the caller knows to be in
    /// the range.
    pub fn new_unchecked(n: i8) -> (r: Self)
        requires
            Self::spec_in_range(n as int),
        ensures
            r@ == n as int,
            r == Self::from_value(n as int),
    {
        match Self::new(n) {
            Some(x) => x,
            None => Self::MIN,
        }
    }

    /// Creates a bounded integer by setting the value to `MIN` or `MAX` if it
    /// is too low or too high respectively.
    pub fn new_saturating(n: i8) -> (r: Self)
        ensures
            r == Self::spec_saturating(n as int),
            r@ == clamp(n as int, -8, 7),
    {
        if n < Self::MIN_VALUE {
            Self::MIN
        } else if n > Self::MAX_VALUE {
            Self::MAX
        } else {
            match Self::new(n) {
                Some(x) => x,
                None => Self::MIN,
            }
        }
    }

    /// Returns the value of the bounded integer as a primitive type.
    pub fn get(self) -> (r: i8)
        ensures
            r as int == self@,
    {
        match self {
            SNibble::N8 => -8,
            SNibble::N7 => -7,
            SNibble::N6 => -6,
            SNibble::N5 => -5,
            SNibble::N4 => -4,
            SNibble::N3 => -3,
            SNibble::N2 => -2,
            SNibble::N1 => -1,
            SNibble::U0 => 0,
            SNibble::P1 => 1,
            SNibble::P2 => 2,
            SNibble::P3 => 3,
            SNibble::P4 => 4,
            SNibble::P5 => 5,
            SNibble::P6 => 6,
            SNibble::P7 => 7,
        }
    }

    /// Builds the bounded integer from an exact result held in a wider type.
    fn from_wide(v: i16) -> (r: Option<Self>)
        ensures
            r == Self::spec_new(v as int),
    {
        if v >= Self::MIN_VALUE as i16 && v <= Self::MAX_VALUE as i16 {
            Self::new(v as i8)
        } else {
            None
        }
    }

    /// Clamps an exact result held in a wider type.
    fn saturate_wide(v: i16) -> (r: Self)
        ensures
            r == Self::spec_saturating(v as int),
    {
        if v < Self::MIN_VALUE as i16 {
            Self::MIN
        } else if v > Self::MAX_VALUE as i16 {
            Self::MAX
        } else {
            Self::new_saturating(v as i8)
        }
    }

    /// Checked integer addition.
    pub fn checked_add(self, rhs: i8) -> (r: Option<Self>)
        ensures
            r == Self::spec_new(self@ + rhs),
    {
        Self::from_wide(self.get() as i16 + rhs as i16)
    }

    /// Saturating integer addition.
    pub fn saturating_add(self, rhs: i8) -> (r: Self)
        ensures
            r == Self::spec_saturating(self@ + rhs),
    {
        Self::saturate_wide(self.get() as i16 + rhs as i16)
    }

    /// Checked integer subtraction.
    pub fn checked_sub(self, rhs: i8) -> (r: Option<Self>)
        ensures
            r == Self::spec_new(self@ - rhs),
    {
        Self::from_wide(self.get() as i16 - rhs as i16)
    }

    /// Saturating integer subtraction.
    pub fn saturating_sub(self, rhs: i8) -> (r: Self)
        ensures
            r == Self::spec_saturating(self@ - rhs),
    {
        Self::saturate_wide(self.get() as i16 - rhs as i16)
    }

    /// Checked integer multiplication.
    pub fn checked_mul(self, rhs: i8) -> (r: Option<Self>)
        ensures
            r == Self::spec_new(self@ * rhs),
    {
        let a = self.get() as i16;
        let b = rhs as i16;
        proof {
            lemma_nibble_product(a as int, b as int);
        }
        Self::from_wide(a * b)
    }

    /// Saturating integer multiplication.
    pub fn saturating_mul(self, rhs: i8) -> (r: Self)
        ensures
            r == Self::spec_saturating(self@ * rhs),
    {
        let a = self.get() as i16;
        let b = rhs as i16;
        proof {
            lemma_nibble_product(a as int, b as int);
        }
        Self::saturate_wide(a * b)
    }

    /// Checked integer division; `None` for a zero divisor.
    pub fn checked_div(self, rhs: i8) -> (r: Option<Self>)
        ensures
            rhs == 0 ==> r.is_none(),
            rhs != 0 ==> r == Self::spec_new(trunc_div(self@, rhs as int)),
    {
        match self.get().checked_div(rhs) {
            Some(q) => Self::new(q),
            None => None,
        }
    }

    /// Checked integer remainder; `None` for a zero divisor.
    pub fn checked_rem(self, rhs: i8) -> (r: Option<Self>)
        ensures
            rhs == 0 ==> r.is_none(),
            rhs != 0 ==> r == Self::spec_new(trunc_rem(self@, rhs as int)),
    {
        match self.get().checked_rem(rhs) {
            Some(q) => Self::new(q),
            None => None,
        }
    }

    /// Checked Euclidean division; `None` for a zero divisor.
    pub fn checked_div_euclid(self, rhs: i8) -> (r: Option<Self>)
        ensures
            rhs == 0 ==> r.is_none(),
            rhs != 0 ==> r == Self::spec_new(self@ / (rhs as int)),
    {
        match self.get().checked_div_euclid(rhs) {
            Some(q) => Self::new(q),
            None => None,
        }
    }

    /// Checked Euclidean remainder, never negative; `None` for a zero
    /// divisor.
    pub fn checked_rem_euclid(self, rhs: i8) -> (r: Option<Self>)
        ensures
            rhs == 0 ==> r.is_none(),
            rhs != 0 ==> r == Self::spec_new(self@ % (rhs as int)),
    {
        match self.get().checked_rem_euclid(rhs) {
            Some(q) => Self::new(q),
            None => None,
        }
    }

    /// Checked exponentiation.
    pub fn checked_pow(self, exp: u32) -> (r: Option<Self>)
        ensures
            r == Self::spec_new(pow(self@, exp as nat)),
    {
        let c = clamped_pow(self.get() as i32, exp);
        if c >= Self::MIN_VALUE as i32 && c <= Self::MAX_VALUE as i32 {
            Self::new(c as i8)
        } else {
            None
        }
    }

    /// Saturating exponentiation.
    pub fn saturating_pow(self, exp: u32) -> (r: Self)
        ensures
            r == Self::spec_saturating(pow(self@, exp as nat)),
    {
        let c = clamped_pow(self.get() as i32, exp);
        if c < Self::MIN_VALUE as i32 {
            Self::MIN
        } else if c > Self::MAX_VALUE as i32 {
            Self::MAX
        } else {
            Self::new_saturating(c as i8)
        }
    }

    /// Checked negation.
    pub fn checked_neg(self) -> (r: Option<Self>)
        ensures
            r == Self::spec_new(-self@),
    {
        Self::from_wide(0 - self.get() as i16)
    }

    /// Saturating negation.
    pub fn saturating_neg(self) -> (r: Self)
        ensures
            r == Self::spec_saturating(-self@),
    {
        Self::saturate_wide(0 - self.get() as i16)
    }

    /// Checked absolute value.
    pub fn checked_abs(self) -> (r: Option<Self>)
        ensures
            r == Self::spec_new(abs(self@) as int),
    {
        let v = self.get() as i16;
        Self::from_wide(if v < 0 { 0 - v } else { v })
    }
}

/// A non-zero unsigned nibble.
#[derive(Clone, Copy, Debug, PartialEq, Eq, Structural, PartialOrd, Ord, Hash)]
pub enum NZUNibble {
    U1, U2, U3, U4, U5, U6, U7, U8, U9, U10, U11, U12, U13, U14, U15,
}

impl View for NZUNibble {
    type V = int;

    open spec fn view(&self) -> int {
        match self {
            NZUNibble::U1 => 1,
            NZUNibble::U2 => 2,
            NZUNibble::U3 => 3,
            NZUNibble::U4 => 4,
            NZUNibble::U5 => 5,
            NZUNibble::U6 => 6,
            NZUNibble::U7 => 7,
            NZUNibble::U8 => 8,
            NZUNibble::U9 => 9,
            NZUNibble::U10 => 10,
            NZUNibble::U11 => 11,
            NZUNibble::U12 => 12,
            NZUNibble::U13 => 13,
            NZUNibble::U14 => 14,
            NZUNibble::U15 => 15,
        }
    }
}

impl NZUNibble {
    /// The smallest value that this bounded integer can contain; 1.
    pub const MIN_VALUE: u8 = 1;

    /// The largest value that this bounded integer can contain; 15.
    pub const MAX_VALUE: u8 = 15;

    /// The smallest value of the bounded integer; 1.
    pub const MIN: NZUNibble = NZUNibble::U1;

    /// The largest value of the bounded integer; 15.
    pub const MAX: NZUNibble = NZUNibble::U15;

    /// Whether `v` lies in the range.
    pub open spec fn spec_in_range(v: int) -> bool {
        bounded_in_range(1, 15, v)
    }

    /// The variant that holds `v`, for `v` in the range.
    pub open spec fn from_value(v: int) -> NZUNibble {
        if v == 1 {
            NZUNibble::U1
        } else if v == 2 {
            NZUNibble::U2
        } else if v == 3 {
            NZUNibble::U3
        } else if v == 4 {
            NZUNibble::U4
        } else if v == 5 {
            NZUNibble::U5
        } else if v == 6 {
            NZUNibble::U6
        } else if v == 7 {
            NZUNibble::U7
        } else if v == 8 {
            NZUNibble::U8
        } else if v == 9 {
            NZUNibble::U9
        } else if v == 10 {
            NZUNibble::U10
        } else if v == 11 {
            NZUNibble::U11
        } else if v == 12 {
            NZUNibble::U12
        } else if v == 13 {
            NZUNibble::U13
        } else if v == 14 {
            NZUNibble::U14
        } else {
            NZUNibble::U15
        }
    }

    /// The bounded integer holding `v`, if `v` is in the range.
    pub open spec fn spec_new(v: int) -> Option<NZUNibble> {
        if Self::spec_in_range(v) {
            Some(Self::from_value(v))
        } else {
            None
        }
    }

    /// The bounded integer nearest to `v`.
    pub open spec fn spec_saturating(v: int) -> NZUNibble {
        Self::from_value(bounded_saturating(1, 15, v))
    }

    /// `new` yields a value exactly for the values in the range, and that
    /// value holds what it was given.
    pub proof fn lemma_new_exact(v: int)
        ensures
            Self::spec_new(v).is_some() == Self::spec_in_range(v),
            Self::spec_new(v) matches Some(x) ==> x@ == v,
    {
    }

    /// Saturating is idempotent: saturating the value of a saturated result
    /// gives that result again.
    pub proof fn lemma_saturating_idempotent(v: int)
        ensures
            Self::spec_saturating(Self::spec_saturating(v)@) == Self::spec_saturating(v),
    {
        lemma_saturating_idempotent(1, 15, v);
    }

    /// Every variant comes back from the checked constructor applied to its
    /// value.
    pub proof fn lemma_round_trip(x: NZUNibble)
        ensures
            Self::spec_new(x@) == Some(x),
    {
    }

    /// Checked addition and multiplication do not depend on the order of
    /// their operands.
    pub proof fn lemma_checked_commutes(a: NZUNibble, b: NZUNibble)
        ensures
            Self::spec_new(a@ + b@) == Self::spec_new(b@ + a@),
            Self::spec_new(a@ * b@) == Self::spec_new(b@ * a@),
    {
        assert(a@ * b@ == b@ * a@) by (nonlinear_arith);
    }


    /// Checks whether the given value is in the range of the bounded integer.
    pub fn in_range(n: u8) -> (r: bool)
        ensures
            r == (Self::MIN_VALUE <= n && n <= Self::MAX_VALUE),
            r == Self::spec_in_range(n as int),
    {
        n >= Self::MIN_VALUE && n <= Self::MAX_VALUE
    }

    /// Creates a bounded integer if the given value is within the range.
    pub fn new(n: u8) -> (r: Option<Self>)
        ensures
            r == Self::spec_new(n as int),
            r.is_some() == Self::spec_in_range(n as int),
            r matches Some(x) ==> x@ == n as int,
    {
        match n {
            1 => Some(NZUNibble::U1),
            2 => Some(NZUNibble::U2),
            3 => Some(NZUNibble::U3),
            4 => Some(NZUNibble::U4),
            5 => Some(NZUNibble::U5),
            6 => Some(NZUNibble::U6),
            7 => Some(NZUNibble::U7),
            8 => Some(NZUNibble::U8),
            9 => Some(NZUNibble::U9),
            10 => Some(NZUNibble::U10),
            11 => Some(NZUNibble::U11),
            12 => Some(NZUNibble::U12),
            13 => Some(NZUNibble::U13),
            14 => Some(NZUNibble::U14),
            15 => Some(NZUNibble::U15),
            _ => None,
        }
    }

    /// Creates a bounded integer from a value that the caller knows to be in
    /// the range.
    pub fn new_unchecked(n: u8) -> (r: Self)
        requires
            Self::spec_in_range(n as int),
        ensures
            r@ == n as int,
            r == Self::from_value(n as int),
    {
        match Self::new(n) {
            Some(x) => x,
            None => Self::MIN,
        }
    }

    /// Creates a bounded integer by setting the value to `MIN` or `MAX` if it
    /// is too low or too high respectively.
    pub fn new_saturating(n: u8) -> (r: Self)
        ensures
            r == Self::spec_saturating(n as int),
            r@ == clamp(n as int, 1, 15),
    {
        if n < Self::MIN_VALUE {
            Self::MIN
        } else if n > Self::MAX_VALUE {
            Self::MAX
        } else {
            match Self::new(n) {
                Some(x) => x,
                None => Self::MIN,
            }
        }
    }

    /// Returns the value of the bounded integer as a primitive type.
    pub fn get(self) -> (r: u8)
        ensures
            r as int == self@,
    {
        match self {
            NZUNibble::U1 => 1,
            NZUNibble::U2 => 2,
            NZUNibble::U3 => 3,
            NZUNibble::U4 => 4,
            NZUNibble::U5 => 5,
            NZUNibble::U6 => 6,
            NZUNibble::U7 => 7,
            NZUNibble::U8 => 8,
            NZUNibble::U9 => 9,
            NZUNibble::U10 => 10,
            NZUNibble::U11 => 11,
            NZUNibble::U12 => 12,
            NZUNibble::U13 => 13,
            NZUNibble::U14 => 14,
            NZUNibble::U15 => 15,
        }
    }

    /// Builds the bounded integer from an exact result held in a wider type.
    fn from_wide(v: u16) -> (r: Option<Self>)
        ensures
            r == Self::spec_new(v as int),
    {
        if v >= Self::MIN_VALUE as u16 && v <= Self::MAX_VALUE as u16 {
            Self::new(v as u8)
        } else {
            None
        }
    }

    /// Clamps an exact result held in a wider type.
    fn saturate_wide(v: u16) -> (r: Self)
        ensures
            r == Self::spec_saturating(v as int),
    {
        if v < Self::MIN_VALUE as u16 {
            Self::MIN
        } else if v > Self::MAX_VALUE as u16 {
            Self::MAX
        } else {
            Self::new_saturating(v as u8)
        }
    }

    /// Checked integer addition.
    pub fn checked_add(self, rhs: u8) -> (r: Option<Self>)
        ensures
            r == Self::spec_new(self@ + rhs),
    {
        Self::from_wide(self.get() as u16 + rhs as u16)
    }

    /// Saturating integer addition.
    pub fn saturating_add(self, rhs: u8) -> (r: Self)
        ensures
            r == Self::spec_saturating(self@ + rhs),
    {
        Self::saturate_wide(self.get() as u16 + rhs as u16)
    }

    /// Checked integer subtraction.
    pub fn checked_sub(self, rhs: u8) -> (r: Option<Self>)
        ensures
            r == Self::spec_new(self@ - rhs),
    {
        if rhs > self.get() {
            None
        } else {
            Self::new(self.get() - rhs)
        }
    }

    /// Saturating integer subtraction.
    pub fn saturating_sub(self, rhs: u8) -> (r: Self)
        ensures
            r == Self::spec_saturating(self@ - rhs),
    {
        if rhs > self.get() {
            Self::new_saturating(0)
        } else {
            Self::new_saturating(self.get() - rhs)
        }
    }

    /// Checked integer multiplication.
    pub fn checked_mul(self, rhs: u8) -> (r: Option<Self>)
        ensures
            r == Self::spec_new(self@ * rhs),
    {
        let a = self.get() as u16;
        let b = rhs as u16;
        proof {
            lemma_nibble_product(a as int, b as int);
        }
        Self::from_wide(a * b)
    }

    /// Saturating integer multiplication.
    pub fn saturating_mul(self, rhs: u8) -> (r: Self)
        ensures
            r == Self::spec_saturating(self@ * rhs),
    {
        let a = self.get() as u16;
        let b = rhs as u16;
        proof {
            lemma_nibble_product(a as int, b as int);
        }
        Self::saturate_wide(a * b)
    }

    /// Checked integer division; `None` for a zero divisor.
    pub fn checked_div(self, rhs: u8) -> (r: Option<Self>)
        ensures
            rhs == 0 ==> r.is_none(),
            rhs != 0 ==> r == Self::spec_new(trunc_div(self@, rhs as int)),
    {
        match self.get().checked_div(rhs) {
            Some(q) => Self::new(q),
            None => None,
        }
    }

    /// Checked integer remainder; `None` for a zero divisor.
    pub fn checked_rem(self, rhs: u8) -> (r: Option<Self>)
        ensures
            rhs == 0 ==> r.is_none(),
            rhs != 0 ==> r == Self::spec_new(trunc_rem(self@, rhs as int)),
    {
        match self.get().checked_rem(rhs) {
            Some(q) => Self::new(q),
            None => None,
        }
    }

    /// Checked Euclidean division; `None` for a zero divisor.
    pub fn checked_div_euclid(self, rhs: u8) -> (r: Option<Self>)
        ensures
            rhs == 0 ==> r.is_none(),
            rhs != 0 ==> r == Self::spec_new(self@ / (rhs as int)),
    {
        match self.get().checked_div_euclid(rhs) {
            Some(q) => Self::new(q),
            None => None,
        }
    }

    /// Checked Euclidean remainder, never negative; `None` for a zero
    /// divisor.
    pub fn checked_rem_euclid(self, rhs: u8) -> (r: Option<Self>)
        ensures
            rhs == 0 ==> r.is_none(),
            rhs != 0 ==> r == Self::spec_new(self@ % (rhs as int)),
    {
        match self.get().checked_rem_euclid(rhs) {
            Some(q) => Self::new(q),
            None => None,
        }
    }

    /// Checked exponentiation.
    pub fn checked_pow(self, exp: u32) -> (r: Option<Self>)
        ensures
            r == Self::spec_new(pow(self@, exp as nat)),
    {
        let c = clamped_pow(self.get() as i32, exp);
        if c >= Self::MIN_VALUE as i32 && c <= Self::MAX_VALUE as i32 {
            Self::new(c as u8)
        } else {
            None
        }
    }

    /// Saturating exponentiation.
    pub fn saturating_pow(self, exp: u32) -> (r: Self)
        ensures
            r == Self::spec_saturating(pow(self@, exp as nat)),
    {
        let c = clamped_pow(self.get() as i32, exp);
        if c < Self::MIN_VALUE as i32 {
            Self::MIN
        } else if c > Self::MAX_VALUE as i32 {
            Self::MAX
        } else {
            Self::new_saturating(c as u8)
        }
    }
}

} // verus!
