//! The primitive integer types that a bounded integer can be built on.

use vstd::prelude::*;
use crate::bigint::{decimal, decimal_of, Int};

verus! {

/// The width of a primitive.
#[derive(Clone, Copy, Debug, PartialEq, Eq, Structural)]
pub enum ReprSize {
    Fixed8,
    Fixed16,
    Fixed32,
    Fixed64,
    Fixed128,
    /// The width of a pointer: `usize` and `isize`.
    Pointer,
}

/// A primitive integer type: its signedness and its width.
#[derive(Clone, Copy, Debug, PartialEq, Eq, Structural)]
pub struct Repr {
    pub signed: bool,
    pub size: ReprSize,
}

/// The number of bits of a fixed width (zero for the pointer width).
pub open spec fn fixed_bits(size: ReprSize) -> nat {
    match size {
        ReprSize::Fixed8 => 8,
        ReprSize::Fixed16 => 16,
        ReprSize::Fixed32 => 32,
        ReprSize::Fixed64 => 64,
        ReprSize::Fixed128 => 128,
        ReprSize::Pointer => 0,
    }
}

/// The smallest value of the primitive.
pub open spec fn repr_min(r: Repr) -> int {
    if !r.signed {
        0
    } else {
        match r.size {
            ReprSize::Fixed8 => i8::MIN as int,
            ReprSize::Fixed16 => i16::MIN as int,
            ReprSize::Fixed32 => i32::MIN as int,
            ReprSize::Fixed64 => i64::MIN as int,
            ReprSize::Fixed128 => i128::MIN as int,
            ReprSize::Pointer => isize::MIN as int,
        }
    }
}

/// The largest value of the primitive.
pub open spec fn repr_max(r: Repr) -> int {
    if !r.signed {
        match r.size {
            ReprSize::Fixed8 => u8::MAX as int,
            ReprSize::Fixed16 => u16::MAX as int,
            ReprSize::Fixed32 => u32::MAX as int,
            ReprSize::Fixed64 => u64::MAX as int,
            ReprSize::Fixed128 => u128::MAX as int,
            ReprSize::Pointer => usize::MAX as int,
        }
    } else {
        match r.size {
            ReprSize::Fixed8 => i8::MAX as int,
            ReprSize::Fixed16 => i16::MAX as int,
            ReprSize::Fixed32 => i32::MAX as int,
            ReprSize::Fixed64 => i64::MAX as int,
            ReprSize::Fixed128 => i128::MAX as int,
            ReprSize::Pointer => isize::MAX as int,
        }
    }
}

/// Whether `v` is a value of the primitive.
pub open spec fn repr_contains(r: Repr, v: int) -> bool {
    repr_min(r) <= v <= repr_max(r)
}

/// The name of the primitive, as written in source.
pub open spec fn repr_name(r: Repr) -> Seq<char> {
    let letter = if r.signed { 'i' } else { 'u' };
    match r.size {
        ReprSize::Fixed8 => seq![letter, '8'],
        ReprSize::Fixed16 => seq![letter, '1', '6'],
        ReprSize::Fixed32 => seq![letter, '3', '2'],
        ReprSize::Fixed64 => seq![letter, '6', '4'],
        ReprSize::Fixed128 => seq![letter, '1', '2', '8'],
        ReprSize::Pointer => seq![letter, 's', 'i', 'z', 'e'],
    }
}

/// The text of `v` as a literal suffixed with the primitive's name, such as
/// `-8isize` or `3u16`.
pub open spec fn literal_text(r: Repr, v: int) -> Seq<char> {
    let sign = if v < 0 { seq!['-'] } else { Seq::<char>::empty() };
    let mag = if v < 0 { -v } else { v };
    sign + decimal_of(mag as nat) + repr_name(r)
}

/// Whether every value of `from` converts to `to` without loss through one of
/// the standard library's `From` conversions between distinct primitives.
///
/// Between fixed widths that is a strictly wider target that is signed, or
/// unsigned from unsigned. The pointer-sized types take only the primitives
/// that fit in 16 bits (`usize` the unsigned ones, `isize` those that fit as
/// signed), and convert losslessly into none.
pub open spec fn widens_to(from: Repr, to: Repr) -> bool {
    match (from.size, to.size) {
        (ReprSize::Pointer, _) => false,
        (_, ReprSize::Pointer) => if to.signed {
            fixed_bits(from.size) == 8 || (fixed_bits(from.size) == 16 && from.signed)
        } else {
            !from.signed && fixed_bits(from.size) <= 16
        },
        _ => fixed_bits(to.size) > fixed_bits(from.size) && (to.signed || !from.signed),
    }
}

/// All primitives, unsigned first, each by increasing width with the pointer
/// width last.
pub open spec fn all_reprs() -> Seq<Repr> {
    seq![
        Repr { signed: false, size: ReprSize::Fixed8 },
        Repr { signed: false, size: ReprSize::Fixed16 },
        Repr { signed: false, size: ReprSize::Fixed32 },
        Repr { signed: false, size: ReprSize::Fixed64 },
        Repr { signed: false, size: ReprSize::Fixed128 },
        Repr { signed: false, size: ReprSize::Pointer },
        Repr { signed: true, size: ReprSize::Fixed8 },
        Repr { signed: true, size: ReprSize::Fixed16 },
        Repr { signed: true, size: ReprSize::Fixed32 },
        Repr { signed: true, size: ReprSize::Fixed64 },
        Repr { signed: true, size: ReprSize::Fixed128 },
        Repr { signed: true, size: ReprSize::Pointer },
    ]
}

fn all_reprs_vec() -> (r: Vec<Repr>)
    ensures
        r@ == all_reprs(),
{
    let v = vec![
        Repr { signed: false, size: ReprSize::Fixed8 },
        Repr { signed: false, size: ReprSize::Fixed16 },
        Repr { signed: false, size: ReprSize::Fixed32 },
        Repr { signed: false, size: ReprSize::Fixed64 },
        Repr { signed: false, size: ReprSize::Fixed128 },
        Repr { signed: false, size: ReprSize::Pointer },
        Repr { signed: true, size: ReprSize::Fixed8 },
        Repr { signed: true, size: ReprSize::Fixed16 },
        Repr { signed: true, size: ReprSize::Fixed32 },
        Repr { signed: true, size: ReprSize::Fixed64 },
        Repr { signed: true, size: ReprSize::Fixed128 },
        Repr { signed: true, size: ReprSize::Pointer },
    ];
    assert(v@ =~= all_reprs());
    v
}

impl Repr {
    /// The name of the primitive, as written in source.
    pub fn name(&self) -> (r: &'static str)
        ensures
            r@ == repr_name(*self),
    {
        proof {
            reveal_strlit("u8");
            reveal_strlit("u16");
            reveal_strlit("u32");
            reveal_strlit("u64");
            reveal_strlit("u128");
            reveal_strlit("usize");
            reveal_strlit("i8");
            reveal_strlit("i16");
            reveal_strlit("i32");
            reveal_strlit("i64");
            reveal_strlit("i128");
            reveal_strlit("isize");
        }
        let r = match (self.signed, self.size) {
            (false, ReprSize::Fixed8) => "u8",
            (false, ReprSize::Fixed16) => "u16",
            (false, ReprSize::Fixed32) => "u32",
            (false, ReprSize::Fixed64) => "u64",
            (false, ReprSize::Fixed128) => "u128",
            (false, ReprSize::Pointer) => "usize",
            (true, ReprSize::Fixed8) => "i8",
            (true, ReprSize::Fixed16) => "i16",
            (true, ReprSize::Fixed32) => "i32",
            (true, ReprSize::Fixed64) => "i64",
            (true, ReprSize::Fixed128) => "i128",
            (true, ReprSize::Pointer) => "isize",
        };
        assert(r@ =~= repr_name(*self));
        r
    }

    /// The smallest value of the primitive.
    pub fn minimum(&self) -> (r: Int)
        ensures
            r.wf(),
            r@ == repr_min(*self),
    {
        if !self.signed {
            Int::from_u128(0)
        } else {
            match self.size {
                ReprSize::Fixed8 => Int::from_i128(i8::MIN as i128),
                ReprSize::Fixed16 => Int::from_i128(i16::MIN as i128),
                ReprSize::Fixed32 => Int::from_i128(i32::MIN as i128),
                ReprSize::Fixed64 => Int::from_i128(i64::MIN as i128),
                ReprSize::Fixed128 => Int::from_i128(i128::MIN),
                ReprSize::Pointer => Int::from_i128(isize::MIN as i128),
            }
        }
    }

    /// The largest value of the primitive.
    pub fn maximum(&self) -> (r: Int)
        ensures
            r.wf(),
            r@ == repr_max(*self),
    {
        if !self.signed {
            match self.size {
                ReprSize::Fixed8 => Int::from_u128(u8::MAX as u128),
                ReprSize::Fixed16 => Int::from_u128(u16::MAX as u128),
                ReprSize::Fixed32 => Int::from_u128(u32::MAX as u128),
                ReprSize::Fixed64 => Int::from_u128(u64::MAX as u128),
                ReprSize::Fixed128 => Int::from_u128(u128::MAX),
                ReprSize::Pointer => Int::from_u128(usize::MAX as u128),
            }
        } else {
            match self.size {
                ReprSize::Fixed8 => Int::from_i128(i8::MAX as i128),
                ReprSize::Fixed16 => Int::from_i128(i16::MAX as i128),
                ReprSize::Fixed32 => Int::from_i128(i32::MAX as i128),
                ReprSize::Fixed64 => Int::from_i128(i64::MAX as i128),
                ReprSize::Fixed128 => Int::from_i128(i128::MAX),
                ReprSize::Pointer => Int::from_i128(isize::MAX as i128),
            }
        }
    }

    /// Whether `v` is a value of the primitive.
    pub fn contains(&self, v: &Int) -> (r: bool)
        requires
            v.wf(),
        ensures
            r == repr_contains(*self, v@),
    {
        self.minimum().le(v) && v.le(&self.maximum())
    }

    /// Renders `v` as a literal of the primitive, or `None` where `v` is not
    /// one of its values.
    pub fn try_number_literal(&self, v: &Int) -> (r: Option<String>)
        requires
            v.wf(),
        ensures
            r.is_some() == repr_contains(*self, v@),
            r matches Some(s) ==> s@ == literal_text(*self, v@),
    {
        if !self.contains(v) {
            return None;
        }
        let digits = decimal(v.magnitude());
        let text = if v.is_negative() {
            proof {
                reveal_strlit("-");
            }
            String::from_str("-").concat(digits.as_str())
        } else {
            digits
        };
        let r = text.concat(self.name());
        assert(r@ =~= literal_text(*self, v@));
        Some(r)
    }

    /// Renders `v`, a value of the primitive, as a literal of it.
    pub fn number_literal(&self, v: &Int) -> (r: String)
        requires
            v.wf(),
            repr_contains(*self, v@),
        ensures
            r@ == literal_text(*self, v@),
    {
        match self.try_number_literal(v) {
            Some(s) => s,
            None => String::new(),
        }
    }

    /// The primitives into which this one converts without loss, in the order
    /// of `all_reprs`.
    pub fn larger_reprs(&self) -> (r: Vec<Repr>)
        ensures
            r@ == all_reprs().filter(|to: Repr| widens_to(*self, to)),
    {
        let all = all_reprs_vec();
        let mut out: Vec<Repr> = Vec::new();
        let mut i: usize = 0;
        while i < all.len()
            invariant
                all@ == all_reprs(),
                0 <= i <= all@.len(),
                out@ == all@.take(i as int).filter(|to: Repr| widens_to(*self, to)),
            decreases all@.len() - i,
        {
            let to = all[i];
            proof {
                assert(all@.take(i as int + 1).drop_last() =~= all@.take(i as int));
                reveal(Seq::filter);
            }
            if widens(self, &to) {
                out.push(to);
            }
            i = i + 1;
        }
        assert(all@.take(all@.len() as int) =~= all@);
        out
    }
}

fn widens(from: &Repr, to: &Repr) -> (r: bool)
    ensures
        r == widens_to(*from, *to),
{
    let fb = fixed_width(from.size);
    let tb = fixed_width(to.size);
    match (from.size, to.size) {
        (ReprSize::Pointer, _) => false,
        (_, ReprSize::Pointer) => if to.signed {
            fb == 8 || (fb == 16 && from.signed)
        } else {
            !from.signed && fb <= 16
        },
        _ => tb > fb && (to.signed || !from.signed),
    }
}

fn fixed_width(size: ReprSize) -> (r: u32)
    ensures
        r as nat == fixed_bits(size),
{
    match size {
        ReprSize::Fixed8 => 8,
        ReprSize::Fixed16 => 16,
        ReprSize::Fixed32 => 32,
        ReprSize::Fixed64 => 64,
        ReprSize::Fixed128 => 128,
        ReprSize::Pointer => 0,
    }
}

} // verus!
