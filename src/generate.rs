//! The generator's model of one bounded integer declaration, and the
//! decisions that shape the code generated for it.

use vstd::prelude::*;
use crate::bigint::{decimal, decimal_of, digit_char, Int};
use crate::model::bounded_in_range;
use crate::repr::{literal_text, repr_contains, repr_name, Repr};

verus! {

/// How the bounded integer is laid out.
#[derive(Clone, Copy, Debug, PartialEq, Eq, Structural)]
pub enum Kind {
    /// One named variant per value, with the primitive's layout.
    Enum,
    /// A single field of the primitive.
    Struct,
}

/// Why a declaration cannot be generated.
#[derive(Clone, Copy, Debug, PartialEq, Eq, Structural)]
pub enum SpecError {
    /// The minimum, given, is not a value of the declared primitive, given.
    MinOutOfRepr(Int, Repr),
    /// The maximum, given, is not a value of the declared primitive, given.
    MaxOutOfRepr(Int, Repr),
    /// The minimum, given first, exceeds the maximum, given second, over the
    /// declared primitive.
    MinAboveMax(Int, Int, Repr),
}

/// A parsed bounded integer declaration: a name, a primitive, a layout and
/// an inclusive range of the primitive's values.
#[derive(Clone, Debug)]
pub struct BoundedInteger {
    pub ident: String,
    pub repr: Repr,
    pub kind: Kind,
    pub min: Int,
    pub max: Int,
}

/// The name of the variant for `v`: `N` and the magnitude for a negative
/// value, `Z` for zero, `P` and the value for a positive one.
pub open spec fn variant_name(v: int) -> Seq<char> {
    if v < 0 {
        seq!['N'] + decimal_of((-v) as nat)
    } else if v == 0 {
        seq!['Z']
    } else {
        seq!['P'] + decimal_of(v as nat)
    }
}

/// The text `, V1, V2, ...` naming the `count` values from `start` on.
pub open spec fn variant_tail_text(start: int, count: nat) -> Seq<char>
    decreases count,
{
    if count == 0 {
        Seq::empty()
    } else {
        variant_tail_text(start, (count - 1) as nat) + seq![',', ' '] + variant_name(
            start + count - 1,
        )
    }
}

/// The body of the enum: the first variant with its discriminant as a
/// literal of the primitive, then every later value's variant in ascending
/// order, each taking the next discriminant implicitly.
pub open spec fn enum_body_text(repr: Repr, min: int, max: int) -> Seq<char> {
    variant_name(min) + seq![' ', '=', ' '] + literal_text(repr, min) + variant_tail_text(
        min + 1,
        (max - min) as nat,
    )
}

/// The decimal text of `v`, with a leading `-` when it is negative.
pub open spec fn signed_decimal_text(v: int) -> Seq<char> {
    if v < 0 {
        seq!['-'] + decimal_of((-v) as nat)
    } else {
        decimal_of(v as nat)
    }
}

proof fn lemma_decimal_len(n: nat)
    ensures
        decimal_of(n).len() >= 1,
        n >= 10 ==> decimal_of(n).len() >= 2,
    decreases n,
{
    if n >= 10 {
        lemma_decimal_len(n / 10);
    }
}

proof fn lemma_decimal_injective(m: nat, n: nat)
    requires
        decimal_of(m) == decimal_of(n),
    ensures
        m == n,
    decreases m,
{
    lemma_decimal_len(m);
    lemma_decimal_len(n);
    if m >= 10 && n >= 10 {
        let dm = decimal_of(m);
        let dn = decimal_of(n);
        assert(dm.drop_last() =~= decimal_of(m / 10));
        assert(dn.drop_last() =~= decimal_of(n / 10));
        lemma_decimal_injective(m / 10, n / 10);
        assert(dm.last() == digit_char(m % 10));
        assert(dn.last() == digit_char(n % 10));
    } else if m < 10 && n < 10 {
        assert(decimal_of(m)[0] == digit_char(m));
        assert(decimal_of(n)[0] == digit_char(n));
    }
}

/// Distinct values get distinct variant names, so each variant of a
/// generated enum stands for exactly one value and converting a variant to
/// its value and back yields the same variant.
pub proof fn lemma_variant_name_injective(a: int, b: int)
    requires
        variant_name(a) == variant_name(b),
    ensures
        a == b,
{
    let na = variant_name(a);
    let nb = variant_name(b);
    assert(na[0] == nb[0]);
    if a < 0 && b < 0 {
        assert(na.drop_first() =~= decimal_of((-a) as nat));
        assert(nb.drop_first() =~= decimal_of((-b) as nat));
        lemma_decimal_injective((-a) as nat, (-b) as nat);
    } else if a > 0 && b > 0 {
        assert(na.drop_first() =~= decimal_of(a as nat));
        assert(nb.drop_first() =~= decimal_of(b as nat));
        lemma_decimal_injective(a as nat, b as nat);
    }
}

/// The name of the variant for `v`.
pub fn enum_variant(v: &Int) -> (r: String)
    requires
        v.wf(),
    ensures
        r@ == variant_name(v@),
{
    proof {
        reveal_strlit("N");
        reveal_strlit("Z");
        reveal_strlit("P");
    }
    if v.is_negative() {
        String::from_str("N").concat(decimal(v.magnitude()).as_str())
    } else if v.is_zero() {
        String::from_str("Z")
    } else {
        String::from_str("P").concat(decimal(v.magnitude()).as_str())
    }
}

/// The decimal text of `v`.
pub fn signed_decimal(v: &Int) -> (r: String)
    requires
        v.wf(),
    ensures
        r@ == signed_decimal_text(v@),
{
    proof {
        reveal_strlit("-");
    }
    let digits = decimal(v.magnitude());
    if v.is_negative() {
        String::from_str("-").concat(digits.as_str())
    } else {
        digits
    }
}

/// One value of an enum-shaped bounded integer and its variant name.
#[derive(Clone, Debug)]
pub struct Variant {
    pub name: String,
    pub value: Int,
}

impl BoundedInteger {
    /// A declaration is generated only for a range `min <= max` whose bounds
    /// are both values of the primitive.
    pub open spec fn wf(&self) -> bool {
        &&& self.min.wf()
        &&& self.max.wf()
        &&& repr_contains(self.repr, self.min@)
        &&& repr_contains(self.repr, self.max@)
        &&& self.min@ <= self.max@
    }

    /// Checks a declaration: the minimum, then the maximum, must be values of
    /// the primitive, and the minimum must not exceed the maximum.
    pub fn new(ident: String, repr: Repr, kind: Kind, min: Int, max: Int) -> (r: Result<
        BoundedInteger,
        SpecError,
    >)
        requires
            min.wf(),
            max.wf(),
        ensures
            !repr_contains(repr, min@) ==> r == Err::<BoundedInteger, SpecError>(
                SpecError::MinOutOfRepr(min, repr),
            ),
            repr_contains(repr, min@) && !repr_contains(repr, max@) ==> r == Err::<
                BoundedInteger,
                SpecError,
            >(SpecError::MaxOutOfRepr(max, repr)),
            repr_contains(repr, min@) && repr_contains(repr, max@) && min@ > max@ ==> r == Err::<
                BoundedInteger,
                SpecError,
            >(SpecError::MinAboveMax(min, max, repr)),
            r.is_ok() <==> repr_contains(repr, min@) && repr_contains(repr, max@) && min@ <= max@,
            r matches Ok(b) ==> b.wf() && b.ident@ == ident@ && b.repr == repr && b.kind == kind
                && b.min == min && b.max == max,
    {
        if !repr.contains(&min) {
            Err(SpecError::MinOutOfRepr(min, repr))
        } else if !repr.contains(&max) {
            Err(SpecError::MaxOutOfRepr(max, repr))
        } else if !min.le(&max) {
            Err(SpecError::MinAboveMax(min, max, repr))
        } else {
            Ok(BoundedInteger { ident, repr, kind, min, max })
        }
    }

    /// Whether `v` lies in the declared range.
    pub fn contains(&self, v: &Int) -> (r: bool)
        requires
            self.wf(),
            v.wf(),
        ensures
            r == (self.min@ <= v@ && v@ <= self.max@),
            r == bounded_in_range(self.min@, self.max@, v@),
    {
        self.min.le(v) && v.le(&self.max)
    }

    /// Whether the type gets `Sum`: its range holds zero, the seed of the fold.
    pub fn has_sum(&self) -> (r: bool)
        requires
            self.wf(),
        ensures
            r == (self.min@ <= 0 && 0 <= self.max@),
    {
        self.contains(&Int::from_u128(0))
    }

    /// Whether the type gets `Product`: its range holds one, the seed of the
    /// fold.
    pub fn has_product(&self) -> (r: bool)
        requires
            self.wf(),
        ensures
            r == (self.min@ <= 1 && 1 <= self.max@),
    {
        self.contains(&Int::from_u128(1))
    }

    /// The minimum as a literal of the primitive.
    pub fn min_value_literal(&self) -> (r: String)
        requires
            self.wf(),
        ensures
            r@ == literal_text(self.repr, self.min@),
    {
        self.repr.number_literal(&self.min)
    }

    /// The maximum as a literal of the primitive.
    pub fn max_value_literal(&self) -> (r: String)
        requires
            self.wf(),
        ensures
            r@ == literal_text(self.repr, self.max@),
    {
        self.repr.number_literal(&self.max)
    }

    /// The values of the range in ascending order, each with its variant
    /// name.
    pub fn variants(&self) -> (r: Vec<Variant>)
        requires
            self.wf(),
        ensures
            r@.len() == self.max@ - self.min@ + 1,
            forall|k: int|
                #![trigger r@[k]]
                0 <= k < r@.len() ==> {
                    &&& r@[k].value.wf()
                    &&& r@[k].value@ == self.min@ + k
                    &&& r@[k].name@ == variant_name(self.min@ + k)
                },
    {
        let mut out: Vec<Variant> = Vec::new();
        out.push(Variant { name: enum_variant(&self.min), value: self.min });
        let mut cur = self.min;
        while !cur.same(&self.max)
            invariant
                self.wf(),
                cur.wf(),
                self.min@ <= cur@ <= self.max@,
                out@.len() == cur@ - self.min@ + 1,
                forall|k: int|
                    #![trigger out@[k]]
                    0 <= k < out@.len() ==> {
                        &&& out@[k].value.wf()
                        &&& out@[k].value@ == self.min@ + k
                        &&& out@[k].name@ == variant_name(self.min@ + k)
                    },
            decreases self.max@ - cur@,
        {
            let next = match cur.checked_succ() {
                Some(n) => n,
                None => cur,
            };
            out.push(Variant { name: enum_variant(&next), value: next });
            cur = next;
        }
        out
    }

    /// The body of the enum: `N8 = -8i8, N7, ..., P7` for `-8..=7` over `i8`.
    pub fn enum_body(&self) -> (r: String)
        requires
            self.wf(),
        ensures
            r@ == enum_body_text(self.repr, self.min@, self.max@),
    {
        proof {
            reveal_strlit(" = ");
            reveal_strlit(", ");
        }
        let head = enum_variant(&self.min).concat(" = ").concat(
            self.min_value_literal().as_str(),
        );
        let mut text = head.clone();
        let mut cur = self.min;
        assert(text@ =~= head@ + variant_tail_text(self.min@ + 1, 0));
        while !cur.same(&self.max)
            invariant
                self.wf(),
                cur.wf(),
                self.min@ <= cur@ <= self.max@,
                head@ == variant_name(self.min@) + seq![' ', '=', ' '] + literal_text(
                    self.repr,
                    self.min@,
                ),
                text@ == head@ + variant_tail_text(self.min@ + 1, (cur@ - self.min@) as nat),
            decreases self.max@ - cur@,
        {
            let next = match cur.checked_succ() {
                Some(n) => n,
                None => cur,
            };
            let ghost before = text@;
            text = text.concat(", ").concat(enum_variant(&next).as_str());
            proof {
                reveal_strlit(", ");
                let count = (next@ - self.min@) as nat;
                assert(next@ == cur@ + 1);
                assert(variant_tail_text(self.min@ + 1, count) == variant_tail_text(
                    self.min@ + 1,
                    (count - 1) as nat,
                ) + seq![',', ' '] + variant_name(next@));
                assert(text@ =~= head@ + variant_tail_text(self.min@ + 1, count));
            }
            cur = next;
        }
        assert(text@ =~= enum_body_text(self.repr, self.min@, self.max@));
        text
    }
}

/// The literals that the generated range test probes.
#[derive(Clone, Debug)]
pub struct RangeProbes {
    /// The minimum.
    pub min: String,
    /// The maximum.
    pub max: String,
    /// The value just above the minimum, or the minimum of a one-value range.
    pub above_min: String,
    /// The value just below the maximum, or the maximum of a one-value range.
    pub below_max: String,
    /// The value just below the range, where the primitive has it.
    pub below_range: Option<String>,
    /// The value just above the range, where the primitive has it.
    pub above_range: Option<String>,
}

impl BoundedInteger {
    /// The literals for the generated range and saturation tests. A value
    /// just outside the range is absent where the bound is the primitive's
    /// own edge; the test then checks that edge instead.
    pub fn generate_test_range(&self) -> (r: RangeProbes)
        requires
            self.wf(),
        ensures
            r.min@ == literal_text(self.repr, self.min@),
            r.max@ == literal_text(self.repr, self.max@),
            r.above_min@ == literal_text(
                self.repr,
                if self.min@ < self.max@ {
                    self.min@ + 1
                } else {
                    self.min@
                },
            ),
            r.below_max@ == literal_text(
                self.repr,
                if self.min@ < self.max@ {
                    self.max@ - 1
                } else {
                    self.max@
                },
            ),
            r.below_range.is_some() == repr_contains(self.repr, self.min@ - 1),
            r.below_range matches Some(s) ==> s@ == literal_text(self.repr, self.min@ - 1),
            r.above_range.is_some() == repr_contains(self.repr, self.max@ + 1),
            r.above_range matches Some(s) ==> s@ == literal_text(self.repr, self.max@ + 1),
    {
        let one_value = self.min.same(&self.max);
        let succ_min = self.min.checked_succ();
        let pred_max = self.max.checked_pred();
        let above_min = match succ_min {
            Some(v) if !one_value => v,
            _ => self.min,
        };
        let below_max = match pred_max {
            Some(v) if !one_value => v,
            _ => self.max,
        };
        let below_range = match self.min.checked_pred() {
            Some(v) => self.repr.try_number_literal(&v),
            None => None,
        };
        let above_range = match self.max.checked_succ() {
            Some(v) => self.repr.try_number_literal(&v),
            None => None,
        };
        RangeProbes {
            min: self.min_value_literal(),
            max: self.max_value_literal(),
            above_min: self.repr.number_literal(&above_min),
            below_max: self.repr.number_literal(&below_max),
            below_range,
            above_range,
        }
    }
}

/// The layout attribute: the primitive's own for an enum, so that each
/// discriminant is its value; `transparent` for a struct.
pub open spec fn layout_attr_text(kind: Kind, repr: Repr) -> Seq<char> {
    match kind {
        Kind::Enum => "repr("@ + repr_name(repr) + ")"@,
        Kind::Struct => "repr(transparent)"@,
    }
}

/// The expression that builds the instance holding `v`, a value of the
/// range: the field for a struct, the variant for an enum.
pub open spec fn constructor_text(kind: Kind, v: int, constant: Seq<char>) -> Seq<char> {
    match kind {
        Kind::Enum => "Self::"@ + variant_name(v),
        Kind::Struct => "Self(Self::"@ + constant + ")"@,
    }
}

impl BoundedInteger {
    /// The layout attribute of the generated type.
    pub fn layout_attr(&self) -> (r: String)
        ensures
            r@ == layout_attr_text(self.kind, self.repr),
    {
        match self.kind {
            Kind::Enum => String::from_str("repr(").concat(self.repr.name()).concat(")"),
            Kind::Struct => String::from_str("repr(transparent)"),
        }
    }

    /// The expressions for the `MIN` and `MAX` instances.
    pub fn min_max(&self) -> (r: (String, String))
        requires
            self.wf(),
        ensures
            r.0@ == constructor_text(self.kind, self.min@, "MIN_VALUE"@),
            r.1@ == constructor_text(self.kind, self.max@, "MAX_VALUE"@),
    {
        match self.kind {
            Kind::Enum => (
                String::from_str("Self::").concat(enum_variant(&self.min).as_str()),
                String::from_str("Self::").concat(enum_variant(&self.max).as_str()),
            ),
            Kind::Struct => (
                String::from_str("Self(Self::").concat("MIN_VALUE").concat(")"),
                String::from_str("Self(Self::").concat("MAX_VALUE").concat(")"),
            ),
        }
    }

    /// The documentation of `MIN_VALUE` and `MAX_VALUE`.
    pub fn min_max_value_docs(&self) -> (r: (String, String))
        requires
            self.wf(),
        ensures
            r.0@ == "The smallest value that this bounded integer can contain; "@
                + signed_decimal_text(self.min@) + "."@,
            r.1@ == "The largest value that this bounded integer can contain; "@
                + signed_decimal_text(self.max@) + "."@,
    {
        (
            String::from_str("The smallest value that this bounded integer can contain; ").concat(
                signed_decimal(&self.min).as_str(),
            ).concat("."),
            String::from_str("The largest value that this bounded integer can contain; ").concat(
                signed_decimal(&self.max).as_str(),
            ).concat("."),
        )
    }

    /// The documentation of `MIN` and `MAX`.
    pub fn min_max_docs(&self) -> (r: (String, String))
        requires
            self.wf(),
        ensures
            r.0@ == "The smallest value of the bounded integer; "@ + signed_decimal_text(self.min@)
                + "."@,
            r.1@ == "The largest value of the bounded integer; "@ + signed_decimal_text(self.max@)
                + "."@,
    {
        (
            String::from_str("The smallest value of the bounded integer; ").concat(
                signed_decimal(&self.min).as_str(),
            ).concat("."),
            String::from_str("The largest value of the bounded integer; ").concat(
                signed_decimal(&self.max).as_str(),
            ).concat("."),
        )
    }
}

/// One arm of the enum's `new` (`-8i8 => ::core::option::Option::Some(Self::N8),`)
/// or, when `saturating`, of its `new_saturating` (`-8i8 => Self::N8,`).
pub open spec fn arm_text(repr: Repr, v: int, saturating: bool) -> Seq<char> {
    if saturating {
        literal_text(repr, v) + " => Self::"@ + variant_name(v) + ","@
    } else {
        literal_text(repr, v) + " => ::core::option::Option::Some(Self::"@ + variant_name(v)
            + "),"@
    }
}

/// The arms for the `count` values from `start` on, in ascending order.
pub open spec fn arms_text(repr: Repr, start: int, count: nat, saturating: bool) -> Seq<char>
    decreases count,
{
    if count == 0 {
        Seq::empty()
    } else {
        arms_text(repr, start, (count - 1) as nat, saturating) + arm_text(
            repr,
            start + count - 1,
            saturating,
        )
    }
}

impl BoundedInteger {
    fn arm(&self, v: &Int, saturating: bool) -> (r: String)
        requires
            v.wf(),
            repr_contains(self.repr, v@),
        ensures
            r@ == arm_text(self.repr, v@, saturating),
    {
        let lit = self.repr.number_literal(v);
        let name = enum_variant(v);
        if saturating {
            lit.concat(" => Self::").concat(name.as_str()).concat(",")
        } else {
            lit.concat(" => ::core::option::Option::Some(Self::").concat(name.as_str()).concat(
                "),",
            )
        }
    }

    /// The match arms that map each value of the range to its variant, in
    /// ascending order: for `new` each wrapped in `Some`, for
    /// `new_saturating` bare.
    pub fn constructor_arms(&self, saturating: bool) -> (r: String)
        requires
            self.wf(),
        ensures
            r@ == arms_text(self.repr, self.min@, (self.max@ - self.min@ + 1) as nat, saturating),
    {
        let mut text = self.arm(&self.min, saturating);
        let mut cur = self.min;
        assert(arms_text(self.repr, self.min@, 0, saturating) =~= Seq::empty());
        assert(arms_text(self.repr, self.min@, 1, saturating) =~= arm_text(
            self.repr,
            self.min@,
            saturating,
        ));
        while !cur.same(&self.max)
            invariant
                self.wf(),
                cur.wf(),
                self.min@ <= cur@ <= self.max@,
                text@ == arms_text(self.repr, self.min@, (cur@ - self.min@ + 1) as nat, saturating),
            decreases self.max@ - cur@,
        {
            let next = match cur.checked_succ() {
                Some(n) => n,
                None => cur,
            };
            text = text.concat(self.arm(&next, saturating).as_str());
            proof {
                let count = (next@ - self.min@ + 1) as nat;
                assert(self.min@ + count - 1 == next@);
                assert(text@ =~= arms_text(self.repr, self.min@, count, saturating));
            }
            cur = next;
        }
        text
    }
}

} // verus!
