use bounded_integer::bigint::{decimal, Int};
use bounded_integer::emit::{binop_impls, full_repr, method_item, unop_impls};
use bounded_integer::generate::{enum_variant, signed_decimal, BoundedInteger, Kind, SpecError};
use bounded_integer::ops::{
    checked_operators, generate_checked_operators, generate_ops_traits, CheckedOperator, Operand,
    Variants,
};
use bounded_integer::repr::{Repr, ReprSize};

fn repr(signed: bool, size: ReprSize) -> Repr {
    Repr { signed, size }
}

fn decl(name: &str, r: Repr, kind: Kind, min: i128, max: i128) -> BoundedInteger {
    BoundedInteger::new(name.to_string(), r, kind, Int::from_i128(min), Int::from_i128(max))
        .unwrap()
}

#[test]
fn decimal_rendering() {
    assert_eq!(decimal(0), "0");
    assert_eq!(decimal(7), "7");
    assert_eq!(decimal(1234567890), "1234567890");
    assert_eq!(decimal(u128::MAX), u128::MAX.to_string());
}

#[test]
fn signed_decimal_rendering() {
    assert_eq!(signed_decimal(&Int::from_i128(-8)), "-8");
    assert_eq!(signed_decimal(&Int::from_i128(0)), "0");
    assert_eq!(signed_decimal(&Int::from_i128(i128::MIN)), i128::MIN.to_string());
}

#[test]
fn int_successor_and_order() {
    let max = Int::from_u128(u128::MAX);
    assert!(max.checked_succ().is_none());
    let m1 = Int::from_i128(-1);
    assert_eq!(m1.checked_succ(), Some(Int::from_u128(0)));
    assert_eq!(Int::from_u128(0).checked_pred(), Some(m1));
    assert!(Int::from_i128(-9).le(&Int::from_i128(-8)));
    assert!(!Int::from_i128(8).le(&Int::from_i128(-8)));
    assert!(Int::from_parts(true, 0).same(&Int::from_u128(0)));
    assert_eq!(Int::from_i128(i128::MIN).magnitude(), 1u128 << 127);
}

#[test]
fn variant_names() {
    assert_eq!(enum_variant(&Int::from_i128(-8)), "N8");
    assert_eq!(enum_variant(&Int::from_i128(0)), "Z");
    assert_eq!(enum_variant(&Int::from_i128(7)), "P7");
    assert_eq!(enum_variant(&Int::from_i128(i128::MIN)), format!("N{}", 1u128 << 127));
}

#[test]
fn literals() {
    assert_eq!(repr(true, ReprSize::Fixed8).number_literal(&Int::from_i128(-8)), "-8i8");
    assert_eq!(repr(true, ReprSize::Pointer).number_literal(&Int::from_i128(-8)), "-8isize");
    assert_eq!(repr(false, ReprSize::Fixed16).number_literal(&Int::from_i128(3)), "3u16");
    assert_eq!(
        repr(false, ReprSize::Fixed128).number_literal(&Int::from_u128(u128::MAX)),
        format!("{}u128", u128::MAX)
    );
    assert_eq!(repr(false, ReprSize::Fixed8).try_number_literal(&Int::from_i128(256)), None);
    assert_eq!(repr(false, ReprSize::Fixed8).try_number_literal(&Int::from_i128(-1)), None);
    assert_eq!(repr(true, ReprSize::Fixed8).try_number_literal(&Int::from_i128(-129)), None);
    assert_eq!(
        repr(true, ReprSize::Fixed8).try_number_literal(&Int::from_i128(-128)),
        Some("-128i8".to_string())
    );
}

#[test]
fn declaration_errors() {
    let u8r = repr(false, ReprSize::Fixed8);
    let e = |min: i128, max: i128| {
        BoundedInteger::new("T".to_string(), u8r, Kind::Struct, Int::from_i128(min), Int::from_i128(max))
            .err()
    };
    assert_eq!(e(-1, 5), Some(SpecError::MinOutOfRepr(Int::from_i128(-1), u8r)));
    assert_eq!(e(0, 256), Some(SpecError::MaxOutOfRepr(Int::from_i128(256), u8r)));
    assert_eq!(
        e(7, 3),
        Some(SpecError::MinAboveMax(Int::from_i128(7), Int::from_i128(3), u8r))
    );
    assert_eq!(e(0, 255), None);
    assert_eq!(e(5, 5), None);
}

#[test]
fn enum_body_signed_pointer() {
    let d = decl("Nibble", repr(true, ReprSize::Pointer), Kind::Enum, -8, 7);
    assert_eq!(
        d.enum_body(),
        "N8 = -8isize, N7, N6, N5, N4, N3, N2, N1, Z, P1, P2, P3, P4, P5, P6, P7"
    );
}

#[test]
fn enum_body_unsigned() {
    let d = decl("Nibble", repr(false, ReprSize::Fixed16), Kind::Enum, 3, 7);
    assert_eq!(d.enum_body(), "P3 = 3u16, P4, P5, P6, P7");
}

#[test]
fn enum_body_single_value() {
    let d = decl("One", repr(true, ReprSize::Fixed8), Kind::Enum, 127, 127);
    assert_eq!(d.enum_body(), "P127 = 127i8");
}

#[test]
fn nibble_declaration_scenario() {
    let d = decl("Nibble", repr(true, ReprSize::Fixed8), Kind::Enum, -8, 7);
    let vs = d.variants();
    assert_eq!(vs.len(), 16);
    assert_eq!(vs[0].name, "N8");
    assert_eq!(vs[8].name, "Z");
    assert_eq!(vs[15].name, "P7");
    for (k, v) in vs.iter().enumerate() {
        assert!(v.value.same(&Int::from_i128(-8 + k as i128)));
    }
    assert_eq!(d.min_value_literal(), "-8i8");
    assert_eq!(d.max_value_literal(), "7i8");
    let p = d.generate_test_range();
    assert_eq!(p.below_range, Some("-9i8".to_string()));
    assert_eq!(p.above_range, Some("8i8".to_string()));
}

#[test]
fn full_domain_variants_terminate() {
    let d = decl("Byte", repr(false, ReprSize::Fixed8), Kind::Enum, 0, 255);
    let vs = d.variants();
    assert_eq!(vs.len(), 256);
    assert_eq!(vs[255].name, "P255");
}

#[test]
fn aggregate_folding_gates() {
    let nz = decl("NonZero", repr(false, ReprSize::Fixed8), Kind::Enum, 1, 15);
    assert!(!nz.has_sum());
    assert!(nz.has_product());
    let s = decl("Nibble", repr(true, ReprSize::Fixed8), Kind::Enum, -8, 7);
    assert!(s.has_sum());
    assert!(s.has_product());
    let hi = decl("High", repr(false, ReprSize::Fixed8), Kind::Struct, 2, 9);
    assert!(!hi.has_sum());
    assert!(!hi.has_product());
}

#[test]
fn probe_below_range_in_primitive() {
    let d = decl("Nibble", repr(false, ReprSize::Fixed16), Kind::Enum, 3, 7);
    let p = d.generate_test_range();
    assert_eq!(p.below_range, Some("2u16".to_string()));
    assert_eq!(p.above_range, Some("8u16".to_string()));
    assert_eq!(p.min, "3u16");
    assert_eq!(p.max, "7u16");
    assert_eq!(p.above_min, "4u16");
    assert_eq!(p.below_max, "6u16");
}

#[test]
fn probe_at_primitive_edges() {
    let d = decl("Full", repr(true, ReprSize::Fixed8), Kind::Struct, -128, 127);
    let p = d.generate_test_range();
    assert_eq!(p.below_range, None);
    assert_eq!(p.above_range, None);
    let w = decl("Wide", repr(false, ReprSize::Fixed128), Kind::Struct, 0, 0);
    let mut w = w;
    w.max = Int::from_u128(u128::MAX);
    let p = w.generate_test_range();
    assert_eq!(p.below_range, None);
    assert_eq!(p.above_range, None);
    let one = decl("One", repr(false, ReprSize::Fixed8), Kind::Struct, 255, 255);
    let p = one.generate_test_range();
    assert_eq!(p.above_min, "255u8");
    assert_eq!(p.below_max, "255u8");
    assert_eq!(p.below_range, Some("254u8".to_string()));
}

#[test]
fn wider_primitives() {
    let names = |r: Repr| -> Vec<&'static str> { r.larger_reprs().iter().map(|x| x.name()).collect() };
    assert_eq!(
        names(repr(false, ReprSize::Fixed8)),
        vec!["u16", "u32", "u64", "u128", "usize", "i16", "i32", "i64", "i128", "isize"]
    );
    assert_eq!(
        names(repr(false, ReprSize::Fixed16)),
        vec!["u32", "u64", "u128", "usize", "i32", "i64", "i128"]
    );
    assert_eq!(names(repr(true, ReprSize::Fixed8)), vec!["i16", "i32", "i64", "i128", "isize"]);
    assert_eq!(names(repr(true, ReprSize::Fixed16)), vec!["i32", "i64", "i128", "isize"]);
    assert_eq!(names(repr(true, ReprSize::Fixed64)), vec!["i128"]);
    assert!(names(repr(true, ReprSize::Fixed128)).is_empty());
    assert!(names(repr(false, ReprSize::Pointer)).is_empty());
}

#[test]
fn checked_operator_constructor() {
    let op = CheckedOperator::new("add", "integer addition", Some(Operand::SameAsRepr), Variants::All, Variants::NoOps);
    assert_eq!(op.name, "add");
    assert_eq!(op.description, "integer addition");
    assert_eq!(op.rhs, Some(Operand::SameAsRepr));
    assert_eq!(op.signed_variants, Variants::All);
    assert_eq!(op.unsigned_variants, Variants::NoOps);
    assert_eq!(checked_operators().len(), 10);
}

#[test]
fn unsigned_methods() {
    let u8r = repr(false, ReprSize::Fixed8);
    let ms = generate_checked_operators(u8r);
    let names: Vec<&str> = ms.iter().map(|m| m.name.as_str()).collect();
    assert_eq!(
        names,
        vec![
            "checked_add", "saturating_add", "checked_sub", "saturating_sub", "checked_mul",
            "saturating_mul", "checked_div", "checked_div_euclid", "checked_rem",
            "checked_rem_euclid", "checked_pow", "saturating_pow",
        ]
    );
    assert_eq!(ms[0].doc, "Checked integer addition.");
    assert_eq!(ms[1].doc, "Saturating integer addition.");
    assert_eq!(ms[0].rhs, Some(u8r));
    assert!(ms[1].saturating);
    assert!(!ms[0].saturating);
    assert_eq!(ms[10].rhs, Some(repr(false, ReprSize::Fixed32)));
}

#[test]
fn signed_methods() {
    let i16r = repr(true, ReprSize::Fixed16);
    let ms = generate_checked_operators(i16r);
    let names: Vec<&str> = ms.iter().map(|m| m.name.as_str()).collect();
    assert_eq!(
        names,
        vec![
            "checked_add", "saturating_add", "checked_sub", "saturating_sub", "checked_mul",
            "saturating_mul", "checked_div", "checked_div_euclid", "checked_rem",
            "checked_rem_euclid", "checked_neg", "saturating_neg", "checked_abs", "checked_pow",
            "saturating_pow",
        ]
    );
    assert_eq!(ms[12].doc, "Checked absolute value.");
    assert_eq!(ms[0].rhs, Some(i16r));
    assert_eq!(ms[10].rhs, None);
    assert!(ms[11].saturating);
}

#[test]
fn infix_operators() {
    let un: Vec<&str> =
        generate_ops_traits(repr(false, ReprSize::Fixed8)).iter().map(|o| o.trait_name).collect();
    assert_eq!(un, vec!["Add", "Sub", "Mul", "Div", "Rem"]);
    let si = generate_ops_traits(repr(true, ReprSize::Fixed8));
    let names: Vec<&str> = si.iter().map(|o| o.method).collect();
    assert_eq!(names, vec!["add", "sub", "mul", "div", "rem", "neg"]);
    assert!(!si[5].bin);
    assert_eq!(si[4].description, "take remainder");
}

#[test]
fn percent_declaration_plan() {
    let u8r = repr(false, ReprSize::Fixed8);
    let d = decl("Percent", u8r, Kind::Struct, 0, 100);
    assert_eq!(d.min_value_literal(), "0u8");
    assert_eq!(d.max_value_literal(), "100u8");
    assert!(d.contains(&Int::from_i128(100)));
    assert!(!d.contains(&Int::from_i128(101)));
    assert!(d.has_sum());
    let names: Vec<String> = generate_checked_operators(u8r).into_iter().map(|m| m.name).collect();
    assert!(names.contains(&"checked_add".to_string()));
    assert_eq!(generate_ops_traits(u8r)[0].trait_name, "Add");
}

#[test]
fn representation_texts() {
    let e = decl("Nibble", repr(true, ReprSize::Fixed8), Kind::Enum, -8, 7);
    assert_eq!(e.layout_attr(), "repr(i8)");
    assert_eq!(e.min_max(), ("Self::N8".to_string(), "Self::P7".to_string()));
    let s = decl("Percent", repr(false, ReprSize::Fixed8), Kind::Struct, 0, 100);
    assert_eq!(s.layout_attr(), "repr(transparent)");
    assert_eq!(
        s.min_max(),
        ("Self(Self::MIN_VALUE)".to_string(), "Self(Self::MAX_VALUE)".to_string())
    );
}

#[test]
fn bound_docs() {
    let e = decl("Nibble", repr(true, ReprSize::Fixed8), Kind::Enum, -8, 7);
    let (lo, hi) = e.min_max_value_docs();
    assert_eq!(lo, "The smallest value that this bounded integer can contain; -8.");
    assert_eq!(hi, "The largest value that this bounded integer can contain; 7.");
    let (lo, hi) = e.min_max_docs();
    assert_eq!(lo, "The smallest value of the bounded integer; -8.");
    assert_eq!(hi, "The largest value of the bounded integer; 7.");
}

#[test]
fn enum_constructor_arms() {
    let d = decl("Small", repr(true, ReprSize::Fixed8), Kind::Enum, -1, 1);
    assert_eq!(
        d.constructor_arms(false),
        "-1i8 => ::core::option::Option::Some(Self::N1),\
         0i8 => ::core::option::Option::Some(Self::Z),\
         1i8 => ::core::option::Option::Some(Self::P1),"
    );
    assert_eq!(d.constructor_arms(true), "-1i8 => Self::N1,0i8 => Self::Z,1i8 => Self::P1,");
}

#[test]
fn operator_symbols() {
    let symbols: String =
        generate_ops_traits(repr(true, ReprSize::Fixed32)).iter().map(|o| o.symbol).collect();
    assert_eq!(symbols, "+-*/%-");
}

#[test]
fn method_bodies() {
    let ms = generate_checked_operators(repr(true, ReprSize::Fixed8));
    assert_eq!(ms[0].body, "self.get().checked_add(rhs).and_then(Self::new)");
    assert_eq!(ms[1].body, "Self::new_saturating(self.get().saturating_add(rhs))");
    assert_eq!(ms[10].body, "self.get().checked_neg().and_then(Self::new)");
    assert_eq!(ms[11].body, "Self::new_saturating(self.get().saturating_neg())");
}

#[test]
fn struct_declaration() {
    let d = decl("S", repr(true, ReprSize::Fixed8), Kind::Struct, -3, 1);
    assert_eq!(d.layout_attr(), "repr(transparent)");
    assert_eq!(d.item_decl("pub"), "pub struct S(::core::primitive::i8);");
}

#[test]
fn enum_declaration() {
    let d = decl("Nibble", repr(true, ReprSize::Pointer), Kind::Enum, -8, 7);
    assert_eq!(d.layout_attr(), "repr(isize)");
    assert_eq!(
        d.item_decl("pub(crate)"),
        "pub(crate) enum Nibble { N8 = -8isize, N7, N6, N5, N4, N3, N2, N1, Z, P1, P2, P3, P4, P5, P6, P7 }"
    );
    let u = decl("Nibble", repr(false, ReprSize::Fixed16), Kind::Enum, 3, 7);
    assert_eq!(u.item_decl(""), " enum Nibble { P3 = 3u16, P4, P5, P6, P7 }");
}

#[test]
fn unary_operator_impls() {
    assert_eq!(
        unop_impls("Neg", "neg", "T", "B"),
        "impl ::core::ops::Neg for T { type Output = T; fn neg(self) -> Self::Output { B } } \
         impl ::core::ops::Neg for &T { type Output = T; fn neg(self) -> Self::Output { <T as ::core::ops::Neg>::neg(*self) } } "
    );
}

#[test]
fn binary_operator_impls() {
    let text = binop_impls("Add", "add", "T", "u8", "BODY");
    assert_eq!(text.matches("impl").count(), 6);
    assert_eq!(text.matches("type Output = T;").count(), 4);
    assert_eq!(text.matches("AddAssign").count(), 2);
    assert_eq!(text.matches("BODY").count(), 1);
    assert!(text.starts_with(
        "impl ::core::ops::Add<u8> for T { type Output = T; fn add(self, rhs: u8) -> Self::Output { BODY } } "
    ));
    assert!(text.contains(
        "impl<'a> ::core::ops::Add<&'a u8> for &T { type Output = T; fn add(self, rhs: &'a u8) -> Self::Output { <T as ::core::ops::Add<u8>>::add(*self, *rhs) } }"
    ));
    assert!(text.contains(
        "impl<'a> ::core::ops::AddAssign<&'a u8> for T { fn add_assign(&mut self, rhs: &'a u8) { *self = <Self as ::core::ops::Add<u8>>::add(*self, *rhs); } }"
    ));
}

#[test]
fn operator_families_share_one_implementation() {
    let d = decl("Nibble", repr(true, ReprSize::Fixed8), Kind::Enum, -8, 7);
    let ops = generate_ops_traits(d.repr);
    let add = d.operator_impls(&ops[0]);
    assert!(add.contains("impl ::core::ops::Add<::core::primitive::i8> for Nibble {"));
    assert!(add.contains("impl ::core::ops::Add<Nibble> for ::core::primitive::i8 {"));
    assert!(add.contains("impl ::core::ops::Add<Nibble> for Nibble {"));
    assert_eq!(add.matches("\"Attempted to add out of range\"").count(), 1);
    assert_eq!(
        add.matches("<Self as ::core::ops::Add<::core::primitive::i8>>::add(self, rhs.get())").count(),
        2
    );
    assert_eq!(add.matches("impl").count(), 18);
    let neg = d.operator_impls(&ops[5]);
    assert!(neg.starts_with("impl ::core::ops::Neg for Nibble { type Output = Nibble; fn neg(self) -> Self::Output { Self::new(<::core::primitive::i8 as ::core::ops::Neg>::neg(self.get())).expect(\"Attempted to negate out of range\") } }"));
    assert_eq!(full_repr(d.repr), "::core::primitive::i8");
}

#[test]
fn raw_access_by_layout() {
    let s = decl("Percent", repr(false, ReprSize::Fixed8), Kind::Struct, 0, 100).raw_access();
    assert_eq!(s.unchecked_const, "const ");
    assert_eq!(s.unchecked_body, "Self(n)");
    assert_eq!(s.get_body, "self.0");
    assert_eq!(s.get_ref_const, "const ");
    assert_eq!(s.get_ref_body, "&self.0");
    let e = decl("Nibble", repr(true, ReprSize::Fixed8), Kind::Enum, -8, 7).raw_access();
    assert_eq!(e.unchecked_const, "");
    assert_eq!(e.unchecked_body, "::core::mem::transmute::<::core::primitive::i8, Self>(n)");
    assert_eq!(e.get_body, "self as _");
    assert_eq!(e.get_ref_const, "");
    assert_eq!(e.get_ref_body, "unsafe { &*(self as *const Self as *const ::core::primitive::i8) }");
}

#[test]
fn constructor_bodies_by_layout() {
    let s = decl("Percent", repr(false, ReprSize::Fixed8), Kind::Struct, 0, 100);
    let (new, sat) = s.constructor_bodies();
    assert_eq!(
        new,
        "if Self::in_range(n) { ::core::option::Option::Some(Self(n)) } else { ::core::option::Option::None }"
    );
    assert_eq!(sat, "if n < Self::MIN_VALUE { Self::MIN } else if n > Self::MAX_VALUE { Self::MAX } else { Self(n) }");
    let e = decl("Small", repr(true, ReprSize::Fixed8), Kind::Enum, 0, 1);
    let (new, sat) = e.constructor_bodies();
    assert_eq!(
        new,
        "match n { 0i8 => ::core::option::Option::Some(Self::Z),1i8 => ::core::option::Option::Some(Self::P1), _ => ::core::option::Option::None, }"
    );
    assert_eq!(
        sat,
        "match n { ::core::primitive::i8::MIN..=Self::MIN_VALUE => Self::MIN, Self::MAX_VALUE..=::core::primitive::i8::MAX => Self::MAX, 0i8 => Self::Z,1i8 => Self::P1, }"
    );
}

#[test]
fn inherent_operator_text() {
    let u = decl("Percent", repr(false, ReprSize::Fixed8), Kind::Struct, 0, 100);
    let t = u.inherent_operators("pub");
    assert!(!t.contains("fn abs"));
    assert!(t.contains("pub fn pow(self, exp: ::core::primitive::u32) -> Self"));
    assert!(t.contains("pub fn div_euclid(self, rhs: ::core::primitive::u8) -> Self"));
    assert!(t.contains("pub fn rem_euclid(self, rhs: ::core::primitive::u8) -> Self"));
    let s = decl("Nibble", repr(true, ReprSize::Fixed8), Kind::Enum, -8, 7);
    assert!(s.inherent_operators("").contains(" fn abs(self) -> Self { Self::new(self.get().abs())"));
}

#[test]
fn serde_text() {
    let d = decl("Percent", repr(false, ReprSize::Fixed8), Kind::Struct, 0, 100);
    let t = d.serde_impls("serde");
    assert!(t.starts_with("impl serde::Serialize for Percent {"));
    assert!(t.contains("<::core::primitive::u8 as serde::Serialize>::serialize(&self.get(), serializer)"));
    assert!(t.contains("let value = <::core::primitive::u8 as serde::Deserialize<'de>>::deserialize(deserializer)?; Self::new(value)"));
    assert!(t.contains("integer out of range, expected it to be between {} and {}"));
}

#[test]
fn arithmetic_test_text() {
    let u = decl("Percent", repr(false, ReprSize::Fixed8), Kind::Struct, 0, 100);
    let t = u.arithmetic_test_body();
    assert!(t.starts_with("let _: Percent = Percent::MIN + 0; let _: Percent = &Percent::MIN + 0; "));
    assert!(t.contains("let _: u8 = &0 % &Percent::MIN; "));
    assert!(t.contains("*&mut 0 /= &Percent::MIN; "));
    assert_eq!(t.matches("*&mut").count(), 5 * 6);
    assert_eq!(t.matches("let _:").count(), 5 * 12 + 3 + 12);
    assert!(!t.contains("abs"));
    assert!(t.contains("let _: Percent = Percent::MIN.pow(0); "));
    assert!(t.contains("let _: Option<Percent> = Percent::MIN.checked_add(0); "));
    assert!(t.ends_with("let _: Percent = Percent::MIN.saturating_pow(0); "));
    let s = decl("Nibble", repr(true, ReprSize::Fixed8), Kind::Enum, -8, 7);
    let t = s.arithmetic_test_body();
    assert!(t.contains("let _: Nibble = -&Nibble::MIN; "));
    assert!(t.contains("let _: Option<Nibble> = Nibble::MIN.checked_neg(); "));
    assert!(t.contains("let _: Nibble = Nibble::MIN.saturating_neg(); "));
    assert_eq!(t.matches("let _:").count(), 5 * 12 + 3 + 3 + 15);
}

#[test]
fn method_items() {
    let ms = generate_checked_operators(repr(true, ReprSize::Fixed8));
    assert_eq!(
        method_item("pub", &ms[0]),
        "#[doc = \"Checked integer addition.\"] #[must_use] pub fn checked_add(self, rhs: ::core::primitive::i8) -> ::core::option::Option<Self> { self.get().checked_add(rhs).and_then(Self::new) } "
    );
    assert_eq!(
        method_item("", &ms[11]),
        "#[doc = \"Saturating negation.\"] #[must_use]  fn saturating_neg(self) -> Self { Self::new_saturating(self.get().saturating_neg()) } "
    );
    assert!(method_item("", &ms[13]).contains("fn checked_pow(self, rhs: ::core::primitive::u32)"));
}
