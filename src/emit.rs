//! The text of the generated items: each function here builds one fragment
//! of the bounded integer's source, exactly as its spec function states.

use vstd::prelude::*;
use crate::generate::{arms_text, enum_body_text, BoundedInteger, Kind};
use crate::ops::{
    checked_operator_table, generate_checked_operators, generate_ops_traits, method_plan,
    operator_table, Method, MethodView, Operator,
};
use crate::repr::{repr_name, Repr};

verus! {

/// The path of the primitive, such as `::core::primitive::i8`.
pub open spec fn full_repr_text(repr: Repr) -> Seq<char> {
    "::core::primitive::"@ + repr_name(repr)
}

/// The path of the primitive.
pub fn full_repr(repr: Repr) -> (r: String)
    ensures
        r@ == full_repr_text(repr),
{
    String::from_str("::core::primitive::").concat(repr.name())
}

/// The six impls of a binary operator trait for `lhs` and `rhs`: by value and
/// by reference on each side, each delegating to the by-value one whose body is
/// `body`, and the two assignment forms, which delegate to it as well.
pub open spec fn binop_impls_text(t: Seq<char>, m: Seq<char>, lhs: Seq<char>, rhs: Seq<char>, body: Seq<char>) -> Seq<char> {
    "impl ::core::ops::"@ + t + "<"@ + rhs + "> for "@ + lhs + " { type Output = "@ + lhs
    + "; fn "@ + m + "(self, rhs: "@ + rhs + ") -> Self::Output { "@ + body
    + " } } impl ::core::ops::"@ + t + "<"@ + rhs + "> for &"@ + lhs + " { type Output = "@
    + lhs + "; fn "@ + m + "(self, rhs: "@ + rhs + ") -> Self::Output { <"@ + lhs
    + " as ::core::ops::"@ + t + "<"@ + rhs + ">>::"@ + m
    + "(*self, rhs) } } impl<'b> ::core::ops::"@ + t + "<&'b "@ + rhs + "> for "@ + lhs
    + " { type Output = "@ + lhs + "; fn "@ + m + "(self, rhs: &'b "@ + rhs
    + ") -> Self::Output { <"@ + lhs + " as ::core::ops::"@ + t + "<"@ + rhs + ">>::"@ + m
    + "(self, *rhs) } } impl<'a> ::core::ops::"@ + t + "<&'a "@ + rhs + "> for &"@ + lhs
    + " { type Output = "@ + lhs + "; fn "@ + m + "(self, rhs: &'a "@ + rhs
    + ") -> Self::Output { <"@ + lhs + " as ::core::ops::"@ + t + "<"@ + rhs + ">>::"@ + m
    + "(*self, *rhs) } } impl ::core::ops::"@ + t + "Assign<"@ + rhs + "> for "@ + lhs
    + " { fn "@ + m + "_assign(&mut self, rhs: "@ + rhs + ") { *self = <Self as ::core::ops::"@
    + t + "<"@ + rhs + ">>::"@ + m + "(*self, rhs); } } impl<'a> ::core::ops::"@ + t
    + "Assign<&'a "@ + rhs + "> for "@ + lhs + " { fn "@ + m + "_assign(&mut self, rhs: &'a "@
    + rhs + ") { *self = <Self as ::core::ops::"@ + t + "<"@ + rhs + ">>::"@ + m
    + "(*self, *rhs); } } "@
}

/// Builds the text that `binop_impls_text` states.
pub fn binop_impls(t: &str, m: &str, lhs: &str, rhs: &str, body: &str) -> (r: String)
    ensures
        r@ == binop_impls_text(t@, m@, lhs@, rhs@, body@),
{
    String::from_str("impl ::core::ops::").concat(t).concat("<").concat(rhs)
        .concat("> for ").concat(lhs).concat(" { type Output = ").concat(lhs).concat("; fn ")
        .concat(m).concat("(self, rhs: ").concat(rhs).concat(") -> Self::Output { ")
        .concat(body).concat(" } } impl ::core::ops::").concat(t).concat("<").concat(rhs)
        .concat("> for &").concat(lhs).concat(" { type Output = ").concat(lhs).concat("; fn ")
        .concat(m).concat("(self, rhs: ").concat(rhs).concat(") -> Self::Output { <")
        .concat(lhs).concat(" as ::core::ops::").concat(t).concat("<").concat(rhs)
        .concat(">>::").concat(m).concat("(*self, rhs) } } impl<'b> ::core::ops::").concat(t)
        .concat("<&'b ").concat(rhs).concat("> for ").concat(lhs).concat(" { type Output = ")
        .concat(lhs).concat("; fn ").concat(m).concat("(self, rhs: &'b ").concat(rhs)
        .concat(") -> Self::Output { <").concat(lhs).concat(" as ::core::ops::").concat(t)
        .concat("<").concat(rhs).concat(">>::").concat(m)
        .concat("(self, *rhs) } } impl<'a> ::core::ops::").concat(t).concat("<&'a ").concat(rhs)
        .concat("> for &").concat(lhs).concat(" { type Output = ").concat(lhs).concat("; fn ")
        .concat(m).concat("(self, rhs: &'a ").concat(rhs).concat(") -> Self::Output { <")
        .concat(lhs).concat(" as ::core::ops::").concat(t).concat("<").concat(rhs)
        .concat(">>::").concat(m).concat("(*self, *rhs) } } impl ::core::ops::").concat(t)
        .concat("Assign<").concat(rhs).concat("> for ").concat(lhs).concat(" { fn ").concat(m)
        .concat("_assign(&mut self, rhs: ").concat(rhs)
        .concat(") { *self = <Self as ::core::ops::").concat(t).concat("<").concat(rhs)
        .concat(">>::").concat(m).concat("(*self, rhs); } } impl<'a> ::core::ops::").concat(t)
        .concat("Assign<&'a ").concat(rhs).concat("> for ").concat(lhs).concat(" { fn ")
        .concat(m).concat("_assign(&mut self, rhs: &'a ").concat(rhs)
        .concat(") { *self = <Self as ::core::ops::").concat(t).concat("<").concat(rhs)
        .concat(">>::").concat(m).concat("(*self, *rhs); } } ")
}

/// The two impls of a unary operator trait for `lhs`, the one by reference
/// delegating to the one by value, whose body is `body`.
pub open spec fn unop_impls_text(t: Seq<char>, m: Seq<char>, lhs: Seq<char>, body: Seq<char>) -> Seq<char> {
    "impl ::core::ops::"@ + t + " for "@ + lhs + " { type Output = "@ + lhs + "; fn "@ + m
    + "(self) -> Self::Output { "@ + body + " } } impl ::core::ops::"@ + t + " for &"@ + lhs
    + " { type Output = "@ + lhs + "; fn "@ + m + "(self) -> Self::Output { <"@ + lhs
    + " as ::core::ops::"@ + t + ">::"@ + m + "(*self) } } "@
}

/// Builds the text that `unop_impls_text` states.
pub fn unop_impls(t: &str, m: &str, lhs: &str, body: &str) -> (r: String)
    ensures
        r@ == unop_impls_text(t@, m@, lhs@, body@),
{
    String::from_str("impl ::core::ops::").concat(t).concat(" for ").concat(lhs)
        .concat(" { type Output = ").concat(lhs).concat("; fn ").concat(m)
        .concat("(self) -> Self::Output { ").concat(body).concat(" } } impl ::core::ops::")
        .concat(t).concat(" for &").concat(lhs).concat(" { type Output = ").concat(lhs)
        .concat("; fn ").concat(m).concat("(self) -> Self::Output { <").concat(lhs)
        .concat(" as ::core::ops::").concat(t).concat(">::").concat(m).concat("(*self) } } ")
}

/// The one implementation of a binary operator: the primitive's operator on
/// `get()`, checked by `new`, panicking out of range.
pub open spec fn canonical_binop_body_text(repr: Repr, op: Operator) -> Seq<char> {
    "Self::new(<"@ + full_repr_text(repr) + " as ::core::ops::"@ + op.trait_name@ + ">::"@
    + op.method@ + "(self.get(), rhs)).expect(\"Attempted to "@ + op.description@
    + " out of range\")"@
}

/// Builds the text that `canonical_binop_body_text` states.
pub fn canonical_binop_body(repr: Repr, op: &Operator) -> (r: String)
    ensures
        r@ == canonical_binop_body_text(repr, *op),
{
    let full = full_repr(repr);
    String::from_str("Self::new(<").concat(full.as_str()).concat(" as ::core::ops::")
        .concat(op.trait_name).concat(">::").concat(op.method)
        .concat("(self.get(), rhs)).expect(\"Attempted to ").concat(op.description)
        .concat(" out of range\")")
}

/// The body of every other binary operator impl: the canonical one applied to
/// the value of the right operand.
pub open spec fn delegate_binop_body_text(repr: Repr, op: Operator) -> Seq<char> {
    "<Self as ::core::ops::"@ + op.trait_name@ + "<"@ + full_repr_text(repr) + ">>::"@
    + op.method@ + "(self, rhs.get())"@
}

/// Builds the text that `delegate_binop_body_text` states.
pub fn delegate_binop_body(repr: Repr, op: &Operator) -> (r: String)
    ensures
        r@ == delegate_binop_body_text(repr, *op),
{
    let full = full_repr(repr);
    String::from_str("<Self as ::core::ops::").concat(op.trait_name).concat("<")
        .concat(full.as_str()).concat(">>::").concat(op.method).concat("(self, rhs.get())")
}

/// The body of a unary operator: the primitive's operator on `get()`, checked
/// by `new`.
pub open spec fn unop_body_text(repr: Repr, op: Operator) -> Seq<char> {
    "Self::new(<"@ + full_repr_text(repr) + " as ::core::ops::"@ + op.trait_name@ + ">::"@
    + op.method@ + "(self.get())).expect(\"Attempted to "@ + op.description@
    + " out of range\")"@
}

/// Builds the text that `unop_body_text` states.
pub fn unop_body(repr: Repr, op: &Operator) -> (r: String)
    ensures
        r@ == unop_body_text(repr, *op),
{
    let full = full_repr(repr);
    String::from_str("Self::new(<").concat(full.as_str()).concat(" as ::core::ops::")
        .concat(op.trait_name).concat(">::").concat(op.method)
        .concat("(self.get())).expect(\"Attempted to ").concat(op.description)
        .concat(" out of range\")")
}

/// All impls of one operator for the bounded integer `ident` over `repr`.
/// A binary operator gets three families, (bounded, primitive),
/// (primitive, bounded) and (bounded, bounded); the last two delegate to the
/// first, so that they cannot differ.
pub open spec fn operator_impls_text(ident: Seq<char>, repr: Repr, op: Operator) -> Seq<char> {
    let full = full_repr_text(repr);
    if op.bin {
        binop_impls_text(op.trait_name@, op.method@, ident, full, canonical_binop_body_text(repr, op))
            + binop_impls_text(
            op.trait_name@,
            op.method@,
            full,
            ident,
            delegate_binop_body_text(repr, op),
        ) + binop_impls_text(
            op.trait_name@,
            op.method@,
            ident,
            ident,
            delegate_binop_body_text(repr, op),
        )
    } else {
        unop_impls_text(op.trait_name@, op.method@, ident, unop_body_text(repr, op))
    }
}

/// The parts of the raw, unchecked access that depend on the layout.
pub struct RawAccess {
    /// `const ` where `new_unchecked` can be a constant function.
    pub unchecked_const: String,
    /// The body of `new_unchecked`.
    pub unchecked_body: String,
    /// The body of `get`.
    pub get_body: String,
    /// `const ` where `get_ref` can be a constant function.
    pub get_ref_const: String,
    /// The body of `get_ref`.
    pub get_ref_body: String,
}

pub struct RawAccessView {
    pub unchecked_const: Seq<char>,
    pub unchecked_body: Seq<char>,
    pub get_body: Seq<char>,
    pub get_ref_const: Seq<char>,
    pub get_ref_body: Seq<char>,
}

impl View for RawAccess {
    type V = RawAccessView;

    open spec fn view(&self) -> RawAccessView {
        RawAccessView {
            unchecked_const: self.unchecked_const@,
            unchecked_body: self.unchecked_body@,
            get_body: self.get_body@,
            get_ref_const: self.get_ref_const@,
            get_ref_body: self.get_ref_body@,
        }
    }
}

/// Raw access by layout: a struct builds and reads its field; an enum,
/// whose layout is the primitive's, reinterprets the bits.
pub open spec fn raw_access_text(kind: Kind, repr: Repr) -> RawAccessView {
    match kind {
        Kind::Struct => RawAccessView {
            unchecked_const: "const "@,
            unchecked_body: "Self(n)"@,
            get_body: "self.0"@,
            get_ref_const: "const "@,
            get_ref_body: "&self.0"@,
        },
        Kind::Enum => RawAccessView {
            unchecked_const: ""@,
            unchecked_body: "::core::mem::transmute::<"@ + full_repr_text(repr) + ", Self>(n)"@,
            get_body: "self as _"@,
            get_ref_const: ""@,
            get_ref_body: "unsafe { &*(self as *const Self as *const "@ + full_repr_text(repr)
                + ") }"@,
        },
    }
}

impl BoundedInteger {
    /// The layout-dependent parts of the raw access methods.
    pub fn raw_access(&self) -> (r: RawAccess)
        ensures
            r@ == raw_access_text(self.kind, self.repr),
    {
        match self.kind {
            Kind::Struct => RawAccess {
                unchecked_const: String::from_str("const "),
                unchecked_body: String::from_str("Self(n)"),
                get_body: String::from_str("self.0"),
                get_ref_const: String::from_str("const "),
                get_ref_body: String::from_str("&self.0"),
            },
            Kind::Enum => {
                let full = full_repr(self.repr);
                RawAccess {
                    unchecked_const: String::from_str(""),
                    unchecked_body: String::from_str("::core::mem::transmute::<").concat(
                        full.as_str(),
                    ).concat(", Self>(n)"),
                    get_body: String::from_str("self as _"),
                    get_ref_const: String::from_str(""),
                    get_ref_body: String::from_str("unsafe { &*(self as *const Self as *const ").concat(
                        full.as_str(),
                    ).concat(") }"),
                }
            },
        }
    }

    /// All impls of one operator of the table.
    pub fn operator_impls(&self, op: &Operator) -> (r: String)
        ensures
            r@ == operator_impls_text(self.ident@, self.repr, *op),
    {
        let full = full_repr(self.repr);
        if op.bin {
            let canonical = canonical_binop_body(self.repr, op);
            let delegate = delegate_binop_body(self.repr, op);
            binop_impls(
                op.trait_name,
                op.method,
                self.ident.as_str(),
                full.as_str(),
                canonical.as_str(),
            ).concat(
                binop_impls(
                    op.trait_name,
                    op.method,
                    full.as_str(),
                    self.ident.as_str(),
                    delegate.as_str(),
                ).as_str(),
            ).concat(
                binop_impls(
                    op.trait_name,
                    op.method,
                    self.ident.as_str(),
                    self.ident.as_str(),
                    delegate.as_str(),
                ).as_str(),
            )
        } else {
            unop_impls(op.trait_name, op.method, self.ident.as_str(), unop_body(self.repr, op).as_str())
        }
    }

    /// Serialisation through the primitive, and deserialisation that decodes
    /// the primitive and checks it with `new`, failing with the range in the
    /// message. `serde` is the path of the serialisation crate.
    pub fn serde_impls(&self, serde: &str) -> (r: String)
        ensures
            r@ == serde_text(self.ident@, self.repr, serde@),
    {
        let full = full_repr(self.repr);
        String::from_str("impl ").concat(serde).concat("::Serialize for ")
            .concat(self.ident.as_str())
            .concat(" { fn serialize<S>(&self, serializer: S) -> ::core::result::Result<<S as ")
            .concat(serde).concat("::Serializer>::Ok, <S as ").concat(serde)
            .concat("::Serializer>::Error> where S: ").concat(serde).concat("::Serializer { <")
            .concat(full.as_str()).concat(" as ").concat(serde)
            .concat("::Serialize>::serialize(&self.get(), serializer) } } impl<'de> ")
            .concat(serde).concat("::Deserialize<'de> for ").concat(self.ident.as_str())
            .concat(" { fn deserialize<D>(deserializer: D) -> ::core::result::Result<Self, <D as ")
            .concat(serde).concat("::Deserializer<'de>>::Error> where D: ").concat(serde)
            .concat("::Deserializer<'de> { let value = <").concat(full.as_str()).concat(" as ")
            .concat(serde)
            .concat("::Deserialize<'de>>::deserialize(deserializer)?; Self::new(value).ok_or_else(|| { <<D as ")
            .concat(serde).concat("::Deserializer<'de>>::Error as ").concat(serde)
            .concat("::de::Error>::custom(::core::format_args!(\"integer out of range, expected it to be between {} and {}\", Self::MIN_VALUE, Self::MAX_VALUE)) }) } }")
    }

    /// The body of the generated arithmetic test.
    pub fn arithmetic_test_body(&self) -> (r: String)
        ensures
            r@ == arithmetic_body_text(self.ident@, self.repr),
    {
        let ident = self.ident.as_str();
        let prim = self.repr.name();
        let ops = generate_ops_traits(self.repr);
        let mut text = String::new();
        let mut i: usize = 0;
        while i < ops.len()
            invariant
                ident@ == self.ident@,
                prim@ == repr_name(self.repr),
                ops@ == operator_table().filter(|op: Operator| self.repr.signed || op.on_unsigned),
                0 <= i <= ops@.len(),
                text@ == ops_test_text(ident@, prim@, ops@, i as nat),
            decreases ops@.len() - i,
        {
            if ops[i].bin {
                text = text.concat(binop_test(ident, prim, ops[i].symbol).as_str());
            }
            proof {
                assert(text@ =~= ops_test_text(ident@, prim@, ops@, (i + 1) as nat));
            }
            i = i + 1;
        }
        if self.repr.signed {
            text = text.concat(signed_test(ident).as_str());
        }
        text = text.concat(inherent_test(ident).as_str());
        let ms = generate_checked_operators(self.repr);
        let ghost plan = method_plan(checked_operator_table(), self.repr, checked_operator_table().len());
        let ghost head = text@;
        let mut j: usize = 0;
        while j < ms.len()
            invariant
                ident@ == self.ident@,
                ms@.map_values(|m: Method| m@) == plan,
                0 <= j <= ms@.len(),
                text@ == head + methods_test_text(ident@, plan, j as nat),
            decreases ms@.len() - j,
        {
            proof {
                assert(ms@.map_values(|m: Method| m@)[j as int] == ms@[j as int]@);
            }
            text = text.concat(method_test(ident, &ms[j]).as_str());
            proof {
                assert(text@ =~= head + methods_test_text(ident@, plan, (j + 1) as nat));
            }
            j = j + 1;
        }
        proof {
            assert(plan.len() == ms@.len());
        }
        text
    }

    /// The inherent operators of the generated type.
    pub fn inherent_operators(&self, vis: &str) -> (r: String)
        ensures
            r@ == inherent_operators_text(self.repr, vis@),
    {
        let head = if self.repr.signed {
            abs_method(vis)
        } else {
            String::new()
        };
        head.concat(panicking_methods(self.repr, vis).as_str())
    }

    /// The bodies of `new` and `new_saturating`.
    pub fn constructor_bodies(&self) -> (r: (String, String))
        requires
            self.wf(),
        ensures
            r.0@ == new_body_text(self.kind, self.repr, self.min@, self.max@),
            r.1@ == new_saturating_body_text(self.kind, self.repr, self.min@, self.max@),
    {
        match self.kind {
            Kind::Struct => (
                String::from_str(
                    "if Self::in_range(n) { ::core::option::Option::Some(Self(n)) } else { ::core::option::Option::None }",
                ),
                String::from_str(
                    "if n < Self::MIN_VALUE { Self::MIN } else if n > Self::MAX_VALUE { Self::MAX } else { Self(n) }",
                ),
            ),
            Kind::Enum => {
                let full = full_repr(self.repr);
                (
                    String::from_str("match n { ").concat(self.constructor_arms(false).as_str()).concat(
                        " _ => ::core::option::Option::None, }",
                    ),
                    String::from_str("match n { ").concat(full.as_str()).concat(
                        "::MIN..=Self::MIN_VALUE => Self::MIN, Self::MAX_VALUE..=",
                    ).concat(full.as_str()).concat("::MAX => Self::MAX, ").concat(
                        self.constructor_arms(true).as_str(),
                    ).concat(" }"),
                )
            },
        }
    }

    /// The declaration of the generated type, after its attributes.
    pub fn item_decl(&self, vis: &str) -> (r: String)
        requires
            self.wf(),
        ensures
            r@ == item_decl_text(self.ident@, self.kind, self.repr, self.min@, self.max@, vis@),
    {
        match self.kind {
            Kind::Struct => String::from_str(vis).concat(" struct ").concat(self.ident.as_str()).concat(
                "(",
            ).concat(full_repr(self.repr).as_str()).concat(");"),
            Kind::Enum => String::from_str(vis).concat(" enum ").concat(self.ident.as_str()).concat(
                " { ",
            ).concat(self.enum_body().as_str()).concat(" }"),
        }
    }
}

/// Serialisation through the primitive, and deserialisation that decodes the
/// primitive and checks it with `new`, failing with the range in the message.
/// `serde` is the path of the serialisation crate.
pub open spec fn serde_text(ident: Seq<char>, repr: Repr, serde: Seq<char>) -> Seq<char> {
    "impl "@ + serde + "::Serialize for "@ + ident
    + " { fn serialize<S>(&self, serializer: S) -> ::core::result::Result<<S as "@ + serde
    + "::Serializer>::Ok, <S as "@ + serde + "::Serializer>::Error> where S: "@ + serde
    + "::Serializer { <"@ + full_repr_text(repr) + " as "@ + serde
    + "::Serialize>::serialize(&self.get(), serializer) } } impl<'de> "@ + serde
    + "::Deserialize<'de> for "@ + ident
    + " { fn deserialize<D>(deserializer: D) -> ::core::result::Result<Self, <D as "@ + serde
    + "::Deserializer<'de>>::Error> where D: "@ + serde + "::Deserializer<'de> { let value = <"@
    + full_repr_text(repr) + " as "@ + serde
    + "::Deserialize<'de>>::deserialize(deserializer)?; Self::new(value).ok_or_else(|| { <<D as "@
    + serde + "::Deserializer<'de>>::Error as "@ + serde
    + "::de::Error>::custom(::core::format_args!(\"integer out of range, expected it to be between {} and {}\", Self::MIN_VALUE, Self::MAX_VALUE)) }) } }"@
}

/// The uses of a binary operator, whose symbol is `s`, in every form that the
/// bounded integer `ident` over the primitive named `prim` promises.
pub open spec fn binop_test_text(ident: Seq<char>, prim: Seq<char>, s: Seq<char>) -> Seq<char> {
    "let _: "@ + ident + " = "@ + ident + "::MIN "@ + s + " 0; let _: "@ + ident + " = &"@
    + ident + "::MIN "@ + s + " 0; let _: "@ + ident + " = "@ + ident + "::MIN "@ + s
    + " &0; let _: "@ + ident + " = &"@ + ident + "::MIN "@ + s + " &0; let _: "@ + prim
    + " = 0 "@ + s + " "@ + ident + "::MIN; let _: "@ + prim + " = 0 "@ + s + " &"@ + ident
    + "::MIN; let _: "@ + prim + " = &0 "@ + s + " "@ + ident + "::MIN; let _: "@ + prim
    + " = &0 "@ + s + " &"@ + ident + "::MIN; let _: "@ + ident + " = "@ + ident + "::MIN "@ + s
    + " "@ + ident + "::MIN; let _: "@ + ident + " = &"@ + ident + "::MIN "@ + s + " "@ + ident
    + "::MIN; let _: "@ + ident + " = "@ + ident + "::MIN "@ + s + " &"@ + ident
    + "::MIN; let _: "@ + ident + " = &"@ + ident + "::MIN "@ + s + " &"@ + ident
    + "::MIN; *&mut "@ + ident + "::MIN "@ + s + "= 0; *&mut "@ + ident + "::MIN "@ + s
    + "= &0; *&mut "@ + ident + "::MIN "@ + s + "= "@ + ident + "::MIN; *&mut "@ + ident
    + "::MIN "@ + s + "= &"@ + ident + "::MIN; *&mut 0 "@ + s + "= "@ + ident
    + "::MIN; *&mut 0 "@ + s + "= &"@ + ident + "::MIN; "@
}

/// Builds the text that `binop_test_text` states.
pub fn binop_test(ident: &str, prim: &str, s: &str) -> (r: String)
    ensures
        r@ == binop_test_text(ident@, prim@, s@),
{
    String::from_str("let _: ").concat(ident).concat(" = ").concat(ident).concat("::MIN ")
        .concat(s).concat(" 0; let _: ").concat(ident).concat(" = &").concat(ident)
        .concat("::MIN ").concat(s).concat(" 0; let _: ").concat(ident).concat(" = ")
        .concat(ident).concat("::MIN ").concat(s).concat(" &0; let _: ").concat(ident)
        .concat(" = &").concat(ident).concat("::MIN ").concat(s).concat(" &0; let _: ")
        .concat(prim).concat(" = 0 ").concat(s).concat(" ").concat(ident)
        .concat("::MIN; let _: ").concat(prim).concat(" = 0 ").concat(s).concat(" &")
        .concat(ident).concat("::MIN; let _: ").concat(prim).concat(" = &0 ").concat(s)
        .concat(" ").concat(ident).concat("::MIN; let _: ").concat(prim).concat(" = &0 ")
        .concat(s).concat(" &").concat(ident).concat("::MIN; let _: ").concat(ident)
        .concat(" = ").concat(ident).concat("::MIN ").concat(s).concat(" ").concat(ident)
        .concat("::MIN; let _: ").concat(ident).concat(" = &").concat(ident).concat("::MIN ")
        .concat(s).concat(" ").concat(ident).concat("::MIN; let _: ").concat(ident)
        .concat(" = ").concat(ident).concat("::MIN ").concat(s).concat(" &").concat(ident)
        .concat("::MIN; let _: ").concat(ident).concat(" = &").concat(ident).concat("::MIN ")
        .concat(s).concat(" &").concat(ident).concat("::MIN; *&mut ").concat(ident)
        .concat("::MIN ").concat(s).concat("= 0; *&mut ").concat(ident).concat("::MIN ")
        .concat(s).concat("= &0; *&mut ").concat(ident).concat("::MIN ").concat(s).concat("= ")
        .concat(ident).concat("::MIN; *&mut ").concat(ident).concat("::MIN ").concat(s)
        .concat("= &").concat(ident).concat("::MIN; *&mut 0 ").concat(s).concat("= ")
        .concat(ident).concat("::MIN; *&mut 0 ").concat(s).concat("= &").concat(ident)
        .concat("::MIN; ")
}

/// The uses of the operations that only signed bounded integers have.
pub open spec fn signed_test_text(ident: Seq<char>) -> Seq<char> {
    "let _: "@ + ident + " = "@ + ident + "::MIN.abs(); let _: "@ + ident + " = -"@ + ident
    + "::MIN; let _: "@ + ident + " = -&"@ + ident + "::MIN; "@
}

/// Builds the text that `signed_test_text` states.
pub fn signed_test(ident: &str) -> (r: String)
    ensures
        r@ == signed_test_text(ident@),
{
    String::from_str("let _: ").concat(ident).concat(" = ").concat(ident)
        .concat("::MIN.abs(); let _: ").concat(ident).concat(" = -").concat(ident)
        .concat("::MIN; let _: ").concat(ident).concat(" = -&").concat(ident).concat("::MIN; ")
}

/// The uses of the panicking inherent methods.
pub open spec fn inherent_test_text(ident: Seq<char>) -> Seq<char> {
    "let _: "@ + ident + " = "@ + ident + "::MIN.pow(0); let _: "@ + ident + " = "@ + ident
    + "::MIN.div_euclid(0); let _: "@ + ident + " = "@ + ident + "::MIN.rem_euclid(0); "@
}

/// Builds the text that `inherent_test_text` states.
pub fn inherent_test(ident: &str) -> (r: String)
    ensures
        r@ == inherent_test_text(ident@),
{
    String::from_str("let _: ").concat(ident).concat(" = ").concat(ident)
        .concat("::MIN.pow(0); let _: ").concat(ident).concat(" = ").concat(ident)
        .concat("::MIN.div_euclid(0); let _: ").concat(ident).concat(" = ").concat(ident)
        .concat("::MIN.rem_euclid(0); ")
}

/// The panicking absolute value of a signed bounded integer.
pub open spec fn abs_method_text(vis: Seq<char>) -> Seq<char> {
    "#[doc = \"Computes the absolute value of `self`, panicking if it is out of range.\"] #[must_use] "@
    + vis
    + " fn abs(self) -> Self { Self::new(self.get().abs()).expect(\"Absolute value out of range\") } "@
}

/// Builds the text that `abs_method_text` states.
pub fn abs_method(vis: &str) -> (r: String)
    ensures
        r@ == abs_method_text(vis@),
{
    String::from_str("#[doc = \"Computes the absolute value of `self`, panicking if it is out of range.\"] #[must_use] ")
        .concat(vis)
        .concat(" fn abs(self) -> Self { Self::new(self.get().abs()).expect(\"Absolute value out of range\") } ")
}

/// The panicking `pow`, `div_euclid` and `rem_euclid`.
pub open spec fn panicking_methods_text(repr: Repr, vis: Seq<char>) -> Seq<char> {
    "#[doc = \"Raises `self` to the power of `exp`. Panics if it is out of range.\"] #[must_use] "@
    + vis
    + " fn pow(self, exp: ::core::primitive::u32) -> Self { Self::new(self.get().pow(exp)).expect(\"Value raised to power out of range\") } #[doc = \"Calculates the quotient of Euclidean division. Panics if `rhs` is 0 or the result is out of range.\"] #[must_use] "@
    + vis + " fn div_euclid(self, rhs: "@ + full_repr_text(repr)
    + ") -> Self { Self::new(self.get().div_euclid(rhs)).expect(\"Attempted to divide out of range\") } #[doc = \"Calculates the least nonnegative remainder. Panics if `rhs` is 0 or the result is out of range.\"] #[must_use] "@
    + vis + " fn rem_euclid(self, rhs: "@ + full_repr_text(repr)
    + ") -> Self { Self::new(self.get().rem_euclid(rhs)).expect(\"Attempted to divide with remainder out of range\") } "@
}

/// Builds the text that `panicking_methods_text` states.
pub fn panicking_methods(repr: Repr, vis: &str) -> (r: String)
    ensures
        r@ == panicking_methods_text(repr, vis@),
{
    let full = full_repr(repr);
    String::from_str("#[doc = \"Raises `self` to the power of `exp`. Panics if it is out of range.\"] #[must_use] ")
        .concat(vis)
        .concat(" fn pow(self, exp: ::core::primitive::u32) -> Self { Self::new(self.get().pow(exp)).expect(\"Value raised to power out of range\") } #[doc = \"Calculates the quotient of Euclidean division. Panics if `rhs` is 0 or the result is out of range.\"] #[must_use] ")
        .concat(vis).concat(" fn div_euclid(self, rhs: ").concat(full.as_str())
        .concat(") -> Self { Self::new(self.get().div_euclid(rhs)).expect(\"Attempted to divide out of range\") } #[doc = \"Calculates the least nonnegative remainder. Panics if `rhs` is 0 or the result is out of range.\"] #[must_use] ")
        .concat(vis).concat(" fn rem_euclid(self, rhs: ").concat(full.as_str())
        .concat(") -> Self { Self::new(self.get().rem_euclid(rhs)).expect(\"Attempted to divide with remainder out of range\") } ")
}

/// The use of one checked or saturating method.
pub open spec fn method_test_text(ident: Seq<char>, m: MethodView) -> Seq<char> {
    let ty = if m.saturating {
        ident
    } else {
        "Option<"@ + ident + ">"@
    };
    let args = if m.rhs.is_some() {
        "0"@
    } else {
        ""@
    };
    "let _: "@ + ty + " = "@ + ident + "::MIN."@ + m.name + "("@ + args + "); "@
}

fn method_test(ident: &str, m: &Method) -> (r: String)
    ensures
        r@ == method_test_text(ident@, m@),
{
    let ty = if m.saturating {
        String::from_str(ident)
    } else {
        String::from_str("Option<").concat(ident).concat(">")
    };
    let args = if m.rhs.is_some() {
        "0"
    } else {
        ""
    };
    String::from_str("let _: ").concat(ty.as_str()).concat(" = ").concat(ident).concat(
        "::MIN.",
    ).concat(m.name.as_str()).concat("(").concat(args).concat("); ")
}

/// The uses of the binary operators among the first `n` of `ops`.
pub open spec fn ops_test_text(ident: Seq<char>, r: Seq<char>, ops: Seq<Operator>, n: nat) -> Seq<
    char,
>
    decreases n,
{
    if n == 0 {
        Seq::empty()
    } else {
        ops_test_text(ident, r, ops, (n - 1) as nat) + if ops[n - 1].bin {
            binop_test_text(ident, r, ops[n - 1].symbol@)
        } else {
            Seq::empty()
        }
    }
}

/// The uses of the first `n` of the methods `ms`.
pub open spec fn methods_test_text(ident: Seq<char>, ms: Seq<MethodView>, n: nat) -> Seq<char>
    decreases n,
{
    if n == 0 {
        Seq::empty()
    } else {
        methods_test_text(ident, ms, (n - 1) as nat) + method_test_text(ident, ms[n - 1])
    }
}

/// The body of the generated arithmetic test: a use of every operator
/// overload of the type, of the signed-only operations where the primitive
/// is signed, of the panicking methods, and of every checked and saturating
/// method of the plan.
pub open spec fn arithmetic_body_text(ident: Seq<char>, repr: Repr) -> Seq<char> {
    let ops = operator_table().filter(|op: Operator| repr.signed || op.on_unsigned);
    let plan = method_plan(checked_operator_table(), repr, checked_operator_table().len());
    ops_test_text(ident, repr_name(repr), ops, ops.len()) + (if repr.signed {
        signed_test_text(ident)
    } else {
        Seq::empty()
    }) + inherent_test_text(ident) + methods_test_text(ident, plan, plan.len())
}

/// The inherent operators: the panicking absolute value where the primitive
/// is signed, then `pow`, `div_euclid` and `rem_euclid`.
pub open spec fn inherent_operators_text(repr: Repr, vis: Seq<char>) -> Seq<char> {
    (if repr.signed {
        abs_method_text(vis)
    } else {
        Seq::empty()
    }) + panicking_methods_text(repr, vis)
}

/// The body of `new`: a range check around the field for a struct, a match
/// from each value to its variant for an enum.
pub open spec fn new_body_text(kind: Kind, repr: Repr, min: int, max: int) -> Seq<char> {
    match kind {
        Kind::Struct => "if Self::in_range(n) { ::core::option::Option::Some(Self(n)) } else { ::core::option::Option::None }"@,
        Kind::Enum => "match n { "@ + arms_text(repr, min, (max - min + 1) as nat, false)
            + " _ => ::core::option::Option::None, }"@,
    }
}

/// The body of `new_saturating`: the bounds first, then the value itself.
pub open spec fn new_saturating_body_text(kind: Kind, repr: Repr, min: int, max: int) -> Seq<
    char,
> {
    match kind {
        Kind::Struct => "if n < Self::MIN_VALUE { Self::MIN } else if n > Self::MAX_VALUE { Self::MAX } else { Self(n) }"@,
        Kind::Enum => "match n { "@ + full_repr_text(repr) + "::MIN..=Self::MIN_VALUE => Self::MIN, Self::MAX_VALUE..="@
            + full_repr_text(repr) + "::MAX => Self::MAX, "@ + arms_text(
            repr,
            min,
            (max - min + 1) as nat,
            true,
        ) + " }"@,
    }
}

/// The declaration of the type: a struct of one field of the primitive, or
/// an enum with one variant per value.
pub open spec fn item_decl_text(ident: Seq<char>, kind: Kind, repr: Repr, min: int, max: int, vis: Seq<char>) -> Seq<char> {
    match kind {
        Kind::Struct => vis + " struct "@ + ident + "("@ + full_repr_text(repr) + ");"@,
        Kind::Enum => vis + " enum "@ + ident + " { "@ + enum_body_text(repr, min, max) + " }"@,
    }
}

/// A checked or saturating method in full: its documentation, its signature
/// with the operand it takes, and its body.
pub open spec fn method_item_text(vis: Seq<char>, m: MethodView) -> Seq<char> {
    let params = match m.rhs {
        Some(r) => ", rhs: "@ + full_repr_text(r),
        None => ""@,
    };
    let ret = if m.saturating {
        "Self"@
    } else {
        "::core::option::Option<Self>"@
    };
    "#[doc = \""@ + m.doc + "\"] #[must_use] "@ + vis + " fn "@ + m.name + "(self"@ + params
        + ") -> "@ + ret + " { "@ + m.body + " } "@
}

/// A checked or saturating method in full.
pub fn method_item(vis: &str, m: &Method) -> (r: String)
    ensures
        r@ == method_item_text(vis@, m@),
{
    let params = match m.rhs {
        Some(r) => String::from_str(", rhs: ").concat(full_repr(r).as_str()),
        None => String::from_str(""),
    };
    let ret = if m.saturating {
        "Self"
    } else {
        "::core::option::Option<Self>"
    };
    String::from_str("#[doc = \"").concat(m.doc.as_str()).concat("\"] #[must_use] ").concat(
        vis,
    ).concat(" fn ").concat(m.name.as_str()).concat("(self").concat(params.as_str()).concat(
        ") -> ",
    ).concat(ret).concat(" { ").concat(m.body.as_str()).concat(" } ")
}

} // verus!
