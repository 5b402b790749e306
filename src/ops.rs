//! The operator tables: the single source of which arithmetic methods and
//! operator overloads a bounded integer receives.

use vstd::prelude::*;
use crate::repr::{Repr, ReprSize};

verus! {

/// Which methods an operator receives for a signedness.
#[derive(Clone, Copy, Debug, PartialEq, Eq, Structural)]
pub enum Variants {
    /// Neither a checked nor a saturating method.
    NoOps,
    /// A checked method only.
    NoSaturating,
    /// Both a checked and a saturating method.
    All,
}

/// The right-hand operand of an operator.
#[derive(Clone, Copy, Debug, PartialEq, Eq, Structural)]
pub enum Operand {
    /// The underlying primitive of the bounded integer.
    SameAsRepr,
    /// A fixed primitive.
    Primitive(Repr),
}

/// An arithmetic operator with checked and saturating forms.
#[derive(Clone, Copy, Debug)]
pub struct CheckedOperator {
    pub name: &'static str,
    pub description: &'static str,
    pub rhs: Option<Operand>,
    pub signed_variants: Variants,
    pub unsigned_variants: Variants,
}

impl CheckedOperator {
    pub fn new(
        name: &'static str,
        description: &'static str,
        rhs: Option<Operand>,
        signed_variants: Variants,
        unsigned_variants: Variants,
    ) -> (r: Self)
        ensures
            r.name == name,
            r.description == description,
            r.rhs == rhs,
            r.signed_variants == signed_variants,
            r.unsigned_variants == unsigned_variants,
    {
        CheckedOperator { name, description, rhs, signed_variants, unsigned_variants }
    }

    /// The methods that the operator receives on a primitive of the given
    /// signedness.
    pub open spec fn spec_variants(self, signed: bool) -> Variants {
        if signed {
            self.signed_variants
        } else {
            self.unsigned_variants
        }
    }
}

pub open spec fn u32_repr() -> Repr {
    Repr { signed: false, size: ReprSize::Fixed32 }
}

/// The checked operators, in the order their methods are emitted.
pub open spec fn checked_operator_table() -> Seq<CheckedOperator> {
    seq![
        CheckedOperator {
            name: "add",
            description: "integer addition",
            rhs: Some(Operand::SameAsRepr),
            signed_variants: Variants::All,
            unsigned_variants: Variants::All,
        },
        CheckedOperator {
            name: "sub",
            description: "integer subtraction",
            rhs: Some(Operand::SameAsRepr),
            signed_variants: Variants::All,
            unsigned_variants: Variants::All,
        },
        CheckedOperator {
            name: "mul",
            description: "integer multiplication",
            rhs: Some(Operand::SameAsRepr),
            signed_variants: Variants::All,
            unsigned_variants: Variants::All,
        },
        CheckedOperator {
            name: "div",
            description: "integer division",
            rhs: Some(Operand::SameAsRepr),
            signed_variants: Variants::NoSaturating,
            unsigned_variants: Variants::NoSaturating,
        },
        CheckedOperator {
            name: "div_euclid",
            description: "Euclidean division",
            rhs: Some(Operand::SameAsRepr),
            signed_variants: Variants::NoSaturating,
            unsigned_variants: Variants::NoSaturating,
        },
        CheckedOperator {
            name: "rem",
            description: "integer remainder",
            rhs: Some(Operand::SameAsRepr),
            signed_variants: Variants::NoSaturating,
            unsigned_variants: Variants::NoSaturating,
        },
        CheckedOperator {
            name: "rem_euclid",
            description: "Euclidean remainder",
            rhs: Some(Operand::SameAsRepr),
            signed_variants: Variants::NoSaturating,
            unsigned_variants: Variants::NoSaturating,
        },
        CheckedOperator {
            name: "neg",
            description: "negation",
            rhs: None,
            signed_variants: Variants::All,
            unsigned_variants: Variants::NoOps,
        },
        CheckedOperator {
            name: "abs",
            description: "absolute value",
            rhs: None,
            signed_variants: Variants::NoSaturating,
            unsigned_variants: Variants::NoOps,
        },
        CheckedOperator {
            name: "pow",
            description: "exponentiation",
            rhs: Some(Operand::Primitive(u32_repr())),
            signed_variants: Variants::All,
            unsigned_variants: Variants::All,
        },
    ]
}

/// The checked operators, in the order their methods are emitted.
pub fn checked_operators() -> (r: Vec<CheckedOperator>)
    ensures
        r@ == checked_operator_table(),
{
    let u32_type = Repr { signed: false, size: ReprSize::Fixed32 };
    let same = Some(Operand::SameAsRepr);
    let v = vec![
        CheckedOperator::new("add", "integer addition", same, Variants::All, Variants::All),
        CheckedOperator::new("sub", "integer subtraction", same, Variants::All, Variants::All),
        CheckedOperator::new("mul", "integer multiplication", same, Variants::All, Variants::All),
        CheckedOperator::new(
            "div",
            "integer division",
            same,
            Variants::NoSaturating,
            Variants::NoSaturating,
        ),
        CheckedOperator::new(
            "div_euclid",
            "Euclidean division",
            same,
            Variants::NoSaturating,
            Variants::NoSaturating,
        ),
        CheckedOperator::new(
            "rem",
            "integer remainder",
            same,
            Variants::NoSaturating,
            Variants::NoSaturating,
        ),
        CheckedOperator::new(
            "rem_euclid",
            "Euclidean remainder",
            same,
            Variants::NoSaturating,
            Variants::NoSaturating,
        ),
        CheckedOperator::new("neg", "negation", None, Variants::All, Variants::NoOps),
        CheckedOperator::new(
            "abs",
            "absolute value",
            None,
            Variants::NoSaturating,
            Variants::NoOps,
        ),
        CheckedOperator::new(
            "pow",
            "exponentiation",
            Some(Operand::Primitive(u32_type)),
            Variants::All,
            Variants::All,
        ),
    ];
    assert(v@ =~= checked_operator_table());
    v
}

} // verus!

verus! {

/// A generated arithmetic method: `checked_<op>` or `saturating_<op>`.
#[derive(Clone, Debug)]
pub struct Method {
    /// The method's name.
    pub name: String,
    /// Its one-line documentation.
    pub doc: String,
    /// The type of its right-hand operand, if it takes one.
    pub rhs: Option<Repr>,
    /// Whether it clamps (else it returns `None` out of range).
    pub saturating: bool,
    /// Its body: the primitive's own method on `get()`, then the range
    /// check of `new` or the clamp of `new_saturating`.
    pub body: String,
}

/// What a generated method is.
pub struct MethodView {
    pub name: Seq<char>,
    pub doc: Seq<char>,
    pub rhs: Option<Repr>,
    pub saturating: bool,
    pub body: Seq<char>,
}

impl View for Method {
    type V = MethodView;

    open spec fn view(&self) -> MethodView {
        MethodView {
            name: self.name@,
            doc: self.doc@,
            rhs: self.rhs,
            saturating: self.saturating,
            body: self.body@,
        }
    }
}

/// The type of an operand on a bounded integer over `repr`.
pub open spec fn operand_type(rhs: Option<Operand>, repr: Repr) -> Option<Repr> {
    match rhs {
        None => None,
        Some(Operand::SameAsRepr) => Some(repr),
        Some(Operand::Primitive(p)) => Some(p),
    }
}

/// The arguments passed on to the primitive's method.
pub open spec fn operand_args(rhs: Option<Operand>) -> Seq<char> {
    if rhs.is_some() {
        "rhs"@
    } else {
        ""@
    }
}

pub open spec fn checked_method(op: CheckedOperator, repr: Repr) -> MethodView {
    MethodView {
        name: "checked_"@ + op.name@,
        doc: "Checked "@ + op.description@ + "."@,
        rhs: operand_type(op.rhs, repr),
        saturating: false,
        body: "self.get().checked_"@ + op.name@ + "("@ + operand_args(op.rhs)
            + ").and_then(Self::new)"@,
    }
}

pub open spec fn saturating_method(op: CheckedOperator, repr: Repr) -> MethodView {
    MethodView {
        name: "saturating_"@ + op.name@,
        doc: "Saturating "@ + op.description@ + "."@,
        rhs: operand_type(op.rhs, repr),
        saturating: true,
        body: "Self::new_saturating(self.get().saturating_"@ + op.name@ + "("@ + operand_args(
            op.rhs,
        ) + "))"@,
    }
}

/// The methods that one operator contributes on `repr`.
pub open spec fn method_entries(op: CheckedOperator, repr: Repr) -> Seq<MethodView> {
    match op.spec_variants(repr.signed) {
        Variants::NoOps => Seq::empty(),
        Variants::NoSaturating => seq![checked_method(op, repr)],
        Variants::All => seq![checked_method(op, repr), saturating_method(op, repr)],
    }
}

/// The methods that the first `n` operators of `ops` contribute on `repr`.
pub open spec fn method_plan(ops: Seq<CheckedOperator>, repr: Repr, n: nat) -> Seq<MethodView>
    decreases n,
{
    if n == 0 {
        Seq::empty()
    } else {
        method_plan(ops, repr, (n - 1) as nat) + method_entries(ops[n - 1], repr)
    }
}

fn resolve_operand(rhs: Option<Operand>, repr: Repr) -> (r: Option<Repr>)
    ensures
        r == operand_type(rhs, repr),
{
    match rhs {
        None => None,
        Some(Operand::SameAsRepr) => Some(repr),
        Some(Operand::Primitive(p)) => Some(p),
    }
}

fn args_of(rhs: Option<Operand>) -> (r: &'static str)
    ensures
        r@ == operand_args(rhs),
{
    if rhs.is_some() {
        "rhs"
    } else {
        ""
    }
}

fn make_checked(op: &CheckedOperator, repr: Repr) -> (r: Method)
    ensures
        r@ == checked_method(*op, repr),
{
    let name = String::from_str("checked_").concat(op.name);
    let doc = String::from_str("Checked ").concat(op.description).concat(".");
    let body = String::from_str("self.get().checked_").concat(op.name).concat("(").concat(
        args_of(op.rhs),
    ).concat(").and_then(Self::new)");
    Method { name, doc, rhs: resolve_operand(op.rhs, repr), saturating: false, body }
}

fn make_saturating(op: &CheckedOperator, repr: Repr) -> (r: Method)
    ensures
        r@ == saturating_method(*op, repr),
{
    let name = String::from_str("saturating_").concat(op.name);
    let doc = String::from_str("Saturating ").concat(op.description).concat(".");
    let body = String::from_str("Self::new_saturating(self.get().saturating_").concat(
        op.name,
    ).concat("(").concat(args_of(op.rhs)).concat("))");
    Method { name, doc, rhs: resolve_operand(op.rhs, repr), saturating: true, body }
}

/// The checked and saturating methods of a bounded integer over `repr`:
/// for each operator of the table in turn, its checked method where the
/// table gives it one for the signedness of `repr`, then its saturating
/// method where the table gives both.
pub fn generate_checked_operators(repr: Repr) -> (r: Vec<Method>)
    ensures
        r@.map_values(|m: Method| m@) == method_plan(
            checked_operator_table(),
            repr,
            checked_operator_table().len(),
        ),
{
    let table = checked_operators();
    let mut out: Vec<Method> = Vec::new();
    let mut i: usize = 0;
    while i < table.len()
        invariant
            table@ == checked_operator_table(),
            0 <= i <= table@.len(),
            out@.map_values(|m: Method| m@) == method_plan(table@, repr, i as nat),
        decreases table@.len() - i,
    {
        let op = &table[i];
        let variants = if repr.signed {
            op.signed_variants
        } else {
            op.unsigned_variants
        };
        let ghost before = out@;
        match variants {
            Variants::NoOps => {},
            Variants::NoSaturating => {
                out.push(make_checked(op, repr));
            },
            Variants::All => {
                out.push(make_checked(op, repr));
                out.push(make_saturating(op, repr));
            },
        }
        assert(out@.map_values(|m: Method| m@) =~= before.map_values(|m: Method| m@)
            + method_entries(table@[i as int], repr));
        i = i + 1;
    }
    out
}

} // verus!

verus! {

/// An operator overload: `a + b`, `-a` and the like.
#[derive(Clone, Copy, Debug)]
pub struct Operator {
    /// The name of the trait in `core::ops`.
    pub trait_name: &'static str,
    /// The trait's method.
    pub method: &'static str,
    /// The verb in the panic message of an out-of-range result.
    pub description: &'static str,
    /// The operator's symbol.
    pub symbol: &'static str,
    /// Whether the operator takes a right-hand operand.
    pub bin: bool,
    /// Whether unsigned primitives have it.
    pub on_unsigned: bool,
}

/// The operator overloads, in the order they are emitted.
pub open spec fn operator_table() -> Seq<Operator> {
    seq![
        Operator {
            trait_name: "Add",
            method: "add",
            description: "add",
            symbol: "+",
            bin: true,
            on_unsigned: true,
        },
        Operator {
            trait_name: "Sub",
            method: "sub",
            description: "subtract",
            symbol: "-",
            bin: true,
            on_unsigned: true,
        },
        Operator {
            trait_name: "Mul",
            method: "mul",
            description: "multiply",
            symbol: "*",
            bin: true,
            on_unsigned: true,
        },
        Operator {
            trait_name: "Div",
            method: "div",
            description: "divide",
            symbol: "/",
            bin: true,
            on_unsigned: true,
        },
        Operator {
            trait_name: "Rem",
            method: "rem",
            description: "take remainder",
            symbol: "%",
            bin: true,
            on_unsigned: true,
        },
        Operator {
            trait_name: "Neg",
            method: "neg",
            description: "negate",
            symbol: "-",
            bin: false,
            on_unsigned: false,
        },
    ]
}

/// The operator overloads, in the order they are emitted.
pub fn operators() -> (r: Vec<Operator>)
    ensures
        r@ == operator_table(),
{
    let v = vec![
        Operator {
            trait_name: "Add",
            method: "add",
            description: "add",
            symbol: "+",
            bin: true,
            on_unsigned: true,
        },
        Operator {
            trait_name: "Sub",
            method: "sub",
            description: "subtract",
            symbol: "-",
            bin: true,
            on_unsigned: true,
        },
        Operator {
            trait_name: "Mul",
            method: "mul",
            description: "multiply",
            symbol: "*",
            bin: true,
            on_unsigned: true,
        },
        Operator {
            trait_name: "Div",
            method: "div",
            description: "divide",
            symbol: "/",
            bin: true,
            on_unsigned: true,
        },
        Operator {
            trait_name: "Rem",
            method: "rem",
            description: "take remainder",
            symbol: "%",
            bin: true,
            on_unsigned: true,
        },
        Operator {
            trait_name: "Neg",
            method: "neg",
            description: "negate",
            symbol: "-",
            bin: false,
            on_unsigned: false,
        },
    ];
    assert(v@ =~= operator_table());
    v
}

/// The operator overloads of a bounded integer over `repr`: those of the
/// table that its signedness has, in table order.
pub fn generate_ops_traits(repr: Repr) -> (r: Vec<Operator>)
    ensures
        r@ == operator_table().filter(|op: Operator| repr.signed || op.on_unsigned),
{
    let table = operators();
    let mut out: Vec<Operator> = Vec::new();
    let mut i: usize = 0;
    while i < table.len()
        invariant
            table@ == operator_table(),
            0 <= i <= table@.len(),
            out@ == table@.take(i as int).filter(|op: Operator| repr.signed || op.on_unsigned),
        decreases table@.len() - i,
    {
        let op = table[i];
        proof {
            assert(table@.take(i as int + 1).drop_last() =~= table@.take(i as int));
            reveal(Seq::filter);
        }
        if repr.signed || op.on_unsigned {
            out.push(op);
        }
        i = i + 1;
    }
    assert(table@.take(table@.len() as int) =~= table@);
    out
}

} // verus!
