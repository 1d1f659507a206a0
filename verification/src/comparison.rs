use crate::value::Numeric;
use crate::value::NumericModel;
use crate::value::Value;
use crate::value::ValueModel;
use vstd::prelude::*;
use vstd::string::StringExecFns;

verus! {

/// The operator a comparison places between its two operands.
pub enum Operator {
    Equal,
    Unequal,
    Greater,
    Less,
}

/// The rendering of an operator, with the single spaces around it.
pub open spec fn operator_text(op: Operator) -> Seq<char> {
    match op {
        Operator::Equal => " == "@,
        Operator::Unequal => " != "@,
        Operator::Greater => " > "@,
        Operator::Less => " < "@,
    }
}

/// The operator numeric comparison chooses. Equal keys stand for equal
/// numbers and a greater key for a greater number; a NaN is neither equal
/// to nor greater than anything, so any NaN falls through to `Less`.
pub open spec fn numeric_operator(a: NumericModel, b: NumericModel) -> Operator {
    if !a.nan && !b.nan && a.key == b.key {
        Operator::Equal
    } else if !a.nan && !b.nan && a.key > b.key {
        Operator::Greater
    } else {
        Operator::Less
    }
}

/// What the numeric comparison of two classified numbers renders.
pub open spec fn numeric_comparison(a: NumericModel, b: NumericModel) -> Seq<char> {
    a.repr + operator_text(numeric_operator(a, b)) + b.repr
}

/// What the textual comparison of two texts renders: text knows equality
/// and inequality only, never an order.
pub open spec fn textual_comparison(a: Seq<char>, b: Seq<char>) -> Seq<char> {
    if a == b {
        a + operator_text(Operator::Equal) + b
    } else {
        a + operator_text(Operator::Unequal) + b
    }
}

/// The text a classified value stands with in the output: a number by its
/// canonical rendering, text by itself, unchanged.
pub open spec fn operand_text(v: ValueModel) -> Seq<char> {
    match v {
        ValueModel::Number(n) => n.repr,
        ValueModel::Text(t) => t,
    }
}

/// The operator a comparison of two classified values chooses: two numbers
/// by their numeric order, every other pairing textually.
pub open spec fn chosen_operator(a: ValueModel, b: ValueModel) -> Operator {
    match (a, b) {
        (ValueModel::Number(x), ValueModel::Number(y)) => numeric_operator(x, y),
        _ => if operand_text(a) == operand_text(b) {
            Operator::Equal
        } else {
            Operator::Unequal
        },
    }
}

/// What `compare` renders: the left operand, the chosen operator, the right
/// operand, never re-ordered.
pub open spec fn comparison(a: ValueModel, b: ValueModel) -> Seq<char> {
    operand_text(a) + operator_text(chosen_operator(a, b)) + operand_text(b)
}

/// Renders the textual comparison of `a` and `b`: `"a == b"` when the two
/// are equal character for character, `"a != b"` otherwise.
pub fn compare_texts(a: &str, b: &str) -> (r: String)
    ensures
        r@ == textual_comparison(a@, b@),
{
    let mut r = a.to_owned();
    // `String` equality is specified over the character view; `&str` equality is not.
    if a.to_owned() == b.to_owned() {
        r.append(" == ");
    } else {
        r.append(" != ");
    }
    r.append(b);
    r
}

/// Renders the numeric comparison of two classified numbers: their
/// canonical renderings joined by `==`, `>` or `<`.
pub fn compare_numbers(a: Numeric, b: Numeric) -> (r: String)
    ensures
        r@ == numeric_comparison(a@, b@),
{
    let mut r = a.repr.clone();
    if !a.nan && !b.nan && a.key == b.key {
        r.append(" == ");
    } else if !a.nan && !b.nan && a.key > b.key {
        r.append(" > ");
    } else {
        r.append(" < ");
    }
    r.append(b.repr.as_str());
    r
}

/// Renders the comparison of two classified values: numbers against numbers
/// numerically, every other pairing textually, the left operand first.
pub fn compare(a: Value, b: Value) -> (r: String)
    ensures
        r@ == comparison(a@, b@),
{
    match (a, b) {
        (Value::Number(x), Value::Number(y)) => compare_numbers(x, y),
        (Value::Number(x), Value::Text(t)) => compare_texts(x.repr.as_str(), t.as_str()),
        (Value::Text(t), Value::Number(y)) => compare_texts(t.as_str(), y.repr.as_str()),
        (Value::Text(s), Value::Text(t)) => compare_texts(s.as_str(), t.as_str()),
    }
}

/// Comparing is a pure function of the two classified values: equal inputs
/// render the identical string.
pub proof fn lemma_compare_pure(a1: ValueModel, b1: ValueModel, a2: ValueModel, b2: ValueModel)
    requires
        a1 == a2,
        b1 == b2,
    ensures
        comparison(a1, b1) == comparison(a2, b2),
{
}

/// Unless both values are numbers, the chosen operator is equality or
/// inequality: text is never ordered.
pub proof fn lemma_text_never_ordered(a: ValueModel, b: ValueModel)
    requires
        !(a is Number && b is Number),
    ensures
        chosen_operator(a, b) == Operator::Equal || chosen_operator(a, b) == Operator::Unequal,
{
}

/// Every comparison carries exactly one operator between its operands: the
/// result reads `left op right` for the chosen operator, and placing any
/// other operator between the same operands renders a different string.
pub proof fn lemma_single_operator(a: ValueModel, b: ValueModel)
    ensures
        comparison(a, b) == operand_text(a) + operator_text(chosen_operator(a, b)) + operand_text(
            b,
        ),
        forall|op: Operator|
            operand_text(a) + operator_text(op) + operand_text(b) == comparison(a, b) ==> op
                == chosen_operator(a, b),
{
    let l = operand_text(a);
    let r = operand_text(b);
    let c = chosen_operator(a, b);
    reveal_strlit(" == ");
    reveal_strlit(" != ");
    reveal_strlit(" > ");
    reveal_strlit(" < ");
    assert forall|op: Operator| l + operator_text(op) + r == l + operator_text(c) + r implies op
        == c by {
        let s1 = operator_text(op);
        let s2 = operator_text(c);
        if op != c {
            if s1.len() == s2.len() {
                assert((l + s1 + r)[(l.len() + 1) as int] == s1[1]);
                assert((l + s2 + r)[(l.len() + 1) as int] == s2[1]);
                assert(s1[1] != s2[1]);
            } else {
                assert((l + s1 + r).len() != (l + s2 + r).len());
            }
        }
    }
}

} // verus!
