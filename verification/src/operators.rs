//! The operators on values: what an operator does to its operands as far as
//! the library decides it, and what it leaves to the arithmetic of floats.

use vstd::prelude::*;
use vstd::string::*;
use crate::semantics::{
    binary_plan,
    compare_integers,
    is_arithmetic,
    is_comparison,
    unary_plan,
    BinaryPlan,
    UnaryPlan,
};
use crate::text::{join, join3};
use crate::token::{Token, TokenKind};
use crate::value::ValueVariant;

verus! {

/// What is to be done for a prefix operator.
pub enum UnaryStep {
    Value(ValueVariant),
    Fail(String),
    FloatNegation,
}

impl View for UnaryStep {
    type V = UnaryPlan;

    open spec fn view(&self) -> UnaryPlan {
        match self {
            UnaryStep::Value(value) => UnaryPlan::Value(value@),
            UnaryStep::Fail(message) => UnaryPlan::Fail(message@),
            UnaryStep::FloatNegation => UnaryPlan::FloatNegation,
        }
    }
}

/// What is to be done for an operator between two values.
pub enum BinaryStep {
    Value(ValueVariant),
    Fail(String),
    FloatArithmetic,
    FloatComparison,
    IntegerDivision,
}

impl View for BinaryStep {
    type V = BinaryPlan;

    open spec fn view(&self) -> BinaryPlan {
        match self {
            BinaryStep::Value(value) => BinaryPlan::Value(value@),
            BinaryStep::Fail(message) => BinaryPlan::Fail(message@),
            BinaryStep::FloatArithmetic => BinaryPlan::FloatArithmetic,
            BinaryStep::FloatComparison => BinaryPlan::FloatComparison,
            BinaryStep::IntegerDivision => BinaryPlan::IntegerDivision,
        }
    }
}

/// Whether `kind` is one of `+ - * /`.
pub fn is_arithmetic_kind(kind: TokenKind) -> (r: bool)
    ensures
        r == is_arithmetic(kind),
{
    kind == TokenKind::Plus || kind == TokenKind::Minus || kind == TokenKind::Multi || kind
        == TokenKind::Devide
}

/// Whether `kind` is one of `== != > >= < <=`.
pub fn is_comparison_kind(kind: TokenKind) -> (r: bool)
    ensures
        r == is_comparison(kind),
{
    kind == TokenKind::Eq || kind == TokenKind::NotEq || kind == TokenKind::More || kind
        == TokenKind::MoreEq || kind == TokenKind::Less || kind == TokenKind::LessEq
}

/// Decides `op value`.
pub fn plan_unary(op: &Token, value: &ValueVariant) -> (step: UnaryStep)
    ensures
        step@ == unary_plan(op@, value@),
{
    let kind = op.kind();
    match value {
        ValueVariant::Float(f) => {
            if kind == TokenKind::Plus {
                UnaryStep::Value(ValueVariant::Float(f.clone()))
            } else if kind == TokenKind::Minus {
                UnaryStep::FloatNegation
            } else {
                let text = op.to_string();
                UnaryStep::Fail(join("unsupported unary op ", text.as_str()))
            }
        },
        ValueVariant::Integer(i) => {
            if kind == TokenKind::Plus {
                UnaryStep::Value(ValueVariant::Integer(*i))
            } else if kind == TokenKind::Minus {
                UnaryStep::Value(ValueVariant::Integer(0i64.wrapping_sub(*i)))
            } else {
                let text = op.to_string();
                UnaryStep::Fail(join("unsupported unary op ", text.as_str()))
            }
        },
        _ => UnaryStep::Fail(
            String::from_str("unary operation supported only with integers and floats"),
        ),
    }
}

fn compare_integer_values(kind: TokenKind, left: i64, right: i64) -> (r: bool)
    requires
        is_comparison(kind),
    ensures
        r == compare_integers(kind, left, right),
{
    if kind == TokenKind::Eq {
        left == right
    } else if kind == TokenKind::NotEq {
        left != right
    } else if kind == TokenKind::More {
        left > right
    } else if kind == TokenKind::MoreEq {
        left >= right
    } else if kind == TokenKind::Less {
        left < right
    } else {
        left <= right
    }
}

/// Decides `left op right`.
pub fn plan_binary(op: &Token, left: &ValueVariant, right: &ValueVariant) -> (step: BinaryStep)
    ensures
        step@ == binary_plan(op@, left@, right@),
{
    let kind = op.kind();
    match (left, right) {
        (ValueVariant::Float(_), ValueVariant::Float(_)) => {
            if is_arithmetic_kind(kind) {
                BinaryStep::FloatArithmetic
            } else if is_comparison_kind(kind) {
                BinaryStep::FloatComparison
            } else {
                let text = op.to_string();
                BinaryStep::Fail(join3("binary op ", text.as_str(), " not supported for float's"))
            }
        },
        (ValueVariant::Integer(l), ValueVariant::Integer(r)) => {
            if kind == TokenKind::Plus {
                BinaryStep::Value(ValueVariant::Integer(l.wrapping_add(*r)))
            } else if kind == TokenKind::Minus {
                BinaryStep::Value(ValueVariant::Integer(l.wrapping_sub(*r)))
            } else if kind == TokenKind::Multi {
                BinaryStep::Value(ValueVariant::Integer(l.wrapping_mul(*r)))
            } else if kind == TokenKind::Devide {
                BinaryStep::IntegerDivision
            } else if is_comparison_kind(kind) {
                BinaryStep::Value(ValueVariant::Bool(compare_integer_values(kind, *l, *r)))
            } else {
                let text = op.to_string();
                BinaryStep::Fail(join3("binary op ", text.as_str(), " not supported for integers"))
            }
        },
        (ValueVariant::String(l), ValueVariant::String(r)) => {
            if kind == TokenKind::Plus {
                BinaryStep::Value(ValueVariant::String(join(l.as_str(), r.as_str())))
            } else if kind == TokenKind::Eq {
                BinaryStep::Value(ValueVariant::Bool(*l == *r))
            } else if kind == TokenKind::NotEq {
                BinaryStep::Value(ValueVariant::Bool(!(*l == *r)))
            } else {
                let text = op.to_string();
                BinaryStep::Fail(join3("binary op ", text.as_str(), " not supported for strings"))
            }
        },
        (ValueVariant::Bool(l), ValueVariant::Bool(r)) => {
            if kind == TokenKind::Eq {
                BinaryStep::Value(ValueVariant::Bool(*l == *r))
            } else if kind == TokenKind::NotEq {
                BinaryStep::Value(ValueVariant::Bool(*l != *r))
            } else {
                let text = op.to_string();
                BinaryStep::Fail(join3("binary op ", text.as_str(), " not supported for bool"))
            }
        },
        _ => {
            let text = op.to_string();
            BinaryStep::Fail(join3("for now binary operation ", text.as_str(), " for this args"))
        },
    }
}

} // verus!
