//! Run-time values.

use vstd::prelude::*;
use vstd::string::*;
use crate::text::{decimal_text, int_to_decimal};

verus! {

/// A value of the language. A float is carried as its decimal text: the
/// library hands floats on and leaves all reading of and computing with them
/// to the arithmetic that the embedder supplies, so the text of a float is
/// as that arithmetic writes it.
#[derive(PartialEq, Debug)]
pub enum ValueVariant {
    String(String),
    Integer(i64),
    Float(String),
    Bool(bool),
}

/// The mathematical value of a `ValueVariant`.
pub enum SpecValue {
    String(Seq<char>),
    Integer(i64),
    Float(Seq<char>),
    Bool(bool),
}

/// Which variant a value is: what methods are selected by.
#[derive(Clone, Copy, PartialEq, Eq, Structural, Debug)]
pub enum ValueKind {
    String,
    Integer,
    Float,
    Bool,
}

impl SpecValue {
    /// Which variant the value is.
    pub open spec fn kind(self) -> ValueKind {
        match self {
            SpecValue::String(_) => ValueKind::String,
            SpecValue::Integer(_) => ValueKind::Integer,
            SpecValue::Float(_) => ValueKind::Float,
            SpecValue::Bool(_) => ValueKind::Bool,
        }
    }

    /// How the value is written in messages and output.
    pub open spec fn text(self) -> Seq<char> {
        match self {
            SpecValue::String(s) => s,
            SpecValue::Integer(i) => decimal_text(i as int),
            SpecValue::Float(f) => f,
            SpecValue::Bool(b) => if b {
                "true"@
            } else {
                "false"@
            },
        }
    }
}

impl View for ValueVariant {
    type V = SpecValue;

    open spec fn view(&self) -> SpecValue {
        match self {
            ValueVariant::String(s) => SpecValue::String(s@),
            ValueVariant::Integer(i) => SpecValue::Integer(*i),
            ValueVariant::Float(f) => SpecValue::Float(f@),
            ValueVariant::Bool(b) => SpecValue::Bool(*b),
        }
    }
}

impl Clone for ValueVariant {
    fn clone(&self) -> (r: ValueVariant)
        ensures
            r@ == self@,
    {
        match self {
            ValueVariant::String(s) => ValueVariant::String(s.clone()),
            ValueVariant::Integer(i) => ValueVariant::Integer(*i),
            ValueVariant::Float(f) => ValueVariant::Float(f.clone()),
            ValueVariant::Bool(b) => ValueVariant::Bool(*b),
        }
    }
}

impl ValueVariant {
    /// The kind of this value.
    pub fn kind(&self) -> (k: ValueKind)
        ensures
            k == self@.kind(),
    {
        match self {
            ValueVariant::String(_) => ValueKind::String,
            ValueVariant::Integer(_) => ValueKind::Integer,
            ValueVariant::Float(_) => ValueKind::Float,
            ValueVariant::Bool(_) => ValueKind::Bool,
        }
    }

    /// The value as it is written in messages and output.
    pub fn to_string(&self) -> (s: String)
        ensures
            s@ == self@.text(),
    {
        match self {
            ValueVariant::String(s) => s.clone(),
            ValueVariant::Integer(i) => int_to_decimal(*i),
            ValueVariant::Float(f) => f.clone(),
            ValueVariant::Bool(b) => if *b {
                String::from_str("true")
            } else {
                String::from_str("false")
            },
        }
    }
}

/// The values of a row of values.
pub open spec fn values_view(values: Seq<ValueVariant>) -> Seq<SpecValue> {
    values.map_values(|v: ValueVariant| v@)
}

/// Pushing a value pushes its mathematical value.
pub proof fn lemma_values_view_push(values: Seq<ValueVariant>, v: ValueVariant)
    ensures
        values_view(values.push(v)) == values_view(values).push(v@),
{
}

/// Taking the last value takes its mathematical value.
pub proof fn lemma_values_view_drop_last(values: Seq<ValueVariant>)
    requires
        values.len() > 0,
    ensures
        values_view(values.drop_last()) == values_view(values).drop_last(),
        values_view(values).last() == values.last()@,
{
}

} // verus!
