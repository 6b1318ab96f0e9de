//! What the evaluator asks of its host: the standard functions and methods
//! of the language, and all computing with floats.
//!
//! The library states nothing about what an implementation returns; the
//! evaluator is proved correct for whatever comes back.

use vstd::prelude::*;
use crate::token::TokenKind;
use crate::value::{ValueKind, ValueVariant};

verus! {

/// The arguments of a call, in order.
pub type StdFuncArgs = Vec<ValueVariant>;

/// What a standard function returns: a value or none, or a message.
pub type StdFuncResult = Result<Option<ValueVariant>, String>;

/// The arguments of a method call, in order.
pub type StdMethodArgs = Vec<ValueVariant>;

/// What a method returns: a value or none, or a message.
pub type StdMethodResult = Result<Option<ValueVariant>, String>;

/// A provider of standard functions.
pub trait FunctionRepository {
    /// The names of the functions provided.
    fn get_functions(&self) -> Vec<String>;

    /// Calls the function `name` with the arguments in order. It returns a
    /// value or none, or a message.
    fn call(&self, name: &String, args: &StdFuncArgs) -> StdFuncResult;
}

/// A provider of the methods of one kind of value.
pub trait StdMethodsRepository {
    /// The kind of value whose methods these are.
    fn get_diterminant(&self) -> ValueKind;

    /// The names of the methods provided.
    fn get_methods(&self) -> Vec<String>;

    /// Calls the method `name` on `this` with the arguments in order. It
    /// returns a value or none, or a message.
    fn call(&self, name: &String, this: &ValueVariant, args: &StdMethodArgs) -> StdMethodResult;
}

/// The arithmetic of floats. A float goes in and comes out as its decimal
/// text.
pub trait FloatArithmetic {
    /// The float that a literal spells, as the arithmetic writes floats.
    fn literal(&self, text: &String) -> String;

    /// `left op right`, where `op` is one of `+ - * /`.
    fn arithmetic(&self, op: TokenKind, left: &String, right: &String) -> String;

    /// `left op right`, where `op` is one of `== != > >= < <=`.
    fn compare(&self, op: TokenKind, left: &String, right: &String) -> bool;

    /// `-operand`.
    fn negate(&self, operand: &String) -> String;

    /// `left / right` of two integers, as a float.
    fn divide_integers(&self, left: i64, right: i64) -> String;
}

} // verus!
