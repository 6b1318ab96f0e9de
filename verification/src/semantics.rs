//! What evaluation means: a mathematical evaluator from a state and a syntax
//! tree to the state after it and its result.
//!
//! The evaluator asks its host for three things: to run a standard function
//! or method, to read and compute with floats, and to compare floats. What the host
//! answers is not the library's to say, so the model takes the exchanges
//! with the host as a given sequence, a `World`: each holds a question and
//! the answer to it. The model says what is asked, and reads the answer
//! where the world holds that question in that place; the state counts how
//! many exchanges it has read. The executable evaluator records each
//! question it hands to the host with the answer it gets, and is proved to do
//! what the model does in every world that begins with the exchanges
//! recorded.
//!
//! A `while` loop may go on for ever and a function may call itself without
//! end. The model therefore takes a budget: every further turn of a `while`
//! loop and every call of a user function goes on with a budget one lower,
//! and fails where the budget is used up.

use vstd::prelude::*;
use crate::expressions::{SpecExpr, SpecFunction};
use crate::token::{token_text, SpecToken, TokenKind};
use crate::value::{SpecValue, ValueKind};

verus! {

/// The methods registered for one kind of value: the number of the provider
/// that serves them, and their names.
pub struct MethodsOf {
    pub repo: usize,
    pub names: Seq<Seq<char>>,
}

/// What the host provides: for each standard function the number of the
/// provider that serves it, and for each kind of value that has methods
/// their provider and their names.
pub struct Registry {
    pub functions: Map<Seq<char>, usize>,
    pub methods: Map<ValueKind, MethodsOf>,
}

/// What a standard function or method returned: a value, nothing, or a
/// message.
pub type CallAnswer = Result<Option<SpecValue>, Seq<char>>;

/// One answer of the host.
pub enum Answer {
    /// What a standard function or method returned.
    Call(CallAnswer),
    /// The text of the float that an arithmetic operation gave.
    Float(Seq<char>),
    /// What a comparison of two floats gave.
    Truth(bool),
}

/// What the host is asked.
#[allow(inconsistent_fields)]
pub enum Question {
    /// To run the standard function `name` of the provider number `repo`
    /// with the arguments in order.
    Function { repo: usize, name: Seq<char>, args: Seq<SpecValue> },
    /// To run the method `name` of the provider number `repo` on `this` with
    /// the arguments in order.
    Method { repo: usize, name: Seq<char>, this: SpecValue, args: Seq<SpecValue> },
    /// To read the float that a literal spells.
    Literal { text: Seq<char> },
    /// To compute `left op right` of two floats, `op` one of `+ - * /`.
    Arithmetic { op: TokenKind, left: Seq<char>, right: Seq<char> },
    /// To compare two floats by `op`.
    Comparison { op: TokenKind, left: Seq<char>, right: Seq<char> },
    /// To negate a float.
    Negation { operand: Seq<char> },
    /// To divide an integer by an integer, as floats.
    Division { left: i64, right: i64 },
}

/// A question to the host and the answer to it.
pub struct Exchange {
    pub question: Question,
    pub answer: Answer,
}

/// The host as the model sees it: what it provides, and the exchanges with
/// it in their order.
pub struct World {
    pub registry: Registry,
    pub exchanges: Seq<Exchange>,
}

impl World {
    /// The answer to `question` as exchange number `i`, where the world holds
    /// that question there.
    pub open spec fn answer_to(self, i: nat, question: Question) -> Option<Answer> {
        if i < self.exchanges.len() && self.exchanges[i as int].question == question {
            Some(self.exchanges[i as int].answer)
        } else {
            None
        }
    }

    // An answer that the world does not hold, or holds as another kind than
    // is asked for, reads as the emptiest of its kind. The evaluator reads
    // exchanges that it recorded itself, each as the kind it asked for.

    /// The answer to `question`, read as what a call returned.
    pub open spec fn call_answer(self, i: nat, question: Question) -> CallAnswer {
        match self.answer_to(i, question) {
            Some(Answer::Call(answer)) => answer,
            _ => Err(Seq::empty()),
        }
    }

    /// The answer to `question`, read as a float.
    pub open spec fn float_answer(self, i: nat, question: Question) -> Seq<char> {
        match self.answer_to(i, question) {
            Some(Answer::Float(text)) => text,
            _ => Seq::empty(),
        }
    }

    /// The answer to `question`, read as the result of a comparison.
    pub open spec fn truth_answer(self, i: nat, question: Question) -> bool {
        match self.answer_to(i, question) {
            Some(Answer::Truth(b)) => b,
            _ => false,
        }
    }
}

/// The text of a float; empty for a value that is none.
pub open spec fn float_text(value: SpecValue) -> Seq<char> {
    match value {
        SpecValue::Float(text) => text,
        _ => Seq::empty(),
    }
}

/// The integer that a value is; zero for a value that is none.
pub open spec fn integer_of(value: SpecValue) -> i64 {
    match value {
        SpecValue::Integer(i) => i,
        _ => 0,
    }
}

/// What a call goes to: a standard function, or a method of the receiver
/// `this`.
#[allow(inconsistent_fields)]
pub enum Target {
    Function { name: Seq<char> },
    Method { name: Seq<char>, this: SpecValue },
}

/// The question that a call of `target` with `args` is: it goes to the
/// provider that the registry names for the function, or for methods of the
/// receiver's kind.
pub open spec fn call_question(registry: Registry, target: Target, args: Seq<SpecValue>)
    -> Question {
    match target {
        Target::Function { name } => Question::Function {
            repo: registry.functions[name],
            name,
            args,
        },
        Target::Method { name, this } => Question::Method {
            repo: registry.methods[this.kind()].repo,
            name,
            this,
            args,
        },
    }
}

/// The state of an evaluation.
pub struct SpecState {
    /// The value channel: what node evaluations have pushed and nobody has
    /// taken yet, the latest last.
    pub values: Seq<SpecValue>,
    /// The scope stack, the global scope first and the innermost last.
    pub scopes: Seq<Map<Seq<char>, SpecValue>>,
    /// The user functions defined so far.
    pub functions: Map<Seq<char>, SpecFunction>,
    /// How many answers of the host have been read.
    pub answered: nat,
}

impl SpecState {
    /// The state after `value` was pushed onto the value channel.
    pub open spec fn push(self, value: SpecValue) -> SpecState {
        SpecState { values: self.values.push(value), ..self }
    }

    /// The value pushed last, if there is one.
    pub open spec fn top_value(self) -> Option<SpecValue> {
        if self.values.len() > 0 {
            Some(self.values.last())
        } else {
            None
        }
    }

    /// The state without the value pushed last.
    pub open spec fn pop(self) -> SpecState {
        if self.values.len() > 0 {
            SpecState { values: self.values.drop_last(), ..self }
        } else {
            self
        }
    }

    /// The innermost scope.
    pub open spec fn top_scope(self) -> Map<Seq<char>, SpecValue> {
        self.scopes.last()
    }

    /// Binds `name` in the innermost scope.
    pub open spec fn bind(self, name: Seq<char>, value: SpecValue) -> SpecState {
        SpecState {
            scopes: self.scopes.drop_last().push(self.top_scope().insert(name, value)),
            ..self
        }
    }

    /// The state with a new, empty innermost scope.
    pub open spec fn push_scope(self) -> SpecState {
        SpecState { scopes: self.scopes.push(Map::empty()), ..self }
    }

    /// The state without its innermost scope.
    pub open spec fn pop_scope(self) -> SpecState {
        SpecState { scopes: self.scopes.drop_last(), ..self }
    }

    /// The state after `function` was defined, in place of any function of
    /// its name.
    pub open spec fn define(self, function: SpecFunction) -> SpecState {
        SpecState { functions: self.functions.insert(function.name, function), ..self }
    }

    /// The state after one more answer was read.
    pub open spec fn answer(self) -> SpecState {
        SpecState { answered: self.answered + 1, ..self }
    }
}

/// What `name` is bound to in the innermost scope that binds it.
pub open spec fn lookup(scopes: Seq<Map<Seq<char>, SpecValue>>, name: Seq<char>) -> Option<
    SpecValue,
>
    decreases scopes.len(),
{
    if scopes.len() == 0 {
        None
    } else if scopes.last().contains_key(name) {
        Some(scopes.last()[name])
    } else {
        lookup(scopes.drop_last(), name)
    }
}

/// The state after an evaluation, and whether it succeeded.
pub struct Outcome {
    pub state: SpecState,
    pub result: Result<(), Seq<char>>,
}

/// An evaluation that succeeded and left `state`.
pub open spec fn done(state: SpecState) -> Outcome {
    Outcome { state, result: Ok(()) }
}

/// An evaluation that failed with `message` and left `state`.
pub open spec fn fail(state: SpecState, message: Seq<char>) -> Outcome {
    Outcome { state, result: Err(message) }
}

/// The message of an evaluation that ran out of budget.
pub open spec fn budget_message() -> Seq<char> {
    "evaluation budget exhausted"@
}

/// `+`, `-`, `*` and `/`.
pub open spec fn is_arithmetic(kind: TokenKind) -> bool {
    kind == TokenKind::Plus || kind == TokenKind::Minus || kind == TokenKind::Multi || kind
        == TokenKind::Devide
}

/// `==`, `!=`, `>`, `>=`, `<` and `<=`.
pub open spec fn is_comparison(kind: TokenKind) -> bool {
    kind == TokenKind::Eq || kind == TokenKind::NotEq || kind == TokenKind::More || kind
        == TokenKind::MoreEq || kind == TokenKind::Less || kind == TokenKind::LessEq
}

/// What is to be done for a prefix operator.
pub enum UnaryPlan {
    /// The result is known.
    Value(SpecValue),
    /// The operation is an error.
    Fail(Seq<char>),
    /// The host is to negate the float.
    FloatNegation,
}

/// What is to be done for `op value`. `+` gives the operand back and `-`
/// negates an integer or a float; no other operator and no other operand
/// will do.
pub open spec fn unary_plan(op: SpecToken, value: SpecValue) -> UnaryPlan {
    match value {
        SpecValue::Float(f) => if op.kind == TokenKind::Plus {
            UnaryPlan::Value(value)
        } else if op.kind == TokenKind::Minus {
            UnaryPlan::FloatNegation
        } else {
            UnaryPlan::Fail("unsupported unary op "@ + token_text(op))
        },
        SpecValue::Integer(i) => if op.kind == TokenKind::Plus {
            UnaryPlan::Value(value)
        } else if op.kind == TokenKind::Minus {
            UnaryPlan::Value(SpecValue::Integer(0i64.wrapping_sub(i)))
        } else {
            UnaryPlan::Fail("unsupported unary op "@ + token_text(op))
        },
        _ => UnaryPlan::Fail("unary operation supported only with integers and floats"@),
    }
}

/// What is to be done for an operator between two values.
pub enum BinaryPlan {
    /// The result is known.
    Value(SpecValue),
    /// The operation is an error.
    Fail(Seq<char>),
    /// The host is to compute with the two floats; the result is a float.
    FloatArithmetic,
    /// The host is to compare the two floats; the result is a Bool.
    FloatComparison,
    /// The host is to divide the two integers; the result is a float.
    IntegerDivision,
}

/// The comparison `op` of two integers.
pub open spec fn compare_integers(kind: TokenKind, left: i64, right: i64) -> bool {
    if kind == TokenKind::Eq {
        left == right
    } else if kind == TokenKind::NotEq {
        left != right
    } else if kind == TokenKind::More {
        left > right
    } else if kind == TokenKind::MoreEq {
        left >= right
    } else if kind == TokenKind::Less {
        left < right
    } else {
        left <= right
    }
}

/// What is to be done for `left op right`, by the pair of their kinds.
/// Two floats or two integers take the four arithmetic operators and the six
/// comparisons; `+ - *` of two integers wrap around and their `/` is a float.
/// Two strings take `+`, which joins them, `==` and `!=`; two Bools take
/// `==` and `!=`. Everything else is an error.
pub open spec fn binary_plan(op: SpecToken, left: SpecValue, right: SpecValue) -> BinaryPlan {
    match (left, right) {
        (SpecValue::Float(_), SpecValue::Float(_)) => if is_arithmetic(op.kind) {
            BinaryPlan::FloatArithmetic
        } else if is_comparison(op.kind) {
            BinaryPlan::FloatComparison
        } else {
            BinaryPlan::Fail("binary op "@ + token_text(op) + " not supported for float's"@)
        },
        (SpecValue::Integer(l), SpecValue::Integer(r)) => if op.kind == TokenKind::Plus {
            BinaryPlan::Value(SpecValue::Integer(l.wrapping_add(r)))
        } else if op.kind == TokenKind::Minus {
            BinaryPlan::Value(SpecValue::Integer(l.wrapping_sub(r)))
        } else if op.kind == TokenKind::Multi {
            BinaryPlan::Value(SpecValue::Integer(l.wrapping_mul(r)))
        } else if op.kind == TokenKind::Devide {
            BinaryPlan::IntegerDivision
        } else if is_comparison(op.kind) {
            BinaryPlan::Value(SpecValue::Bool(compare_integers(op.kind, l, r)))
        } else {
            BinaryPlan::Fail("binary op "@ + token_text(op) + " not supported for integers"@)
        },
        (SpecValue::String(l), SpecValue::String(r)) => if op.kind == TokenKind::Plus {
            BinaryPlan::Value(SpecValue::String(l + r))
        } else if op.kind == TokenKind::Eq {
            BinaryPlan::Value(SpecValue::Bool(l == r))
        } else if op.kind == TokenKind::NotEq {
            BinaryPlan::Value(SpecValue::Bool(l != r))
        } else {
            BinaryPlan::Fail("binary op "@ + token_text(op) + " not supported for strings"@)
        },
        (SpecValue::Bool(l), SpecValue::Bool(r)) => if op.kind == TokenKind::Eq {
            BinaryPlan::Value(SpecValue::Bool(l == r))
        } else if op.kind == TokenKind::NotEq {
            BinaryPlan::Value(SpecValue::Bool(l != r))
        } else {
            BinaryPlan::Fail("binary op "@ + token_text(op) + " not supported for bool"@)
        },
        _ => BinaryPlan::Fail("for now binary operation "@ + token_text(op) + " for this args"@),
    }
}

/// A prefix operator, once its operand has been evaluated: the operand is
/// taken from the value channel and the result pushed.
pub open spec fn finish_unary(w: World, st: SpecState, op: SpecToken) -> Outcome {
    match st.top_value() {
        None => fail(st, "empty stack in unary expression"@),
        Some(value) => match unary_plan(op, value) {
            UnaryPlan::Value(result) => done(st.pop().push(result)),
            UnaryPlan::Fail(message) => fail(st.pop(), message),
            UnaryPlan::FloatNegation => done(
                st.pop().answer().push(
                    SpecValue::Float(
                        w.float_answer(
                            st.answered,
                            Question::Negation { operand: float_text(value) },
                        ),
                    ),
                ),
            ),
        },
    }
}

/// A binary operator, once its operands have been evaluated: the right
/// operand is taken from the value channel, then the left one, and the result
/// is pushed.
pub open spec fn finish_binary(w: World, st: SpecState, op: SpecToken) -> Outcome {
    let right = st.top_value();
    let left = st.pop().top_value();
    let rest = st.pop().pop();
    if right is Some && left is Some {
        match binary_plan(op, left->0, right->0) {
            BinaryPlan::Value(result) => done(rest.push(result)),
            BinaryPlan::Fail(message) => fail(rest, message),
            BinaryPlan::FloatArithmetic => done(
                rest.answer().push(
                    SpecValue::Float(
                        w.float_answer(
                            st.answered,
                            Question::Arithmetic {
                                op: op.kind,
                                left: float_text(left->0),
                                right: float_text(right->0),
                            },
                        ),
                    ),
                ),
            ),
            BinaryPlan::IntegerDivision => done(
                rest.answer().push(
                    SpecValue::Float(
                        w.float_answer(
                            st.answered,
                            Question::Division {
                                left: integer_of(left->0),
                                right: integer_of(right->0),
                            },
                        ),
                    ),
                ),
            ),
            BinaryPlan::FloatComparison => done(
                rest.answer().push(
                    SpecValue::Bool(
                        w.truth_answer(
                            st.answered,
                            Question::Comparison {
                                op: op.kind,
                                left: float_text(left->0),
                                right: float_text(right->0),
                            },
                        ),
                    ),
                ),
            ),
        }
    } else {
        fail(rest, "empty stack in bynary expression"@)
    }
}

/// The last `count` values of the channel, in the order they were pushed:
/// the arguments of a call.
pub open spec fn call_arguments(st: SpecState, count: nat) -> Seq<SpecValue> {
    st.values.subrange(st.values.len() - count, st.values.len() as int)
}

/// A call of the host, once the `count` arguments have been evaluated: they
/// are taken from the value channel and handed to `target` in the order they
/// were pushed, the host answers, and a value that it returned is pushed. A
/// message of the host comes back behind `prefix`. Where the channel holds
/// fewer values than arguments, all are taken and the call fails.
pub open spec fn finish_call(
    w: World,
    st: SpecState,
    count: nat,
    prefix: Seq<char>,
    target: Target,
) -> Outcome {
    if st.values.len() >= count {
        let rest = SpecState {
            values: st.values.subrange(0, st.values.len() - count),
            ..st
        }.answer();
        let question = call_question(w.registry, target, call_arguments(st, count));
        match w.call_answer(st.answered, question) {
            Ok(Some(value)) => done(rest.push(value)),
            Ok(None) => done(rest),
            Err(message) => fail(rest, prefix + message),
        }
    } else {
        fail(SpecState { values: Seq::empty(), ..st }, "exptected value in stack"@)
    }
}

/// Binds the first `count` of `params`, the last of them first, each to the
/// value taken from the channel; a parameter for which no value is left
/// stays unbound.
pub open spec fn bind_params(st: SpecState, params: Seq<Seq<char>>, count: nat) -> SpecState
    decreases count,
{
    if count == 0 || count > params.len() {
        st
    } else {
        let bound = match st.top_value() {
            Some(value) => st.pop().bind(params[count - 1], value),
            None => st,
        };
        bind_params(bound, params, (count - 1) as nat)
    }
}

/// Evaluates one node.
pub open spec fn eval(w: World, fuel: nat, st: SpecState, e: SpecExpr) -> Outcome
    decreases fuel, e, 3nat, 0nat,
{
    match e {
        SpecExpr::IntLiteral { i } => done(st.push(SpecValue::Integer(i))),
        SpecExpr::FloatLiteral { f } => done(
            st.answer().push(
                SpecValue::Float(w.float_answer(st.answered, Question::Literal { text: f })),
            ),
        ),
        SpecExpr::StringLiteral { s } => done(st.push(SpecValue::String(s))),
        SpecExpr::BoolLiteral { b } => done(st.push(SpecValue::Bool(b))),
        SpecExpr::Name { name } => if st.top_scope().contains_key(name) {
            done(st.push(st.top_scope()[name]))
        } else {
            fail(st, "unknown name '"@ + name + "'"@)
        },
        SpecExpr::Unary { op, expr } => {
            let operand = eval(w, fuel, st, *expr);
            if operand.result is Err {
                operand
            } else {
                finish_unary(w, operand.state, op)
            }
        },
        SpecExpr::Binary { op, left, right } => {
            let first = eval(w, fuel, st, *left);
            if first.result is Err {
                first
            } else {
                let second = eval(w, fuel, first.state, *right);
                if second.result is Err {
                    second
                } else {
                    finish_binary(w, second.state, op)
                }
            }
        },
        SpecExpr::Assignment { name, value } => {
            let found = eval(w, fuel, st, *value);
            if found.result is Err {
                found
            } else {
                match found.state.top_value() {
                    Some(v) => done(found.state.pop().bind(name, v)),
                    None => fail(found.state, "no value for assgignment expression"@),
                }
            }
        },
        SpecExpr::StatementList { statement_list } => eval_list(w, fuel, st, statement_list, 0),
        SpecExpr::FunctionCall { name, args } => if w.registry.functions.contains_key(name) {
            eval_std_call(w, fuel, st, name, args)
        } else if st.functions.contains_key(name) {
            eval_user_call(w, fuel, st, name, args)
        } else {
            fail(st, "function "@ + name + " not defined"@)
        },
        SpecExpr::MethodCall { self_name, method_name, args } => match lookup(
            st.scopes,
            self_name,
        ) {
            Some(this) => eval_method(w, fuel, st, this, method_name, args),
            None => fail(st, "call method with unknown object '"@ + self_name + "'"@),
        },
        SpecExpr::AnonymousMethod { self_expr, method_name, args } => {
            let found = eval(w, fuel, st, *self_expr);
            if found.result is Err {
                found
            } else {
                match found.state.top_value() {
                    Some(this) => eval_method(w, fuel, found.state.pop(), this, method_name, args),
                    None => fail(found.state, "no value to call method "@ + method_name),
                }
            }
        },
        SpecExpr::For { var_name, l_bound, r_bound, body_exprs } => {
            let first = eval(w, fuel, st, *l_bound);
            if first.result is Err {
                first
            } else {
                let second = eval(w, fuel, first.state, *r_bound);
                if second.result is Err {
                    second
                } else {
                    eval_for(w, fuel, second.state, var_name, body_exprs)
                }
            }
        },
        SpecExpr::While { while_expr, body_exprs } => eval_while(w, fuel, st, e),
        SpecExpr::If { if_expr, true_expression, false_expression } => {
            let found = eval(w, fuel, st, *if_expr);
            if found.result is Err {
                found
            } else {
                match found.state.top_value() {
                    Some(SpecValue::Bool(b)) => eval_list(
                        w,
                        fuel,
                        found.state.pop(),
                        if b {
                            true_expression
                        } else {
                            false_expression
                        },
                        0,
                    ),
                    Some(_) => fail(found.state.pop(), "not expected result in if"@),
                    None => done(found.state),
                }
            }
        },
        SpecExpr::FunctionDef { name, args, body } => done(
            st.define(SpecFunction { name, args, body }),
        ),
        SpecExpr::Return { expr } => eval(w, fuel, st, *expr),
    }
}

/// Evaluates the nodes of `list` from number `from` on, in order, up to the
/// first that fails.
pub open spec fn eval_list(w: World, fuel: nat, st: SpecState, list: Seq<SpecExpr>, from: nat)
    -> Outcome
    decreases fuel, list, 0nat, list.len() - from,
{
    if from >= list.len() {
        done(st)
    } else {
        let first = eval(w, fuel, st, list[from as int]);
        if first.result is Err {
            first
        } else {
            eval_list(w, fuel, first.state, list, from + 1)
        }
    }
}

/// A call of the standard function `name`: the arguments are evaluated in
/// order in the current scope, then the host is called with them.
pub open spec fn eval_std_call(
    w: World,
    fuel: nat,
    st: SpecState,
    name: Seq<char>,
    args: Seq<SpecExpr>,
) -> Outcome
    decreases fuel, args, 1nat, 0nat,
{
    let evaluated = eval_list(w, fuel, st, args, 0);
    if evaluated.result is Err {
        evaluated
    } else {
        finish_call(
            w,
            evaluated.state,
            args.len(),
            "Error with function "@ + name + " : "@,
            Target::Function { name },
        )
    }
}

/// A call of a method on `this`: the host must provide methods for values
/// of its kind, and among them `method_name`. The arguments are evaluated in
/// order, then the host is called with them.
pub open spec fn eval_method(
    w: World,
    fuel: nat,
    st: SpecState,
    this: SpecValue,
    method_name: Seq<char>,
    args: Seq<SpecExpr>,
) -> Outcome
    decreases fuel, args, 1nat, 0nat,
{
    if !w.registry.methods.contains_key(this.kind()) {
        fail(st, "method for "@ + this.text() + " not supported"@)
    } else if !w.registry.methods[this.kind()].names.contains(method_name) {
        fail(st, "unknows method "@ + method_name + " for "@ + this.text())
    } else {
        let evaluated = eval_list(w, fuel, st, args, 0);
        if evaluated.result is Err {
            evaluated
        } else {
            finish_call(
                w,
                evaluated.state,
                args.len(),
                "Error with method "@ + method_name + " : "@,
                Target::Method { name: method_name, this },
            )
        }
    }
}

/// A call of the user function `name`. A new scope is pushed; the arguments
/// are evaluated in it, in order; the parameters are bound in it, the last
/// first; the body runs in it, with a budget one lower; the scope is popped.
/// Where an evaluation fails the scope stays.
pub open spec fn eval_user_call(
    w: World,
    fuel: nat,
    st: SpecState,
    name: Seq<char>,
    args: Seq<SpecExpr>,
) -> Outcome
    decreases fuel, args, 1nat, 0nat,
{
    if fuel == 0 {
        fail(st, budget_message())
    } else {
        let function = st.functions[name];
        let evaluated = eval_list(w, fuel, st.push_scope(), args, 0);
        if evaluated.result is Err {
            evaluated
        } else {
            let bound = bind_params(evaluated.state, function.args, function.args.len());
            let run = eval_list(w, (fuel - 1) as nat, bound, function.body, 0);
            if run.result is Err {
                run
            } else {
                done(run.state.pop_scope())
            }
        }
    }
}

/// A `for` statement, once its bounds have been evaluated: the upper bound
/// is taken from the value channel, then the lower one; both must be
/// integers; the variable is bound to the lower bound and the loop runs.
pub open spec fn eval_for(
    w: World,
    fuel: nat,
    st: SpecState,
    var_name: Seq<char>,
    body: Seq<SpecExpr>,
) -> Outcome
    decreases fuel, body, 2nat, 0nat,
{
    match st.top_value() {
        None => fail(st, "Expected value on stack"@),
        Some(high) => match st.pop().top_value() {
            None => fail(st.pop(), "Expected value on stack"@),
            Some(low) => {
                let rest = st.pop().pop();
                match (low, high) {
                    (SpecValue::Integer(lo), SpecValue::Integer(hi)) => for_loop(
                        w,
                        fuel,
                        rest.bind(var_name, low),
                        var_name,
                        body,
                        lo,
                        hi,
                    ),
                    _ => fail(rest, "expected int"@),
                }
            },
        },
    }
}

/// The turns of a `for` loop from `i` on: while `i` is below `hi` the body
/// runs and the variable is bound anew, to `i + 1`, whatever the body did
/// to it.
pub open spec fn for_loop(
    w: World,
    fuel: nat,
    st: SpecState,
    var_name: Seq<char>,
    body: Seq<SpecExpr>,
    i: i64,
    hi: i64,
) -> Outcome
    decreases fuel, body, 1nat, hi - i,
{
    if i < hi {
        let run = eval_list(w, fuel, st, body, 0);
        if run.result is Err {
            run
        } else {
            let next = (i + 1) as i64;
            for_loop(
                w,
                fuel,
                run.state.bind(var_name, SpecValue::Integer(next)),
                var_name,
                body,
                next,
                hi,
            )
        }
    } else {
        done(st)
    }
}

/// A `while` statement `e`: the condition is evaluated and taken from the
/// value channel; `true` runs the body and goes on to the next turn, `false`
/// ends the loop, another value is an error. Where the condition pushed
/// nothing the loop goes on to the next turn as it is.
pub open spec fn eval_while(w: World, fuel: nat, st: SpecState, e: SpecExpr) -> Outcome
    decreases fuel, e, 2nat, 0nat,
{
    match e {
        SpecExpr::While { while_expr, body_exprs } => {
            let found = eval(w, fuel, st, *while_expr);
            if found.result is Err {
                found
            } else {
                match found.state.top_value() {
                    Some(SpecValue::Bool(true)) => {
                        let run = eval_list(w, fuel, found.state.pop(), body_exprs, 0);
                        if run.result is Err {
                            run
                        } else if fuel == 0 {
                            fail(run.state, budget_message())
                        } else {
                            eval_while(w, (fuel - 1) as nat, run.state, e)
                        }
                    },
                    Some(SpecValue::Bool(false)) => done(found.state.pop()),
                    Some(_) => fail(found.state.pop(), "not expected result in while"@),
                    None => if fuel == 0 {
                        fail(found.state, budget_message())
                    } else {
                        eval_while(w, (fuel - 1) as nat, found.state, e)
                    },
                }
            }
        },
        _ => done(st),
    }
}

} // verus!
