//! Laws of evaluation: what holds of the model for every input.

use vstd::prelude::*;
use crate::expressions::SpecExpr;
use crate::semantics::{
    binary_plan,
    bind_params,
    done,
    eval,
    eval_for,
    eval_list,
    eval_method,
    eval_std_call,
    eval_user_call,
    eval_while,
    fail,
    finish_binary,
    for_loop,
    lookup,
    BinaryPlan,
    Outcome,
    Question,
    SpecState,
    World,
};
use crate::token::{SpecToken, TokenKind};
use crate::value::SpecValue;

verus! {

/// An integer divided by an integer is a float, also where the division is
/// exact: the arithmetic of floats is asked for the quotient of the two, the
/// left one first, and the result is what it answers, pushed as a
/// float.
pub proof fn lemma_integer_division_gives_a_float(
    w: World,
    st: SpecState,
    op: SpecToken,
    left: i64,
    right: i64,
)
    requires
        op.kind == TokenKind::Devide,
        st.values.len() >= 2,
        st.values[st.values.len() - 2] == SpecValue::Integer(left),
        st.values[st.values.len() - 1] == SpecValue::Integer(right),
    ensures
        binary_plan(op, SpecValue::Integer(left), SpecValue::Integer(right))
            == BinaryPlan::IntegerDivision,
        finish_binary(w, st, op).result is Ok,
        finish_binary(w, st, op).state.top_value() == Some(
            SpecValue::Float(
                w.float_answer(st.answered, Question::Division { left, right }),
            ),
        ),
{
}

/// Two Bools take `==` and `!=` and no other operator.
pub proof fn lemma_bools_take_equality_only(op: SpecToken, left: bool, right: bool)
    ensures
        op.kind == TokenKind::Eq ==> binary_plan(op, SpecValue::Bool(left), SpecValue::Bool(right))
            == BinaryPlan::Value(SpecValue::Bool(left == right)),
        op.kind == TokenKind::NotEq ==> binary_plan(
            op,
            SpecValue::Bool(left),
            SpecValue::Bool(right),
        ) == BinaryPlan::Value(SpecValue::Bool(left != right)),
        op.kind != TokenKind::Eq && op.kind != TokenKind::NotEq ==> binary_plan(
            op,
            SpecValue::Bool(left),
            SpecValue::Bool(right),
        ) is Fail,
{
}

/// A name is read from the innermost scope alone: where that scope does not
/// bind it the evaluation fails, whatever the scopes around it bind.
pub proof fn lemma_name_is_read_from_the_innermost_scope(
    w: World,
    fuel: nat,
    st: SpecState,
    name: Seq<char>,
)
    ensures
        st.top_scope().contains_key(name) ==> eval(w, fuel, st, SpecExpr::Name { name }) == done(
            st.push(st.top_scope()[name]),
        ),
        !st.top_scope().contains_key(name) ==> eval(w, fuel, st, SpecExpr::Name { name }) == fail(
            st,
            "unknown name '"@ + name + "'"@,
        ),
{
}

/// A call of a name that is neither a standard function nor a user function
/// fails and leaves the state as it is.
pub proof fn lemma_undefined_function_fails(
    w: World,
    fuel: nat,
    st: SpecState,
    name: Seq<char>,
    args: Seq<SpecExpr>,
)
    requires
        !w.registry.functions.contains_key(name),
        !st.functions.contains_key(name),
    ensures
        eval(w, fuel, st, SpecExpr::FunctionCall { name, args }) == fail(
            st,
            "function "@ + name + " not defined"@,
        ),
{
}

/// A statement list stops at the first statement that fails: the outcome is
/// the failure of that statement, in the state that the statements before it
/// left, and no later statement is evaluated. After a statement that
/// succeeds the list goes on from the state that it left.
pub proof fn lemma_list_stops_at_the_first_failure(
    w: World,
    fuel: nat,
    st: SpecState,
    list: Seq<SpecExpr>,
    from: nat,
)
    requires
        from < list.len(),
    ensures
        eval(w, fuel, st, list[from as int]).result is Err ==> eval_list(w, fuel, st, list, from)
            == eval(w, fuel, st, list[from as int]),
        eval(w, fuel, st, list[from as int]).result is Ok ==> eval_list(w, fuel, st, list, from)
            == eval_list(w, fuel, eval(w, fuel, st, list[from as int]).state, list, from + 1),
{
}

/// `count` turns of a `for` loop whose variable stands at `i`: each turn
/// runs the body and binds the variable to the next number, and the first
/// turn that fails is the last.
pub open spec fn for_turns(
    w: World,
    fuel: nat,
    st: SpecState,
    var_name: Seq<char>,
    body: Seq<SpecExpr>,
    i: i64,
    count: nat,
) -> Outcome
    decreases count,
{
    if count == 0 {
        done(st)
    } else {
        let run = eval_list(w, fuel, st, body, 0);
        if run.result is Err {
            run
        } else {
            let next = (i + 1) as i64;
            for_turns(
                w,
                fuel,
                run.state.bind(var_name, SpecValue::Integer(next)),
                var_name,
                body,
                next,
                (count - 1) as nat,
            )
        }
    }
}

/// A `for` loop from `lo` to `hi` takes `hi - lo` turns, with its variable
/// at `lo`, `lo + 1` and so on up to `hi - 1`, and none where `lo` is not
/// below `hi`: the body never runs with the variable at `hi`.
pub proof fn lemma_for_loop_takes_its_turns(
    w: World,
    fuel: nat,
    st: SpecState,
    var_name: Seq<char>,
    body: Seq<SpecExpr>,
    lo: i64,
    hi: i64,
)
    ensures
        lo >= hi ==> for_loop(w, fuel, st, var_name, body, lo, hi) == done(st),
        lo < hi ==> for_loop(w, fuel, st, var_name, body, lo, hi) == for_turns(
            w,
            fuel,
            st,
            var_name,
            body,
            lo,
            (hi - lo) as nat,
        ),
    decreases hi - lo,
{
    if lo < hi {
        let run = eval_list(w, fuel, st, body, 0);
        if run.result is Ok {
            let next = (lo + 1) as i64;
            let bound = run.state.bind(var_name, SpecValue::Integer(next));
            lemma_for_loop_takes_its_turns(w, fuel, bound, var_name, body, next, hi);
        }
    }
}

/// A `for` loop with nothing in its body leaves its variable at the upper
/// bound: the loop goes on while the variable is below that bound and no
/// further.
pub proof fn lemma_for_loop_ends_at_the_upper_bound(
    w: World,
    fuel: nat,
    st: SpecState,
    var_name: Seq<char>,
    i: i64,
    hi: i64,
)
    requires
        st.scopes.len() >= 1,
    ensures
        i >= hi ==> for_loop(w, fuel, st, var_name, Seq::empty(), i, hi) == done(st),
        i < hi ==> for_loop(w, fuel, st, var_name, Seq::empty(), i, hi) == done(
            st.bind(var_name, SpecValue::Integer(hi)),
        ),
    decreases hi - i,
{
    if i < hi {
        let next = (i + 1) as i64;
        let bound = st.bind(var_name, SpecValue::Integer(next));
        assert(eval_list(w, fuel, st, Seq::empty(), 0) == done(st));
        lemma_for_loop_ends_at_the_upper_bound(w, fuel, bound, var_name, next, hi);
        if next < hi {
            assert(bound.scopes.drop_last() =~= st.scopes.drop_last());
            assert(bound.top_scope().insert(var_name, SpecValue::Integer(hi))
                =~= st.top_scope().insert(var_name, SpecValue::Integer(hi)));
        }
    }
}

/// That an evaluation from the state `before` kept the scopes around the
/// innermost one: the scope stack is no less deep than it was, the scopes
/// below the innermost are what they were, and after a success the stack is
/// as deep as it was.
pub open spec fn keeps_outer_scopes(before: SpecState, after: Outcome) -> bool {
    let depth = before.scopes.len() as int;
    &&& after.state.scopes.len() >= depth
    &&& after.state.scopes.take(depth - 1) =~= before.scopes.take(depth - 1)
    &&& after.result is Ok ==> after.state.scopes.len() == depth
}

proof fn lemma_bind_params_scopes(st: SpecState, params: Seq<Seq<char>>, count: nat)
    requires
        st.scopes.len() >= 1,
    ensures
        keeps_outer_scopes(st, done(bind_params(st, params, count))),
    decreases count,
{
    if 0 < count <= params.len() {
        let bound = match st.top_value() {
            Some(value) => st.pop().bind(params[count - 1], value),
            None => st,
        };
        lemma_bind_params_scopes(bound, params, (count - 1) as nat);
    }
}

/// Every evaluation keeps the scopes around the innermost one.
pub proof fn lemma_eval_keeps_outer_scopes(w: World, fuel: nat, st: SpecState, e: SpecExpr)
    requires
        st.scopes.len() >= 1,
    ensures
        keeps_outer_scopes(st, eval(w, fuel, st, e)),
    decreases fuel, e, 3nat, 0nat,
{
    match e {
        SpecExpr::Unary { op, expr } => {
            lemma_eval_keeps_outer_scopes(w, fuel, st, *expr);
        },
        SpecExpr::Binary { op, left, right } => {
            lemma_eval_keeps_outer_scopes(w, fuel, st, *left);
            let first = eval(w, fuel, st, *left);
            if first.result is Ok {
                lemma_eval_keeps_outer_scopes(w, fuel, first.state, *right);
            }
        },
        SpecExpr::Assignment { name, value } => {
            lemma_eval_keeps_outer_scopes(w, fuel, st, *value);
        },
        SpecExpr::StatementList { statement_list } => {
            lemma_list_keeps_outer_scopes(w, fuel, st, statement_list, 0);
        },
        SpecExpr::FunctionCall { name, args } => {
            if w.registry.functions.contains_key(name) {
                lemma_std_call_keeps_outer_scopes(w, fuel, st, name, args);
            } else if st.functions.contains_key(name) {
                lemma_user_call_restores_the_scopes(w, fuel, st, name, args);
            }
        },
        SpecExpr::MethodCall { self_name, method_name, args } => {
            match lookup(st.scopes, self_name) {
                Some(this) => {
                    lemma_method_keeps_outer_scopes(w, fuel, st, this, method_name, args);
                },
                None => {},
            }
        },
        SpecExpr::AnonymousMethod { self_expr, method_name, args } => {
            lemma_eval_keeps_outer_scopes(w, fuel, st, *self_expr);
            let found = eval(w, fuel, st, *self_expr);
            if found.result is Ok {
                match found.state.top_value() {
                    Some(this) => {
                        lemma_method_keeps_outer_scopes(
                            w,
                            fuel,
                            found.state.pop(),
                            this,
                            method_name,
                            args,
                        );
                    },
                    None => {},
                }
            }
        },
        SpecExpr::For { var_name, l_bound, r_bound, body_exprs } => {
            lemma_eval_keeps_outer_scopes(w, fuel, st, *l_bound);
            let first = eval(w, fuel, st, *l_bound);
            if first.result is Ok {
                lemma_eval_keeps_outer_scopes(w, fuel, first.state, *r_bound);
                let second = eval(w, fuel, first.state, *r_bound);
                if second.result is Ok {
                    lemma_for_keeps_outer_scopes(w, fuel, second.state, var_name, body_exprs);
                }
            }
        },
        SpecExpr::While { while_expr, body_exprs } => {
            lemma_while_keeps_outer_scopes(w, fuel, st, e);
        },
        SpecExpr::If { if_expr, true_expression, false_expression } => {
            lemma_eval_keeps_outer_scopes(w, fuel, st, *if_expr);
            let found = eval(w, fuel, st, *if_expr);
            if found.result is Ok {
                match found.state.top_value() {
                    Some(SpecValue::Bool(b)) => {
                        lemma_list_keeps_outer_scopes(
                            w,
                            fuel,
                            found.state.pop(),
                            if b {
                                true_expression
                            } else {
                                false_expression
                            },
                            0,
                        );
                    },
                    _ => {},
                }
            }
        },
        SpecExpr::Return { expr } => {
            lemma_eval_keeps_outer_scopes(w, fuel, st, *expr);
        },
        _ => {},
    }
}

/// Every statement list keeps the scopes around the innermost one.
pub proof fn lemma_list_keeps_outer_scopes(
    w: World,
    fuel: nat,
    st: SpecState,
    list: Seq<SpecExpr>,
    from: nat,
)
    requires
        st.scopes.len() >= 1,
    ensures
        keeps_outer_scopes(st, eval_list(w, fuel, st, list, from)),
    decreases fuel, list, 0nat, list.len() - from,
{
    if from < list.len() {
        lemma_eval_keeps_outer_scopes(w, fuel, st, list[from as int]);
        let first = eval(w, fuel, st, list[from as int]);
        if first.result is Ok {
            lemma_list_keeps_outer_scopes(w, fuel, first.state, list, from + 1);
        }
    }
}

proof fn lemma_std_call_keeps_outer_scopes(
    w: World,
    fuel: nat,
    st: SpecState,
    name: Seq<char>,
    args: Seq<SpecExpr>,
)
    requires
        st.scopes.len() >= 1,
    ensures
        keeps_outer_scopes(st, eval_std_call(w, fuel, st, name, args)),
    decreases fuel, args, 1nat, 0nat,
{
    lemma_list_keeps_outer_scopes(w, fuel, st, args, 0);
}

proof fn lemma_method_keeps_outer_scopes(
    w: World,
    fuel: nat,
    st: SpecState,
    this: SpecValue,
    method_name: Seq<char>,
    args: Seq<SpecExpr>,
)
    requires
        st.scopes.len() >= 1,
    ensures
        keeps_outer_scopes(st, eval_method(w, fuel, st, this, method_name, args)),
    decreases fuel, args, 1nat, 0nat,
{
    lemma_list_keeps_outer_scopes(w, fuel, st, args, 0);
}

/// A call of a user function that succeeds leaves the scope stack as it
/// found it: what the body bound went into a scope of its own, which is gone
/// after the call, and no scope of the caller was written to.
pub proof fn lemma_user_call_restores_the_scopes(
    w: World,
    fuel: nat,
    st: SpecState,
    name: Seq<char>,
    args: Seq<SpecExpr>,
)
    requires
        st.scopes.len() >= 1,
    ensures
        keeps_outer_scopes(st, eval_user_call(w, fuel, st, name, args)),
        eval_user_call(w, fuel, st, name, args).result is Ok ==> eval_user_call(
            w,
            fuel,
            st,
            name,
            args,
        ).state.scopes == st.scopes,
    decreases fuel, args, 1nat, 0nat,
{
    if fuel > 0 {
        let function = st.functions[name];
        let inner = st.push_scope();
        lemma_list_keeps_outer_scopes(w, fuel, inner, args, 0);
        let evaluated = eval_list(w, fuel, inner, args, 0);
        if evaluated.result is Ok {
            lemma_bind_params_scopes(evaluated.state, function.args, function.args.len());
            let bound = bind_params(evaluated.state, function.args, function.args.len());
            lemma_list_keeps_outer_scopes(w, (fuel - 1) as nat, bound, function.body, 0);
        }
    }
}

proof fn lemma_for_keeps_outer_scopes(
    w: World,
    fuel: nat,
    st: SpecState,
    var_name: Seq<char>,
    body: Seq<SpecExpr>,
)
    requires
        st.scopes.len() >= 1,
    ensures
        keeps_outer_scopes(st, eval_for(w, fuel, st, var_name, body)),
    decreases fuel, body, 2nat, 0nat,
{
    match st.top_value() {
        None => {},
        Some(high) => match st.pop().top_value() {
            None => {},
            Some(low) => {
                let rest = st.pop().pop();
                match (low, high) {
                    (SpecValue::Integer(lo), SpecValue::Integer(hi)) => {
                        lemma_for_loop_keeps_outer_scopes(
                            w,
                            fuel,
                            rest.bind(var_name, low),
                            var_name,
                            body,
                            lo,
                            hi,
                        );
                    },
                    _ => {},
                }
            },
        },
    }
}

proof fn lemma_for_loop_keeps_outer_scopes(
    w: World,
    fuel: nat,
    st: SpecState,
    var_name: Seq<char>,
    body: Seq<SpecExpr>,
    i: i64,
    hi: i64,
)
    requires
        st.scopes.len() >= 1,
    ensures
        keeps_outer_scopes(st, for_loop(w, fuel, st, var_name, body, i, hi)),
    decreases fuel, body, 1nat, hi - i,
{
    if i < hi {
        lemma_list_keeps_outer_scopes(w, fuel, st, body, 0);
        let run = eval_list(w, fuel, st, body, 0);
        if run.result is Ok {
            let next = (i + 1) as i64;
            lemma_for_loop_keeps_outer_scopes(
                w,
                fuel,
                run.state.bind(var_name, SpecValue::Integer(next)),
                var_name,
                body,
                next,
                hi,
            );
        }
    }
}

proof fn lemma_while_keeps_outer_scopes(w: World, fuel: nat, st: SpecState, e: SpecExpr)
    requires
        st.scopes.len() >= 1,
    ensures
        keeps_outer_scopes(st, eval_while(w, fuel, st, e)),
    decreases fuel, e, 2nat, 0nat,
{
    match e {
        SpecExpr::While { while_expr, body_exprs } => {
            lemma_eval_keeps_outer_scopes(w, fuel, st, *while_expr);
            let found = eval(w, fuel, st, *while_expr);
            if found.result is Ok {
                match found.state.top_value() {
                    Some(SpecValue::Bool(true)) => {
                        lemma_list_keeps_outer_scopes(w, fuel, found.state.pop(), body_exprs, 0);
                        let run = eval_list(w, fuel, found.state.pop(), body_exprs, 0);
                        if run.result is Ok && fuel > 0 {
                            lemma_while_keeps_outer_scopes(w, (fuel - 1) as nat, run.state, e);
                        }
                    },
                    None => {
                        if fuel > 0 {
                            lemma_while_keeps_outer_scopes(w, (fuel - 1) as nat, found.state, e);
                        }
                    },
                    _ => {},
                }
            }
        },
        _ => {},
    }
}

} // verus!
