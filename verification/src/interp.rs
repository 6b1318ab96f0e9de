//! The tree-walking evaluator.
//!
//! An `Interpreter` holds the value channel, the scope stack and the user
//! functions, and the host: the providers of standard functions and methods
//! and the arithmetic of floats. It records every question it hands to the
//! host with the answer it gets, and each evaluating method is proved to do
//! what the model of evaluation does in every world that begins with the
//! exchanges recorded (`admits`).

use vstd::prelude::*;
use vstd::string::*;
use vstd::pervasive::unreached;
use crate::expressions::{
    boxed_copy,
    list_view,
    names_view,
    AnonymousMethodExpression,
    AssignmentExpression,
    BinaryExpression,
    BoolLiteralExpression,
    Expression,
    FloatLiteralExpression,
    ForExpression,
    FunctionCallExpression,
    FunctionDefExpression,
    IfExpression,
    IntLiteralExpression,
    MethodCallExpression,
    NameExpression,
    ReturnExpression,
    StatementListExpression,
    StringLiteralExpression,
    UnaryExpression,
    WhileExpression,
};
use crate::host::{FloatArithmetic, FunctionRepository, StdFuncResult, StdMethodsRepository};
use crate::operators::{plan_binary, plan_unary, BinaryStep, UnaryStep};
use crate::semantics;
use crate::semantics::{
    call_arguments,
    done,
    eval,
    eval_for,
    eval_list,
    eval_method,
    eval_std_call,
    eval_user_call,
    eval_while,
    fail,
    for_loop,
    lookup,
    Answer,
    CallAnswer,
    Exchange,
    MethodsOf,
    Outcome,
    Question,
    Registry,
    SpecState,
    Target,
    World,
};
use crate::table::Table;
use crate::text::{join, join3, join4};
use crate::token::{Token, TokenKind};
use crate::value::{
    lemma_values_view_drop_last,
    lemma_values_view_push,
    values_view,
    SpecValue,
    ValueKind,
    ValueVariant,
};

verus! {

/// Success, or a message.
pub type InterpResult = Result<(), String>;

/// `longer` begins with `shorter`.
pub open spec fn extends(longer: Seq<Exchange>, shorter: Seq<Exchange>) -> bool {
    &&& shorter.len() <= longer.len()
    &&& forall|i: int| 0 <= i < shorter.len() ==> longer[i] == shorter[i]
}

/// The value of what a standard function or method returned.
pub open spec fn answer_view(answer: StdFuncResult) -> CallAnswer {
    match answer {
        Ok(Some(value)) => Ok(Some(value@)),
        Ok(None) => Ok(None),
        Err(message) => Err(message@),
    }
}

/// The value of a result of evaluation.
pub open spec fn result_view(r: InterpResult) -> Result<(), Seq<char>> {
    match r {
        Ok(_) => Ok(()),
        Err(message) => Err(message@),
    }
}

/// The maps that a stack of scopes stands for.
pub open spec fn scopes_view(scopes: Seq<Table<ValueVariant>>) -> Seq<Map<Seq<char>, SpecValue>> {
    scopes.map_values(|scope: Table<ValueVariant>| scope@)
}

/// The methods of one kind of value: the provider, by its number, and the
/// names it gave.
pub struct MethodSet {
    pub repo: usize,
    pub names: Vec<String>,
}

impl MethodSet {
    /// Whether `name` is among the names.
    pub fn has(&self, name: &String) -> (r: bool)
        ensures
            r == names_view(self.names@).contains(name@),
    {
        let mut i: usize = 0;
        while i < self.names.len()
            invariant
                i <= self.names@.len(),
                forall|j: int| 0 <= j < i ==> names_view(self.names@)[j] != name@,
            decreases self.names.len() - i,
        {
            if self.names[i] == *name {
                assert(names_view(self.names@)[i as int] == name@);
                return true;
            }
            i += 1;
        }
        false
    }
}

/// The methods registered, by the kind of value.
pub struct MethodTables {
    pub string: Option<MethodSet>,
    pub integer: Option<MethodSet>,
    pub float: Option<MethodSet>,
    pub boolean: Option<MethodSet>,
}

impl MethodTables {
    /// What is registered for `kind`.
    pub open spec fn slot(&self, kind: ValueKind) -> Option<MethodSet> {
        match kind {
            ValueKind::String => self.string,
            ValueKind::Integer => self.integer,
            ValueKind::Float => self.float,
            ValueKind::Bool => self.boolean,
        }
    }

    /// Every provider number is below `repos`.
    pub open spec fn wf(&self, repos: nat) -> bool {
        forall|kind: ValueKind| #[trigger]
            self.slot(kind) is Some ==> self.slot(kind)->0.repo < repos
    }

    /// Tables with nothing registered.
    pub fn new() -> (t: MethodTables)
        ensures
            forall|kind: ValueKind| #[trigger] t.slot(kind) is None,
    {
        MethodTables { string: None, integer: None, float: None, boolean: None }
    }

    /// What is registered for `kind`.
    pub fn get(&self, kind: ValueKind) -> (r: &Option<MethodSet>)
        ensures
            *r == self.slot(kind),
    {
        match kind {
            ValueKind::String => &self.string,
            ValueKind::Integer => &self.integer,
            ValueKind::Float => &self.float,
            ValueKind::Bool => &self.boolean,
        }
    }

    /// Registers `set` for `kind`, in place of what was registered for it.
    pub fn set(&mut self, kind: ValueKind, set: MethodSet)
        ensures
            final(self).slot(kind) == Some(set),
            forall|other: ValueKind|
                other != kind ==> #[trigger] final(self).slot(other) == old(self).slot(other),
    {
        match kind {
            ValueKind::String => {
                self.string = Some(set);
            },
            ValueKind::Integer => {
                self.integer = Some(set);
            },
            ValueKind::Float => {
                self.float = Some(set);
            },
            ValueKind::Bool => {
                self.boolean = Some(set);
            },
        }
    }
}

impl View for MethodTables {
    type V = Map<ValueKind, MethodsOf>;

    open spec fn view(&self) -> Map<ValueKind, MethodsOf> {
        Map::new(
            |kind: ValueKind| self.slot(kind) is Some,
            |kind: ValueKind|
                MethodsOf {
                    repo: self.slot(kind)->0.repo,
                    names: names_view(self.slot(kind)->0.names@),
                },
        )
    }
}

/// The functions registered once the first `count` providers have registered
/// what they gave, in their order: a name goes to the last provider that
/// gave it.
pub open spec fn merged_functions(provided: Seq<Seq<Seq<char>>>, count: nat) -> Map<
    Seq<char>,
    usize,
>
    decreases count,
{
    if count == 0 || count > provided.len() {
        Map::empty()
    } else {
        registered(
            merged_functions(provided, (count - 1) as nat),
            provided[count - 1],
            (count - 1) as usize,
        )
    }
}

/// The methods registered once the first `count` providers have registered
/// what they gave, in their order: a kind of value goes to the last provider
/// that gave methods for it, with the names that this one gave.
pub open spec fn merged_methods(provided: Seq<(ValueKind, Seq<Seq<char>>)>, count: nat) -> Map<
    ValueKind,
    MethodsOf,
>
    decreases count,
{
    if count == 0 || count > provided.len() {
        Map::empty()
    } else {
        merged_methods(provided, (count - 1) as nat).insert(
            provided[count - 1].0,
            MethodsOf { repo: (count - 1) as usize, names: provided[count - 1].1 },
        )
    }
}

/// What the first `count` providers registered does not depend on what
/// providers after them gave.
pub proof fn lemma_merged_functions_of_a_prefix(
    provided: Seq<Seq<Seq<char>>>,
    more: Seq<Seq<char>>,
    count: nat,
)
    requires
        count <= provided.len(),
    ensures
        merged_functions(provided.push(more), count) == merged_functions(provided, count),
    decreases count,
{
    if count > 0 {
        lemma_merged_functions_of_a_prefix(provided, more, (count - 1) as nat);
        assert(provided.push(more)[count - 1] == provided[count - 1]);
    }
}

/// The same for methods.
pub proof fn lemma_merged_methods_of_a_prefix(
    provided: Seq<(ValueKind, Seq<Seq<char>>)>,
    more: (ValueKind, Seq<Seq<char>>),
    count: nat,
)
    requires
        count <= provided.len(),
    ensures
        merged_methods(provided.push(more), count) == merged_methods(provided, count),
    decreases count,
{
    if count > 0 {
        lemma_merged_methods_of_a_prefix(provided, more, (count - 1) as nat);
        assert(provided.push(more)[count - 1] == provided[count - 1]);
    }
}

/// The table `before` after a provider, number `repo`, registered `names`:
/// each of the names goes to `repo`, and every other name to where it went.
pub open spec fn registered(before: Map<Seq<char>, usize>, names: Seq<Seq<char>>, repo: usize)
    -> Map<Seq<char>, usize> {
    Map::new(
        |name: Seq<char>| before.contains_key(name) || names.contains(name),
        |name: Seq<char>|
            if names.contains(name) {
                repo
            } else {
                before[name]
            },
    )
}

/// Registers the functions `names` of the provider number `repo`. A name
/// that was registered before goes to `repo` from now on.
pub fn register_functions(table: &mut Table<usize>, names: &Vec<String>, repo: usize)
    requires
        old(table).wf(),
    ensures
        final(table).wf(),
        final(table)@ == registered(old(table)@, names_view(names@), repo),
{
    let ghost all = names_view(names@);
    let mut i: usize = 0;
    while i < names.len()
        invariant
            i <= names@.len(),
            all == names_view(names@),
            table.wf(),
            table@ == registered(old(table)@, all.take(i as int), repo),
        decreases names.len() - i,
    {
        table.insert(names[i].clone(), repo);
        proof {
            let shorter = all.take(i as int);
            let longer = all.take(i + 1);
            assert forall|name: Seq<char>| longer.contains(name) <==> shorter.contains(name) || name
                == names@[i as int]@ by {
                if name == names@[i as int]@ {
                    assert(longer[i as int] == name);
                }
            }
        }
        i += 1;
    }
    assert(all.take(names@.len() as int) =~= all);
}

/// The evaluator and its state.
pub struct Interpreter<F: FunctionRepository, M: StdMethodsRepository, A: FloatArithmetic> {
    values_stack: Vec<ValueVariant>,
    var_scopes: Vec<Table<ValueVariant>>,
    function_repos: Vec<F>,
    std_funcs: Table<usize>,
    method_repos: Vec<M>,
    std_methods: MethodTables,
    arithmetic: A,
    user_funcs: Table<FunctionDefExpression>,
    budget: u64,
    log: Ghost<Seq<Exchange>>,
    provided_functions: Ghost<Seq<Seq<Seq<char>>>>,
    provided_methods: Ghost<Seq<(ValueKind, Seq<Seq<char>>)>>,
}

impl<F: FunctionRepository, M: StdMethodsRepository, A: FloatArithmetic> View for Interpreter<
    F,
    M,
    A,
> {
    type V = SpecState;

    closed spec fn view(&self) -> SpecState {
        SpecState {
            values: values_view(self.values_stack@),
            scopes: scopes_view(self.var_scopes@),
            functions: self.user_funcs@,
            answered: self.log@.len(),
        }
    }
}

impl<F: FunctionRepository, M: StdMethodsRepository, A: FloatArithmetic> Interpreter<F, M, A> {
    /// The invariant of the representation. It holds of every interpreter
    /// that `new` made, whatever was run on it.
    pub closed spec fn wf(&self) -> bool {
        &&& self.var_scopes@.len() >= 1
        &&& forall|i: int|
            0 <= i < self.var_scopes@.len() ==> (#[trigger] self.var_scopes@[i]).wf()
        &&& self.user_funcs.wf()
        &&& self.std_funcs.wf()
        &&& forall|name: Seq<char>|
            self.std_funcs@.contains_key(name) ==> (#[trigger] self.std_funcs@[name])
                < self.function_repos@.len()
        &&& self.std_methods.wf(self.method_repos@.len())
    }

    /// What the host provides, and which provider serves what.
    pub closed spec fn registry(&self) -> Registry {
        Registry { functions: self.std_funcs@, methods: self.std_methods@ }
    }

    /// What the providers of functions gave when the interpreter was made:
    /// for each, in their order, the names of its functions.
    pub closed spec fn provided_functions(&self) -> Seq<Seq<Seq<char>>> {
        self.provided_functions@
    }

    /// What the providers of methods gave when the interpreter was made: for
    /// each, in their order, the kind of value and the names of its methods.
    pub closed spec fn provided_methods(&self) -> Seq<(ValueKind, Seq<Seq<char>>)> {
        self.provided_methods@
    }

    /// The exchanges with the host so far, in order.
    pub closed spec fn log(&self) -> Seq<Exchange> {
        self.log@
    }

    /// The budget that `interp_expr` evaluates with.
    pub closed spec fn budget(&self) -> u64 {
        self.budget
    }

    /// Whether `w` is a world that this interpreter may be in: it provides
    /// what the host provides, and its exchanges begin with those recorded.
    #[verifier::opaque]
    pub open spec fn admits(&self, w: World) -> bool {
        w.registry == self.registry() && extends(w.exchanges, self.log())
    }

    /// What an evaluation that ended in this state with `r` amounts to.
    pub open spec fn outcome(&self, r: InterpResult) -> Outcome {
        Outcome { state: self@, result: result_view(r) }
    }

    /// What every evaluating method keeps, from `before` to `after`: the
    /// invariant, what the host provides, the budget, and the exchanges
    /// recorded, to which it may add. The scope stack is as deep as before
    /// after a success, and no less deep after a failure.
    pub open spec fn ran(before: Self, after: Self, r: InterpResult) -> bool {
        &&& after.wf()
        &&& after.registry() == before.registry()
        &&& after.budget() == before.budget()
        &&& extends(after.log(), before.log())
        &&& after@.answered == after.log().len()
        &&& after@.scopes.len() >= before@.scopes.len()
        &&& (r is Ok ==> after@.scopes.len() == before@.scopes.len())
        &&& forall|w: World| #[trigger] after.admits(w) ==> before.admits(w)
    }

    /// What a step that asks the host nothing keeps.
    pub open spec fn stepped(before: Self, after: Self) -> bool {
        &&& after.wf()
        &&& after.registry() == before.registry()
        &&& after.budget() == before.budget()
        &&& after.log() == before.log()
        &&& after@.answered == before@.answered
        &&& forall|w: World| #[trigger] after.admits(w) ==> before.admits(w)
    }

    /// The world that holds what was recorded and no more is one that the
    /// interpreter may be in: so what holds in every world admitted holds in
    /// one.
    pub proof fn lemma_admits_what_was_recorded(self)
        ensures
            self.admits(World { registry: self.registry(), exchanges: self.log() }),
    {
        reveal(Interpreter::admits);
    }

    /// The scope stack of an interpreter holds the global scope at least.
    pub proof fn lemma_has_the_global_scope(self)
        requires
            self.wf(),
        ensures
            self@.scopes.len() >= 1,
            self@.answered == self.log().len(),
    {
    }

    /// Every world admitted provides what the host provides.
    pub proof fn lemma_admits_the_registry(self, w: World)
        requires
            self.admits(w),
        ensures
            w.registry == self.registry(),
            extends(w.exchanges, self.log()),
    {
        reveal(Interpreter::admits);
    }

    proof fn lemma_same_admits(before: Self, after: Self)
        requires
            after.registry() == before.registry(),
            after.log() == before.log(),
        ensures
            forall|w: World| #[trigger] after.admits(w) ==> before.admits(w),
    {
        reveal(Interpreter::admits);
    }

    proof fn lemma_later_admits(before: Self, after: Self, exchange: Exchange)
        requires
            after.registry() == before.registry(),
            after.log() == before.log().push(exchange),
        ensures
            extends(after.log(), before.log()),
            forall|w: World| #[trigger] after.admits(w) ==> before.admits(w),
            forall|w: World| #[trigger]
                after.admits(w) ==> w.answer_to(before.log().len(), exchange.question) == Some(
                    exchange.answer,
                ),
    {
        reveal(Interpreter::admits);
        assert forall|w: World| #[trigger] after.admits(w) implies w.answer_to(
            before.log().len(),
            exchange.question,
        ) == Some(exchange.answer) by {
            assert(after.log()[before.log().len() as int] == exchange);
        }
    }

    /// What a step that asks the host once keeps and records: the question
    /// handed to the host and the answer that came back.
    pub open spec fn asked(before: Self, after: Self, exchange: Exchange) -> bool {
        &&& after.wf()
        &&& after.registry() == before.registry()
        &&& after.budget() == before.budget()
        &&& after.log() == before.log().push(exchange)
        &&& extends(after.log(), before.log())
        &&& after@ == before@.answer()
        &&& after@.answered == after.log().len()
        &&& forall|w: World| #[trigger]
            after.admits(w) ==> before.admits(w) && w.answer_to(
                before@.answered,
                exchange.question,
            ) == Some(exchange.answer)
    }

    /// Has the arithmetic read the float that `text` spells and records the
    /// exchange.
    fn ask_literal(&mut self, text: &String) -> (read: String)
        requires
            old(self).wf(),
        ensures
            Self::asked(
                *old(self),
                *final(self),
                Exchange {
                    question: Question::Literal { text: text@ },
                    answer: Answer::Float(read@),
                },
            ),
    {
        let read = self.arithmetic.literal(text);
        proof {
            let exchange = Exchange {
                question: Question::Literal { text: text@ },
                answer: Answer::Float(read@),
            };
            self.log@ = self.log@.push(exchange);
            Self::lemma_later_admits(*old(self), *self, exchange);
        }
        read
    }

    /// Has the arithmetic compute `left op right` and records the exchange.
    fn ask_arithmetic(&mut self, op: TokenKind, left: &String, right: &String) -> (text: String)
        requires
            old(self).wf(),
        ensures
            Self::asked(
                *old(self),
                *final(self),
                Exchange {
                    question: Question::Arithmetic { op, left: left@, right: right@ },
                    answer: Answer::Float(text@),
                },
            ),
    {
        let text = self.arithmetic.arithmetic(op, left, right);
        proof {
            let exchange = Exchange {
                question: Question::Arithmetic { op, left: left@, right: right@ },
                answer: Answer::Float(text@),
            };
            self.log@ = self.log@.push(exchange);
            Self::lemma_later_admits(*old(self), *self, exchange);
        }
        text
    }

    /// Has the arithmetic compare `left op right` and records the exchange.
    fn ask_comparison(&mut self, op: TokenKind, left: &String, right: &String) -> (truth: bool)
        requires
            old(self).wf(),
        ensures
            Self::asked(
                *old(self),
                *final(self),
                Exchange {
                    question: Question::Comparison { op, left: left@, right: right@ },
                    answer: Answer::Truth(truth),
                },
            ),
    {
        let truth = self.arithmetic.compare(op, left, right);
        proof {
            let exchange = Exchange {
                question: Question::Comparison { op, left: left@, right: right@ },
                answer: Answer::Truth(truth),
            };
            self.log@ = self.log@.push(exchange);
            Self::lemma_later_admits(*old(self), *self, exchange);
        }
        truth
    }

    /// Has the arithmetic negate `operand` and records the exchange.
    fn ask_negation(&mut self, operand: &String) -> (text: String)
        requires
            old(self).wf(),
        ensures
            Self::asked(
                *old(self),
                *final(self),
                Exchange {
                    question: Question::Negation { operand: operand@ },
                    answer: Answer::Float(text@),
                },
            ),
    {
        let text = self.arithmetic.negate(operand);
        proof {
            let exchange = Exchange {
                question: Question::Negation { operand: operand@ },
                answer: Answer::Float(text@),
            };
            self.log@ = self.log@.push(exchange);
            Self::lemma_later_admits(*old(self), *self, exchange);
        }
        text
    }

    /// Has the arithmetic divide two integers and records the exchange.
    fn ask_division(&mut self, left: i64, right: i64) -> (text: String)
        requires
            old(self).wf(),
        ensures
            Self::asked(
                *old(self),
                *final(self),
                Exchange {
                    question: Question::Division { left, right },
                    answer: Answer::Float(text@),
                },
            ),
    {
        let text = self.arithmetic.divide_integers(left, right);
        proof {
            let exchange = Exchange {
                question: Question::Division { left, right },
                answer: Answer::Float(text@),
            };
            self.log@ = self.log@.push(exchange);
            Self::lemma_later_admits(*old(self), *self, exchange);
        }
        text
    }

    /// Calls the standard function `name` of the provider that the registry
    /// names for it, and records the exchange.
    fn ask_function(&mut self, name: &String, args: &Vec<ValueVariant>) -> (answer: StdFuncResult)
        requires
            old(self).wf(),
            old(self).registry().functions.contains_key(name@),
        ensures
            Self::asked(
                *old(self),
                *final(self),
                Exchange {
                    question: Question::Function {
                        repo: old(self).registry().functions[name@],
                        name: name@,
                        args: values_view(args@),
                    },
                    answer: Answer::Call(answer_view(answer)),
                },
            ),
    {
        let repo = match self.std_funcs.get(name) {
            Some(found) => *found,
            None => unreached(),
        };
        let answer = self.function_repos[repo].call(name, args);
        proof {
            let exchange = Exchange {
                question: Question::Function { repo, name: name@, args: values_view(args@) },
                answer: Answer::Call(answer_view(answer)),
            };
            self.log@ = self.log@.push(exchange);
            Self::lemma_later_admits(*old(self), *self, exchange);
        }
        answer
    }

    /// Calls the method `name` of the provider that the registry names for
    /// the kind of `this`, and records the exchange.
    fn ask_method(
        &mut self,
        name: &String,
        this: &ValueVariant,
        args: &Vec<ValueVariant>,
    ) -> (answer: StdFuncResult)
        requires
            old(self).wf(),
            old(self).registry().methods.contains_key(this@.kind()),
        ensures
            Self::asked(
                *old(self),
                *final(self),
                Exchange {
                    question: Question::Method {
                        repo: old(self).registry().methods[this@.kind()].repo,
                        name: name@,
                        this: this@,
                        args: values_view(args@),
                    },
                    answer: Answer::Call(answer_view(answer)),
                },
            ),
    {
        let repo = match self.std_methods.get(this.kind()) {
            Some(found) => found.repo,
            None => unreached(),
        };
        let answer = self.method_repos[repo].call(name, this, args);
        proof {
            let exchange = Exchange {
                question: Question::Method {
                    repo,
                    name: name@,
                    this: this@,
                    args: values_view(args@),
                },
                answer: Answer::Call(answer_view(answer)),
            };
            self.log@ = self.log@.push(exchange);
            Self::lemma_later_admits(*old(self), *self, exchange);
        }
        answer
    }

    /// Takes the last `count` values from the value channel, in the order
    /// they were pushed. Where fewer are there, all are taken and that is an
    /// error.
    fn take_arguments(&mut self, count: usize) -> (r: Result<Vec<ValueVariant>, String>)
        requires
            old(self).wf(),
        ensures
            Self::stepped(*old(self), *final(self)),
            match r {
                Ok(args) => old(self)@.values.len() >= count && values_view(args@)
                    == call_arguments(old(self)@, count as nat) && final(self)@ == (SpecState {
                    values: old(self)@.values.subrange(0, old(self)@.values.len() - count),
                    ..old(self)@
                }),
                Err(message) => old(self)@.values.len() < count && message@
                    == "exptected value in stack"@ && final(self)@ == (SpecState {
                    values: Seq::empty(),
                    ..old(self)@
                }),
            },
    {
        let ghost before = self.values_stack@;
        let n = self.values_stack.len();
        if n < count {
            self.values_stack.clear();
            proof {
                assert(values_view(self.values_stack@) =~= Seq::empty());
                Self::lemma_same_admits(*old(self), *self);
            }
            Err(String::from_str("exptected value in stack"))
        } else {
            let args = self.values_stack.split_off(n - count);
            proof {
                assert(values_view(self.values_stack@) =~= values_view(before).subrange(
                    0,
                    n - count,
                ));
                Self::lemma_same_admits(*old(self), *self);
            }
            Ok(args)
        }
    }

    /// Ends a call of the host with what it returned: a value is pushed, and
    /// a message comes back behind `prefix`.
    pub fn finish_call(&mut self, answer: StdFuncResult, prefix: String) -> (r: InterpResult)
        requires
            old(self).wf(),
        ensures
            Self::stepped(*old(self), *final(self)),
            final(self).outcome(r) == (match answer_view(answer) {
                Ok(Some(value)) => done(old(self)@.push(value)),
                Ok(None) => done(old(self)@),
                Err(message) => fail(old(self)@, prefix@ + message),
            }),
    {
        proof {
            Self::lemma_same_admits(*old(self), *self);
        }
        match answer {
            Ok(Some(value)) => {
                self.push_value(value);
                Ok(())
            },
            Ok(None) => Ok(()),
            Err(message) => Err(join(prefix.as_str(), message.as_str())),
        }
    }

    /// What a call goes to: the method `name` of the receiver, or the
    /// standard function `name` where there is no receiver.
    pub open spec fn target(this: Option<&ValueVariant>, name: &String) -> Target {
        match this {
            Some(value) => Target::Method { name: name@, this: value@ },
            None => Target::Function { name: name@ },
        }
    }

    /// Ends a call of the host once its arguments have been evaluated: the
    /// last `count` values are handed over, in the order they were pushed.
    fn call_host(
        &mut self,
        this: Option<&ValueVariant>,
        name: &String,
        count: usize,
        prefix: String,
    ) -> (r: InterpResult)
        requires
            old(self).wf(),
            match this {
                Some(value) => old(self).registry().methods.contains_key(value@.kind()),
                None => old(self).registry().functions.contains_key(name@),
            },
        ensures
            Self::ran(*old(self), *final(self), r),
            final(self)@.scopes.len() == old(self)@.scopes.len(),
            forall|w: World| #[trigger]
                final(self).admits(w) ==> semantics::finish_call(
                    w,
                    old(self)@,
                    count as nat,
                    prefix@,
                    Self::target(this, name),
                ) == final(self).outcome(r),
    {
        proof {
            reveal(Interpreter::admits);
        }
        let args = match self.take_arguments(count) {
            Err(message) => {
                return Err(message);
            },
            Ok(found) => found,
        };
        let answer = match this {
            Some(value) => self.ask_method(name, value, &args),
            None => self.ask_function(name, &args),
        };
        let r = self.finish_call(answer, prefix);
        r
    }

    /// Pushes `value` onto the value channel.
    fn push_value(&mut self, value: ValueVariant)
        requires
            old(self).wf(),
        ensures
            Self::stepped(*old(self), *final(self)),
            final(self)@ == old(self)@.push(value@),
    {
        proof {
            lemma_values_view_push(self.values_stack@, value);
        }
        self.values_stack.push(value);
        proof {
            Self::lemma_same_admits(*old(self), *self);
        }
    }

    /// Takes the value pushed last from the value channel, if there is one.
    fn pop_value(&mut self) -> (r: Option<ValueVariant>)
        requires
            old(self).wf(),
        ensures
            Self::stepped(*old(self), *final(self)),
            final(self)@ == old(self)@.pop(),
            match r {
                Some(value) => old(self)@.top_value() == Some(value@),
                None => old(self)@.top_value() is None,
            },
    {
        proof {
            if self.values_stack@.len() > 0 {
                lemma_values_view_drop_last(self.values_stack@);
            }
        }
        let r = self.values_stack.pop();
        proof {
            Self::lemma_same_admits(*old(self), *self);
        }
        r
    }

    /// Binds `name` to `value` in the innermost scope.
    fn add_var(&mut self, name: String, value: ValueVariant)
        requires
            old(self).wf(),
        ensures
            Self::stepped(*old(self), *final(self)),
            final(self)@ == old(self)@.bind(name@, value@),
    {
        let ghost before = self.var_scopes@;
        match self.var_scopes.pop() {
            Some(mut top) => {
                top.insert(name, value);
                self.var_scopes.push(top);
                proof {
                    assert(scopes_view(self.var_scopes@) =~= scopes_view(before).drop_last().push(
                        top@,
                    ));
                    Self::lemma_same_admits(*old(self), *self);
                }
            },
            None => {},
        }
    }

    /// Pushes an empty scope.
    fn _add_var_scope(&mut self)
        requires
            old(self).wf(),
        ensures
            Self::stepped(*old(self), *final(self)),
            final(self)@ == old(self)@.push_scope(),
    {
        let ghost before = self.var_scopes@;
        let scope: Table<ValueVariant> = Table::new();
        self.var_scopes.push(scope);
        proof {
            assert(scopes_view(self.var_scopes@) =~= scopes_view(before).push(Map::empty()));
            Self::lemma_same_admits(*old(self), *self);
        }
    }

    /// Pops the innermost scope, which is not the global one.
    fn _drop_var_scope(&mut self)
        requires
            old(self).wf(),
            old(self)@.scopes.len() >= 2,
        ensures
            Self::stepped(*old(self), *final(self)),
            final(self)@ == old(self)@.pop_scope(),
    {
        let ghost before = self.var_scopes@;
        self.var_scopes.pop();
        proof {
            assert(scopes_view(self.var_scopes@) =~= scopes_view(before).drop_last());
            assert forall|i: int| 0 <= i < self.var_scopes@.len() implies (
            #[trigger] self.var_scopes@[i]).wf() by {
            }
            Self::lemma_same_admits(*old(self), *self);
        }
    }

    /// What `name` is bound to in the innermost scope, if it is bound there.
    pub fn _get_var_value(&self, name: &String) -> (r: Option<ValueVariant>)
        requires
            self.wf(),
        ensures
            match r {
                Some(value) => self@.top_scope().contains_key(name@) && self@.top_scope()[name@]
                    == value@,
                None => !self@.top_scope().contains_key(name@),
            },
    {
        let n = self.var_scopes.len();
        match self.var_scopes[n - 1].get(name) {
            Some(value) => Some(value.clone()),
            None => None,
        }
    }

    /// What `name` is bound to in the innermost scope, if it is bound there.
    pub fn get_var_value(&self, name: &String) -> (r: Option<ValueVariant>)
        requires
            self.wf(),
        ensures
            match r {
                Some(value) => self@.top_scope().contains_key(name@) && self@.top_scope()[name@]
                    == value@,
                None => !self@.top_scope().contains_key(name@),
            },
    {
        self._get_var_value(name)
    }

    /// What `name` is bound to in the innermost scope that binds it.
    fn _get_var(&self, name: &String) -> (r: Option<ValueVariant>)
        requires
            self.wf(),
        ensures
            match r {
                Some(value) => lookup(self@.scopes, name@) == Some(value@),
                None => lookup(self@.scopes, name@) is None,
            },
    {
        let ghost scopes = scopes_view(self.var_scopes@);
        let mut i: usize = self.var_scopes.len();
        assert(scopes.subrange(0, i as int) =~= scopes);
        while i > 0
            invariant
                self.wf(),
                scopes == scopes_view(self.var_scopes@),
                i <= self.var_scopes@.len(),
                lookup(scopes, name@) == lookup(scopes.subrange(0, i as int), name@),
            decreases i,
        {
            let ghost part = scopes.subrange(0, i as int);
            assert(part.drop_last() =~= scopes.subrange(0, i - 1));
            match self.var_scopes[i - 1].get(name) {
                Some(value) => {
                    return Some(value.clone());
                },
                None => {},
            }
            i -= 1;
        }
        None
    }
    /// The state of a new interpreter: an empty value channel, the global
    /// scope alone and empty, no user function, no answer read.
    pub open spec fn initial() -> SpecState {
        SpecState {
            values: Seq::empty(),
            scopes: seq![Map::empty()],
            functions: Map::empty(),
            answered: 0,
        }
    }

    /// An interpreter over the given host. The providers are asked for
    /// what they provide in their order, and what they give is registered in
    /// that order: where two provide the same function, or methods for the
    /// same kind of value, the later one counts.
    pub fn new(function_repos: Vec<F>, method_repos: Vec<M>, arithmetic: A) -> (r: Self)
        ensures
            r.wf(),
            r@ == Self::initial(),
            r.log() == Seq::<Exchange>::empty(),
            r.budget() == u64::MAX,
            r.provided_functions().len() == function_repos@.len(),
            r.provided_methods().len() == method_repos@.len(),
            r.registry().functions == merged_functions(
                r.provided_functions(),
                function_repos@.len() as nat,
            ),
            r.registry().methods == merged_methods(
                r.provided_methods(),
                method_repos@.len() as nat,
            ),
    {
        let mut std_funcs: Table<usize> = Table::new();
        let ghost mut given: Seq<Seq<Seq<char>>> = Seq::empty();
        let mut i: usize = 0;
        while i < function_repos.len()
            invariant
                i <= function_repos@.len(),
                std_funcs.wf(),
                given.len() == i,
                std_funcs@ == merged_functions(given, i as nat),
                forall|name: Seq<char>|
                    std_funcs@.contains_key(name) ==> (#[trigger] std_funcs@[name]) < i,
            decreases function_repos.len() - i,
        {
            let names = function_repos[i].get_functions();
            register_functions(&mut std_funcs, &names, i);
            proof {
                lemma_merged_functions_of_a_prefix(given, names_view(names@), i as nat);
                given = given.push(names_view(names@));
            }
            i += 1;
        }
        let mut std_methods = MethodTables::new();
        let ghost mut kinds: Seq<(ValueKind, Seq<Seq<char>>)> = Seq::empty();
        let mut j: usize = 0;
        assert(std_methods@ =~= merged_methods(kinds, 0));
        while j < method_repos.len()
            invariant
                j <= method_repos@.len(),
                std_methods.wf(j as nat),
                kinds.len() == j,
                std_methods@ == merged_methods(kinds, j as nat),
            decreases method_repos.len() - j,
        {
            let kind = method_repos[j].get_diterminant();
            let names = method_repos[j].get_methods();
            let ghost before = std_methods@;
            let ghost entry = (kind, names_view(names@));
            std_methods.set(kind, MethodSet { repo: j, names });
            proof {
                assert(std_methods@ =~= before.insert(
                    kind,
                    MethodsOf { repo: j, names: entry.1 },
                ));
                lemma_merged_methods_of_a_prefix(kinds, entry, j as nat);
                kinds = kinds.push(entry);
            }
            j += 1;
        }
        let mut var_scopes: Vec<Table<ValueVariant>> = Vec::new();
        var_scopes.push(Table::new());
        let r = Interpreter {
            values_stack: Vec::new(),
            var_scopes,
            function_repos,
            std_funcs,
            method_repos,
            std_methods,
            arithmetic,
            user_funcs: Table::new(),
            budget: u64::MAX,
            log: Ghost(Seq::empty()),
            provided_functions: Ghost(given),
            provided_methods: Ghost(kinds),
        };
        assert(r@.values =~= Seq::empty());
        assert(r@.scopes =~= seq![Map::empty()]);
        r
    }

    /// Evaluates `expr` with the interpreter's budget.
    pub fn interp_expr(&mut self, expr: Box<Expression>) -> (r: InterpResult)
        requires
            old(self).wf(),
        ensures
            Self::ran(*old(self), *final(self), r),
            forall|w: World| #[trigger]
                final(self).admits(w) ==> eval(w, old(self).budget() as nat, old(self)@, expr@)
                    == final(self).outcome(r),
    {
        let fuel = self.budget;
        self.eval(&expr, fuel)
    }

    /// Sets the budget that `interp_expr` evaluates with.
    pub fn set_budget(&mut self, budget: u64)
        requires
            old(self).wf(),
        ensures
            final(self).wf(),
            final(self).budget() == budget,
            final(self).registry() == old(self).registry(),
            final(self).log() == old(self).log(),
            final(self)@ == old(self)@,
    {
        self.budget = budget;
    }

    /// Evaluates one node with the budget `fuel`.
    pub fn eval(&mut self, e: &Expression, fuel: u64) -> (r: InterpResult)
        requires
            old(self).wf(),
        ensures
            Self::ran(*old(self), *final(self), r),
            forall|w: World| #[trigger]
                final(self).admits(w) ==> eval(
                    w,
                    fuel as nat,
                    old(self)@,
                    e@,
                ) == final(self).outcome(r),
        decreases fuel, *e, 3nat,
    {
        match e {
            Expression::IntLiteral(expr) => self.visit_int_literal_expression(expr),
            Expression::FloatLiteral(expr) => self.visit_float_literal_expression(expr),
            Expression::StringLiteral(expr) => self.visit_string_literal_expression(expr),
            Expression::BoolLiteral(expr) => self.visit_bool_literal_expression(expr),
            Expression::Unary(expr) => self.visit_unary_expression(expr, fuel),
            Expression::Binary(expr) => self.visit_binary_expression(expr, fuel),
            Expression::Assignment(expr) => self.visit_assignment_expression(expr, fuel),
            Expression::StatementList(expr) => self.visit_statement_list_expression(expr, fuel),
            Expression::Name(expr) => self.visit_name_expression(expr),
            Expression::FunctionCall(expr) => self.visit_function_call_expression(expr, fuel),
            Expression::MethodCall(expr) => self.visit_method_call_expression(expr, fuel),
            Expression::AnonymousMethod(expr) => self.visit_anonymous_method_call_expression(
                expr,
                fuel,
            ),
            Expression::For(expr) => self.visit_for_expression(expr, fuel),
            Expression::While(expr) => self.visit_while_expression(expr, fuel),
            Expression::If(expr) => self.visit_if_expression(expr, fuel),
            Expression::FunctionDef(expr) => self.visit_function_def_expression(expr),
            Expression::Return(expr) => self.visit_return_expression(expr, fuel),
        }
    }

    /// Evaluates the nodes of `list` in order, up to the first that fails.
    fn eval_list(&mut self, list: &Vec<Box<Expression>>, fuel: u64) -> (r: InterpResult)
        requires
            old(self).wf(),
        ensures
            Self::ran(*old(self), *final(self), r),
            forall|w: World| #[trigger]
                final(self).admits(w) ==> eval_list(
                    w,
                    fuel as nat,
                    old(self)@,
                    list_view(list@),
                    0,
                ) == final(self).outcome(r),
        decreases fuel, *list, 0nat,
    {
        let ghost nodes = list_view(list@);
        let mut i: usize = 0;
        while i < list.len()
            invariant
                i <= list@.len(),
                nodes == list_view(list@),
                Self::ran(*old(self), *self, Ok(())),
                forall|w: World| #[trigger]
                    self.admits(w) ==> eval_list(w, fuel as nat, old(self)@, nodes, 0) == eval_list(
                        w,
                        fuel as nat,
                        self@,
                        nodes,
                        i as nat,
                    ),
            decreases list.len() - i,
        {
            match self.eval(&list[i], fuel) {
                Err(message) => {
                    return Err(message);
                },
                Ok(()) => {},
            }
            i += 1;
        }
        Ok(())
    }

    fn visit_float_literal_expression(&mut self, expr: &FloatLiteralExpression) -> (r: InterpResult)
        requires
            old(self).wf(),
        ensures
            Self::ran(*old(self), *final(self), r),
            forall|w: World, fuel: nat|
                final(self).admits(w) ==> #[trigger] eval(
                    w,
                    fuel,
                    old(self)@,
                    Expression::FloatLiteral(*expr)@,
                ) == final(self).outcome(r),
    {
        let read = self.ask_literal(&expr.f);
        self.push_value(ValueVariant::Float(read));
        Ok(())
    }

    fn visit_int_literal_expression(&mut self, expr: &IntLiteralExpression) -> (r: InterpResult)
        requires
            old(self).wf(),
        ensures
            Self::ran(*old(self), *final(self), r),
            forall|w: World, fuel: nat| #[trigger]
                eval(w, fuel, old(self)@, Expression::IntLiteral(*expr)@) == final(self).outcome(r),
    {
        self.push_value(ValueVariant::Integer(expr.i));
        Ok(())
    }

    fn visit_string_literal_expression(
        &mut self,
        expr: &StringLiteralExpression,
    ) -> (r: InterpResult)
        requires
            old(self).wf(),
        ensures
            Self::ran(*old(self), *final(self), r),
            forall|w: World, fuel: nat| #[trigger]
                eval(
                    w,
                    fuel,
                    old(self)@,
                    Expression::StringLiteral(*expr)@,
                ) == final(self).outcome(r),
    {
        self.push_value(ValueVariant::String(expr.s.clone()));
        Ok(())
    }

    fn visit_bool_literal_expression(&mut self, expr: &BoolLiteralExpression) -> (r: InterpResult)
        requires
            old(self).wf(),
        ensures
            Self::ran(*old(self), *final(self), r),
            forall|w: World, fuel: nat| #[trigger]
                eval(
                    w,
                    fuel,
                    old(self)@,
                    Expression::BoolLiteral(*expr)@,
                ) == final(self).outcome(r),
    {
        self.push_value(ValueVariant::Bool(expr.b));
        Ok(())
    }

    fn visit_name_expression(&mut self, expr: &NameExpression) -> (r: InterpResult)
        requires
            old(self).wf(),
        ensures
            Self::ran(*old(self), *final(self), r),
            forall|w: World, fuel: nat| #[trigger]
                eval(w, fuel, old(self)@, Expression::Name(*expr)@) == final(self).outcome(r),
    {
        match self._get_var_value(&expr.name) {
            Some(value) => {
                self.push_value(value);
                Ok(())
            },
            None => Err(join3("unknown name '", expr.name.as_str(), "'")),
        }
    }

    fn visit_unary_expression(&mut self, un_expr: &UnaryExpression, fuel: u64) -> (r: InterpResult)
        requires
            old(self).wf(),
        ensures
            Self::ran(*old(self), *final(self), r),
            forall|w: World| #[trigger]
                final(self).admits(w) ==> eval(
                    w,
                    fuel as nat,
                    old(self)@,
                    Expression::Unary(*un_expr)@,
                ) == final(self).outcome(r),
        decreases fuel, *un_expr, 1nat,
    {
        match self.eval(&un_expr.expr, fuel) {
            Err(message) => {
                return Err(message);
            },
            Ok(()) => {},
        }
        self.finish_unary(&un_expr.op)
    }

    /// Applies a prefix operator to the value pushed last.
    fn finish_unary(&mut self, op: &Token) -> (r: InterpResult)
        requires
            old(self).wf(),
        ensures
            Self::ran(*old(self), *final(self), r),
            final(self)@.scopes.len() == old(self)@.scopes.len(),
            forall|w: World| #[trigger]
                final(self).admits(w) ==> semantics::finish_unary(w, old(self)@, op@)
                    == final(self).outcome(r),
    {
        let value = match self.pop_value() {
            None => {
                return Err(String::from_str("empty stack in unary expression"));
            },
            Some(found) => found,
        };
        let r = match plan_unary(op, &value) {
            UnaryStep::Value(result) => {
                self.push_value(result);
                Ok(())
            },
            UnaryStep::Fail(message) => Err(message),
            UnaryStep::FloatNegation => {
                let text = match &value {
                    ValueVariant::Float(f) => self.ask_negation(f),
                    _ => unreached(),
                };
                self.push_value(ValueVariant::Float(text));
                Ok(())
            },
        };
        r
    }

    fn visit_binary_expression(&mut self, expr: &BinaryExpression, fuel: u64) -> (r: InterpResult)
        requires
            old(self).wf(),
        ensures
            Self::ran(*old(self), *final(self), r),
            forall|w: World| #[trigger]
                final(self).admits(w) ==> eval(
                    w,
                    fuel as nat,
                    old(self)@,
                    Expression::Binary(*expr)@,
                ) == final(self).outcome(r),
        decreases fuel, *expr, 1nat,
    {
        match self.eval(&expr.left, fuel) {
            Err(message) => {
                return Err(message);
            },
            Ok(()) => {},
        }
        match self.eval(&expr.right, fuel) {
            Err(message) => {
                return Err(message);
            },
            Ok(()) => {},
        }
        self.finish_binary(&expr.op)
    }

    /// Applies a binary operator to the two values pushed last.
    fn finish_binary(&mut self, op: &Token) -> (r: InterpResult)
        requires
            old(self).wf(),
        ensures
            Self::ran(*old(self), *final(self), r),
            final(self)@.scopes.len() == old(self)@.scopes.len(),
            forall|w: World| #[trigger]
                final(self).admits(w) ==> semantics::finish_binary(w, old(self)@, op@)
                    == final(self).outcome(r),
    {
        let right = self.pop_value();
        let left = self.pop_value();
        let r = match (left, right) {
            (Some(l), Some(r)) => match plan_binary(op, &l, &r) {
                BinaryStep::Value(result) => {
                    self.push_value(result);
                    Ok(())
                },
                BinaryStep::Fail(message) => Err(message),
                BinaryStep::FloatArithmetic => {
                    let text = match (&l, &r) {
                        (ValueVariant::Float(a), ValueVariant::Float(b)) => self.ask_arithmetic(
                            op.kind(),
                            a,
                            b,
                        ),
                        _ => unreached(),
                    };
                    self.push_value(ValueVariant::Float(text));
                    Ok(())
                },
                BinaryStep::FloatComparison => {
                    let truth = match (&l, &r) {
                        (ValueVariant::Float(a), ValueVariant::Float(b)) => self.ask_comparison(
                            op.kind(),
                            a,
                            b,
                        ),
                        _ => unreached(),
                    };
                    self.push_value(ValueVariant::Bool(truth));
                    Ok(())
                },
                BinaryStep::IntegerDivision => {
                    let text = match (&l, &r) {
                        (ValueVariant::Integer(a), ValueVariant::Integer(b)) => self.ask_division(
                            *a,
                            *b,
                        ),
                        _ => unreached(),
                    };
                    self.push_value(ValueVariant::Float(text));
                    Ok(())
                },
            },
            _ => Err(String::from_str("empty stack in bynary expression")),
        };
        r
    }

    fn visit_assignment_expression(
        &mut self,
        expr: &AssignmentExpression,
        fuel: u64,
    ) -> (r: InterpResult)
        requires
            old(self).wf(),
        ensures
            Self::ran(*old(self), *final(self), r),
            forall|w: World| #[trigger]
                final(self).admits(w) ==> eval(
                    w,
                    fuel as nat,
                    old(self)@,
                    Expression::Assignment(*expr)@,
                ) == final(self).outcome(r),
        decreases fuel, *expr, 1nat,
    {
        match self.eval(&expr.value, fuel) {
            Err(message) => {
                return Err(message);
            },
            Ok(()) => {},
        }
        let r = match self.pop_value() {
            Some(value) => {
                self.add_var(expr.name.clone(), value);
                Ok(())
            },
            None => Err(String::from_str("no value for assgignment expression")),
        };
        r
    }

    fn visit_if_expression(&mut self, expr: &IfExpression, fuel: u64) -> (r: InterpResult)
        requires
            old(self).wf(),
        ensures
            Self::ran(*old(self), *final(self), r),
            forall|w: World| #[trigger]
                final(self).admits(w) ==> eval(
                    w,
                    fuel as nat,
                    old(self)@,
                    Expression::If(*expr)@,
                ) == final(self).outcome(r),
        decreases fuel, *expr, 1nat,
    {
        match self.eval(&expr.if_expr, fuel) {
            Err(message) => {
                return Err(message);
            },
            Ok(()) => {},
        }
        match self.pop_value() {
            Some(ValueVariant::Bool(b)) => {
                if b {
                    self.eval_list(&expr.true_expression, fuel)
                } else {
                    self.eval_list(&expr.false_expression, fuel)
                }
            },
            Some(_) => {
                Err(String::from_str("not expected result in if"))
            },
            None => {
                Ok(())
            },
        }
    }

    fn visit_while_expression(&mut self, expr: &WhileExpression, fuel: u64) -> (r: InterpResult)
        requires
            old(self).wf(),
        ensures
            Self::ran(*old(self), *final(self), r),
            forall|w: World| #[trigger]
                final(self).admits(w) ==> eval(
                    w,
                    fuel as nat,
                    old(self)@,
                    Expression::While(*expr)@,
                ) == final(self).outcome(r),
        decreases fuel, *expr, 1nat,
    {
        let ghost e = Expression::While(*expr)@;
        let mut left: u64 = fuel;
        loop
            invariant
                left <= fuel,
                e == Expression::While(*expr)@,
                Self::ran(*old(self), *self, Ok(())),
                forall|w: World| #[trigger]
                    self.admits(w) ==> eval_while(w, fuel as nat, old(self)@, e) == eval_while(
                        w,
                        left as nat,
                        self@,
                        e,
                    ),
            decreases left,
        {
            match self.eval(&expr.while_expr, left) {
                Err(message) => {
                    return Err(message);
                },
                Ok(()) => {},
            }
            match self.pop_value() {
                Some(ValueVariant::Bool(true)) => {
                    match self.eval_list(&expr.body_exprs, left) {
                        Err(message) => {
                            return Err(message);
                        },
                        Ok(()) => {},
                    }
                },
                Some(ValueVariant::Bool(false)) => {
                    return Ok(());
                },
                Some(_) => {
                    return Err(String::from_str("not expected result in while"));
                },
                None => {
                },
            }
            if left == 0 {
                return Err(String::from_str("evaluation budget exhausted"));
            }
            left = left - 1;
        }
    }

    /// The integer that `v` is, if it is one.
    fn value_variant_to_int(v: &ValueVariant) -> (r: Result<i64, String>)
        ensures
            match r {
                Ok(i) => v@ == SpecValue::Integer(i),
                Err(message) => !(v@ is Integer) && message@ == "expected int"@,
            },
    {
        match v {
            ValueVariant::Integer(i) => Ok(*i),
            _ => Err(String::from_str("expected int")),
        }
    }

    /// Takes the value pushed last, for a bound of a `for` statement.
    fn get_current_stack_value(&mut self) -> (r: Result<ValueVariant, String>)
        requires
            old(self).wf(),
        ensures
            Self::stepped(*old(self), *final(self)),
            final(self)@ == old(self)@.pop(),
            match r {
                Ok(value) => old(self)@.top_value() == Some(value@),
                Err(message) => old(self)@.top_value() is None && message@
                    == "Expected value on stack"@,
            },
    {
        match self.pop_value() {
            Some(value) => Ok(value),
            None => Err(String::from_str("Expected value on stack")),
        }
    }

    fn visit_for_expression(&mut self, expr: &ForExpression, fuel: u64) -> (r: InterpResult)
        requires
            old(self).wf(),
        ensures
            Self::ran(*old(self), *final(self), r),
            forall|w: World| #[trigger]
                final(self).admits(w) ==> eval(
                    w,
                    fuel as nat,
                    old(self)@,
                    Expression::For(*expr)@,
                ) == final(self).outcome(r),
        decreases fuel, *expr, 1nat,
    {
        match self.eval(&expr.l_bound, fuel) {
            Err(message) => {
                return Err(message);
            },
            Ok(()) => {},
        }
        match self.eval(&expr.r_bound, fuel) {
            Err(message) => {
                return Err(message);
            },
            Ok(()) => {},
        }
        let ghost var_name = expr.var_name@;
        let ghost body = list_view(expr.body_exprs@);
        let ghost bounds = self@;
        assert forall|w: World| #[trigger] self.admits(w) implies eval(
            w,
            fuel as nat,
            old(self)@,
            Expression::For(*expr)@,
        ) == eval_for(w, fuel as nat, bounds, var_name, body) by {}
        let r_bound = match self.get_current_stack_value() {
            Err(message) => {
                return Err(message);
            },
            Ok(found) => found,
        };
        let l_bound = match self.get_current_stack_value() {
            Err(message) => {
                return Err(message);
            },
            Ok(found) => found,
        };
        let mut l_bound_i = match Self::value_variant_to_int(&l_bound) {
            Err(message) => {
                return Err(message);
            },
            Ok(found) => found,
        };
        let r_bound_i = match Self::value_variant_to_int(&r_bound) {
            Err(message) => {
                return Err(message);
            },
            Ok(found) => found,
        };
        self.add_var(expr.var_name.clone(), l_bound);
        while l_bound_i < r_bound_i
            invariant
                var_name == expr.var_name@,
                body == list_view(expr.body_exprs@),
                Self::ran(*old(self), *self, Ok(())),
                forall|w: World| #[trigger]
                    self.admits(w) ==> eval_for(w, fuel as nat, bounds, var_name, body) == for_loop(
                        w,
                        fuel as nat,
                        self@,
                        var_name,
                        body,
                        l_bound_i,
                        r_bound_i,
                    ),
                forall|w: World| #[trigger]
                    self.admits(w) ==> eval(
                        w,
                        fuel as nat,
                        old(self)@,
                        Expression::For(*expr)@,
                    ) == eval_for(w, fuel as nat, bounds, var_name, body),
            decreases r_bound_i - l_bound_i,
        {
            match self.eval_list(&expr.body_exprs, fuel) {
                Err(message) => {
                    return Err(message);
                },
                Ok(()) => {},
            }
            l_bound_i = l_bound_i + 1;
            self.add_var(expr.var_name.clone(), ValueVariant::Integer(l_bound_i));
        }
        Ok(())
    }

    fn visit_function_def_expression(&mut self, expr: &FunctionDefExpression) -> (r: InterpResult)
        requires
            old(self).wf(),
        ensures
            Self::ran(*old(self), *final(self), r),
            forall|w: World, fuel: nat| #[trigger]
                eval(w, fuel, old(self)@, Expression::FunctionDef(*expr)@) == final(self).outcome(
                    r,
                ),
    {
        let definition = boxed_copy(expr);
        self.user_funcs.insert(expr.name.clone(), *definition);
        proof {
            Self::lemma_same_admits(*old(self), *self);
        }
        Ok(())
    }

    fn visit_function_call_expression(
        &mut self,
        expr: &FunctionCallExpression,
        fuel: u64,
    ) -> (r: InterpResult)
        requires
            old(self).wf(),
        ensures
            Self::ran(*old(self), *final(self), r),
            forall|w: World| #[trigger]
                final(self).admits(w) ==> eval(
                    w,
                    fuel as nat,
                    old(self)@,
                    Expression::FunctionCall(*expr)@,
                ) == final(self).outcome(r),
        decreases fuel, *expr, 2nat,
    {
        proof {
            reveal(Interpreter::admits);
        }
        if self.std_funcs.contains_key(&expr.name) {
            self.call_std_func(expr, fuel)
        } else if self.user_funcs.contains_key(&expr.name) {
            self.call_user_func(expr, fuel)
        } else {
            Err(join3("function ", expr.name.as_str(), " not defined"))
        }
    }

    fn call_std_func(&mut self, expr: &FunctionCallExpression, fuel: u64) -> (r: InterpResult)
        requires
            old(self).wf(),
            old(self).registry().functions.contains_key(expr.name@),
        ensures
            Self::ran(*old(self), *final(self), r),
            forall|w: World| #[trigger]
                final(self).admits(w) ==> eval_std_call(
                    w,
                    fuel as nat,
                    old(self)@,
                    expr.name@,
                    list_view(expr.args@),
                ) == final(self).outcome(r),
        decreases fuel, *expr, 1nat,
    {
        match self.eval_list(&expr.args, fuel) {
            Err(message) => {
                return Err(message);
            },
            Ok(()) => {},
        }
        let prefix = join3("Error with function ", expr.name.as_str(), " : ");
        self.call_host(None, &expr.name, expr.args.len(), prefix)
    }

    fn call_user_func(&mut self, expr: &FunctionCallExpression, fuel: u64) -> (r: InterpResult)
        requires
            old(self).wf(),
            old(self)@.functions.contains_key(expr.name@),
        ensures
            Self::ran(*old(self), *final(self), r),
            forall|w: World| #[trigger]
                final(self).admits(w) ==> eval_user_call(
                    w,
                    fuel as nat,
                    old(self)@,
                    expr.name@,
                    list_view(expr.args@),
                ) == final(self).outcome(r),
        decreases fuel, *expr, 1nat,
    {
        if fuel == 0 {
            return Err(String::from_str("evaluation budget exhausted"));
        }
        let user_f = match self.user_funcs.get(&expr.name) {
            Some(found) => boxed_copy(found),
            None => unreached(),
        };
        self._add_var_scope();
        match self.eval_list(&expr.args, fuel) {
            Err(message) => {
                return Err(message);
            },
            Ok(()) => {},
        }
        self.bind_params(&user_f.args);
        match self.eval_list(&user_f.body, fuel - 1) {
            Err(message) => {
                return Err(message);
            },
            Ok(()) => {},
        }
        self._drop_var_scope();
        Ok(())
    }

    /// Binds the parameters, the last first, each to the value taken from
    /// the value channel.
    fn bind_params(&mut self, params: &Vec<String>)
        requires
            old(self).wf(),
        ensures
            Self::stepped(*old(self), *final(self)),
            final(self)@.scopes.len() == old(self)@.scopes.len(),
            final(self)@ == semantics::bind_params(
                old(self)@,
                names_view(params@),
                params@.len(),
            ),
    {
        let ghost names = names_view(params@);
        let mut i: usize = params.len();
        while i > 0
            invariant
                i <= params@.len(),
                names == names_view(params@),
                Self::stepped(*old(self), *self),
                self@.scopes.len() == old(self)@.scopes.len(),
                semantics::bind_params(old(self)@, names, params@.len()) == semantics::bind_params(
                    self@,
                    names,
                    i as nat,
                ),
            decreases i,
        {
            match self.pop_value() {
                Some(value) => {
                    self.add_var(params[i - 1].clone(), value);
                },
                None => {},
            }
            i -= 1;
        }
    }

    fn call_method(
        &mut self,
        this_value: &ValueVariant,
        method_name: &String,
        args: &Vec<Box<Expression>>,
        fuel: u64,
    ) -> (r: InterpResult)
        requires
            old(self).wf(),
        ensures
            Self::ran(*old(self), *final(self), r),
            forall|w: World| #[trigger]
                final(self).admits(w) ==> eval_method(
                    w,
                    fuel as nat,
                    old(self)@,
                    this_value@,
                    method_name@,
                    list_view(args@),
                ) == final(self).outcome(r),
        decreases fuel, *args, 1nat,
    {
        proof {
            reveal(Interpreter::admits);
        }
        let known = match self.std_methods.get(this_value.kind()) {
            None => {
                let text = this_value.to_string();
                return Err(join3("method for ", text.as_str(), " not supported"));
            },
            Some(methods) => methods.has(method_name),
        };
        if !known {
            let text = this_value.to_string();
            return Err(join4("unknows method ", method_name.as_str(), " for ", text.as_str()));
        }
        match self.eval_list(args, fuel) {
            Err(message) => {
                return Err(message);
            },
            Ok(()) => {},
        }
        let prefix = join3("Error with method ", method_name.as_str(), " : ");
        self.call_host(Some(this_value), method_name, args.len(), prefix)
    }

    fn visit_method_call_expression(
        &mut self,
        expr: &MethodCallExpression,
        fuel: u64,
    ) -> (r: InterpResult)
        requires
            old(self).wf(),
        ensures
            Self::ran(*old(self), *final(self), r),
            forall|w: World| #[trigger]
                final(self).admits(w) ==> eval(
                    w,
                    fuel as nat,
                    old(self)@,
                    Expression::MethodCall(*expr)@,
                ) == final(self).outcome(r),
        decreases fuel, *expr, 1nat,
    {
        match self._get_var(&expr.self_name) {
            Some(this_value) => self.call_method(&this_value, &expr.method_name, &expr.args, fuel),
            None => Err(join3("call method with unknown object '", expr.self_name.as_str(), "'")),
        }
    }

    fn visit_anonymous_method_call_expression(
        &mut self,
        expr: &AnonymousMethodExpression,
        fuel: u64,
    ) -> (r: InterpResult)
        requires
            old(self).wf(),
        ensures
            Self::ran(*old(self), *final(self), r),
            forall|w: World| #[trigger]
                final(self).admits(w) ==> eval(
                    w,
                    fuel as nat,
                    old(self)@,
                    Expression::AnonymousMethod(*expr)@,
                ) == final(self).outcome(r),
        decreases fuel, *expr, 1nat,
    {
        match self.eval(&expr.self_expr, fuel) {
            Err(message) => {
                return Err(message);
            },
            Ok(()) => {},
        }
        match self.pop_value() {
            Some(this_value) => {
                self.call_method(&this_value, &expr.method_name, &expr.args, fuel)
            },
            None => {
                Err(join("no value to call method ", expr.method_name.as_str()))
            },
        }
    }

    fn visit_return_expression(&mut self, expr: &ReturnExpression, fuel: u64) -> (r: InterpResult)
        requires
            old(self).wf(),
        ensures
            Self::ran(*old(self), *final(self), r),
            forall|w: World| #[trigger]
                final(self).admits(w) ==> eval(
                    w,
                    fuel as nat,
                    old(self)@,
                    Expression::Return(*expr)@,
                ) == final(self).outcome(r),
        decreases fuel, *expr, 1nat,
    {
        self.eval(&expr.expr, fuel)
    }

    fn visit_statement_list_expression(
        &mut self,
        expr: &StatementListExpression,
        fuel: u64,
    ) -> (r: InterpResult)
        requires
            old(self).wf(),
        ensures
            Self::ran(*old(self), *final(self), r),
            forall|w: World| #[trigger]
                final(self).admits(w) ==> eval(
                    w,
                    fuel as nat,
                    old(self)@,
                    Expression::StatementList(*expr)@,
                ) == final(self).outcome(r),
        decreases fuel, *expr, 1nat,
    {
        self.eval_list(&expr.statement_list, fuel)
    }
}

} // verus!
