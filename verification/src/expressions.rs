//! The syntax tree: a closed set of node kinds, each node owning its
//! children.

use vstd::prelude::*;
use crate::token::{SpecToken, Token};

verus! {

/// An integer literal.
#[derive(PartialEq, Debug)]
pub struct IntLiteralExpression {
    pub i: i64,
}

impl IntLiteralExpression {
    pub fn new(i: i64) -> (r: Self)
        ensures
            r == (IntLiteralExpression { i }),
    {
        IntLiteralExpression { i }
    }
}

/// A float literal, kept as it is spelled: the library carries floats as
/// decimal text and computes nothing with them itself.
#[derive(PartialEq, Debug)]
pub struct FloatLiteralExpression {
    pub f: String,
}

impl FloatLiteralExpression {
    pub fn new(f: String) -> (r: Self)
        ensures
            r == (FloatLiteralExpression { f }),
    {
        FloatLiteralExpression { f }
    }
}

/// A string literal.
#[derive(PartialEq, Debug)]
pub struct StringLiteralExpression {
    pub s: String,
}

impl StringLiteralExpression {
    pub fn new(s: String) -> (r: Self)
        ensures
            r == (StringLiteralExpression { s }),
    {
        StringLiteralExpression { s }
    }
}

/// `true` or `false`.
#[derive(PartialEq, Debug)]
pub struct BoolLiteralExpression {
    pub b: bool,
}

impl BoolLiteralExpression {
    pub fn new(b: bool) -> (r: Self)
        ensures
            r == (BoolLiteralExpression { b }),
    {
        BoolLiteralExpression { b }
    }
}

/// A prefix operator applied to an operand.
#[derive(PartialEq, Debug)]
pub struct UnaryExpression {
    pub op: Token,
    pub expr: Box<Expression>,
}

impl UnaryExpression {
    pub fn new(op: Token, expr: Box<Expression>) -> (r: Self)
        ensures
            r == (UnaryExpression { op, expr }),
    {
        UnaryExpression { op, expr }
    }
}

/// An operator between two operands.
#[derive(PartialEq, Debug)]
pub struct BinaryExpression {
    pub op: Token,
    pub left: Box<Expression>,
    pub right: Box<Expression>,
}

impl BinaryExpression {
    pub fn new(op: Token, left: Box<Expression>, right: Box<Expression>) -> (r: Self)
        ensures
            r == (BinaryExpression { op, left, right }),
    {
        BinaryExpression { op, left, right }
    }
}

/// `name = value`.
#[derive(PartialEq, Debug)]
pub struct AssignmentExpression {
    pub name: String,
    pub value: Box<Expression>,
}

impl AssignmentExpression {
    pub fn new(name: String, value: Box<Expression>) -> (r: Self)
        ensures
            r == (AssignmentExpression { name, value }),
    {
        AssignmentExpression { name, value }
    }
}

/// Statements in a row.
#[derive(PartialEq, Debug)]
pub struct StatementListExpression {
    pub statement_list: Vec<Box<Expression>>,
}

impl StatementListExpression {
    pub fn new(statement_list: Vec<Box<Expression>>) -> (r: Self)
        ensures
            r == (StatementListExpression { statement_list }),
    {
        StatementListExpression { statement_list }
    }
}

/// A reference to a variable.
#[derive(PartialEq, Debug)]
pub struct NameExpression {
    pub name: String,
}

impl NameExpression {
    pub fn new(name: String) -> (r: Self)
        ensures
            r == (NameExpression { name }),
    {
        NameExpression { name }
    }
}

/// `name(args)`.
#[derive(PartialEq, Debug)]
pub struct FunctionCallExpression {
    pub name: String,
    pub args: Vec<Box<Expression>>,
}

impl FunctionCallExpression {
    pub fn new(name: String, args: Vec<Box<Expression>>) -> (r: Self)
        ensures
            r == (FunctionCallExpression { name, args }),
    {
        FunctionCallExpression { name, args }
    }
}

/// `self_name.method_name(args)`: a method called on a variable.
#[derive(PartialEq, Debug)]
pub struct MethodCallExpression {
    pub self_name: String,
    pub method_name: String,
    pub args: Vec<Box<Expression>>,
}

impl MethodCallExpression {
    pub fn new(self_name: String, method_name: String, args: Vec<Box<Expression>>) -> (r: Self)
        ensures
            r == (MethodCallExpression { self_name, method_name, args }),
    {
        MethodCallExpression { self_name, method_name, args }
    }
}

/// `(self_expr).method_name(args)`: a method called on the value of an
/// expression.
#[derive(PartialEq, Debug)]
pub struct AnonymousMethodExpression {
    pub self_expr: Box<Expression>,
    pub method_name: String,
    pub args: Vec<Box<Expression>>,
}

impl AnonymousMethodExpression {
    pub fn new(
        self_expr: Box<Expression>,
        method_name: String,
        args: Vec<Box<Expression>>,
    ) -> (r: Self)
        ensures
            r == (AnonymousMethodExpression { self_expr, method_name, args }),
    {
        AnonymousMethodExpression { self_expr, method_name, args }
    }
}

/// `for var_name in [l_bound, r_bound] { body_exprs }`.
#[derive(PartialEq, Debug)]
pub struct ForExpression {
    pub var_name: String,
    pub l_bound: Box<Expression>,
    pub r_bound: Box<Expression>,
    pub body_exprs: Vec<Box<Expression>>,
}

impl ForExpression {
    pub fn new(
        var_name: String,
        l_bound: Box<Expression>,
        r_bound: Box<Expression>,
        body_exprs: Vec<Box<Expression>>,
    ) -> (r: Self)
        ensures
            r == (ForExpression { var_name, l_bound, r_bound, body_exprs }),
    {
        ForExpression { var_name, l_bound, r_bound, body_exprs }
    }
}

/// `while while_expr { body_exprs }`.
#[derive(PartialEq, Debug)]
pub struct WhileExpression {
    pub while_expr: Box<Expression>,
    pub body_exprs: Vec<Box<Expression>>,
}

impl WhileExpression {
    pub fn new(while_expr: Box<Expression>, body_exprs: Vec<Box<Expression>>) -> (r: Self)
        ensures
            r == (WhileExpression { while_expr, body_exprs }),
    {
        WhileExpression { while_expr, body_exprs }
    }
}

/// `if if_expr { true_expression } else { false_expression }`.
#[derive(PartialEq, Debug)]
pub struct IfExpression {
    pub if_expr: Box<Expression>,
    pub true_expression: Vec<Box<Expression>>,
    pub false_expression: Vec<Box<Expression>>,
}

impl IfExpression {
    pub fn new(
        if_expr: Box<Expression>,
        true_expression: Vec<Box<Expression>>,
        false_expression: Vec<Box<Expression>>,
    ) -> (r: Self)
        ensures
            r == (IfExpression { if_expr, true_expression, false_expression }),
    {
        IfExpression { if_expr, true_expression, false_expression }
    }
}

/// `fn name(args) { body }`.
#[derive(PartialEq, Debug)]
pub struct FunctionDefExpression {
    pub name: String,
    pub args: Vec<String>,
    pub body: Vec<Box<Expression>>,
}

impl FunctionDefExpression {
    pub fn new(name: String, args: Vec<String>, body: Vec<Box<Expression>>) -> (r: Self)
        ensures
            r == (FunctionDefExpression { name, args, body }),
    {
        FunctionDefExpression { name, args, body }
    }
}

/// `return expr`.
#[derive(PartialEq, Debug)]
pub struct ReturnExpression {
    pub expr: Box<Expression>,
}

impl ReturnExpression {
    pub fn new(expr: Box<Expression>) -> (r: Self)
        ensures
            r == (ReturnExpression { expr }),
    {
        ReturnExpression { expr }
    }
}

/// A node of the syntax tree.
#[derive(PartialEq, Debug)]
pub enum Expression {
    IntLiteral(IntLiteralExpression),
    FloatLiteral(FloatLiteralExpression),
    StringLiteral(StringLiteralExpression),
    BoolLiteral(BoolLiteralExpression),
    Unary(UnaryExpression),
    Binary(BinaryExpression),
    Assignment(AssignmentExpression),
    StatementList(StatementListExpression),
    Name(NameExpression),
    FunctionCall(FunctionCallExpression),
    MethodCall(MethodCallExpression),
    AnonymousMethod(AnonymousMethodExpression),
    For(ForExpression),
    While(WhileExpression),
    If(IfExpression),
    FunctionDef(FunctionDefExpression),
    Return(ReturnExpression),
}

/// The mathematical value of a syntax tree.
#[allow(inconsistent_fields)]
pub enum SpecExpr {
    IntLiteral { i: i64 },
    FloatLiteral { f: Seq<char> },
    StringLiteral { s: Seq<char> },
    BoolLiteral { b: bool },
    Unary { op: SpecToken, expr: Box<SpecExpr> },
    Binary { op: SpecToken, left: Box<SpecExpr>, right: Box<SpecExpr> },
    Assignment { name: Seq<char>, value: Box<SpecExpr> },
    StatementList { statement_list: Seq<SpecExpr> },
    Name { name: Seq<char> },
    FunctionCall { name: Seq<char>, args: Seq<SpecExpr> },
    MethodCall { self_name: Seq<char>, method_name: Seq<char>, args: Seq<SpecExpr> },
    AnonymousMethod { self_expr: Box<SpecExpr>, method_name: Seq<char>, args: Seq<SpecExpr> },
    For {
        var_name: Seq<char>,
        l_bound: Box<SpecExpr>,
        r_bound: Box<SpecExpr>,
        body_exprs: Seq<SpecExpr>,
    },
    While { while_expr: Box<SpecExpr>, body_exprs: Seq<SpecExpr> },
    If { if_expr: Box<SpecExpr>, true_expression: Seq<SpecExpr>, false_expression: Seq<SpecExpr> },
    FunctionDef { name: Seq<char>, args: Seq<Seq<char>>, body: Seq<SpecExpr> },
    Return { expr: Box<SpecExpr> },
}

/// The mathematical value of a function definition: its name, its parameter
/// names and its body.
pub struct SpecFunction {
    pub name: Seq<char>,
    pub args: Seq<Seq<char>>,
    pub body: Seq<SpecExpr>,
}

/// The value of a tree.
pub open spec fn expr_view(e: Expression) -> SpecExpr
    decreases e,
{
    match e {
        Expression::IntLiteral(n) => SpecExpr::IntLiteral { i: n.i },
        Expression::FloatLiteral(n) => SpecExpr::FloatLiteral { f: n.f@ },
        Expression::StringLiteral(n) => SpecExpr::StringLiteral { s: n.s@ },
        Expression::BoolLiteral(n) => SpecExpr::BoolLiteral { b: n.b },
        Expression::Unary(n) => SpecExpr::Unary { op: n.op@, expr: Box::new(expr_view(*n.expr)) },
        Expression::Binary(n) => SpecExpr::Binary {
            op: n.op@,
            left: Box::new(expr_view(*n.left)),
            right: Box::new(expr_view(*n.right)),
        },
        Expression::Assignment(n) => SpecExpr::Assignment {
            name: n.name@,
            value: Box::new(expr_view(*n.value)),
        },
        Expression::StatementList(n) => SpecExpr::StatementList {
            statement_list: list_view(n.statement_list@),
        },
        Expression::Name(n) => SpecExpr::Name { name: n.name@ },
        Expression::FunctionCall(n) => SpecExpr::FunctionCall {
            name: n.name@,
            args: list_view(n.args@),
        },
        Expression::MethodCall(n) => SpecExpr::MethodCall {
            self_name: n.self_name@,
            method_name: n.method_name@,
            args: list_view(n.args@),
        },
        Expression::AnonymousMethod(n) => SpecExpr::AnonymousMethod {
            self_expr: Box::new(expr_view(*n.self_expr)),
            method_name: n.method_name@,
            args: list_view(n.args@),
        },
        Expression::For(n) => SpecExpr::For {
            var_name: n.var_name@,
            l_bound: Box::new(expr_view(*n.l_bound)),
            r_bound: Box::new(expr_view(*n.r_bound)),
            body_exprs: list_view(n.body_exprs@),
        },
        Expression::While(n) => SpecExpr::While {
            while_expr: Box::new(expr_view(*n.while_expr)),
            body_exprs: list_view(n.body_exprs@),
        },
        Expression::If(n) => SpecExpr::If {
            if_expr: Box::new(expr_view(*n.if_expr)),
            true_expression: list_view(n.true_expression@),
            false_expression: list_view(n.false_expression@),
        },
        Expression::FunctionDef(n) => SpecExpr::FunctionDef {
            name: n.name@,
            args: names_view(n.args@),
            body: list_view(n.body@),
        },
        Expression::Return(n) => SpecExpr::Return { expr: Box::new(expr_view(*n.expr)) },
    }
}

/// The values of a row of trees.
pub open spec fn list_view(list: Seq<Box<Expression>>) -> Seq<SpecExpr>
    decreases list,
{
    Seq::new(
        list.len(),
        |i: int|
            if 0 <= i < list.len() {
                expr_view(*list[i])
            } else {
                arbitrary()
            },
    )
}

/// The values of a row of names.
pub open spec fn names_view(names: Seq<String>) -> Seq<Seq<char>> {
    names.map_values(|name: String| name@)
}

impl View for Expression {
    type V = SpecExpr;

    open spec fn view(&self) -> SpecExpr {
        expr_view(*self)
    }
}

/// Pushing a tree pushes its mathematical value.
pub proof fn lemma_list_view_push(list: Seq<Box<Expression>>, e: Box<Expression>)
    ensures
        list_view(list.push(e)) == list_view(list).push(e@),
{
}

/// Pushing a name pushes its characters.
pub proof fn lemma_names_view_push(names: Seq<String>, name: String)
    ensures
        names_view(names.push(name)) == names_view(names).push(name@),
{
}

/// A copy of a row of names.
pub fn copy_names(names: &Vec<String>) -> (r: Vec<String>)
    ensures
        names_view(r@) == names_view(names@),
{
    let mut r: Vec<String> = Vec::new();
    let mut i: usize = 0;
    while i < names.len()
        invariant
            i <= names.len(),
            r@.len() == i,
            forall|j: int| 0 <= j < i ==> r@[j]@ == names@[j]@,
        decreases names.len() - i,
    {
        r.push(names[i].clone());
        i += 1;
    }
    r
}

/// A copy of a tree.
pub fn copy_expression(e: &Expression) -> (r: Expression)
    ensures
        r@ == e@,
    decreases *e,
{
    match e {
        Expression::IntLiteral(n) => Expression::IntLiteral(IntLiteralExpression { i: n.i }),
        Expression::FloatLiteral(n) => Expression::FloatLiteral(
            FloatLiteralExpression {
                f: n.f.clone(),
            },
        ),
        Expression::StringLiteral(n) => Expression::StringLiteral(
            StringLiteralExpression {
                s: n.s.clone(),
            },
        ),
        Expression::BoolLiteral(n) => Expression::BoolLiteral(BoolLiteralExpression { b: n.b }),
        Expression::Unary(n) => Expression::Unary(
            UnaryExpression {
                op: n.op.clone(),
                expr: Box::new(copy_expression(&n.expr)),
            },
        ),
        Expression::Binary(n) => Expression::Binary(
            BinaryExpression {
                op: n.op.clone(),
                left: Box::new(copy_expression(&n.left)),
                right: Box::new(copy_expression(&n.right)),
            },
        ),
        Expression::Assignment(n) => Expression::Assignment(
            AssignmentExpression {
                name: n.name.clone(),
                value: Box::new(copy_expression(&n.value)),
            },
        ),
        Expression::StatementList(n) => Expression::StatementList(
            StatementListExpression {
                statement_list: copy_expressions(&n.statement_list),
            },
        ),
        Expression::Name(n) => Expression::Name(NameExpression { name: n.name.clone() }),
        Expression::FunctionCall(n) => Expression::FunctionCall(
            FunctionCallExpression {
                name: n.name.clone(),
                args: copy_expressions(&n.args),
            },
        ),
        Expression::MethodCall(n) => Expression::MethodCall(
            MethodCallExpression {
                self_name: n.self_name.clone(),
                method_name: n.method_name.clone(),
                args: copy_expressions(&n.args),
            },
        ),
        Expression::AnonymousMethod(n) => Expression::AnonymousMethod(
            AnonymousMethodExpression {
                self_expr: Box::new(copy_expression(&n.self_expr)),
                method_name: n.method_name.clone(),
                args: copy_expressions(&n.args),
            },
        ),
        Expression::For(n) => Expression::For(
            ForExpression {
                var_name: n.var_name.clone(),
                l_bound: Box::new(copy_expression(&n.l_bound)),
                r_bound: Box::new(copy_expression(&n.r_bound)),
                body_exprs: copy_expressions(&n.body_exprs),
            },
        ),
        Expression::While(n) => Expression::While(
            WhileExpression {
                while_expr: Box::new(copy_expression(&n.while_expr)),
                body_exprs: copy_expressions(&n.body_exprs),
            },
        ),
        Expression::If(n) => Expression::If(
            IfExpression {
                if_expr: Box::new(copy_expression(&n.if_expr)),
                true_expression: copy_expressions(&n.true_expression),
                false_expression: copy_expressions(&n.false_expression),
            },
        ),
        Expression::FunctionDef(n) => Expression::FunctionDef(
            FunctionDefExpression {
                name: n.name.clone(),
                args: copy_names(&n.args),
                body: copy_expressions(&n.body),
            },
        ),
        Expression::Return(n) => Expression::Return(
            ReturnExpression {
                expr: Box::new(copy_expression(&n.expr)),
            },
        ),
    }
}

/// A copy of a row of trees.
pub fn copy_expressions(list: &Vec<Box<Expression>>) -> (r: Vec<Box<Expression>>)
    ensures
        list_view(r@) == list_view(list@),
    decreases *list,
{
    let mut r: Vec<Box<Expression>> = Vec::new();
    let mut i: usize = 0;
    while i < list.len()
        invariant
            i <= list.len(),
            r@.len() == i,
            forall|j: int| 0 <= j < i ==> r@[j]@ == list@[j]@,
        decreases list.len() - i,
    {
        r.push(Box::new(copy_expression(&list[i])));
        i += 1;
    }
    r
}

impl View for FunctionDefExpression {
    type V = SpecFunction;

    open spec fn view(&self) -> SpecFunction {
        SpecFunction {
            name: self.name@,
            args: names_view(self.args@),
            body: list_view(self.body@),
        }
    }
}

impl Clone for FunctionDefExpression {
    fn clone(&self) -> (r: FunctionDefExpression)
        ensures
            r@ == self@,
    {
        FunctionDefExpression {
            name: self.name.clone(),
            args: copy_names(&self.args),
            body: copy_expressions(&self.body),
        }
    }
}

/// `dyn_clone::clone_box` gives a box that holds a clone of its argument: for
/// a type with `Clone`, what `clone` returns. The clone of a function
/// definition has the value of the definition it was made from.
#[verifier::external_body]
pub(crate) fn boxed_copy(definition: &FunctionDefExpression) -> (r: Box<FunctionDefExpression>)
    ensures
        r@ == definition@,
{
    dyn_clone::clone_box(definition)
}

impl Clone for Expression {
    fn clone(&self) -> (r: Expression)
        ensures
            r@ == self@,
    {
        copy_expression(self)
    }
}

} // verus!
