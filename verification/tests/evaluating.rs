use std::cell::RefCell;
use std::rc::Rc;

use exlang::ex_std::{IntMethods, StdMethods, StringMethods};
use exlang::expressions::{
    AnonymousMethodExpression, Expression, FunctionCallExpression, IntLiteralExpression,
    MethodCallExpression, NameExpression, ReturnExpression, StatementListExpression,
    StringLiteralExpression,
};
use exlang::host::{
    FloatArithmetic, FunctionRepository, StdFuncArgs, StdFuncResult, StdMethodArgs,
    StdMethodResult, StdMethodsRepository,
};
use exlang::interp::Interpreter;
use exlang::parser::Parser;
use exlang::token::TokenKind;
use exlang::tokenizer::tokenize;
use exlang::value::{ValueKind, ValueVariant};

/// Standard functions that write into a shared buffer.
struct Io {
    names: Vec<&'static str>,
    out: Rc<RefCell<Vec<String>>>,
    tag: &'static str,
}

impl FunctionRepository for Io {
    fn get_functions(&self) -> Vec<String> {
        self.names.iter().map(|n| n.to_string()).collect()
    }

    fn call(&self, name: &String, args: &StdFuncArgs) -> StdFuncResult {
        match name.as_str() {
            "write" | "writeln" => {
                for arg in args.iter() {
                    self.out.borrow_mut().push(arg.to_string());
                }
                Ok(None)
            }
            "read" => Ok(Some(ValueVariant::String(String::from("typed")))),
            "answer" => Ok(Some(ValueVariant::Integer(42))),
            "count" => Ok(Some(ValueVariant::Integer(args.len() as i64))),
            "who" => Ok(Some(ValueVariant::String(String::from(self.tag)))),
            "half" => Ok(Some(ValueVariant::Float(String::from("0.5")))),
            _ => Err(String::from("boom")),
        }
    }
}

struct Methods {
    kind: ValueKind,
    names: Vec<&'static str>,
}

impl StdMethodsRepository for Methods {
    fn get_diterminant(&self) -> ValueKind {
        self.kind
    }

    fn get_methods(&self) -> Vec<String> {
        self.names.iter().map(|n| n.to_string()).collect()
    }

    fn call(&self, name: &String, this: &ValueVariant, args: &StdMethodArgs) -> StdMethodResult {
        match (this, name.as_str()) {
            (ValueVariant::Integer(i), "pow") => match args.as_slice() {
                [ValueVariant::Integer(p)] => Ok(Some(ValueVariant::Integer(i.pow(*p as u32)))),
                _ => Err(format!("method arg expected 1 argument, find {}", args.len())),
            },
            (ValueVariant::String(s), "to_int") => match s.parse::<i64>() {
                Ok(i) => Ok(Some(ValueVariant::Integer(i))),
                Err(_) => Err(format!("can't convert {} to int", s)),
            },
            (ValueVariant::String(s), "len") => {
                Ok(Some(ValueVariant::Integer(s.chars().count() as i64)))
            }
            (_, "nothing") => Ok(None),
            _ => Err(String::from("no such method")),
        }
    }
}

/// Floats by the machine's arithmetic.
struct Floats;

fn number(text: &String) -> f64 {
    text.parse::<f64>().unwrap()
}

impl FloatArithmetic for Floats {
    fn literal(&self, text: &String) -> String {
        number(text).to_string()
    }

    fn arithmetic(&self, op: TokenKind, left: &String, right: &String) -> String {
        let (l, r) = (number(left), number(right));
        match op {
            TokenKind::Plus => (l + r).to_string(),
            TokenKind::Minus => (l - r).to_string(),
            TokenKind::Multi => (l * r).to_string(),
            TokenKind::Devide => (l / r).to_string(),
            other => panic!("{:?}", other),
        }
    }

    fn compare(&self, op: TokenKind, left: &String, right: &String) -> bool {
        let (l, r) = (number(left), number(right));
        match op {
            TokenKind::Eq => l == r,
            TokenKind::NotEq => l != r,
            TokenKind::More => l > r,
            TokenKind::MoreEq => l >= r,
            TokenKind::Less => l < r,
            TokenKind::LessEq => l <= r,
            other => panic!("{:?}", other),
        }
    }

    fn negate(&self, operand: &String) -> String {
        (-number(operand)).to_string()
    }

    fn divide_integers(&self, left: i64, right: i64) -> String {
        (left as f64 / right as f64).to_string()
    }
}

type Machine = Interpreter<Io, Methods, Floats>;

fn machine() -> (Machine, Rc<RefCell<Vec<String>>>) {
    let out = Rc::new(RefCell::new(Vec::new()));
    let io = Io {
        names: vec!["write", "writeln", "read", "answer", "count", "fail", "who", "half"],
        out: out.clone(),
        tag: "io",
    };
    let ints = Methods {
        kind: ValueKind::Integer,
        names: vec!["pow", "nothing"],
    };
    let strings = Methods {
        kind: ValueKind::String,
        names: vec!["to_int", "len"],
    };
    (Interpreter::new(vec![io], vec![ints, strings], Floats), out)
}

fn tree(source: &str) -> Box<Expression> {
    Parser::new(&tokenize(&String::from(source)))
        .parse()
        .unwrap()
}

fn run(source: &str) -> (Machine, Result<(), String>, Vec<String>) {
    let (mut interp, out) = machine();
    let result = interp.interp_expr(tree(source));
    let written = out.borrow().clone();
    (interp, result, written)
}

fn value_of(source: &str, name: &str) -> ValueVariant {
    let (interp, result, _) = run(source);
    result.unwrap();
    interp._get_var_value(&String::from(name)).unwrap()
}

fn failure(source: &str) -> String {
    run(source).1.unwrap_err()
}

fn float_of(v: ValueVariant) -> f64 {
    match v {
        ValueVariant::Float(text) => text.parse::<f64>().unwrap(),
        other => panic!("{:?}", other),
    }
}

fn text(s: &str) -> ValueVariant {
    ValueVariant::String(String::from(s))
}

#[test]
fn interp_iterp_test() {
    let mut test_map: std::collections::HashMap<&str, _> = std::collections::HashMap::new();
    test_map.insert("a = 2 + 2", ValueVariant::Integer(4));
    test_map.insert("a  =   (2 + 2) * 2", ValueVariant::Integer(8));
    test_map.insert("a  = 2 + 2 * 2 * 2", ValueVariant::Integer(10));
    test_map.insert(
        "b  = 0 - 3 \n\
                           a = b - 1",
        ValueVariant::Integer(-4),
    );
    test_map.insert(
        "a  = \"aa\" + \"bb\"",
        ValueVariant::String(String::from("aabb")),
    );
    test_map.insert(
        "b  = \"aa\" \n\
                           a = b + \"bb\" ",
        ValueVariant::String(String::from("aabb")),
    );
    for (prog, exp_res) in test_map.iter() {
        let prog = prog.to_string();
        let expr = Parser::new(&tokenize(&prog)).parse().unwrap();
        let (mut interp, _) = machine();
        interp.interp_expr(expr).unwrap();
        assert_eq!(interp._get_var_value(&"a".to_string()).unwrap(), *exp_res);
    }
}

#[test]
fn interp_function_call_test() {
    let prog: String = "fn test() { \n\
                                writeln(\"call test\") \n\
                                return \"afs\" \n\
                            }\n\
                            test()"
        .to_string();
    let tokens = tokenize(&prog);
    let expr = Parser::new(&tokens).parse().unwrap();
    let (mut interp, out) = machine();
    interp.interp_expr(expr).unwrap();
    assert_eq!(true, true);
    assert_eq!(*out.borrow(), vec![String::from("call test")]);
}

#[test]
fn function_call_with_args() {
    let prog: String = "fn test(a) { \n\
                                writeln(a) \n\
                            }\n\
                            test(123)"
        .to_string();

    let tokens = tokenize(&prog);
    let expr = Parser::new(&tokens).parse().unwrap();
    let (mut interp, out) = machine();
    interp.interp_expr(expr).unwrap();
    assert_eq!(true, true);
    assert_eq!(*out.borrow(), vec![String::from("123")]);
}

#[test]
fn if_test() {
    let prog: String = "if (true) { \n\
                                writeln(\"bububu\") \n\
                            }\n"
    .to_string();
    let tokens = tokenize(&prog);
    let expr = Parser::new(&tokens).parse().unwrap();
    let (mut interp, out) = machine();
    interp.interp_expr(expr).unwrap();
    assert_eq!(true, true);
    assert_eq!(*out.borrow(), vec![String::from("bububu")]);
}

#[test]
fn for_test() {
    let prog: String = "for i in [0, 10] { \n\
            writeln(\"fuuu\") \n\
        }\n"
    .to_string();
    let tokens = tokenize(&prog);
    let expr = Parser::new(&tokens).parse().unwrap();
    let (mut interp, out) = machine();
    interp.interp_expr(expr).unwrap();
    assert_eq!(true, true);
    assert_eq!(out.borrow().len(), 10);
}

#[test]
fn precedence() {
    assert_eq!(value_of("a = 2 + 2 * 2 * 2", "a"), ValueVariant::Integer(10));
    assert_eq!(value_of("a = (2 + 2) * 2", "a"), ValueVariant::Integer(8));
}

#[test]
fn subtraction_groups_to_the_left_and_keeps_the_sign() {
    assert_eq!(value_of("b = 0 - 3\na = b - 1", "a"), ValueVariant::Integer(-4));
    assert_eq!(value_of("a = 10 - 4 - 3", "a"), ValueVariant::Integer(3));
    assert_eq!(value_of("a = - 5 + 2", "a"), ValueVariant::Integer(-3));
}

#[test]
fn integer_division_gives_a_float() {
    let v = value_of("a = 4 / 2", "a");
    assert!(matches!(v, ValueVariant::Float(_)));
    assert_eq!(float_of(v), 2.0);
    assert_eq!(float_of(value_of("a = 7 / 2", "a")), 3.5);
    assert_eq!(float_of(value_of("a = 1 / 0", "a")), f64::INFINITY);
}

#[test]
fn integer_arithmetic() {
    assert_eq!(value_of("a = 6 * 7", "a"), ValueVariant::Integer(42));
    assert_eq!(value_of("a = 6 + 7", "a"), ValueVariant::Integer(13));
    assert_eq!(value_of("a = 6 - 7", "a"), ValueVariant::Integer(-1));
    // `+ - *` wrap around
    assert_eq!(
        value_of("a = 9223372036854775807 + 1", "a"),
        ValueVariant::Integer(i64::MIN)
    );
    assert_eq!(
        value_of("a = 0 - 9223372036854775807 - 2", "a"),
        ValueVariant::Integer(i64::MAX)
    );
    assert_eq!(
        value_of("a = 4611686018427387904 * 4", "a"),
        ValueVariant::Integer(0)
    );
}

#[test]
fn float_arithmetic_goes_to_the_host() {
    assert_eq!(float_of(value_of("a = 1.5 + 2.25", "a")), 3.75);
    assert_eq!(float_of(value_of("a = 1.5 - 2.25", "a")), -0.75);
    assert_eq!(float_of(value_of("a = 1.5 * 2.0", "a")), 3.0);
    assert_eq!(float_of(value_of("a = 1.5 / 2.0", "a")), 0.75);
    assert_eq!(float_of(value_of("a = - 1.5", "a")), -1.5);
    assert_eq!(float_of(value_of("a = + 1.5", "a")), 1.5);
    assert_eq!(value_of("a = 1.5 < 2.5", "a"), ValueVariant::Bool(true));
    assert_eq!(value_of("a = 1.5 >= 2.5", "a"), ValueVariant::Bool(false));
    assert_eq!(value_of("a = 1.50 == 1.5", "a"), ValueVariant::Bool(true));
    assert_eq!(value_of("a = 1.5 != 1.5", "a"), ValueVariant::Bool(false));
    assert_eq!(value_of("a = 2.5 > 1.5", "a"), ValueVariant::Bool(true));
    assert_eq!(value_of("a = 2.5 <= 1.5", "a"), ValueVariant::Bool(false));
    // a float is written as the host writes it, however it was spelled
    assert_eq!(
        value_of("a = 1.50", "a"),
        ValueVariant::Float(String::from("1.5"))
    );
    assert_eq!(
        value_of("a = 2.0", "a"),
        ValueVariant::Float(String::from("2"))
    );
}

#[test]
fn string_concatenation() {
    assert_eq!(value_of("a = \"aa\" + \"bb\"", "a"), text("aabb"));
    assert_eq!(value_of("b = \"aa\"\na = b + \"bb\"", "a"), text("aabb"));
    assert_eq!(value_of("a = \"\" + \"\"", "a"), text(""));
    assert_eq!(
        value_of("a = \"x\" == \"x\"", "a"),
        ValueVariant::Bool(true)
    );
    assert_eq!(
        value_of("a = \"x\" != \"x\"", "a"),
        ValueVariant::Bool(false)
    );
}

#[test]
fn comparisons() {
    assert_eq!(value_of("a = 1 >= 2", "a"), ValueVariant::Bool(false));
    assert_eq!(value_of("a = 1 < 2", "a"), ValueVariant::Bool(true));
    assert_eq!(value_of("a = 1 > 2", "a"), ValueVariant::Bool(false));
    assert_eq!(value_of("a = 1 <= 2", "a"), ValueVariant::Bool(true));
    assert_eq!(value_of("a = 2 == 2", "a"), ValueVariant::Bool(true));
    assert_eq!(value_of("a = 2 != 2", "a"), ValueVariant::Bool(false));
    assert_eq!(value_of("a = true == true", "a"), ValueVariant::Bool(true));
    assert_eq!(value_of("a = true != false", "a"), ValueVariant::Bool(true));
}

#[test]
fn bools_take_equality_only() {
    assert_eq!(
        failure("a = true + true"),
        "binary op PLUS TOKEN not supported for bool"
    );
    assert_eq!(
        failure("a = true < false"),
        "binary op LESS TOKEN not supported for bool"
    );
    assert_eq!(
        failure("a = true >= false"),
        "binary op MORE EQ TOKEN not supported for bool"
    );
    assert_eq!(
        failure("a = true * false"),
        "binary op MULTI TOKEN not supported for bool"
    );
}

#[test]
fn operators_on_unfit_operands() {
    assert_eq!(
        failure("a = \"s\" - \"t\""),
        "binary op MINUS TOKEN not supported for strings"
    );
    assert_eq!(
        failure("a = \"s\" < \"t\""),
        "binary op LESS TOKEN not supported for strings"
    );
    assert_eq!(
        failure("a = 1 + \"t\""),
        "for now binary operation PLUS TOKEN for this args"
    );
    assert_eq!(
        failure("a = 1 + 1.5"),
        "for now binary operation PLUS TOKEN for this args"
    );
    assert_eq!(
        failure("a = - \"s\""),
        "unary operation supported only with integers and floats"
    );
    assert_eq!(
        failure("a = - true"),
        "unary operation supported only with integers and floats"
    );
}

#[test]
fn a_name_is_read_from_the_innermost_scope_only() {
    assert_eq!(failure("a = b"), "unknown name 'b'");
    // the global `g` is not seen from within the function
    assert_eq!(
        failure("g = 1\nfn f() {\n x = g\n}\nf()"),
        "unknown name 'g'"
    );
    // an argument is evaluated in the scope of the call
    assert_eq!(
        failure("g = 1\nfn f(a) {\n}\nf(g)"),
        "unknown name 'g'"
    );
}

#[test]
fn a_name_assigned_in_a_function_is_gone_after_it() {
    let (interp, result, _) = run("fn f() {\n inner = 1\n}\nf()\n");
    result.unwrap();
    assert_eq!(interp._get_var_value(&String::from("inner")), None);
    assert_eq!(failure("fn f() {\n inner = 1\n}\nf()\na = inner"), "unknown name 'inner'");
    // an assignment in a function does not reach a global of that name
    assert_eq!(
        value_of("g = 1\nfn f() {\n g = 2\n}\nf()", "g"),
        ValueVariant::Integer(1)
    );
}

#[test]
fn for_runs_from_the_lower_bound_up_to_the_upper_one() {
    let (interp, result, out) = run("for i in [0, 3] {\n writeln(i)\n}\n");
    result.unwrap();
    assert_eq!(out, vec!["0", "1", "2"]);
    assert_eq!(
        interp._get_var_value(&String::from("i")),
        Some(ValueVariant::Integer(3))
    );
    assert_eq!(value_of("n = 0\nfor i in [0, 3] {\n n = n + 1\n}", "n"), ValueVariant::Integer(3));
    assert_eq!(value_of("n = 0\nfor i in [3, 3] {\n n = n + 1\n}", "n"), ValueVariant::Integer(0));
    assert_eq!(value_of("n = 0\nfor i in [5, 3] {\n n = n + 1\n}", "n"), ValueVariant::Integer(0));
    assert_eq!(value_of("for i in [5, 3] {\n}", "i"), ValueVariant::Integer(5));
    assert_eq!(value_of("n = 0\nfor i in [0 - 2, 1 + 1] {\n n = n + i\n}", "n"), ValueVariant::Integer(-2));
}

#[test]
fn for_binds_its_variable_anew_after_each_turn() {
    let (_, result, out) = run("for i in [0, 3] {\n writeln(i)\n i = 10\n}\n");
    result.unwrap();
    assert_eq!(out, vec!["0", "1", "2"]);
}

#[test]
fn for_bounds_must_be_integers() {
    assert_eq!(failure("for i in [0, \"3\"] {\n}"), "expected int");
    assert_eq!(failure("for i in [0.5, 3] {\n}"), "expected int");
    assert_eq!(failure("for i in [true, false] {\n}"), "expected int");
    assert_eq!(failure("for i in [x, 3] {\n}"), "unknown name 'x'");
    let define = || {
        Box::new(Expression::FunctionDef(
            exlang::expressions::FunctionDefExpression::new(String::from("f"), vec![], vec![]),
        ))
    };
    let (mut interp, _) = machine();
    let both = Box::new(Expression::For(exlang::expressions::ForExpression::new(
        String::from("i"),
        define(),
        define(),
        vec![],
    )));
    assert_eq!(
        interp.interp_expr(both),
        Err(String::from("Expected value on stack"))
    );
    let one = Box::new(Expression::For(exlang::expressions::ForExpression::new(
        String::from("i"),
        define(),
        Box::new(Expression::IntLiteral(IntLiteralExpression::new(1))),
        vec![],
    )));
    assert_eq!(
        interp.interp_expr(one),
        Err(String::from("Expected value on stack"))
    );
}

#[test]
fn while_runs_until_the_condition_is_false() {
    assert_eq!(
        value_of("a = 0\nwhile a < 5 {\n a = a + 1\n}", "a"),
        ValueVariant::Integer(5)
    );
    assert_eq!(
        value_of("a = 0\nwhile false {\n a = a + 1\n}", "a"),
        ValueVariant::Integer(0)
    );
    assert_eq!(
        failure("while 1 {\n}"),
        "not expected result in while"
    );
}

#[test]
fn if_takes_a_bool() {
    assert_eq!(
        value_of("if 1 < 2 {\n a = 1\n} else {\n a = 2\n}", "a"),
        ValueVariant::Integer(1)
    );
    assert_eq!(
        value_of("if 1 > 2 {\n a = 1\n} else {\n a = 2\n}", "a"),
        ValueVariant::Integer(2)
    );
    assert_eq!(value_of("a = 0\nif false {\n a = 1\n}", "a"), ValueVariant::Integer(0));
    assert_eq!(failure("if 1 {\n}"), "not expected result in if");
    assert_eq!(failure("if \"s\" {\n}"), "not expected result in if");
}

#[test]
fn the_budget_bounds_loops_and_calls() {
    let (mut interp, _) = machine();
    interp.set_budget(10);
    assert_eq!(
        interp.interp_expr(tree("a = 0\nwhile true {\n a = a + 1\n}")),
        Err(String::from("evaluation budget exhausted"))
    );
    assert_eq!(
        interp._get_var_value(&String::from("a")),
        Some(ValueVariant::Integer(11))
    );
    let (mut interp, _) = machine();
    interp.set_budget(10);
    interp
        .interp_expr(tree("a = 0\nwhile a < 10 {\n a = a + 1\n}"))
        .unwrap();
    let (mut interp, _) = machine();
    interp.set_budget(3);
    assert_eq!(
        interp.interp_expr(tree("fn f() {\n f()\n}\nf()")),
        Err(String::from("evaluation budget exhausted"))
    );
    let (mut interp, _) = machine();
    interp.set_budget(3);
    interp
        .interp_expr(tree("fn h() {\n}\nfn g() {\n h()\n}\nfn f() {\n g()\n}\nf()"))
        .unwrap();
    let (mut interp, _) = machine();
    interp.set_budget(2);
    assert_eq!(
        interp.interp_expr(tree("fn h() {\n}\nfn g() {\n h()\n}\nfn f() {\n g()\n}\nf()")),
        Err(String::from("evaluation budget exhausted"))
    );
    // a `for` loop needs no budget
    let (mut interp, _) = machine();
    interp.set_budget(0);
    interp
        .interp_expr(tree("n = 0\nfor i in [0, 100] {\n n = n + 1\n}"))
        .unwrap();
    assert_eq!(
        interp._get_var_value(&String::from("n")),
        Some(ValueVariant::Integer(100))
    );
    let (mut interp, _) = machine();
    interp.set_budget(0);
    assert_eq!(
        interp.interp_expr(tree("fn f() {\n}\nf()")),
        Err(String::from("evaluation budget exhausted"))
    );
}

#[test]
fn user_functions() {
    // `return` pushes its value and the body goes on
    let (_, result, out) = run("fn f() {\n return 1\n writeln(\"after\")\n}\nf()");
    result.unwrap();
    assert_eq!(out, vec!["after"]);
    assert_eq!(
        value_of("fn f(a, b) {\n return a - b\n}\nx = f(5, 3)", "x"),
        ValueVariant::Integer(2)
    );
    // a later definition replaces an earlier one
    assert_eq!(
        value_of("fn f() {\n return 1\n}\nfn f() {\n return 2\n}\nx = f()", "x"),
        ValueVariant::Integer(2)
    );
    // a parameter without an argument stays unbound
    assert_eq!(
        failure("fn f(a, b) {\n x = a\n}\nf(1)"),
        "unknown name 'a'"
    );
    let (_, result, out) = run("fn f(a, b) {\n writeln(b)\n}\nf(1)");
    result.unwrap();
    assert_eq!(out, vec!["1"]);
    // an argument too many stays in the value channel
    let (_, result, out) = run("fn f(a) {\n writeln(a)\n}\nf(1, 2)");
    result.unwrap();
    assert_eq!(out, vec!["2"]);
    // an argument is evaluated in the scope of the call, where the
    // parameters of the caller are not bound yet
    assert_eq!(
        failure("fn g(b) {\n}\nfn f(a) {\n g(a)\n}\nf(1)"),
        "unknown name 'a'"
    );
}

#[test]
fn standard_functions() {
    assert_eq!(value_of("a = answer()", "a"), ValueVariant::Integer(42));
    assert_eq!(value_of("a = read()", "a"), text("typed"));
    assert_eq!(value_of("a = count(1, 2, 3)", "a"), ValueVariant::Integer(3));
    assert_eq!(
        value_of("a = half()", "a"),
        ValueVariant::Float(String::from("0.5"))
    );
    let (_, result, out) = run("write(1, \"two\", true, 2.50, 1 / 4)");
    result.unwrap();
    assert_eq!(out, vec!["1", "two", "true", "2.5", "0.25"]);
    assert_eq!(failure("fail(1)"), "Error with function fail : boom");
    assert_eq!(failure("nobody()"), "function nobody not defined");
    // an argument that pushes no value
    assert_eq!(
        failure("writeln(fn f() { })"),
        "exptected value in stack"
    );
    assert_eq!(failure("a = writeln(1)"), "no value for assgignment expression");
    // a standard function goes before a user function of its name
    assert_eq!(
        value_of("fn answer() {\n return 1\n}\na = answer()", "a"),
        ValueVariant::Integer(42)
    );
}

#[test]
fn the_later_provider_of_a_name_counts() {
    let out = Rc::new(RefCell::new(Vec::new()));
    let first = Io {
        names: vec!["who", "answer"],
        out: out.clone(),
        tag: "first",
    };
    let second = Io {
        names: vec!["who"],
        out: out.clone(),
        tag: "second",
    };
    let none: Vec<Methods> = vec![
        Methods {
            kind: ValueKind::Integer,
            names: vec!["pow"],
        },
        Methods {
            kind: ValueKind::Integer,
            names: vec!["nothing"],
        },
    ];
    let mut interp = Interpreter::new(vec![first, second], none, Floats);
    interp
        .interp_expr(tree("a = who()\nb = answer()"))
        .unwrap();
    assert_eq!(interp._get_var_value(&String::from("a")), Some(text("second")));
    assert_eq!(
        interp._get_var_value(&String::from("b")),
        Some(ValueVariant::Integer(42))
    );
    // the second provider of methods for integers replaced the first
    let pow = Box::new(Expression::AnonymousMethod(AnonymousMethodExpression::new(
        Box::new(Expression::IntLiteral(IntLiteralExpression::new(2))),
        String::from("pow"),
        vec![Box::new(Expression::IntLiteral(IntLiteralExpression::new(3)))],
    )));
    assert_eq!(
        interp.interp_expr(pow),
        Err(String::from("unknows method pow for 2"))
    );
}

fn method_on_name(receiver: &str, method: &str, args: Vec<Box<Expression>>) -> Box<Expression> {
    Box::new(Expression::MethodCall(MethodCallExpression::new(
        String::from(receiver),
        String::from(method),
        args,
    )))
}

fn method_on(receiver: Expression, method: &str, args: Vec<Box<Expression>>) -> Box<Expression> {
    Box::new(Expression::AnonymousMethod(AnonymousMethodExpression::new(
        Box::new(receiver),
        String::from(method),
        args,
    )))
}

fn lit(i: i64) -> Expression {
    Expression::IntLiteral(IntLiteralExpression::new(i))
}

/// Writes the value pushed last: a function of one parameter, called
/// without an argument, binds the parameter to that value.
fn write_top(interp: &mut Machine) {
    interp
        .interp_expr(tree("fn keep(v) {\n writeln(v)\n}\nkeep()"))
        .unwrap();
}

#[test]
fn methods() {
    let (mut interp, out) = machine();
    interp
        .interp_expr(method_on(lit(2), "pow", vec![Box::new(lit(10))]))
        .unwrap();
    write_top(&mut interp);
    assert_eq!(*out.borrow(), vec!["1024"]);

    let (mut interp, out) = machine();
    interp.interp_expr(tree("s = \"123\"")).unwrap();
    interp
        .interp_expr(method_on_name("s", "to_int", vec![]))
        .unwrap();
    write_top(&mut interp);
    assert_eq!(*out.borrow(), vec!["123"]);

    let (mut interp, _) = machine();
    assert_eq!(
        interp.interp_expr(method_on_name("s", "to_int", vec![])),
        Err(String::from("call method with unknown object 's'"))
    );
    assert_eq!(
        interp.interp_expr(method_on(lit(2), "sqrt", vec![])),
        Err(String::from("unknows method sqrt for 2"))
    );
    assert_eq!(
        interp.interp_expr(method_on(
            Expression::StringLiteral(StringLiteralExpression::new(String::from("x"))),
            "to_int",
            vec![]
        )),
        Err(String::from("Error with method to_int : can't convert x to int"))
    );
    assert_eq!(
        interp.interp_expr(tree("b = true")),
        Ok(())
    );
    assert_eq!(
        interp.interp_expr(method_on_name("b", "len", vec![])),
        Err(String::from("method for true not supported"))
    );
    assert_eq!(
        interp.interp_expr(method_on(lit(2), "pow", vec![])),
        Err(String::from(
            "Error with method pow : method arg expected 1 argument, find 0"
        ))
    );
}

#[test]
fn a_method_receiver_is_looked_up_through_all_scopes() {
    let (mut interp, out) = machine();
    interp.interp_expr(tree("s = \"abc\"")).unwrap();
    // a function whose body calls a method on the global `s`
    let body = vec![
        method_on_name("s", "len", vec![]),
        Box::new(Expression::FunctionCall(FunctionCallExpression::new(
            String::from("show"),
            vec![],
        ))),
    ];
    let define = Box::new(Expression::FunctionDef(
        exlang::expressions::FunctionDefExpression::new(String::from("f"), vec![], body),
    ));
    interp.interp_expr(define).unwrap();
    interp
        .interp_expr(tree("fn show(v) {\n writeln(v)\n}\nf()"))
        .unwrap();
    assert_eq!(*out.borrow(), vec!["3"]);
}

#[test]
fn a_method_without_a_receiver_value() {
    let (mut interp, _) = machine();
    let define = Expression::FunctionDef(exlang::expressions::FunctionDefExpression::new(
        String::from("f"),
        vec![],
        vec![],
    ));
    assert_eq!(
        interp.interp_expr(method_on(define, "pow", vec![])),
        Err(String::from("no value to call method pow"))
    );
}

#[test]
fn an_error_stops_the_statement_list_and_keeps_what_was_done() {
    let (interp, result, out) = run("writeln(\"a\")\nx = 1\nnobody()\nwriteln(\"b\")\nx = 2\n");
    assert_eq!(result, Err(String::from("function nobody not defined")));
    assert_eq!(out, vec!["a"]);
    assert_eq!(
        interp._get_var_value(&String::from("x")),
        Some(ValueVariant::Integer(1))
    );
    let (interp, result, out) = run("x = 1\ny = true + true\nwriteln(\"b\")\nx = 2\n");
    assert_eq!(
        result,
        Err(String::from("binary op PLUS TOKEN not supported for bool"))
    );
    assert!(out.is_empty());
    assert_eq!(
        interp._get_var_value(&String::from("x")),
        Some(ValueVariant::Integer(1))
    );
    assert_eq!(interp._get_var_value(&String::from("y")), None);
}

#[test]
fn an_operator_without_operands() {
    let (mut interp, _) = machine();
    let define = || {
        Box::new(Expression::FunctionDef(
            exlang::expressions::FunctionDefExpression::new(String::from("f"), vec![], vec![]),
        ))
    };
    let minus = Box::new(Expression::Unary(exlang::expressions::UnaryExpression::new(
        exlang::token::Token::Minus,
        define(),
    )));
    assert_eq!(
        interp.interp_expr(minus),
        Err(String::from("empty stack in unary expression"))
    );
    let plus = Box::new(Expression::Binary(exlang::expressions::BinaryExpression::new(
        exlang::token::Token::Plus,
        define(),
        Box::new(lit(1)),
    )));
    assert_eq!(
        interp.interp_expr(plus),
        Err(String::from("empty stack in bynary expression"))
    );
    let star = Box::new(Expression::Unary(exlang::expressions::UnaryExpression::new(
        exlang::token::Token::Multi,
        Box::new(lit(1)),
    )));
    assert_eq!(
        interp.interp_expr(star),
        Err(String::from("unsupported unary op MULTI TOKEN"))
    );
    let odd = Box::new(Expression::Binary(exlang::expressions::BinaryExpression::new(
        exlang::token::Token::Comma,
        Box::new(lit(1)),
        Box::new(lit(1)),
    )));
    assert_eq!(
        interp.interp_expr(odd),
        Err(String::from("binary op COMMA TOKEN not supported for integers"))
    );
}

#[test]
fn return_node_and_nested_lists() {
    let (mut interp, _) = machine();
    let inner = Box::new(Expression::StatementList(StatementListExpression::new(vec![
        Box::new(Expression::Return(ReturnExpression::new(Box::new(lit(5))))),
    ])));
    let assign = Box::new(Expression::Assignment(
        exlang::expressions::AssignmentExpression::new(String::from("a"), inner),
    ));
    interp.interp_expr(assign).unwrap();
    assert_eq!(
        interp.get_var_value(&String::from("a")),
        Some(ValueVariant::Integer(5))
    );
    let read = Box::new(Expression::Name(NameExpression::new(String::from("a"))));
    interp.interp_expr(read).unwrap();
}

#[test]
fn the_standard_methods() {
    let out = Rc::new(RefCell::new(Vec::new()));
    let io = Io {
        names: vec!["writeln"],
        out: out.clone(),
        tag: "io",
    };
    let mut interp = Interpreter::new(
        vec![io],
        vec![
            StdMethods::Int(IntMethods::new()),
            StdMethods::Str(StringMethods::new()),
        ],
        Floats,
    );
    let power = method_on(lit(2), "pow", vec![Box::new(lit(10))]);
    let show = |e: Box<Expression>| {
        Box::new(Expression::FunctionCall(FunctionCallExpression::new(
            String::from("writeln"),
            vec![e],
        )))
    };
    interp.interp_expr(show(power)).unwrap();
    interp.interp_expr(tree("s = \"-12\"\nf = \"2.5e1\"")).unwrap();
    interp
        .interp_expr(show(method_on_name("s", "to_int", vec![])))
        .unwrap();
    interp
        .interp_expr(tree("x = 0.5"))
        .unwrap();
    let sum = Box::new(Expression::Binary(exlang::expressions::BinaryExpression::new(
        exlang::token::Token::Plus,
        method_on_name("f", "to_float", vec![]),
        Box::new(Expression::Name(NameExpression::new(String::from("x")))),
    )));
    interp.interp_expr(show(sum)).unwrap();
    assert_eq!(*out.borrow(), vec!["1024", "-12", "25.5"]);
    assert_eq!(
        interp.interp_expr(method_on_name("x", "to_int", vec![])),
        Err(String::from("method for 0.5 not supported"))
    );
    assert_eq!(
        interp.interp_expr(method_on_name("s", "pow", vec![])),
        Err(String::from("unknows method pow for -12"))
    );
}

#[test]
fn what_the_host_returned_ends_the_call() {
    let (mut interp, out) = machine();
    interp
        .finish_call(Ok(Some(ValueVariant::Integer(7))), String::from("prefix "))
        .unwrap();
    write_top(&mut interp);
    assert_eq!(*out.borrow(), vec!["7"]);
    interp.finish_call(Ok(None), String::from("prefix ")).unwrap();
    assert_eq!(
        interp.finish_call(Err(String::from("failed")), String::from("prefix ")),
        Err(String::from("prefix failed"))
    );
}

#[test]
fn values_as_text() {
    assert_eq!(ValueVariant::Integer(-12).to_string(), "-12");
    assert_eq!(ValueVariant::Bool(true).to_string(), "true");
    assert_eq!(ValueVariant::Bool(false).to_string(), "false");
    assert_eq!(text("s").to_string(), "s");
    assert_eq!(ValueVariant::Float(String::from("2.5")).to_string(), "2.5");
    assert_eq!(ValueVariant::Float(String::from("2.5")).kind(), ValueKind::Float);
    assert_eq!(text("s").clone(), text("s"));
}
