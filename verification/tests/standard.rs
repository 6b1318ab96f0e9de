use exlang::ex_std::{is_float_string, IntMethods, StdMethods, StringMethods};
use exlang::host::StdMethodsRepository;
use exlang::value::{ValueKind, ValueVariant};

fn text(s: &str) -> ValueVariant {
    ValueVariant::String(String::from(s))
}

fn integer(i: i64) -> ValueVariant {
    ValueVariant::Integer(i)
}

#[test]
fn pow_of_integers() {
    assert_eq!(IntMethods::pow(&integer(2), &vec![integer(10)]), Ok(Some(integer(1024))));
    assert_eq!(IntMethods::pow(&integer(-3), &vec![integer(3)]), Ok(Some(integer(-27))));
    assert_eq!(IntMethods::pow(&integer(7), &vec![integer(0)]), Ok(Some(integer(1))));
    assert_eq!(IntMethods::pow(&integer(0), &vec![integer(0)]), Ok(Some(integer(1))));
    // the power wraps around
    assert_eq!(IntMethods::pow(&integer(2), &vec![integer(63)]), Ok(Some(integer(i64::MIN))));
    assert_eq!(IntMethods::pow(&integer(2), &vec![integer(64)]), Ok(Some(integer(0))));
    assert_eq!(
        IntMethods::pow(&integer(3), &vec![integer(41)]),
        Ok(Some(integer(3i64.wrapping_pow(41))))
    );
    // the exponent is taken modulo 2^32
    assert_eq!(
        IntMethods::pow(&integer(3), &vec![integer(-1)]),
        Ok(Some(integer(3i64.wrapping_pow(u32::MAX))))
    );
    assert_eq!(
        IntMethods::pow(&integer(5), &vec![integer(4294967296 + 2)]),
        Ok(Some(integer(25)))
    );
}

#[test]
fn pow_of_what_is_no_integer() {
    assert_eq!(
        IntMethods::pow(&integer(2), &vec![]),
        Err(String::from("method arg expected 1 argument, find 0"))
    );
    assert_eq!(
        IntMethods::pow(&integer(2), &vec![integer(1), integer(2)]),
        Err(String::from("method arg expected 1 argument, find 2"))
    );
    assert_eq!(
        IntMethods::pow(&text("two"), &vec![integer(1)]),
        Err(String::from("exptected int, find two"))
    );
    assert_eq!(
        IntMethods::pow(&integer(2), &vec![ValueVariant::Bool(true)]),
        Err(String::from("exptected int, find true"))
    );
}

#[test]
fn string_to_int() {
    assert_eq!(StringMethods::to_int(&text("123"), &vec![]), Ok(Some(integer(123))));
    assert_eq!(StringMethods::to_int(&text("-123"), &vec![]), Ok(Some(integer(-123))));
    assert_eq!(StringMethods::to_int(&text("+7"), &vec![]), Ok(Some(integer(7))));
    assert_eq!(
        StringMethods::to_int(&text("12a"), &vec![]),
        Err(String::from("can't convert 12a to int"))
    );
    assert_eq!(
        StringMethods::to_int(&text(""), &vec![]),
        Err(String::from("can't convert  to int"))
    );
    assert_eq!(
        StringMethods::to_int(&text("1"), &vec![integer(1)]),
        Err(String::from("method arg expected 0 arguments"))
    );
    assert_eq!(
        StringMethods::to_int(&integer(1), &vec![]),
        Err(String::from("exptected int, find 1"))
    );
}

#[test]
fn string_to_int_agrees_with_std() {
    for s in [
        "0", "-0", "+0", "00012", "9223372036854775807", "9223372036854775808",
        "-9223372036854775808", "-9223372036854775809", "", "-", "+", "1 ", " 1", "1.0", "1e3",
        "--1", "+-1", "\u{0663}", "99999999999999999999999999999999999999999",
    ] {
        let expected = match s.parse::<i64>() {
            Ok(i) => Ok(Some(integer(i))),
            Err(_) => Err(format!("can't convert {} to int", s)),
        };
        assert_eq!(StringMethods::to_int(&text(s), &vec![]), expected);
    }
}

#[test]
fn string_to_float() {
    assert_eq!(
        StringMethods::to_float(&text("1.5"), &vec![]),
        Ok(Some(ValueVariant::Float(String::from("1.5"))))
    );
    assert_eq!(
        StringMethods::to_float(&text("x"), &vec![]),
        Err(String::from("can't convert x to int"))
    );
    assert_eq!(
        StringMethods::to_float(&text("1.5"), &vec![integer(1)]),
        Err(String::from("method arg expected 0 arguments"))
    );
    assert_eq!(
        StringMethods::to_float(&ValueVariant::Bool(false), &vec![]),
        Err(String::from("exptected int, find false"))
    );
}

#[test]
fn float_spelling_agrees_with_std() {
    for s in [
        "0", "1", "-1", "+1", "1.", ".1", "1.5", "-1.5", "+.5", "-.5e3", "1e5", "1E5", "1e+5",
        "1e-5", "1.e5", ".5E-3", "inf", "-inf", "+inf", "INF", "Inf", "infinity", "-Infinity",
        "INFINITY", "nan", "NaN", "-nan", "+NAN", "", "+", "-", ".", "+.", "e", "e5", ".e5",
        "1e", "1e+", "1e-", "1ee5", "1e5.", "1e5e5", "1.5.5", "1..5", "--1", "+-1", "1 ", " 1",
        "1_0", "0x10", "infinit", "infinityy", "in", "na", "nann", "i", "1f", "١", "1e٣",
        "00000.000001", "123456789012345678901234567890", "1e400", "4.9e-324", "1d5",
        "naN", "iNf", "InFiNiTy", "inf1", "1inf", "+e5", "-E5", "5e5e", "..", "1.2e3.4",
    ] {
        let chars: Vec<char> = s.chars().collect();
        assert_eq!(is_float_string(&chars), s.parse::<f64>().is_ok(), "{:?}", s);
    }
}

#[test]
fn providers() {
    assert_eq!(IntMethods::new().get_diterminant(), ValueKind::Integer);
    assert_eq!(IntMethods::new().get_methods(), vec![String::from("pow")]);
    assert_eq!(StringMethods::new().get_diterminant(), ValueKind::String);
    assert_eq!(
        StringMethods::new().get_methods(),
        vec![String::from("to_int"), String::from("to_float")]
    );
    let ints = StdMethods::Int(IntMethods::new());
    let strings = StdMethods::Str(StringMethods::new());
    assert_eq!(ints.get_diterminant(), ValueKind::Integer);
    assert_eq!(strings.get_diterminant(), ValueKind::String);
    assert_eq!(
        ints.call(&String::from("pow"), &integer(3), &vec![integer(2)]),
        Ok(Some(integer(9)))
    );
    assert_eq!(
        strings.call(&String::from("to_int"), &text("9"), &vec![]),
        Ok(Some(integer(9)))
    );
    assert_eq!(
        strings.call(&String::from("to_float"), &text("9.5"), &vec![]),
        Ok(Some(ValueVariant::Float(String::from("9.5"))))
    );
    assert_eq!(
        ints.call(&String::from("sqrt"), &integer(3), &vec![]),
        Err(String::from("no integer method sqrt"))
    );
    assert_eq!(
        strings.call(&String::from("trim"), &text("9"), &vec![]),
        Err(String::from("no string method trim"))
    );
}
