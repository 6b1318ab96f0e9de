//! The standard methods of integers and strings, as providers that an
//! interpreter can be given.

use vstd::prelude::*;
use vstd::arithmetic::power::pow;
use vstd::string::*;
use crate::expressions::names_view;
use crate::host::{StdMethodArgs, StdMethodResult, StdMethodsRepository};
use crate::interp::answer_view;
use crate::semantics::CallAnswer;
use crate::text::{
    decimal_text,
    is_digit,
    is_digit_char,
    join,
    join3,
    nat_to_decimal,
    parse_int,
    parse_int_spec,
    to_chars,
};
use crate::value::{values_view, SpecValue, ValueKind, ValueVariant};

verus! {

/// `base` to the power `exp`, wrapped around to 64 bits.
pub open spec fn wrapping_power(base: i64, exp: nat) -> i64 {
    pow(base as int, exp) as i64
}

/// `i64::wrapping_pow` computes the power and wraps it around at the
/// boundary of the type.
pub assume_specification[ i64::wrapping_pow ](base: i64, exp: u32) -> (r: i64)
    ensures
        r == wrapping_power(base, exp as nat),
;

/// The message for a value that should have been of another kind.
pub open spec fn unexpected_value(value: SpecValue) -> Seq<char> {
    "exptected int, find "@ + value.text()
}

/// What `this.pow(args)` gives: `this` to the power of the one argument,
/// both integers, wrapped around; the exponent is taken modulo 2^32.
pub open spec fn pow_spec(this: SpecValue, args: Seq<SpecValue>) -> CallAnswer {
    if args.len() != 1 {
        Err("method arg expected 1 argument, find "@ + decimal_text(args.len() as int))
    } else {
        match this {
            SpecValue::Integer(base) => match args[0] {
                SpecValue::Integer(exp) => Ok(
                    Some(SpecValue::Integer(wrapping_power(base, (exp as u32) as nat))),
                ),
                other => Err(unexpected_value(other)),
            },
            other => Err(unexpected_value(other)),
        }
    }
}

/// What `this.to_int()` gives: the integer that the string spells in
/// decimal.
pub open spec fn to_int_spec(this: SpecValue, args: Seq<SpecValue>) -> CallAnswer {
    if args.len() != 0 {
        Err("method arg expected 0 arguments"@)
    } else {
        match this {
            SpecValue::String(s) => match parse_int_spec(s) {
                Some(i) => Ok(Some(SpecValue::Integer(i))),
                None => Err("can't convert "@ + s + " to int"@),
            },
            other => Err(unexpected_value(other)),
        }
    }
}

/// How many decimal digits stand in a row from `from` on.
pub open spec fn digit_run(s: Seq<char>, from: int) -> nat
    decreases s.len() - from,
{
    if 0 <= from < s.len() && is_digit(s[from]) {
        1 + digit_run(s, from + 1)
    } else {
        0
    }
}

/// The capital of a letter of the words that spell a float.
pub open spec fn capital(letter: char) -> char {
    if letter == 'a' {
        'A'
    } else if letter == 'e' {
        'E'
    } else if letter == 'f' {
        'F'
    } else if letter == 'i' {
        'I'
    } else if letter == 'n' {
        'N'
    } else if letter == 't' {
        'T'
    } else if letter == 'y' {
        'Y'
    } else {
        letter
    }
}

/// Whether `c` is the small letter `letter` or its capital.
pub open spec fn is_letter(c: char, letter: char) -> bool {
    c == letter || c == capital(letter)
}

/// Whether `s` from `from` to its end is `word`, in whatever case.
pub open spec fn spells(s: Seq<char>, from: int, word: Seq<char>) -> bool {
    &&& s.len() - from == word.len()
    &&& forall|i: int| 0 <= i < word.len() ==> is_letter(s[from + i], #[trigger] word[i])
}

/// Whether `s` from `from` to its end is an exponent: `e`, an optional
/// sign, and at least one digit.
pub open spec fn is_exponent(s: Seq<char>, from: int) -> bool {
    let digits = if from + 1 < s.len() && (s[from + 1] == '+' || s[from + 1] == '-') {
        from + 2
    } else {
        from + 1
    };
    &&& 0 <= from < s.len()
    &&& is_letter(s[from], 'e')
    &&& digit_run(s, digits) >= 1
    &&& digits + digit_run(s, digits) == s.len()
}

/// Whether `s` from `from` to its end is a number: digits with at most one
/// point among them, at least one digit, and an optional exponent.
pub open spec fn is_number_text(s: Seq<char>, from: int) -> bool {
    let whole = digit_run(s, from);
    let point = from + whole;
    let has_point = point < s.len() && s[point] == '.';
    let fraction = if has_point {
        digit_run(s, point + 1)
    } else {
        0
    };
    let end = if has_point {
        point + 1 + fraction
    } else {
        point
    };
    &&& whole + fraction >= 1
    &&& (end == s.len() || is_exponent(s, end))
}

/// Whether `s` spells a float: an optional sign, then `inf`, `infinity` or
/// `nan` in whatever case, or a number.
pub open spec fn is_float_text(s: Seq<char>) -> bool {
    let start: int = if s.len() > 0 && (s[0] == '+' || s[0] == '-') {
        1
    } else {
        0
    };
    spells(s, start, "inf"@) || spells(s, start, "infinity"@) || spells(s, start, "nan"@)
        || is_number_text(s, start)
}

/// What `this.to_float()` gives: the float that the string spells.
pub open spec fn to_float_spec(this: SpecValue, args: Seq<SpecValue>) -> CallAnswer {
    if args.len() != 0 {
        Err("method arg expected 0 arguments"@)
    } else {
        match this {
            SpecValue::String(s) => if is_float_text(s) {
                Ok(Some(SpecValue::Float(s)))
            } else {
                Err("can't convert "@ + s + " to int"@)
            },
            other => Err(unexpected_value(other)),
        }
    }
}

/// What the method `name` of integers gives.
pub open spec fn int_method_spec(name: Seq<char>, this: SpecValue, args: Seq<SpecValue>)
    -> CallAnswer {
    if name == "pow"@ {
        pow_spec(this, args)
    } else {
        Err("no integer method "@ + name)
    }
}

/// What the method `name` of strings gives.
pub open spec fn string_method_spec(name: Seq<char>, this: SpecValue, args: Seq<SpecValue>)
    -> CallAnswer {
    if name == "to_int"@ {
        to_int_spec(this, args)
    } else if name == "to_float"@ {
        to_float_spec(this, args)
    } else {
        Err("no string method "@ + name)
    }
}

fn scan_digits(s: &Vec<char>, from: usize) -> (stop: usize)
    requires
        from <= s@.len(),
    ensures
        stop == from + digit_run(s@, from as int),
        from <= stop <= s@.len(),
{
    let mut stop: usize = from;
    while stop < s.len() && is_digit_char(s[stop])
        invariant
            from <= stop <= s@.len(),
            stop + digit_run(s@, stop as int) == from + digit_run(s@, from as int),
        decreases s.len() - stop,
    {
        stop += 1;
    }
    stop
}

fn capital_of(letter: char) -> (c: char)
    ensures
        c == capital(letter),
{
    if letter == 'a' {
        'A'
    } else if letter == 'e' {
        'E'
    } else if letter == 'f' {
        'F'
    } else if letter == 'i' {
        'I'
    } else if letter == 'n' {
        'N'
    } else if letter == 't' {
        'T'
    } else if letter == 'y' {
        'Y'
    } else {
        letter
    }
}

#[verifier::loop_isolation(false)]
fn spells_word(s: &Vec<char>, from: usize, word: &str) -> (r: bool)
    requires
        from <= s@.len(),
    ensures
        r == spells(s@, from as int, word@),
{
    let letters = to_chars(word);
    if s.len() - from != letters.len() {
        return false;
    }
    let mut i: usize = 0;
    while i < letters.len()
        invariant
            i <= letters@.len(),
            forall|j: int| 0 <= j < i ==> is_letter(s@[from + j], #[trigger] letters@[j]),
        decreases letters.len() - i,
    {
        let c = s[from + i];
        let letter = letters[i];
        if !(c == letter || c == capital_of(letter)) {
            return false;
        }
        i += 1;
    }
    true
}

fn is_exponent_at(s: &Vec<char>, from: usize) -> (r: bool)
    requires
        from < s@.len(),
    ensures
        r == is_exponent(s@, from as int),
{
    if !(s[from] == 'e' || s[from] == 'E') {
        return false;
    }
    let digits: usize = if s.len() - from > 1 && (s[from + 1] == '+' || s[from + 1] == '-') {
        from + 2
    } else {
        from + 1
    };
    let stop = scan_digits(s, digits);
    stop > digits && stop == s.len()
}

/// Whether `s` spells a float.
pub fn is_float_string(s: &Vec<char>) -> (r: bool)
    ensures
        r == is_float_text(s@),
{
    proof {
        reveal_strlit("inf");
        reveal_strlit("infinity");
        reveal_strlit("nan");
    }
    let start: usize = if s.len() > 0 && (s[0] == '+' || s[0] == '-') {
        1
    } else {
        0
    };
    if spells_word(s, start, "inf") || spells_word(s, start, "infinity") || spells_word(
        s,
        start,
        "nan",
    ) {
        return true;
    }
    let point = scan_digits(s, start);
    let has_point = point < s.len() && s[point] == '.';
    let end = if has_point {
        scan_digits(s, point + 1)
    } else {
        point
    };
    let digits = if has_point {
        (point - start) + (end - (point + 1))
    } else {
        point - start
    };
    if digits < 1 {
        return false;
    }
    if end == s.len() {
        true
    } else {
        is_exponent_at(s, end)
    }
}

/// The message for a value that should have been of another kind.
fn unexpected(value: &ValueVariant) -> (message: String)
    ensures
        message@ == unexpected_value(value@),
{
    let text = value.to_string();
    join("exptected int, find ", text.as_str())
}

/// The methods of integers.
pub struct IntMethods {}

impl IntMethods {
    pub fn new() -> Self {
        IntMethods {  }
    }

    fn to_int(v: &ValueVariant) -> (r: Result<i64, String>)
        ensures
            match r {
                Ok(i) => v@ == SpecValue::Integer(i),
                Err(message) => !(v@ is Integer) && message@ == unexpected_value(v@),
            },
    {
        match v {
            ValueVariant::Integer(i) => Ok(*i),
            _ => Err(unexpected(v)),
        }
    }

    /// `this` to the power of the one argument.
    pub fn pow(this: &ValueVariant, args: &StdMethodArgs) -> (r: StdMethodResult)
        ensures
            answer_view(r) == pow_spec(this@, values_view(args@)),
    {
        if args.len() != 1 {
            let count = nat_to_decimal(args.len() as u64);
            return Err(join("method arg expected 1 argument, find ", count.as_str()));
        }
        let this_i = match Self::to_int(this) {
            Err(message) => {
                return Err(message);
            },
            Ok(found) => found,
        };
        let pow = match Self::to_int(&args[0]) {
            Err(message) => {
                return Err(message);
            },
            Ok(found) => found,
        };
        Ok(Some(ValueVariant::Integer(this_i.wrapping_pow(#[verifier::truncate] (pow as u32)))))
    }
}

impl StdMethodsRepository for IntMethods {
    fn get_diterminant(&self) -> (kind: ValueKind)
        ensures
            kind == ValueKind::Integer,
    {
        ValueKind::Integer
    }

    fn get_methods(&self) -> (names: Vec<String>)
        ensures
            names_view(names@) == seq!["pow"@],
    {
        let mut names: Vec<String> = Vec::new();
        names.push(String::from_str("pow"));
        names
    }

    fn call(&self, name: &String, this: &ValueVariant, args: &StdMethodArgs) -> (r: StdMethodResult)
        ensures
            answer_view(r) == int_method_spec(name@, this@, values_view(args@)),
    {
        if *name == String::from_str("pow") {
            Self::pow(this, args)
        } else {
            Err(join("no integer method ", name.as_str()))
        }
    }
}

/// The methods of strings.
pub struct StringMethods {}

impl StringMethods {
    pub fn new() -> Self {
        StringMethods {  }
    }

    fn get_str(v: &ValueVariant) -> (r: Result<String, String>)
        ensures
            match r {
                Ok(s) => v@ == SpecValue::String(s@),
                Err(message) => !(v@ is String) && message@ == unexpected_value(v@),
            },
    {
        match v {
            ValueVariant::String(s) => Ok(s.clone()),
            _ => Err(unexpected(v)),
        }
    }

    /// The integer that the string `this` spells.
    pub fn to_int(this: &ValueVariant, args: &StdMethodArgs) -> (r: StdMethodResult)
        ensures
            answer_view(r) == to_int_spec(this@, values_view(args@)),
    {
        if args.len() != 0 {
            return Err(String::from_str("method arg expected 0 arguments"));
        }
        let this_s = match Self::get_str(this) {
            Err(message) => {
                return Err(message);
            },
            Ok(found) => found,
        };
        let chars = to_chars(this_s.as_str());
        let count = chars.len();
        assert(chars@.subrange(0, count as int) =~= this_s@);
        match parse_int(&chars, 0, count) {
            Some(i) => Ok(Some(ValueVariant::Integer(i))),
            None => Err(join3("can't convert ", this_s.as_str(), " to int")),
        }
    }

    /// The float that the string `this` spells.
    pub fn to_float(this: &ValueVariant, args: &StdMethodArgs) -> (r: StdMethodResult)
        ensures
            answer_view(r) == to_float_spec(this@, values_view(args@)),
    {
        if args.len() != 0 {
            return Err(String::from_str("method arg expected 0 arguments"));
        }
        let this_s = match Self::get_str(this) {
            Err(message) => {
                return Err(message);
            },
            Ok(found) => found,
        };
        let chars = to_chars(this_s.as_str());
        if is_float_string(&chars) {
            Ok(Some(ValueVariant::Float(this_s)))
        } else {
            Err(join3("can't convert ", this_s.as_str(), " to int"))
        }
    }
}

impl StdMethodsRepository for StringMethods {
    fn get_diterminant(&self) -> (kind: ValueKind)
        ensures
            kind == ValueKind::String,
    {
        ValueKind::String
    }

    fn get_methods(&self) -> (names: Vec<String>)
        ensures
            names_view(names@) == seq!["to_int"@, "to_float"@],
    {
        let mut names: Vec<String> = Vec::new();
        names.push(String::from_str("to_int"));
        names.push(String::from_str("to_float"));
        names
    }

    fn call(&self, name: &String, this: &ValueVariant, args: &StdMethodArgs) -> (r: StdMethodResult)
        ensures
            answer_view(r) == string_method_spec(name@, this@, values_view(args@)),
    {
        proof {
            reveal_strlit("to_int");
            reveal_strlit("to_float");
        }
        if *name == String::from_str("to_int") {
            Self::to_int(this, args)
        } else if *name == String::from_str("to_float") {
            Self::to_float(this, args)
        } else {
            Err(join("no string method ", name.as_str()))
        }
    }
}

/// The standard providers of methods, as one type.
pub enum StdMethods {
    Int(IntMethods),
    Str(StringMethods),
}

impl StdMethodsRepository for StdMethods {
    fn get_diterminant(&self) -> (kind: ValueKind)
        ensures
            kind == match self {
                StdMethods::Int(_) => ValueKind::Integer,
                StdMethods::Str(_) => ValueKind::String,
            },
    {
        match self {
            StdMethods::Int(methods) => methods.get_diterminant(),
            StdMethods::Str(methods) => methods.get_diterminant(),
        }
    }

    fn get_methods(&self) -> (names: Vec<String>)
        ensures
            names_view(names@) == match self {
                StdMethods::Int(_) => seq!["pow"@],
                StdMethods::Str(_) => seq!["to_int"@, "to_float"@],
            },
    {
        match self {
            StdMethods::Int(methods) => methods.get_methods(),
            StdMethods::Str(methods) => methods.get_methods(),
        }
    }

    fn call(&self, name: &String, this: &ValueVariant, args: &StdMethodArgs) -> (r: StdMethodResult)
        ensures
            answer_view(r) == match self {
                StdMethods::Int(_) => int_method_spec(name@, this@, values_view(args@)),
                StdMethods::Str(_) => string_method_spec(name@, this@, values_view(args@)),
            },
    {
        match self {
            StdMethods::Int(methods) => methods.call(name, this, args),
            StdMethods::Str(methods) => methods.call(name, this, args),
        }
    }
}

} // verus!
