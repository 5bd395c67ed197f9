//! The binary operator table: equality, ordering, and arithmetic, with the
//! string overloads of `+` (concatenation) and `-` (removal of every
//! occurrence). Each operator is a total spec function over value models;
//! the executable functions return exactly what those functions say.
use vstd::prelude::*;

use crate::error::{SpecErr, ViskumError};
use crate::numeric::{
    add_bits, display_text, div_bits, exponent_result, mul_bits, num_add, num_div, num_eq,
    num_eq_bits, num_le, num_le_bits, num_lt, num_lt_bits, num_mul, num_pow, num_sub, num_to_text,
    sub_bits,
};
use crate::strings::{lex_lt, remove_all, remove_occurrences, str_lex_lt, strcat};
use crate::token::{to_lexeme_spec, Token, TokenType};
use crate::value::{Literal, SpecVal};

verus! {

/// An executable outcome agrees with a spec outcome when the value or the
/// diagnostic models it exactly.
pub open spec fn outcome_matches(r: Result<Literal, ViskumError>, s: Result<
    SpecVal,
    SpecErr,
>) -> bool {
    match (r, s) {
        (Ok(v), Ok(sv)) => v.model() == sv,
        (Err(e), Err(se)) => e.model() == se,
        _ => false,
    }
}

/// The diagnostic for an operator applied to operand types it is not
/// defined for, pointing at a synthesised operator token on line zero.
pub open spec fn op_error(op: TokenType, l: SpecVal, r: SpecVal) -> SpecErr {
    SpecErr {
        msg: "'"@ + to_lexeme_spec(op) + "' is not defined for "@ + Literal::kind_name(l)
            + " and "@ + Literal::kind_name(r),
        line: 0,
        lexeme: to_lexeme_spec(op),
        file: "file.vs"@,
        abort: None,
    }
}

/// The diagnostic for `^` with an exponent that is not an integer of
/// magnitude below `2^63`.
pub open spec fn exponent_error(l: SpecVal, r: SpecVal) -> SpecErr {
    SpecErr {
        msg: "'^' requires an integral exponent of magnitude below 2^63"@,
        line: 0,
        lexeme: to_lexeme_spec(TokenType::Power),
        file: "file.vs"@,
        abort: None,
    }
}

fn operation_error(op: &TokenType, left: &Literal, right: &Literal) -> (r: ViskumError)
    ensures
        r.model() == op_error(*op, left.model(), right.model()),
{
    let lex = op.to_lexeme();
    let mut msg = "'".to_owned();
    msg = strcat(msg, lex.as_str());
    msg = strcat(msg, "' is not defined for ");
    let ln = left.to_type_string();
    msg = strcat(msg, ln.as_str());
    msg = strcat(msg, " and ");
    let rn = right.to_type_string();
    msg = strcat(msg, rn.as_str());
    ViskumError::new_dynamic(msg, Token::new(*op, op.to_lexeme(), None, 0), "file.vs")
}

/// Structural equality: values of different kinds are unequal, numbers
/// compare as IEEE-754 values, and no two function values are equal.
pub open spec fn spec_is_equal(l: SpecVal, r: SpecVal) -> bool {
    match (l, r) {
        (SpecVal::Null, SpecVal::Null) => true,
        (SpecVal::Str(a), SpecVal::Str(b)) => a == b,
        (SpecVal::Num(a), SpecVal::Num(b)) => num_eq_bits(a, b),
        (SpecVal::Bool(a), SpecVal::Bool(b)) => a == b,
        _ => false,
    }
}

/// Decides structural equality of two values.
pub fn is_equal(left: &Literal, right: &Literal) -> (r: bool)
    ensures
        r == spec_is_equal(left.model(), right.model()),
{
    match (left, right) {
        (Literal::Null, Literal::Null) => true,
        (Literal::Str(a), Literal::Str(b)) => a.eq(b),
        (Literal::Num(a), Literal::Num(b)) => num_eq(*a, *b),
        (Literal::Bool(a), Literal::Bool(b)) => a == b,
        _ => false,
    }
}

/// `>`: defined for two numbers and for two strings (lexicographic).
pub open spec fn spec_greater(l: SpecVal, r: SpecVal) -> Result<SpecVal, SpecErr> {
    match (l, r) {
        (SpecVal::Num(a), SpecVal::Num(b)) => Ok(SpecVal::Bool(num_lt_bits(b, a))),
        (SpecVal::Str(a), SpecVal::Str(b)) => Ok(SpecVal::Bool(lex_lt(b, a))),
        _ => Err(op_error(TokenType::Greater, l, r)),
    }
}

/// Decides `>` on two values.
pub fn greater(left: &Literal, right: &Literal) -> (r: Result<Literal, ViskumError>)
    ensures
        outcome_matches(r, spec_greater(left.model(), right.model())),
{
    match (left, right) {
        (Literal::Num(a), Literal::Num(b)) => Ok(Literal::Bool(num_lt(*b, *a))),
        (Literal::Str(a), Literal::Str(b)) => Ok(
            Literal::Bool(str_lex_lt(b.as_str(), a.as_str())),
        ),
        _ => Err(operation_error(&TokenType::Greater, left, right)),
    }
}

/// `>=`: defined for two numbers and for two strings (lexicographic).
pub open spec fn spec_greater_equal(l: SpecVal, r: SpecVal) -> Result<SpecVal, SpecErr> {
    match (l, r) {
        (SpecVal::Num(a), SpecVal::Num(b)) => Ok(SpecVal::Bool(num_le_bits(b, a))),
        (SpecVal::Str(a), SpecVal::Str(b)) => Ok(SpecVal::Bool(!lex_lt(a, b))),
        _ => Err(op_error(TokenType::GreaterEqual, l, r)),
    }
}

/// Decides `>=` on two values.
pub fn greater_equal(left: &Literal, right: &Literal) -> (r: Result<Literal, ViskumError>)
    ensures
        outcome_matches(r, spec_greater_equal(left.model(), right.model())),
{
    match (left, right) {
        (Literal::Num(a), Literal::Num(b)) => Ok(Literal::Bool(num_le(*b, *a))),
        (Literal::Str(a), Literal::Str(b)) => Ok(
            Literal::Bool(!str_lex_lt(a.as_str(), b.as_str())),
        ),
        _ => Err(operation_error(&TokenType::GreaterEqual, left, right)),
    }
}

/// `<`: defined for two numbers and for two strings (lexicographic).
pub open spec fn spec_less(l: SpecVal, r: SpecVal) -> Result<SpecVal, SpecErr> {
    match (l, r) {
        (SpecVal::Num(a), SpecVal::Num(b)) => Ok(SpecVal::Bool(num_lt_bits(a, b))),
        (SpecVal::Str(a), SpecVal::Str(b)) => Ok(SpecVal::Bool(lex_lt(a, b))),
        _ => Err(op_error(TokenType::Less, l, r)),
    }
}

/// Decides `<` on two values.
pub fn less(left: &Literal, right: &Literal) -> (r: Result<Literal, ViskumError>)
    ensures
        outcome_matches(r, spec_less(left.model(), right.model())),
{
    match (left, right) {
        (Literal::Num(a), Literal::Num(b)) => Ok(Literal::Bool(num_lt(*a, *b))),
        (Literal::Str(a), Literal::Str(b)) => Ok(
            Literal::Bool(str_lex_lt(a.as_str(), b.as_str())),
        ),
        _ => Err(operation_error(&TokenType::Less, left, right)),
    }
}

/// `<=`: defined for two numbers and for two strings (lexicographic).
pub open spec fn spec_less_equal(l: SpecVal, r: SpecVal) -> Result<SpecVal, SpecErr> {
    match (l, r) {
        (SpecVal::Num(a), SpecVal::Num(b)) => Ok(SpecVal::Bool(num_le_bits(a, b))),
        (SpecVal::Str(a), SpecVal::Str(b)) => Ok(SpecVal::Bool(!lex_lt(b, a))),
        _ => Err(op_error(TokenType::LessEqual, l, r)),
    }
}

/// Decides `<=` on two values.
pub fn less_equal(left: &Literal, right: &Literal) -> (r: Result<Literal, ViskumError>)
    ensures
        outcome_matches(r, spec_less_equal(left.model(), right.model())),
{
    match (left, right) {
        (Literal::Num(a), Literal::Num(b)) => Ok(Literal::Bool(num_le(*a, *b))),
        (Literal::Str(a), Literal::Str(b)) => Ok(
            Literal::Bool(!str_lex_lt(b.as_str(), a.as_str())),
        ),
        _ => Err(operation_error(&TokenType::LessEqual, left, right)),
    }
}

/// `+`: adds two numbers, concatenates two strings, and with a number and
/// a string coerces the number to its display text and concatenates in
/// operand order.
pub open spec fn spec_plus(l: SpecVal, r: SpecVal) -> Result<SpecVal, SpecErr> {
    match (l, r) {
        (SpecVal::Num(a), SpecVal::Num(b)) => Ok(SpecVal::Num(add_bits(a, b))),
        (SpecVal::Str(a), SpecVal::Str(b)) => Ok(SpecVal::Str(a + b)),
        (SpecVal::Num(a), SpecVal::Str(s)) => Ok(SpecVal::Str(display_text(a, 1) + s)),
        (SpecVal::Str(s), SpecVal::Num(a)) => Ok(SpecVal::Str(s + display_text(a, 1))),
        _ => Err(op_error(TokenType::Plus, l, r)),
    }
}

/// Computes `+` on two values.
pub fn plus(left: &Literal, right: &Literal) -> (r: Result<Literal, ViskumError>)
    ensures
        outcome_matches(r, spec_plus(left.model(), right.model())),
{
    match (left, right) {
        (Literal::Num(a), Literal::Num(b)) => Ok(Literal::Num(num_add(*a, *b))),
        (Literal::Str(a), Literal::Str(b)) => Ok(Literal::Str(strcat(a.clone(), b.as_str()))),
        (Literal::Num(a), Literal::Str(s)) => {
            let text = num_to_text(*a);
            Ok(Literal::Str(strcat(text, s.as_str())))
        },
        (Literal::Str(s), Literal::Num(a)) => {
            let text = num_to_text(*a);
            Ok(Literal::Str(strcat(s.clone(), text.as_str())))
        },
        _ => Err(operation_error(&TokenType::Plus, left, right)),
    }
}

/// `-`: subtracts two numbers; on two strings it removes every occurrence
/// of the right string from the left one.
pub open spec fn spec_minus(l: SpecVal, r: SpecVal) -> Result<SpecVal, SpecErr> {
    match (l, r) {
        (SpecVal::Num(a), SpecVal::Num(b)) => Ok(SpecVal::Num(sub_bits(a, b))),
        (SpecVal::Str(a), SpecVal::Str(b)) => Ok(SpecVal::Str(remove_all(a, b))),
        _ => Err(op_error(TokenType::Minus, l, r)),
    }
}

/// Computes `-` on two values.
pub fn minus(left: &Literal, right: &Literal) -> (r: Result<Literal, ViskumError>)
    ensures
        outcome_matches(r, spec_minus(left.model(), right.model())),
{
    match (left, right) {
        (Literal::Num(a), Literal::Num(b)) => Ok(Literal::Num(num_sub(*a, *b))),
        (Literal::Str(a), Literal::Str(b)) => Ok(
            Literal::Str(remove_occurrences(a.as_str(), b.as_str())),
        ),
        _ => Err(operation_error(&TokenType::Minus, left, right)),
    }
}

/// `/`: defined for two numbers; division by zero follows IEEE-754.
pub open spec fn spec_division(l: SpecVal, r: SpecVal) -> Result<SpecVal, SpecErr> {
    match (l, r) {
        (SpecVal::Num(a), SpecVal::Num(b)) => Ok(SpecVal::Num(div_bits(a, b))),
        _ => Err(op_error(TokenType::Slash, l, r)),
    }
}

/// Computes `/` on two values.
pub fn division(left: &Literal, right: &Literal) -> (r: Result<Literal, ViskumError>)
    ensures
        outcome_matches(r, spec_division(left.model(), right.model())),
{
    match (left, right) {
        (Literal::Num(a), Literal::Num(b)) => Ok(Literal::Num(num_div(*a, *b))),
        _ => Err(operation_error(&TokenType::Slash, left, right)),
    }
}

/// `*`: defined for two numbers.
pub open spec fn spec_multiplication(l: SpecVal, r: SpecVal) -> Result<SpecVal, SpecErr> {
    match (l, r) {
        (SpecVal::Num(a), SpecVal::Num(b)) => Ok(SpecVal::Num(mul_bits(a, b))),
        _ => Err(op_error(TokenType::Star, l, r)),
    }
}

/// Computes `*` on two values.
pub fn multiplication(left: &Literal, right: &Literal) -> (r: Result<Literal, ViskumError>)
    ensures
        outcome_matches(r, spec_multiplication(left.model(), right.model())),
{
    match (left, right) {
        (Literal::Num(a), Literal::Num(b)) => Ok(Literal::Num(num_mul(*a, *b))),
        _ => Err(operation_error(&TokenType::Star, left, right)),
    }
}

/// `^`: integral power of two numbers, by binary exponentiation; a
/// fractional or oversized exponent is a diagnostic.
pub open spec fn spec_exponential(l: SpecVal, r: SpecVal) -> Result<SpecVal, SpecErr> {
    match (l, r) {
        (SpecVal::Num(a), SpecVal::Num(b)) => match exponent_result(a, b) {
            Some(v) => Ok(SpecVal::Num(v)),
            None => Err(exponent_error(l, r)),
        },
        _ => Err(op_error(TokenType::Power, l, r)),
    }
}

/// Computes `^` on two values.
pub fn exponential(left: &Literal, right: &Literal) -> (r: Result<Literal, ViskumError>)
    ensures
        outcome_matches(r, spec_exponential(left.model(), right.model())),
{
    match (left, right) {
        (Literal::Num(a), Literal::Num(b)) => match num_pow(*a, *b) {
            Some(v) => Ok(Literal::Num(v)),
            None => Err(
                ViskumError::new(
                    "'^' requires an integral exponent of magnitude below 2^63",
                    Token::new(
                        TokenType::Power,
                        TokenType::Power.to_lexeme(),
                        None,
                        0,
                    ),
                    "file.vs",
                ),
            ),
        },
        _ => Err(operation_error(&TokenType::Power, left, right)),
    }
}

} // verus!
