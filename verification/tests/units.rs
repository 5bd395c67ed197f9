//! Unit checks of the numeric core, the text helpers, the operator table
//! and the stated round-trip law, against the host's own floating point.
use viskum::binary_ops::{greater, is_equal, less_equal, minus, plus};
use viskum::error::ViskumError;
use viskum::laws::reparse_literal;
use viskum::lexer::Lexer;
use viskum::numeric::{
    num_add, num_div, num_eq, num_factorial, num_is_integral, num_lt, num_mul, num_neg, num_parse,
    num_pow, num_sub, num_to_text,
};
use viskum::parser::Parser;
use viskum::printer::AstPrinter;
use viskum::strings::{dec_string, remove_occurrences, str_lex_lt};
use viskum::token::{get_keyword, is_alphabetic, is_digit, Token, TokenType};
use viskum::value::Literal;
use viskum::ast::Stmt;

fn bits(x: f64) -> u64 {
    x.to_bits()
}

#[test]
fn addition_matches_hardware() {
    assert_eq!(num_add(bits(1.5), bits(2.25)), bits(1.5 + 2.25));
    assert_eq!(num_add(bits(0.1), bits(0.2)), bits(0.1 + 0.2));
}

#[test]
fn subtraction_and_multiplication_match_hardware() {
    assert_eq!(num_sub(bits(5.0), bits(1.25)), bits(5.0 - 1.25));
    assert_eq!(num_mul(bits(3.0), bits(0.5)), bits(3.0 * 0.5));
}

#[test]
fn division_matches_hardware() {
    assert_eq!(num_div(bits(1.0), bits(3.0)), bits(1.0 / 3.0));
}

#[test]
fn comparisons_follow_ieee() {
    assert!(num_lt(bits(1.0), bits(2.0)));
    assert!(!num_lt(bits(2.0), bits(2.0)));
    assert!(num_eq(bits(0.0), bits(-0.0)));
    assert!(!num_eq(bits(f64::NAN), bits(f64::NAN)));
}

#[test]
fn negation_flips_sign() {
    assert_eq!(num_neg(bits(2.0)), bits(-2.0));
}

#[test]
fn integrality_is_detected() {
    assert!(num_is_integral(bits(3.0)));
    assert!(num_is_integral(bits(0.0)));
    assert!(!num_is_integral(bits(2.5)));
    assert!(!num_is_integral(bits(f64::INFINITY)));
}

#[test]
fn powers_of_integers_are_exact() {
    assert_eq!(num_pow(bits(2.0), bits(10.0)), Some(bits(1024.0)));
    assert_eq!(num_pow(bits(2.0), bits(-2.0)), Some(bits(0.25)));
    assert_eq!(num_pow(bits(7.0), bits(0.0)), Some(bits(1.0)));
    assert_eq!(num_pow(bits(2.0), bits(0.5)), None);
}

#[test]
fn factorials_are_exact_in_range() {
    assert_eq!(num_factorial(bits(5.0)), Some(bits(120.0)));
    assert_eq!(num_factorial(bits(0.0)), Some(bits(1.0)));
    assert_eq!(num_factorial(bits(20.0)), Some(bits(2432902008176640000.0)));
    assert_eq!(num_factorial(bits(-1.0)), Some(bits(f64::INFINITY)));
    assert_eq!(num_factorial(bits(200.0)), Some(bits(f64::INFINITY)));
    assert_eq!(num_factorial(bits(2.5)), None);
}

#[test]
fn numeral_parsing_matches_hardware() {
    assert_eq!(num_parse("2.5"), Some(bits(2.5)));
    assert_eq!(num_parse("123"), Some(bits(123.0)));
    assert_eq!(num_parse("0.1"), Some(bits(0.1)));
    assert_eq!(num_parse("not a number"), None);
}

#[test]
fn number_text_round_trips() {
    for x in [0.0f64, -0.0, 1.0, 2.5, 120.0, 0.1, 1.0 / 3.0, 1e300, -17.25] {
        let text = num_to_text(bits(x));
        assert_eq!(num_parse(&text), Some(bits(x)), "{} -> {}", x, text);
    }
}

#[test]
fn number_text_is_shortest() {
    assert_eq!(num_to_text(bits(0.1)), "0.1".to_string());
    assert_eq!(num_to_text(bits(120.0)), "120".to_string());
    assert_eq!(num_to_text(bits(-2.5)), "-2.5".to_string());
}

#[test]
fn number_text_matches_host_display() {
    for x in [0.0f64, -0.0, 1.0, 2.5, 120.0, 0.1, 1.0 / 3.0, -17.25, 1e21, 12345.678] {
        assert_eq!(num_to_text(bits(x)), format!("{}", x), "for {}", x);
    }
}

#[test]
fn huge_number_text_is_plain_decimal() {
    let text = num_to_text(bits(1e300));
    assert!(!text.contains('E') && !text.contains('e'), "{}", text);
    assert_eq!(num_parse(&text), Some(bits(1e300)));
    assert_eq!(num_to_text(bits(f64::INFINITY)), "+Inf".to_string());
}

#[test]
fn reparse_literal_round_trips() {
    for x in [0.0f64, 2.5, 120.0, -3.0, 0.1] {
        let v = Literal::Num(bits(x));
        match reparse_literal(&v) {
            Some(Literal::Num(b)) => assert_eq!(b, bits(x)),
            other => panic!("{:?}", other),
        }
    }
    assert!(matches!(reparse_literal(&Literal::Bool(true)), Some(Literal::Bool(true))));
    assert!(matches!(reparse_literal(&Literal::Bool(false)), Some(Literal::Bool(false))));
    assert!(matches!(reparse_literal(&Literal::Null), Some(Literal::Null)));
}

#[test]
fn decimal_rendering_of_counts() {
    assert_eq!(dec_string(0), "0".to_string());
    assert_eq!(dec_string(7), "7".to_string());
    assert_eq!(dec_string(12345), "12345".to_string());
}

#[test]
fn occurrence_removal_matches_replace() {
    assert_eq!(remove_occurrences("abc", "b"), "ac".to_string());
    assert_eq!(remove_occurrences("aaa", "aa"), "a".to_string());
    assert_eq!(remove_occurrences("abc", ""), "abc".to_string());
}

#[test]
fn lexicographic_string_order() {
    assert!(str_lex_lt("a", "b"));
    assert!(str_lex_lt("a", "ab"));
    assert!(!str_lex_lt("b", "a"));
    assert!(!str_lex_lt("a", "a"));
}

#[test]
fn keywords_are_recognised() {
    assert_eq!(get_keyword("and".to_string()), Some(TokenType::And));
    assert_eq!(get_keyword("loop".to_string()), Some(TokenType::Loop));
    assert_eq!(get_keyword("fn".to_string()), Some(TokenType::Fn));
    assert_eq!(get_keyword("froop".to_string()), None);
}

#[test]
fn lexeme_text_of_token_kinds() {
    assert_eq!(TokenType::Plus.to_lexeme(), "+".to_string());
    assert_eq!(TokenType::PowerEqual.to_lexeme(), "^=".to_string());
    assert_eq!(TokenType::Eof.to_lexeme(), "end of file".to_string());
}

#[test]
fn character_classes() {
    assert!(is_digit(Some('7')));
    assert!(!is_digit(Some('x')));
    assert!(!is_digit(None));
    assert!(is_alphabetic(Some('_')));
    assert!(is_alphabetic(Some('Q')));
    assert!(!is_alphabetic(Some('1')));
}

#[test]
fn operator_table_on_values() {
    let three = Literal::Num(bits(3.0));
    let four = Literal::Num(bits(4.0));
    assert!(!is_equal(&three, &four));
    assert!(is_equal(&three, &Literal::Num(bits(3.0))));
    match plus(&three, &four) {
        Ok(Literal::Num(b)) => assert_eq!(b, bits(7.0)),
        other => panic!("{:?}", other),
    }
    match minus(&Literal::Str("abcb".to_string()), &Literal::Str("b".to_string())) {
        Ok(Literal::Str(s)) => assert_eq!(s, "ac".to_string()),
        other => panic!("{:?}", other),
    }
    assert!(greater(&three, &Literal::Bool(true)).is_err());
    match less_equal(&three, &three) {
        Ok(Literal::Bool(b)) => assert!(b),
        other => panic!("{:?}", other),
    }
}

#[test]
fn operator_error_names_both_types() {
    let e = greater(&Literal::Num(bits(1.0)), &Literal::Null).unwrap_err();
    assert!(e.to_string().contains("'>' is not defined for number and null"));
}

#[test]
fn diagnostic_report_shape() {
    let e = ViskumError::new("boom", Token::invalid(Some(3)), "file.vs");
    assert_eq!(e.to_string(), "[error] file.vs: line 3, boom (0)".to_string());
}

#[test]
fn printer_renders_s_expressions() {
    let mut lexer = Lexer::new("1 + 2 * 3;".to_string());
    lexer.scan_tokens();
    let (tokens, _) = lexer.take();
    let mut parser = Parser::new(tokens);
    let statements = parser.parse();
    assert_eq!(statements.len(), 1);
    match &statements[0] {
        Stmt::Expression(e) => {
            let printer = AstPrinter;
            assert_eq!(printer.render(&e.expression), "(+ 1 (* 2 3))".to_string());
        },
        other => panic!("{:?}", other),
    }
}
