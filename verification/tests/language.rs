//! End-to-end runs of small programs: source text through the scanner, the
//! parser and the evaluator, checking printed lines and diagnostics.
use viskum::error::ErrorHandler;
use viskum::interpreter::Interpreter;
use viskum::lexer::Lexer;
use viskum::parser::Parser;

fn run_src(src: &str) -> (Vec<String>, Vec<String>) {
    let mut lexer = Lexer::new(src.to_string());
    lexer.scan_tokens();
    let (tokens, lex_errors) = lexer.take();
    let mut parser = Parser::new(tokens);
    let statements = parser.parse();
    let parse_errors = parser.take_errors();
    let mut handler = ErrorHandler::new();
    for e in lex_errors {
        handler.report_error(e);
    }
    for e in parse_errors {
        handler.report_error(e);
    }
    let mut outputs: Vec<String> = Vec::new();
    if !handler.has_error() {
        let mut interpreter = Interpreter::new();
        if let Some(e) = interpreter.interpret(&statements, 1_000_000) {
            handler.report_error(e);
        }
        outputs = interpreter.output().clone();
    }
    (outputs, handler.reports())
}

fn outputs(src: &str) -> Vec<String> {
    let (out, errs) = run_src(src);
    assert!(errs.is_empty(), "unexpected diagnostics: {:?}", errs);
    out
}

fn first_error(src: &str) -> String {
    let (_, errs) = run_src(src);
    assert!(!errs.is_empty(), "expected a diagnostic");
    errs[0].clone()
}

#[test]
fn precedence_multiplication_binds_tighter() {
    assert_eq!(outputs("print 1 + 2 * 3;"), vec!["7".to_string()]);
}

#[test]
fn power_is_left_associative() {
    assert_eq!(outputs("print 2 ^ 3 ^ 2;"), vec!["64".to_string()]);
}

#[test]
fn ternary_picks_then_branch() {
    assert_eq!(outputs("print true ? 1 : 2;"), vec!["1".to_string()]);
}

#[test]
fn nested_ternary_leans_right() {
    assert_eq!(outputs("print false ? 1 : true ? 2 : 3;"), vec!["2".to_string()]);
}

#[test]
fn factorial_of_five() {
    assert_eq!(outputs("print 5!;"), vec!["120".to_string()]);
}

#[test]
fn factorial_of_zero() {
    assert_eq!(outputs("print 0!;"), vec!["1".to_string()]);
}

#[test]
fn factorial_of_negative_is_infinite() {
    let out = outputs("print (-1)!;");
    assert_eq!(out.len(), 1);
    assert!(out[0].parse::<f64>().map(|x| x.is_infinite() && x > 0.0).unwrap_or(false)
        || out[0] == "+Inf");
}

#[test]
fn factorial_of_fraction_reports() {
    let e = first_error("print 2.5!;");
    assert!(e.contains("'!' requires an integral number"), "{}", e);
}

#[test]
fn string_minus_removes_occurrences() {
    assert_eq!(outputs("print \"abc\" - \"b\";"), vec!["ac".to_string()]);
}

#[test]
fn string_plus_number_concatenates() {
    assert_eq!(outputs("print \"x\" + 1;"), vec!["x1".to_string()]);
}

#[test]
fn number_plus_string_concatenates_in_operand_order() {
    assert_eq!(outputs("print 1 + \"x\";"), vec!["1x".to_string()]);
}

#[test]
fn recovery_resumes_at_function_keyword() {
    let (out, errs) = run_src("let = 3 fn ok() { return 7; } print ok();");
    assert!(errs.iter().any(|e| e.contains("Expected variable name")), "{:?}", errs);
    assert!(out.is_empty());
}

#[test]
fn empty_string_is_truthy() {
    assert_eq!(outputs("if (\"\") { print \"yes\"; }"), vec!["yes".to_string()]);
}

#[test]
fn zero_is_falsy() {
    assert_eq!(outputs("if (0) { print \"no\"; }"), Vec::<String>::new());
}

#[test]
fn block_scoping_shadows_and_restores() {
    assert_eq!(
        outputs("let x = 1; { let x = 2; print x; } print x;"),
        vec!["2".to_string(), "1".to_string()]
    );
}

#[test]
fn closure_captures_defining_scope() {
    assert_eq!(
        outputs("let x = 1; fn getx() { return x; } { let x = 2; print getx(); }"),
        vec!["1".to_string()]
    );
}

#[test]
fn loop_with_break_counts_to_three() {
    assert_eq!(
        outputs("let i = 0; loop { i += 1; if (i == 3) { break; } } print i;"),
        vec!["3".to_string()]
    );
}

#[test]
fn while_loop_counts_to_three() {
    assert_eq!(outputs("let i = 0; while (i < 3) { i += 1; } print i;"), vec!["3".to_string()]);
}

#[test]
fn function_adds_its_arguments() {
    assert_eq!(outputs("fn add(a, b) { return a + b; } print add(2, 3);"), vec!["5".to_string()]);
}

#[test]
fn arity_mismatch_names_counts() {
    let e = first_error("fn f(a, b) { return a; } print f(1);");
    assert!(e.contains("Expected 2 arguments but received 1"), "{}", e);
}

#[test]
fn bare_break_reports() {
    let e = first_error("break;");
    assert!(e.contains("Unexpected break statement"), "{}", e);
}

#[test]
fn bare_continue_reports() {
    let e = first_error("continue;");
    assert!(e.contains("Unexpected continue statement"), "{}", e);
}

#[test]
fn bare_return_reports() {
    let e = first_error("return 1;");
    assert!(e.contains("Unexpected return statement"), "{}", e);
}

#[test]
fn assignment_updates_binding() {
    assert_eq!(outputs("let x = 1; x = 2; print x;"), vec!["2".to_string()]);
}

#[test]
fn compound_assignment_multiplies() {
    assert_eq!(outputs("let x = 2; x *= 3; print x;"), vec!["6".to_string()]);
}

#[test]
fn increment_adds_one() {
    assert_eq!(outputs("let x = 1; x++; print x;"), vec!["2".to_string()]);
}

#[test]
fn undefined_variable_read_reports() {
    let e = first_error("print z;");
    assert!(e.contains("Undefined variable 'z'"), "{}", e);
}

#[test]
fn assignment_to_unbound_name_reports() {
    let e = first_error("y = 1;");
    assert!(e.contains("Undefined variable 'y'"), "{}", e);
}

#[test]
fn or_returns_first_truthy_operand() {
    assert_eq!(outputs("print 1 or 2;"), vec!["1".to_string()]);
    assert_eq!(outputs("print 0 or 2;"), vec!["2".to_string()]);
}

#[test]
fn and_returns_operand_by_truthiness() {
    assert_eq!(outputs("print 1 and 2;"), vec!["2".to_string()]);
    assert_eq!(outputs("print 0 and 2;"), vec!["0".to_string()]);
}

#[test]
fn prefix_negation_and_bang() {
    assert_eq!(outputs("print -3;"), vec!["-3".to_string()]);
    assert_eq!(outputs("print !0;"), vec!["true".to_string()]);
    assert_eq!(outputs("print !\"\";"), vec!["false".to_string()]);
}

#[test]
fn string_ordering_is_lexicographic() {
    assert_eq!(outputs("print \"a\" < \"b\";"), vec!["true".to_string()]);
    assert_eq!(outputs("print \"b\" < \"a\";"), vec!["false".to_string()]);
}

#[test]
fn cross_type_equality_is_false() {
    assert_eq!(outputs("print 1 == \"1\";"), vec!["false".to_string()]);
}

#[test]
fn division_by_zero_is_infinite() {
    let out = outputs("print 1 / 0;");
    assert_eq!(out.len(), 1);
    assert!(out[0].parse::<f64>().map(|x| x.is_infinite()).unwrap_or(false) || out[0] == "+Inf");
}

#[test]
fn invalid_assignment_target_reports_and_recovers() {
    let (_, errs) = run_src("1 = 2;");
    assert!(errs.iter().any(|e| e.contains("Invalid assignment target at '='")), "{:?}", errs);
}

#[test]
fn several_syntax_errors_surface_in_one_run() {
    let (_, errs) = run_src("print ;\nprint + ;\nlet 1;");
    assert!(errs.len() >= 2, "{:?}", errs);
}

#[test]
fn native_clock_stub_yields_a_number() {
    assert_eq!(outputs("print time();"), vec!["0".to_string()]);
}

#[test]
fn chained_calls_apply_in_order() {
    assert_eq!(
        outputs("fn mk(a) { return a + 1; } print mk(mk(0));"),
        vec!["2".to_string()]
    );
}

#[test]
fn fractional_literal_prints_and_reparses() {
    let out = outputs("print 2.5;");
    assert_eq!(out, vec!["2.5".to_string()]);
    assert_eq!(outputs("print 0.1;"), vec!["0.1".to_string()]);
    assert_eq!(outputs("print 1 / 3;"), vec![format!("{}", 1.0f64 / 3.0f64)]);
}

#[test]
fn unterminated_string_reports() {
    let (_, errs) = run_src("print \"abc;");
    assert!(errs.iter().any(|e| e.contains("Unterminated string")), "{:?}", errs);
}

#[test]
fn unterminated_comment_reports() {
    let (_, errs) = run_src("/* no end");
    assert!(errs.iter().any(|e| e.contains("Expected '*/'")), "{:?}", errs);
}

#[test]
fn unrecognizable_character_reports() {
    let (_, errs) = run_src("let a = 1; §");
    assert!(errs.iter().any(|e| e.contains("Unrecognizable character")), "{:?}", errs);
}

#[test]
fn spent_fuel_reports_budget() {
    let mut lexer = Lexer::new("loop { }".to_string());
    lexer.scan_tokens();
    let (tokens, _) = lexer.take();
    let mut parser = Parser::new(tokens);
    let statements = parser.parse();
    let mut interpreter = Interpreter::new();
    let e = interpreter.interpret(&statements, 50).expect("the loop must spend its budget");
    assert!(e.to_string().contains("evaluation budget exhausted"));
}

#[test]
fn comments_are_skipped() {
    assert_eq!(
        outputs("// line comment\n/* block /* nested */ comment */ print 1;"),
        vec!["1".to_string()]
    );
}

#[test]
fn return_inside_while_leaves_the_function() {
    assert_eq!(
        outputs("fn f() { let i = 0; while (true) { i += 1; if (i == 2) { return i; } } } print f();"),
        vec!["2".to_string()]
    );
}

#[test]
fn closure_keeps_its_scope_alive_across_calls() {
    assert_eq!(
        outputs(
            "fn mkc() { let n = 0; fn inc() { n += 1; return n; } return inc; }\n\
             let c = mkc(); print c(); print c();"
        ),
        vec!["1".to_string(), "2".to_string()]
    );
}

#[test]
fn let_without_initializer_defaults_to_null() {
    assert_eq!(outputs("let x; print x;"), vec!["null".to_string()]);
}

#[test]
fn null_equality_and_inequality() {
    assert_eq!(outputs("print null == null;"), vec!["true".to_string()]);
    assert_eq!(outputs("print null != 0;"), vec!["true".to_string()]);
}

#[test]
fn else_branch_runs_when_condition_is_falsy() {
    assert_eq!(
        outputs("if (false) { print \"a\"; } else { print \"b\"; }"),
        vec!["b".to_string()]
    );
}

#[test]
fn continue_skips_to_next_iteration() {
    assert_eq!(
        outputs(
            "let i = 0; let s = 0; while (i < 4) { i += 1; if (i == 2) { continue; } s += i; } print s;"
        ),
        vec!["8".to_string()]
    );
}
