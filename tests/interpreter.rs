use rlox::ast::{Expr, Stmt};
use rlox::error_reporter::ErrorReporter;
use rlox::interpreter::Interpreter;
use rlox::parser::Parser;
use rlox::scanner::Scanner;
use rlox::value::{ArithOp, CompareOp, Effect, Evaluation, NumberAnswer, NumberQuery, Run, Value};

fn answer(query: &NumberQuery) -> NumberAnswer {
    match query {
        NumberQuery::Parse(text) => NumberAnswer::Number(text.parse::<f64>().unwrap().to_bits()),
        NumberQuery::Arithmetic(op, a, b) => {
            let (x, y) = (f64::from_bits(*a), f64::from_bits(*b));
            let r = match op {
                ArithOp::Add => x + y,
                ArithOp::Subtract => x - y,
                ArithOp::Multiply => x * y,
                ArithOp::Divide => x / y,
            };
            NumberAnswer::Number(r.to_bits())
        }
        NumberQuery::Compare(op, a, b) => {
            let (x, y) = (f64::from_bits(*a), f64::from_bits(*b));
            NumberAnswer::Truth(match op {
                CompareOp::Greater => x > y,
                CompareOp::GreaterEqual => x >= y,
                CompareOp::Less => x < y,
                CompareOp::LessEqual => x <= y,
            })
        }
        NumberQuery::Equal(a, b) => {
            let (x, y) = (f64::from_bits(*a), f64::from_bits(*b));
            NumberAnswer::Truth((x - y).abs() < f64::EPSILON)
        }
        NumberQuery::Show(a) => NumberAnswer::Text(f64::from_bits(*a).to_string()),
    }
}

/// Evaluates with a host that answers every number query; also gives how
/// many queries were made.
fn evaluate_counting(interpreter: &Interpreter, expression: &Expr) -> (Result<Value, String>, usize) {
    let mut answers: Vec<NumberAnswer> = Vec::new();
    loop {
        match interpreter.evaluate(expression, &answers) {
            Evaluation::Value(v) => return (Ok(v), answers.len()),
            Evaluation::Failure(m) => return (Err(m), answers.len()),
            Evaluation::Ask(q) => answers.push(answer(&q)),
        }
    }
}

fn evalute(interpreter: &Interpreter, expression: &Expr) -> Result<Value, String> {
    evaluate_counting(interpreter, expression).0
}

fn interpret(interpreter: &Interpreter, statements: &Vec<Stmt>) -> Vec<Effect> {
    let mut answers: Vec<NumberAnswer> = Vec::new();
    loop {
        match interpreter.interpret(statements, &answers) {
            Run::Done(effects) => return effects,
            Run::Ask(q) => answers.push(answer(&q)),
        }
    }
}

/// Scans and parses a single expression.
fn expression_of(source: &str) -> Expr {
    let mut error_reporter = ErrorReporter::new();
    let mut scanner = Scanner::new(source.to_string());
    scanner.scan_tokens(&mut error_reporter);
    let tokens = scanner.tokens;
    let mut parser = Parser::new(tokens);
    parser.parse_expression(&mut error_reporter).unwrap()
}

/// Scans and parses a program whose first statement is an expression
/// statement, and gives that expression.
fn statement_expression_of(source: &str) -> Expr {
    let mut error_reporter = ErrorReporter::new();
    let mut scanner = Scanner::new(source.to_string());
    scanner.scan_tokens(&mut error_reporter);
    let tokens = scanner.tokens;
    let mut parser = Parser::new(tokens);
    let mut statements = parser.parse(&mut error_reporter).unwrap();
    match statements.remove(0) {
        Stmt::Expression(expr) => expr,
        _ => panic!("Expected expression"),
    }
}

fn program_of(source: &str) -> Vec<Stmt> {
    let mut error_reporter = ErrorReporter::new();
    let mut scanner = Scanner::new(source.to_string());
    scanner.scan_tokens(&mut error_reporter);
    let mut parser = Parser::new(scanner.tokens);
    parser.parse(&mut error_reporter).unwrap()
}

fn number(x: f64) -> Value {
    Value::Number(x.to_bits())
}

#[test]
fn test_number_equal() {
    let expression = statement_expression_of("1 == 1;");
    let interpreter = Interpreter::new();
    let value = evalute(&interpreter, &expression);
    assert_eq!(value.unwrap(), Value::True);
}

#[test]
fn interpreter_test_number_equal() {
    let expression = expression_of("1 == 1");
    let interpreter = Interpreter::new();
    let value = evalute(&interpreter, &expression);
    assert_eq!(value.unwrap(), Value::True);
}

#[test]
fn test_nil_equal() {
    let expression = statement_expression_of("nil == nil;");
    let interpreter = Interpreter::new();
    let value = evalute(&interpreter, &expression);
    assert_eq!(value.unwrap(), Value::True);
}

#[test]
fn interpreter_test_nil_equal() {
    let expression = expression_of("nil == nil");
    let interpreter = Interpreter::new();
    let value = evalute(&interpreter, &expression);
    assert_eq!(value.unwrap(), Value::True);
}

#[test]
fn test_bool_equal() {
    let expression = statement_expression_of("true == true;");
    let interpreter = Interpreter::new();
    let value = evalute(&interpreter, &expression);
    assert_eq!(value.unwrap(), Value::True);
}

#[test]
fn interpreter_test_bool_equal() {
    let expression = expression_of("true == true");
    let interpreter = Interpreter::new();
    let value = evalute(&interpreter, &expression);
    assert_eq!(value.unwrap(), Value::True);
}

#[test]
fn test_string_equal() {
    let expression = statement_expression_of("\"hello\" == \"hello\";");
    let interpreter = Interpreter::new();
    let value = evalute(&interpreter, &expression);
    assert_eq!(value.unwrap(), Value::True);
}

#[test]
fn interpreter_test_string_equal() {
    let expression = expression_of("\"hello\" == \"hello\"");
    let interpreter = Interpreter::new();
    let value = evalute(&interpreter, &expression);
    assert_eq!(value.unwrap(), Value::True);
}

#[test]
fn test_number_comparison() {
    let expression = statement_expression_of("1 < 2;");
    let interpreter = Interpreter::new();
    let value = evalute(&interpreter, &expression);
    assert_eq!(value.unwrap(), Value::True);
}

#[test]
fn interpreter_test_number_comparison() {
    let expression = expression_of("1 < 2");
    let interpreter = Interpreter::new();
    let value = evalute(&interpreter, &expression);
    assert_eq!(value.unwrap(), Value::True);
}

#[test]
fn test_unary_minus_on_non_number() {
    let expression = statement_expression_of("-\"hello\";");
    let interpreter = Interpreter::new();
    let value = evalute(&interpreter, &expression);
    assert!(value.is_err());
}

#[test]
fn interpreter_test_unary_minus_on_non_number() {
    let expression = expression_of("-\"hello\"");
    let interpreter = Interpreter::new();
    let value = evalute(&interpreter, &expression);
    assert!(value.is_err());
}

#[test]
fn test_add_number_with_non_number() {
    let expression = statement_expression_of("1 + \"world\";");
    let interpreter = Interpreter::new();
    let value = evalute(&interpreter, &expression);
    assert_eq!(value.unwrap(), Value::String("1world".to_string()));
}

#[test]
fn interpreter_test_add_number_with_non_number() {
    let expression = expression_of("1 + \"world\"");
    let interpreter = Interpreter::new();
    let value = evalute(&interpreter, &expression);
    assert_eq!(value.unwrap(), Value::String("1world".to_string()));
}

#[test]
fn test_sub_number_with_non_number() {
    let expression = statement_expression_of("1 - \"world\";");
    let interpreter = Interpreter::new();
    let value = evalute(&interpreter, &expression);
    assert!(value.is_err());
}

#[test]
fn interpreter_test_sub_number_with_non_number() {
    let expression = expression_of("1 - \"world\"");
    let interpreter = Interpreter::new();
    let value = evalute(&interpreter, &expression);
    assert!(value.is_err());
}

#[test]
fn test_mul_number_with_non_number() {
    let expression = statement_expression_of("1 * \"world\";");
    let interpreter = Interpreter::new();
    let value = evalute(&interpreter, &expression);
    assert!(value.is_err());
}

#[test]
fn interpreter_test_mul_number_with_non_number() {
    let expression = expression_of("1 * \"world\"");
    let interpreter = Interpreter::new();
    let value = evalute(&interpreter, &expression);
    assert!(value.is_err());
}

#[test]
fn test_div_number_with_non_number() {
    let expression = statement_expression_of("1 / \"world\";");
    let interpreter = Interpreter::new();
    let value = evalute(&interpreter, &expression);
    assert!(value.is_err());
}

#[test]
fn interpreter_test_div_number_with_non_number() {
    let expression = expression_of("1 / \"world\"");
    let interpreter = Interpreter::new();
    let value = evalute(&interpreter, &expression);
    assert!(value.is_err());
}

#[test]
fn test_compare_number_with_non_number() {
    let expression = statement_expression_of("1 < \"world\";");
    let interpreter = Interpreter::new();
    let value = evalute(&interpreter, &expression);
    assert!(value.is_err());
}

#[test]
fn interpreter_test_compare_number_with_non_number() {
    let expression = expression_of("1 < \"world\"");
    let interpreter = Interpreter::new();
    let value = evalute(&interpreter, &expression);
    assert!(value.is_err());
}

#[test]
fn test_number_equal_non_number() {
    let expression = statement_expression_of("1 == \"world\";");
    let interpreter = Interpreter::new();
    let value = evalute(&interpreter, &expression);
    assert_eq!(value.unwrap(), Value::False);
}

#[test]
fn interpreter_test_number_equal_non_number() {
    let expression = expression_of("1 == \"world\"");
    let interpreter = Interpreter::new();
    let value = evalute(&interpreter, &expression);
    assert_eq!(value.unwrap(), Value::False);
}

#[test]
fn test_add_string_with_non_string() {
    let expression = statement_expression_of("\"hello\" + 1;");
    let interpreter = Interpreter::new();
    let value = evalute(&interpreter, &expression);
    assert_eq!(value.unwrap(), Value::String("hello1".to_string()));
}

#[test]
fn interpreter_test_add_string_with_non_string() {
    let expression = expression_of("\"hello\" + 1");
    let interpreter = Interpreter::new();
    let value = evalute(&interpreter, &expression);
    assert_eq!(value.unwrap(), Value::String("hello1".to_string()));
}

#[test]
fn test_add_non_string_with_string() {
    let expression = statement_expression_of("true + \"hello\";");
    let interpreter = Interpreter::new();
    let value = evalute(&interpreter, &expression);
    assert_eq!(value.unwrap(), Value::String("truehello".to_string()));
}

#[test]
fn interpreter_test_add_non_string_with_string() {
    let expression = expression_of("true + \"hello\"");
    let interpreter = Interpreter::new();
    let value = evalute(&interpreter, &expression);
    assert_eq!(value.unwrap(), Value::String("truehello".to_string()));
}

#[test]
fn test_adding_string_with_non_string_n_times() {
    let expression = statement_expression_of("true + \"hello\" + 1 + nil + \"world\";");
    let interpreter = Interpreter::new();
    let value = evalute(&interpreter, &expression);
    assert_eq!(value.unwrap(), Value::String("truehello1nilworld".to_string()));
}

#[test]
fn interpreter_test_adding_string_with_non_string_n_times() {
    let expression = expression_of("true + \"hello\" + 1 + nil + \"world\"");
    let interpreter = Interpreter::new();
    let value = evalute(&interpreter, &expression);
    assert_eq!(value.unwrap(), Value::String("truehello1nilworld".to_string()));
}

#[test]
fn test_divide_by_zero_reports_runtime_error() {
    let expression = statement_expression_of("1 / 0;");
    let interpreter = Interpreter::new();
    let value = evalute(&interpreter, &expression);
    assert!(value.is_err());
}

#[test]
fn interpreter_test_divide_by_zero_reports_runtime_error() {
    let expression = expression_of("1 / 0");
    let interpreter = Interpreter::new();
    let value = evalute(&interpreter, &expression);
    assert!(value.is_err());
}

#[test]
fn runtime_error_messages() {
    let interpreter = Interpreter::new();
    let cases = [
        ("-\"hello\"", "Applying '-' operator to a non number."),
        ("1 - \"world\"", "Applying '-' operator to a non number."),
        ("1 * \"world\"", "Applying '*' operator to a non number."),
        ("1 / \"world\"", "Applying '/' operator to a non number."),
        ("1 <= \"world\"", "Applying '>' operator to a non number."),
        ("nil > 1", "Applying '>' operator to a non number."),
        ("nil + true", "Applying '+' operator to a non number."),
        ("1 / 0", "Division by zero."),
        ("1 / -0", "Division by zero."),
        ("1, 2", "Invalid binary operation: ,"),
    ];
    for (source, message) in cases {
        let value = evalute(&interpreter, &expression_of(source));
        assert_eq!(value, Err(message.to_string()), "{}", source);
    }
}

#[test]
fn float_round_off_is_tolerated_by_equality() {
    let interpreter = Interpreter::new();
    let value = evalute(&interpreter, &expression_of("0.1 + 0.2 == 0.3"));
    assert_eq!(value.unwrap(), Value::True);
    let value = evalute(&interpreter, &expression_of("0.1 + 0.2 != 0.3"));
    assert_eq!(value.unwrap(), Value::False);
}

#[test]
fn division_by_a_non_zero_number_succeeds() {
    let interpreter = Interpreter::new();
    assert_eq!(evalute(&interpreter, &expression_of("1 / 0.5")).unwrap(), number(2.0));
    assert_eq!(evalute(&interpreter, &expression_of("7 / 2")).unwrap(), number(3.5));
}

#[test]
fn arithmetic_follows_precedence() {
    let interpreter = Interpreter::new();
    assert_eq!(evalute(&interpreter, &expression_of("1 + 2 * 3 - 4 / 2")).unwrap(), number(5.0));
    assert_eq!(evalute(&interpreter, &expression_of("(1 + 2) * 3")).unwrap(), number(9.0));
    assert_eq!(evalute(&interpreter, &expression_of("-(2 - 5)")).unwrap(), number(3.0));
    assert_eq!(evalute(&interpreter, &expression_of("--4")).unwrap(), number(4.0));
    assert_eq!(evalute(&interpreter, &expression_of("-0")).unwrap(), number(-0.0));
}

#[test]
fn comparisons_and_negation() {
    let interpreter = Interpreter::new();
    assert_eq!(evalute(&interpreter, &expression_of("2 >= 2")).unwrap(), Value::True);
    assert_eq!(evalute(&interpreter, &expression_of("2 > 2")).unwrap(), Value::False);
    assert_eq!(evalute(&interpreter, &expression_of("3 <= 2")).unwrap(), Value::False);
    assert_eq!(evalute(&interpreter, &expression_of("!nil")).unwrap(), Value::False);
    assert_eq!(evalute(&interpreter, &expression_of("!false")).unwrap(), Value::False);
    assert_eq!(evalute(&interpreter, &expression_of("!0")).unwrap(), Value::True);
    assert_eq!(evalute(&interpreter, &expression_of("!\"\"")).unwrap(), Value::True);
    assert_eq!(evalute(&interpreter, &expression_of("nil != false")).unwrap(), Value::True);
}

#[test]
fn equality_across_kinds_is_false_not_an_error() {
    let interpreter = Interpreter::new();
    assert_eq!(evalute(&interpreter, &expression_of("1 == \"1\"")).unwrap(), Value::False);
    assert_eq!(evalute(&interpreter, &expression_of("nil == false")).unwrap(), Value::False);
    assert_eq!(evalute(&interpreter, &expression_of("\"a\" == \"b\"")).unwrap(), Value::False);
}

#[test]
fn ternary_evaluates_only_the_chosen_branch() {
    let interpreter = Interpreter::new();
    assert_eq!(evalute(&interpreter, &expression_of("false ? 1 / 0 : 2")).unwrap(), number(2.0));
    assert_eq!(evalute(&interpreter, &expression_of("nil ? -\"x\" : \"b\"")).unwrap(), Value::String("b".to_string()));
    assert_eq!(evalute(&interpreter, &expression_of("0 ? \"yes\" : 1 / 0")).unwrap(), Value::String("yes".to_string()));
    // The then branch asks for nothing: only the else branch's literal is parsed.
    let (value, queries) = evaluate_counting(&interpreter, &expression_of("false ? 1 + 2 * 3 : 4"));
    assert_eq!(value.unwrap(), number(4.0));
    assert_eq!(queries, 1);
}

#[test]
fn ternary_nests_to_the_right() {
    let interpreter = Interpreter::new();
    let value = evalute(&interpreter, &expression_of("false ? 1 : true ? 2 : 3"));
    assert_eq!(value.unwrap(), number(2.0));
}

#[test]
fn print_statements_and_isolated_errors() {
    let interpreter = Interpreter::new();
    let program = program_of("print 1 + 2; print \"a\" + 1.5; 1 - \"x\"; print true; print nil; 4;");
    let effects = interpret(&interpreter, &program);
    assert_eq!(
        effects,
        vec![
            Effect::Print("3".to_string()),
            Effect::Print("a1.5".to_string()),
            Effect::Error("Applying '-' operator to a non number.".to_string()),
            Effect::Print("true".to_string()),
            Effect::Print("nil".to_string()),
        ]
    );
}

#[test]
fn a_query_is_asked_again_until_answered() {
    let interpreter = Interpreter::new();
    let expression = expression_of("2 * 3");
    let answers: Vec<NumberAnswer> = Vec::new();
    match interpreter.evaluate(&expression, &answers) {
        Evaluation::Ask(q) => assert_eq!(q, NumberQuery::Parse("2".to_string())),
        _ => panic!("expected a query"),
    }
    let answers = vec![NumberAnswer::Number(2.0f64.to_bits()), NumberAnswer::Number(3.0f64.to_bits())];
    match interpreter.evaluate(&expression, &answers) {
        Evaluation::Ask(q) => assert_eq!(q, NumberQuery::Arithmetic(ArithOp::Multiply, 2.0f64.to_bits(), 3.0f64.to_bits())),
        _ => panic!("expected a query"),
    }
}

#[test]
fn output_reports_runtime_errors_on_line_zero() {
    let interpreter = Interpreter::new();
    let program = program_of("print \"a\"; -nil; print 2;");
    let effects = interpret(&interpreter, &program);
    let mut reporter = ErrorReporter::new();
    let lines = interpreter.output(&effects, &mut reporter);
    assert_eq!(
        lines,
        vec![
            "a".to_string(),
            "[line 0] Error : Applying '-' operator to a non number.".to_string(),
            "2".to_string()
        ]
    );
    assert!(reporter.had_error);
    assert_eq!(reporter.reports, vec!["[line 0] Error : Applying '-' operator to a non number.".to_string()]);
}
