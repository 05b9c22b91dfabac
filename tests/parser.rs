use rlox::ast::{Expr, Literal, Stmt};
use rlox::ast_printer::AstPrinter;
use rlox::error_reporter::ErrorReporter;
use rlox::interpreter::Interpreter;
use rlox::parser::{ParseError, Parser};
use rlox::scanner::Scanner;
use rlox::token::{Token, TokenType};
use rlox::value::{Effect, Run};

fn parse_expression(source: &str) -> (Result<Expr, ParseError>, ErrorReporter) {
    let mut reporter = ErrorReporter::new();
    let mut scanner = Scanner::new(source.to_string());
    scanner.scan_tokens(&mut reporter);
    let mut parser = Parser::new(scanner.tokens);
    (parser.parse_expression(&mut reporter), reporter)
}

fn printed(source: &str) -> String {
    AstPrinter::new().print(&parse_expression(source).0.unwrap())
}

fn parse_program(source: &str) -> (Result<Vec<Stmt>, ParseError>, ErrorReporter) {
    let mut reporter = ErrorReporter::new();
    let mut scanner = Scanner::new(source.to_string());
    scanner.scan_tokens(&mut reporter);
    let mut parser = Parser::new(scanner.tokens);
    (parser.parse(&mut reporter), reporter)
}

#[test]
fn printed_form_follows_precedence() {
    assert_eq!(printed("-123 * (45.67)"), "(* (- 123) (group 45.67))");
    assert_eq!(printed("1 + 2 * 3"), "(+ 1 (* 2 3))");
    assert_eq!(printed("1 - 2 - 3"), "(- (- 1 2) 3)");
    assert_eq!(printed("1 < 2 == 3 >= 4"), "(== (< 1 2) (>= 3 4))");
    assert_eq!(printed("!!true != nil"), "(!= (! (! true)) nil)");
    assert_eq!(printed("\"a\" + false"), "(+ a false)");
    assert_eq!(printed("1 / 2 / 3"), "(/ (/ 1 2) 3)");
}

#[test]
fn ternary_and_comma() {
    assert_eq!(printed("true ? 1 : 2"), "(if true then 1 else 2)");
    assert_eq!(printed("true ? 1 : false ? 2 : 3"), "(if true then 1 else (if false then 2 else 3))");
    assert_eq!(printed("1 == 2 ? 3 : 4"), "(if (== 1 2) then 3 else 4)");
    assert_eq!(printed("1, 2, 3"), "(, (, 1 2) 3)");
    assert_eq!(printed("1 ? 2, 3 : 4"), "(if 1 then (, 2 3) else 4)");
}

#[test]
fn literals_become_values() {
    let (expr, _) = parse_expression("\"text\"");
    match expr.unwrap() {
        Expr::Literal(Some(Literal::String(s))) => assert_eq!(s, "text"),
        other => panic!("unexpected {:?}", other),
    }
    let (expr, _) = parse_expression("12.5");
    match expr.unwrap() {
        Expr::Literal(Some(Literal::Number(s))) => assert_eq!(s, "12.5"),
        other => panic!("unexpected {:?}", other),
    }
    let (expr, _) = parse_expression("nil");
    assert!(matches!(expr.unwrap(), Expr::Literal(Some(Literal::Nil))));
}

#[test]
fn missing_parenthesis_is_reported_at_end() {
    let (result, reporter) = parse_expression("(1 + 2");
    let error = result.unwrap_err();
    assert_eq!(error.message, "Expect ')' after expression.");
    assert_eq!(error.token.token_type, TokenType::EOF);
    assert!(reporter.had_error);
    assert_eq!(reporter.reports, vec!["[line 1] Error at end: Expect ')' after expression.".to_string()]);
}

#[test]
fn missing_colon_is_reported() {
    let (result, reporter) = parse_expression("1 ? 2 3");
    assert_eq!(result.unwrap_err().message, "Expect ':' after then branch.");
    assert_eq!(reporter.reports, vec!["[line 1] Error 3: Expect ':' after then branch.".to_string()]);
}

#[test]
fn missing_operand_is_reported() {
    let (result, reporter) = parse_expression("\n1 + )");
    let error = result.unwrap_err();
    assert_eq!(error.message, "Expect expression.");
    assert_eq!(error.token.lexeme, ")");
    assert_eq!(reporter.reports, vec!["[line 2] Error ): Expect expression.".to_string()]);
}

#[test]
fn statements_need_semicolons() {
    let (result, _) = parse_program("print 1");
    assert_eq!(result.unwrap_err().message, "Expect ';' after value.");
    let (result, _) = parse_program("1 + 2");
    assert_eq!(result.unwrap_err().message, "Expect ';' after expression.");
    let (result, reporter) = parse_program("print 1; 2; print 3;");
    let program = result.unwrap();
    assert_eq!(program.len(), 3);
    assert!(matches!(program[0], Stmt::Print(_)));
    assert!(matches!(program[1], Stmt::Expression(_)));
    assert!(!reporter.had_error);
    let (result, _) = parse_program("");
    assert_eq!(result.unwrap().len(), 0);
}

#[test]
fn variable_declarations_are_refused_when_run() {
    let name = Token::new(TokenType::Identifier, "x".to_string(), None, 1);
    let program = vec![Stmt::Var { name, initializer: None }];
    let answers = Vec::new();
    match Interpreter::new().interpret(&program, &answers) {
        Run::Done(effects) => assert_eq!(
            effects,
            vec![Effect::Error("Variable declarations are not supported.".to_string())]
        ),
        Run::Ask(_) => panic!("no number is involved"),
    }
}
