use rlox::error_reporter::ErrorReporter;
use rlox::lox::Lox;
use rlox::scanner::Scanner;
use rlox::token::TokenType as T;
use rlox::token::{Token, TokenType};

fn scan(source: &str) -> (Vec<Token>, ErrorReporter) {
    let mut reporter = ErrorReporter::new();
    let mut scanner = Scanner::new(source.to_string());
    scanner.scan_tokens(&mut reporter);
    (scanner.tokens, reporter)
}

fn kinds(tokens: &[Token]) -> Vec<TokenType> {
    tokens.iter().map(|t| t.token_type).collect()
}

fn lexemes(tokens: &[Token]) -> Vec<String> {
    tokens.iter().map(|t| t.lexeme.clone()).collect()
}

#[test]
fn punctuation_and_operators() {
    let (tokens, reporter) = scan("(){},.-+;*?:! != = == < <= > >= /");
    assert_eq!(
        kinds(&tokens),
        vec![
            T::LeftParen, T::RightParen, T::LeftBrace, T::RightBrace, T::Comma, T::Dot, T::Minus, T::Plus, T::Semicolon, T::Star,
            T::Question, T::Colon, T::Bang, T::BangEqual, T::Equal, T::EqualEqual, T::Less, T::LessEqual, T::Greater,
            T::GreaterEqual, T::Slash, T::EOF
        ]
    );
    assert_eq!(tokens[13].lexeme, "!=");
    assert!(!reporter.had_error);
}

#[test]
fn keywords_and_identifiers() {
    let (tokens, _) = scan("and class else false for fun if nil or print return super this true var while orchid _x1");
    assert_eq!(
        kinds(&tokens),
        vec![
            T::And, T::Class, T::Else, T::False, T::For, T::Fun, T::If, T::Nil, T::Or, T::Print, T::Return, T::Super, T::This, T::True, T::Var,
            T::While, T::Identifier, T::Identifier, T::EOF
        ]
    );
    assert_eq!(tokens[16].lexeme, "orchid");
    assert_eq!(tokens[17].lexeme, "_x1");
    assert_eq!(tokens[16].literal, None);
}

#[test]
fn numbers_carry_their_digits() {
    let (tokens, _) = scan("123 45.67 8. 9.x");
    assert_eq!(kinds(&tokens), vec![T::Number, T::Number, T::Number, T::Dot, T::Number, T::Dot, T::Identifier, T::EOF]);
    assert_eq!(lexemes(&tokens)[..3], ["123".to_string(), "45.67".to_string(), "8".to_string()]);
    assert_eq!(tokens[1].literal, Some("45.67".to_string()));
}

#[test]
fn strings_carry_their_text() {
    let (tokens, reporter) = scan("\"hi there\" \"\"");
    assert_eq!(kinds(&tokens), vec![TokenType::String, TokenType::String, TokenType::EOF]);
    assert_eq!(tokens[0].lexeme, "\"hi there\"");
    assert_eq!(tokens[0].literal, Some("hi there".to_string()));
    assert_eq!(tokens[1].literal, Some("".to_string()));
    assert!(!reporter.had_error);
}

#[test]
fn unterminated_string_still_yields_a_string_token() {
    let (tokens, reporter) = scan("1 + \"abc\ndef");
    assert_eq!(kinds(&tokens), vec![TokenType::Number, TokenType::Plus, TokenType::String, TokenType::EOF]);
    assert_eq!(tokens[2].literal, Some("abc\ndef".to_string()));
    assert_eq!(tokens[2].lexeme, "\"abc\ndef");
    assert_eq!(tokens[2].line, 2);
    assert!(reporter.had_error);
    assert_eq!(reporter.reports, vec!["[line 2] Error : Unterminated string.".to_string()]);
}

#[test]
fn comments_produce_no_tokens() {
    let (tokens, reporter) = scan("1 // two\n/* three\n * four */ 5 /* a*b */ 6");
    assert_eq!(kinds(&tokens), vec![TokenType::Number, TokenType::Number, TokenType::Number, TokenType::EOF]);
    assert_eq!(lexemes(&tokens), vec!["1", "5", "6", ""]);
    assert_eq!(tokens[1].line, 3);
    assert!(!reporter.had_error);
}

#[test]
fn unterminated_block_comment_is_reported() {
    let (tokens, reporter) = scan("1 /* never\nclosed");
    assert_eq!(kinds(&tokens), vec![TokenType::Number, TokenType::EOF]);
    assert_eq!(reporter.reports, vec!["[line 2] Error : Unterminated comment".to_string()]);
}

#[test]
fn unexpected_characters_are_reported_and_skipped() {
    let (tokens, reporter) = scan("1 # 2 @");
    assert_eq!(kinds(&tokens), vec![TokenType::Number, TokenType::Number, TokenType::EOF]);
    assert_eq!(
        reporter.reports,
        vec![
            "[line 1] Error : Unexpected character #".to_string(),
            "[line 1] Error : Unexpected character @".to_string()
        ]
    );
}

#[test]
fn lines_are_counted() {
    let source = "a\nb\r\n\n\tc";
    let (tokens, _) = scan(source);
    let lines: Vec<usize> = tokens.iter().map(|t| t.line).collect();
    assert_eq!(lines, vec![1, 2, 4, 4]);
    let many = "\n".repeat(11) + "x";
    let (tokens, _) = scan(&many);
    assert_eq!(tokens[0].line, 12);
}

#[test]
fn empty_source_gives_only_the_end() {
    let (tokens, reporter) = scan("");
    assert_eq!(kinds(&tokens), vec![TokenType::EOF]);
    assert_eq!(tokens[0].lexeme, "");
    assert_eq!(tokens[0].literal, None);
    assert_eq!(tokens[0].line, 1);
    assert!(!reporter.had_error);
}

#[test]
fn reporter_formats_diagnostics() {
    let mut reporter = ErrorReporter::new();
    assert!(!reporter.had_error);
    reporter.error(12, "boom");
    reporter.token_error(&Token::new(TokenType::EOF, String::new(), None, 3), "Expect expression.");
    reporter.token_error(&Token::new(TokenType::RightParen, ")".to_string(), None, 40), "Expect expression.");
    assert!(reporter.had_error);
    assert_eq!(
        reporter.reports,
        vec![
            "[line 12] Error : boom".to_string(),
            "[line 3] Error at end: Expect expression.".to_string(),
            "[line 40] Error ): Expect expression.".to_string()
        ]
    );
}

#[test]
fn lox_runs_scanner_and_parser() {
    let mut lox = Lox::new();
    let (tokens, program) = lox.run("print 1; 2 + 3;".to_string());
    assert_eq!(tokens.len(), 8);
    assert_eq!(program.unwrap().len(), 2);
    assert!(!lox.error_reporter.had_error);
    let (_, program) = lox.run("print (1;".to_string());
    let error = program.unwrap_err();
    assert_eq!(error.message, "Expect ')' after expression.");
    assert_eq!(error.token.lexeme, ";");
    assert_eq!(lox.error_reporter.reports, vec!["[line 1] Error ;: Expect ')' after expression.".to_string()]);
}
