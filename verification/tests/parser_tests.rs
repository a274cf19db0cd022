//! Tests of the table-driven LL(1) parse engine: the grammar table, the
//! scenarios over function declarations, epsilon rules, panic-mode
//! recovery, the fatal outcomes, and the shape of the produced tree.

use minic::engine::{Diagnostic, DiagnosticKind, ParseError, Parser};
use minic::grammar::{add_rules, GrammarTable, NonTerminal, Symbol};
use minic::token::{Token, TokenType};
use minic::tree::ParseTree;

fn tok(kind: TokenType, literal: &str) -> Token {
    Token::new(kind, literal.to_string(), 1, 1)
}

/// The token sequence of `int main ( ) { ... }` around the given body
/// tokens, with the end-of-input sentinel last.
fn main_with_body(body: Vec<Token>) -> Vec<Token> {
    let mut tokens = vec![
        tok(TokenType::T_Int, "int"),
        tok(TokenType::T_Id, "main"),
        tok(TokenType::T_LP, "("),
        tok(TokenType::T_RP, ")"),
        tok(TokenType::T_LC, "{"),
    ];
    tokens.extend(body);
    tokens.push(tok(TokenType::T_RC, "}"));
    tokens.push(tok(TokenType::End, ""));
    tokens
}

fn count_nonterminal(tree: &ParseTree, nt: NonTerminal) -> usize {
    let mut count = 0;
    let mut i = 0;
    while i < tree.len() {
        if tree.symbol_at(i) == Symbol::NonTerminal(nt) {
            count += 1;
        }
        i += 1;
    }
    count
}

fn has_leaf_literal(tree: &ParseTree, kind: TokenType, literal: &str) -> bool {
    let mut i = 0;
    while i < tree.len() {
        if tree.symbol_at(i) == Symbol::Terminal(kind) {
            if let Some(l) = tree.literal_at(i) {
                if l.as_str() == literal {
                    return true;
                }
            }
        }
        i += 1;
    }
    false
}

#[test]
fn declaration_in_function_body_succeeds() {
    let tokens = main_with_body(vec![
        tok(TokenType::T_Int, "int"),
        tok(TokenType::T_Id, "x"),
        tok(TokenType::T_Assign, "="),
        tok(TokenType::T_Decimal, "2"),
        tok(TokenType::T_Semicolon, ";"),
    ]);
    let mut parser = Parser::from_tokens(tokens);
    let tree = parser.parse().expect("a valid declaration must parse");
    assert!(parser.diagnostics().is_empty());
    assert_eq!(tree.symbol_at(0), Symbol::NonTerminal(NonTerminal::Program));
    // One function subtree, whose body holds exactly one statement: the
    // declaration of `x`.
    assert_eq!(count_nonterminal(&tree, NonTerminal::FunctionRest), 1);
    assert_eq!(count_nonterminal(&tree, NonTerminal::Statement), 1);
    assert_eq!(count_nonterminal(&tree, NonTerminal::Declaration), 2);
    assert!(has_leaf_literal(&tree, TokenType::T_Id, "x"));
    assert!(has_leaf_literal(&tree, TokenType::T_Id, "main"));
    assert!(has_leaf_literal(&tree, TokenType::T_Decimal, "2"));
}

#[test]
fn missing_assign_reports_diagnostic_at_the_value() {
    // `int main ( ) { int x 2 ; }` — no rule fits at token `2`, so one
    // diagnostic is recorded and recovery skips ahead to the semicolon.
    // This implementation holds the overall outcome of such a parse
    // constant as a terminating failure.
    let tokens = main_with_body(vec![
        tok(TokenType::T_Int, "int"),
        tok(TokenType::T_Id, "x"),
        tok(TokenType::T_Decimal, "2"),
        tok(TokenType::T_Semicolon, ";"),
    ]);
    let mut parser = Parser::from_tokens(tokens);
    let outcome = parser.parse();
    assert_eq!(parser.diagnostics().len(), 1);
    assert_eq!(
        parser.diagnostics()[0].kind,
        DiagnosticKind::MissingRule {
            nonterminal: NonTerminal::VarOrFuncRest,
            found: TokenType::T_Decimal,
        }
    );
    assert_eq!(outcome.err(), Some(ParseError::InputNotFullyConsumed));
}

#[test]
fn empty_function_body_succeeds() {
    let tokens = main_with_body(vec![]);
    let mut parser = Parser::from_tokens(tokens);
    let tree = parser.parse().expect("an empty body must parse");
    assert!(parser.diagnostics().is_empty());
    // The body's statement list is an epsilon: a Statements node with no
    // children.
    let mut found_empty_statements = false;
    let mut i = 0;
    while i < tree.len() {
        if tree.symbol_at(i) == Symbol::NonTerminal(NonTerminal::Statements) {
            assert!(tree.children_at(i).is_empty());
            found_empty_statements = true;
        }
        i += 1;
    }
    assert!(found_empty_statements);
}

#[test]
fn truncated_input_is_fatal_unexpected_end() {
    // `int main ( ) {` with no closing brace and no sentinel.
    let tokens = vec![
        tok(TokenType::T_Int, "int"),
        tok(TokenType::T_Id, "main"),
        tok(TokenType::T_LP, "("),
        tok(TokenType::T_RP, ")"),
        tok(TokenType::T_LC, "{"),
    ];
    let mut parser = Parser::from_tokens(tokens);
    assert_eq!(parser.parse().err(), Some(ParseError::UnexpectedEndOfInput));
}

#[test]
fn lone_end_token_succeeds_with_empty_declarations() {
    let tokens = vec![tok(TokenType::End, "")];
    let mut parser = Parser::from_tokens(tokens);
    let tree = parser.parse().expect("the empty program must parse");
    assert!(parser.diagnostics().is_empty());
    // Root plus one Declarations child, closed by its epsilon rule with no
    // children and no token consumed.
    assert_eq!(tree.len(), 2);
    assert_eq!(tree.symbol_at(0), Symbol::NonTerminal(NonTerminal::Program));
    assert_eq!(tree.children_at(0).len(), 1);
    assert_eq!(tree.symbol_at(1), Symbol::NonTerminal(NonTerminal::Declarations));
    assert_eq!(tree.children_at(1).len(), 0);
}

#[test]
fn empty_input_is_fatal_unexpected_end() {
    // With no token at all the start symbol is still on the stack when the
    // source runs dry.
    let mut parser = Parser::from_tokens(Vec::new());
    assert_eq!(parser.parse().err(), Some(ParseError::UnexpectedEndOfInput));
}

#[test]
fn trailing_tokens_after_end_are_rejected() {
    let tokens = vec![tok(TokenType::End, ""), tok(TokenType::T_Semicolon, ";")];
    let mut parser = Parser::from_tokens(tokens);
    assert_eq!(parser.parse().err(), Some(ParseError::InputNotFullyConsumed));
}

#[test]
fn mismatched_terminal_reports_expected_and_found() {
    // `if` must be followed by `(`; an identifier there is a terminal
    // mismatch.
    let tokens = main_with_body(vec![
        tok(TokenType::T_If, "if"),
        tok(TokenType::T_Id, "x"),
        tok(TokenType::T_Semicolon, ";"),
    ]);
    let mut parser = Parser::from_tokens(tokens);
    let _ = parser.parse();
    assert!(!parser.diagnostics().is_empty());
    assert_eq!(
        parser.diagnostics()[0].kind,
        DiagnosticKind::MismatchedTerminal { expected: TokenType::T_LP, found: TokenType::T_Id }
    );
}

#[test]
fn error_then_synchronization_terminates() {
    // A bare expression cannot start a program: one diagnostic, then the
    // parse still reaches a terminal outcome.
    let tokens = vec![
        tok(TokenType::T_Decimal, "5"),
        tok(TokenType::T_Semicolon, ";"),
        tok(TokenType::End, ""),
    ];
    let mut parser = Parser::from_tokens(tokens);
    let outcome = parser.parse();
    assert_eq!(parser.diagnostics().len(), 1);
    assert!(outcome.is_err());
}

#[test]
fn parsing_twice_gives_identical_results() {
    let source = "int main ( ) { int x = 2 ; if ( x >= 1 ) { print ( \"y\" ) ; } }";
    let mut first = Parser::new(source.to_string());
    let mut second = Parser::new(source.to_string());
    let t1 = first.parse().expect("must parse");
    let t2 = second.parse().expect("must parse");
    assert_eq!(t1.format(), t2.format());
    assert_eq!(parser_diags(&first), parser_diags(&second));
}

fn parser_diags(p: &Parser) -> Vec<Diagnostic> {
    p.diagnostics().clone()
}

#[test]
fn parses_source_text_with_comments_and_control_flow() {
    let source = "int main ( ) {\n  // sum the first three numbers\n  int s = 0 ;\n  for ( i = 1 ; i <= 3 ; i = i + 1 ) { s = s + i ; }\n  if ( s >= 6 ) { print ( \"big\" ) ; } else { print ( \"small\" ) ; }\n  return s ;\n}\n";
    let mut parser = Parser::new(source.to_string());
    let tree = parser.parse().expect("the program must parse");
    assert!(parser.diagnostics().is_empty());
    assert_eq!(count_nonterminal(&tree, NonTerminal::ForStatement), 1);
    assert_eq!(count_nonterminal(&tree, NonTerminal::IfStatement), 1);
    assert_eq!(count_nonterminal(&tree, NonTerminal::ReturnStatement), 1);
    assert!(has_leaf_literal(&tree, TokenType::T_String, "\"big\""));
}

#[test]
fn children_count_matches_production_length() {
    // The IfStatement production has seven symbols, the Block production
    // three: in the finished tree each such node has exactly that many
    // children.
    let source = "int main ( ) { if ( x ) { } }";
    let mut parser = Parser::new(source.to_string());
    let tree = parser.parse().expect("must parse");
    let mut i = 0;
    let mut seen_if = false;
    let mut seen_block = false;
    while i < tree.len() {
        if tree.symbol_at(i) == Symbol::NonTerminal(NonTerminal::IfStatement) {
            assert_eq!(tree.children_at(i).len(), 7);
            seen_if = true;
        }
        if tree.symbol_at(i) == Symbol::NonTerminal(NonTerminal::Block) {
            assert_eq!(tree.children_at(i).len(), 3);
            seen_block = true;
        }
        i += 1;
    }
    assert!(seen_if);
    assert!(seen_block);
}

#[test]
fn format_renders_each_node_on_its_own_line() {
    let tokens = vec![tok(TokenType::End, "")];
    let mut parser = Parser::from_tokens(tokens);
    let tree = parser.parse().expect("must parse");
    assert_eq!(tree.format(), "Program\n| Declarations\n");
}

#[test]
fn add_rules_registers_the_expression_chain() {
    let table: GrammarTable = add_rules();
    let p = table.get(NonTerminal::Expression, TokenType::T_Id).expect("rule must exist");
    assert_eq!(p, vec![Symbol::NonTerminal(NonTerminal::LogicalOr)]);
    let eps = table.get(NonTerminal::Declarations, TokenType::End).expect("rule must exist");
    assert!(eps.is_empty());
    assert!(table.get(NonTerminal::Program, TokenType::T_Semicolon).is_none());
    let block = table.get(NonTerminal::Block, TokenType::T_LC).expect("rule must exist");
    assert_eq!(
        block,
        vec![
            Symbol::Terminal(TokenType::T_LC),
            Symbol::NonTerminal(NonTerminal::Statements),
            Symbol::Terminal(TokenType::T_RC),
        ]
    );
}

#[test]
fn empty_source_text_parses_to_the_empty_program() {
    let mut parser = Parser::new("".to_string());
    let tree = parser.parse().expect("the empty program must parse");
    assert!(parser.diagnostics().is_empty());
    assert_eq!(tree.len(), 2);
}

#[test]
fn parse_error_messages_match_the_failure() {
    assert_eq!(ParseError::UnexpectedEndOfInput.message(), "Unexpected end of input");
    assert_eq!(ParseError::InputNotFullyConsumed.message(), "Input not fully consumed");
}
