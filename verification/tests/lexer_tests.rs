//! Tests of the lexical scanner: token kinds, literals, and the token
//! stream over a small source file.

use minic::lexer::{tokenize, Lexer};
use minic::token::TokenType;

const TEST_IN: &str = "int main ( ) {\n  int x = 0x1A ;\n  // note\n  char c = 'a' ;\n  print ( \"hi\" ) ;\n  if ( x >= 1 && x <= 2 ) { x = x + 3 ; }\n}\n";

const TEST_OUT: &str = "int -> T_Int\nmain -> T_Id\n( -> T_LP\n) -> T_RP\n{ -> T_LC\nint -> T_Int\nx -> T_Id\n= -> T_Assign\n0x1A -> T_Hexadecimal\n; -> T_Semicolon\n// note -> T_Comment\nchar -> T_Char\nc -> T_Id\n= -> T_Assign\n'a' -> T_Character\n; -> T_Semicolon\nprint -> T_Print\n( -> T_LP\n\"hi\" -> T_String\n) -> T_RP\n; -> T_Semicolon\nif -> T_If\n( -> T_LP\nx -> T_Id\n>= -> T_ROp_GE\n1 -> T_Decimal\n&& -> T_LOp_AND\nx -> T_Id\n<= -> T_ROp_LE\n2 -> T_Decimal\n) -> T_RP\n{ -> T_LC\nx -> T_Id\n= -> T_Assign\nx -> T_Id\n+ -> T_AOp_PL\n3 -> T_Decimal\n; -> T_Semicolon\n} -> T_RC\n} -> T_RC";

#[test]
fn test_via_c_file() {
    let mut lexer = Lexer::new(TEST_IN.to_string());
    let out_put = TEST_OUT.split("\n").collect::<Vec<&str>>();
    let mut i = 0;
    while !lexer.is_end() {
        let token = lexer.next_token();
        if token.token == TokenType::End {
            break;
        }
        assert_eq!(
            out_put[i].replace("\r", ""),
            format!("{} -> {}", token.literal, token.token.name()),
            "token is {} -> {} line {} , but excpected {:?}",
            token.literal,
            token.token.name(),
            token.line,
            out_put[i]
        );
        i += 1;
    }
    assert_eq!(i, out_put.len());
}

fn kinds_of(src: &str) -> Vec<TokenType> {
    let mut lexer = Lexer::new(src.to_string());
    let mut out = Vec::new();
    loop {
        let t = lexer.next_token();
        if t.token == TokenType::End {
            break;
        }
        out.push(t.token);
    }
    out
}

#[test]
fn scans_single_and_double_operators() {
    let kinds = kinds_of("= == ! != < <= > >= & && | || + - * / %");
    assert_eq!(
        kinds,
        vec![
            TokenType::T_Assign,
            TokenType::T_ROp_E,
            TokenType::T_LOp_NOT,
            TokenType::T_ROp_NE,
            TokenType::T_ROp_L,
            TokenType::T_ROp_LE,
            TokenType::T_ROp_G,
            TokenType::T_ROp_GE,
            TokenType::ILLEGAL,
            TokenType::T_LOp_AND,
            TokenType::ILLEGAL,
            TokenType::T_LOp_OR,
            TokenType::T_AOp_PL,
            TokenType::T_AOp_MN,
            TokenType::T_AOp_ML,
            TokenType::T_AOp_DV,
            TokenType::T_AOp_RM,
        ]
    );
}

#[test]
fn greater_equal_and_less_equal_are_distinct_kinds() {
    assert_eq!(kinds_of(">="), vec![TokenType::T_ROp_GE]);
    assert_eq!(kinds_of("<="), vec![TokenType::T_ROp_LE]);
    assert_ne!(kinds_of(">="), kinds_of("<="));
}

#[test]
fn scans_keywords_and_identifiers() {
    let kinds = kinds_of("bool break char continue else false for if int print return true main");
    assert_eq!(
        kinds,
        vec![
            TokenType::T_Bool,
            TokenType::T_Break,
            TokenType::T_Char,
            TokenType::T_Continue,
            TokenType::T_Else,
            TokenType::T_False,
            TokenType::T_For,
            TokenType::T_If,
            TokenType::T_Int,
            TokenType::T_Print,
            TokenType::T_Return,
            TokenType::T_True,
            TokenType::T_Id,
        ]
    );
}

#[test]
fn scans_signed_numbers_attached_to_sign() {
    let mut lexer = Lexer::new("+41 -2".to_string());
    let t1 = lexer.next_token();
    assert_eq!(t1.token, TokenType::T_Decimal);
    assert_eq!(t1.literal, "+41");
    let t2 = lexer.next_token();
    assert_eq!(t2.token, TokenType::T_Decimal);
    assert_eq!(t2.literal, "-2");
}

#[test]
fn scans_string_with_escaped_quote() {
    let mut lexer = Lexer::new("\"a\\\"b\"".to_string());
    let t = lexer.next_token();
    assert_eq!(t.token, TokenType::T_String);
    assert_eq!(t.literal, "\"a\\\"b\"");
    assert_eq!(lexer.next_token().token, TokenType::End);
}

#[test]
fn scans_escaped_character_literal() {
    let mut lexer = Lexer::new("'\\n'".to_string());
    let t = lexer.next_token();
    assert_eq!(t.token, TokenType::T_Character);
    assert_eq!(t.literal, "'\\n'");
}

#[test]
fn scans_comment_to_end_of_line() {
    let mut lexer = Lexer::new("// one\nx".to_string());
    let t = lexer.next_token();
    assert_eq!(t.token, TokenType::T_Comment);
    assert_eq!(t.literal, "// one");
    let t2 = lexer.next_token();
    assert_eq!(t2.token, TokenType::T_Id);
    assert_eq!(t2.literal, "x");
}

#[test]
fn token_kind_names_render_the_variant() {
    assert_eq!(TokenType::T_Int.name(), "T_Int");
    assert_eq!(TokenType::T_ROp_GE.name(), "T_ROp_GE");
    assert_eq!(TokenType::End.name(), "End");
}

#[test]
fn first_token_carries_line_one() {
    let mut lexer = Lexer::new("int x".to_string());
    assert_eq!(lexer.next_token().line, 1);
    let mut lexer2 = Lexer::new("\nint".to_string());
    assert_eq!(lexer2.next_token().line, 2);
}

#[test]
fn unterminated_string_is_closed_in_the_literal() {
    let mut lexer = Lexer::new("\"ab".to_string());
    let t = lexer.next_token();
    assert_eq!(t.token, TokenType::T_String);
    assert_eq!(t.literal, "\"ab\"");
    assert_eq!(lexer.next_token().token, TokenType::End);
}

#[test]
fn end_token_repeats_at_end_of_text() {
    let mut lexer = Lexer::new(" ".to_string());
    assert_eq!(lexer.next_token().token, TokenType::End);
    assert_eq!(lexer.next_token().token, TokenType::End);
    assert!(lexer.is_end());
}

#[test]
fn tokenize_drops_comments_and_appends_end() {
    let tokens = tokenize("int x // c\n;".to_string());
    let kinds: Vec<TokenType> = tokens.iter().map(|t| t.token).collect();
    assert_eq!(
        kinds,
        vec![TokenType::T_Int, TokenType::T_Id, TokenType::T_Semicolon, TokenType::End]
    );
    assert_eq!(tokens[3].literal, "");
}
