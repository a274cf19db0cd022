//! Token kinds and tokens produced by the scanner and consumed by the parser.

use vstd::prelude::*;

verus! {

/// The kind of a lexical token. Terminal symbols of the grammar are drawn
/// from this set; `End` is the end-of-input sentinel that terminates every
/// token sequence.
#[allow(non_camel_case_types)]
#[derive(Clone, Copy, Debug, PartialEq, Eq, Structural)]
pub enum TokenType {
    /// A character the scanner could not classify.
    ILLEGAL,
    /// End-of-input sentinel.
    End,
    /// Identifier.
    T_Id,
    /// Decimal number literal.
    T_Decimal,
    /// Hexadecimal number literal.
    T_Hexadecimal,
    /// String literal, quotes included.
    T_String,
    /// Character literal.
    T_Character,
    /// Line comment.
    T_Comment,
    /// Keyword `int`.
    T_Int,
    /// Keyword `bool`.
    T_Bool,
    /// Keyword `char`.
    T_Char,
    /// Keyword `break`.
    T_Break,
    /// Keyword `continue`.
    T_Continue,
    /// Keyword `else`.
    T_Else,
    /// Keyword `false`.
    T_False,
    /// Keyword `for`.
    T_For,
    /// Keyword `if`.
    T_If,
    /// Keyword `print`.
    T_Print,
    /// Keyword `return`.
    T_Return,
    /// Keyword `true`.
    T_True,
    /// `;`
    T_Semicolon,
    /// `,`
    T_Comma,
    /// `(`
    T_LP,
    /// `)`
    T_RP,
    /// `{`
    T_LC,
    /// `}`
    T_RC,
    /// `[`
    T_LB,
    /// `]`
    T_RB,
    /// `=`
    T_Assign,
    /// `+`
    T_AOp_PL,
    /// `-`
    T_AOp_MN,
    /// `*`
    T_AOp_ML,
    /// `/`
    T_AOp_DV,
    /// `%`
    T_AOp_RM,
    /// `==`
    T_ROp_E,
    /// `!=`
    T_ROp_NE,
    /// `<`
    T_ROp_L,
    /// `<=`
    T_ROp_LE,
    /// `>`
    T_ROp_G,
    /// `>=`
    T_ROp_GE,
    /// `&&`
    T_LOp_AND,
    /// `||`
    T_LOp_OR,
    /// `!`
    T_LOp_NOT,
}

/// One lexical token: its kind, the literal text it was scanned from, and an
/// approximate source position.
#[derive(Clone, Debug)]
pub struct Token {
    pub token: TokenType,
    pub literal: String,
    pub line: usize,
    pub column: usize,
}

/// Mathematical model of a token: the literal is a character sequence.
#[verifier::ext_equal]
pub ghost struct TokenModel {
    pub token: TokenType,
    pub literal: Seq<char>,
    pub line: usize,
    pub column: usize,
}

impl View for Token {
    type V = TokenModel;

    open spec fn view(&self) -> TokenModel {
        TokenModel {
            token: self.token,
            literal: self.literal@,
            line: self.line,
            column: self.column,
        }
    }
}


/// The name of a token kind, as rendered by [`TokenType::name`].
pub open spec fn kind_name(t: TokenType) -> Seq<char> {
    match t {
        TokenType::ILLEGAL => "ILLEGAL"@,
        TokenType::End => "End"@,
        TokenType::T_Id => "T_Id"@,
        TokenType::T_Decimal => "T_Decimal"@,
        TokenType::T_Hexadecimal => "T_Hexadecimal"@,
        TokenType::T_String => "T_String"@,
        TokenType::T_Character => "T_Character"@,
        TokenType::T_Comment => "T_Comment"@,
        TokenType::T_Int => "T_Int"@,
        TokenType::T_Bool => "T_Bool"@,
        TokenType::T_Char => "T_Char"@,
        TokenType::T_Break => "T_Break"@,
        TokenType::T_Continue => "T_Continue"@,
        TokenType::T_Else => "T_Else"@,
        TokenType::T_False => "T_False"@,
        TokenType::T_For => "T_For"@,
        TokenType::T_If => "T_If"@,
        TokenType::T_Print => "T_Print"@,
        TokenType::T_Return => "T_Return"@,
        TokenType::T_True => "T_True"@,
        TokenType::T_Semicolon => "T_Semicolon"@,
        TokenType::T_Comma => "T_Comma"@,
        TokenType::T_LP => "T_LP"@,
        TokenType::T_RP => "T_RP"@,
        TokenType::T_LC => "T_LC"@,
        TokenType::T_RC => "T_RC"@,
        TokenType::T_LB => "T_LB"@,
        TokenType::T_RB => "T_RB"@,
        TokenType::T_Assign => "T_Assign"@,
        TokenType::T_AOp_PL => "T_AOp_PL"@,
        TokenType::T_AOp_MN => "T_AOp_MN"@,
        TokenType::T_AOp_ML => "T_AOp_ML"@,
        TokenType::T_AOp_DV => "T_AOp_DV"@,
        TokenType::T_AOp_RM => "T_AOp_RM"@,
        TokenType::T_ROp_E => "T_ROp_E"@,
        TokenType::T_ROp_NE => "T_ROp_NE"@,
        TokenType::T_ROp_L => "T_ROp_L"@,
        TokenType::T_ROp_LE => "T_ROp_LE"@,
        TokenType::T_ROp_G => "T_ROp_G"@,
        TokenType::T_ROp_GE => "T_ROp_GE"@,
        TokenType::T_LOp_AND => "T_LOp_AND"@,
        TokenType::T_LOp_OR => "T_LOp_OR"@,
        TokenType::T_LOp_NOT => "T_LOp_NOT"@,
    }
}

impl TokenType {
    /// The kind's name, for diagnostics and test output.
    pub fn name(&self) -> (n: String)
        ensures
            n@ == kind_name(*self),
    {
        match self {
            TokenType::ILLEGAL => "ILLEGAL".to_owned(),
            TokenType::End => "End".to_owned(),
            TokenType::T_Id => "T_Id".to_owned(),
            TokenType::T_Decimal => "T_Decimal".to_owned(),
            TokenType::T_Hexadecimal => "T_Hexadecimal".to_owned(),
            TokenType::T_String => "T_String".to_owned(),
            TokenType::T_Character => "T_Character".to_owned(),
            TokenType::T_Comment => "T_Comment".to_owned(),
            TokenType::T_Int => "T_Int".to_owned(),
            TokenType::T_Bool => "T_Bool".to_owned(),
            TokenType::T_Char => "T_Char".to_owned(),
            TokenType::T_Break => "T_Break".to_owned(),
            TokenType::T_Continue => "T_Continue".to_owned(),
            TokenType::T_Else => "T_Else".to_owned(),
            TokenType::T_False => "T_False".to_owned(),
            TokenType::T_For => "T_For".to_owned(),
            TokenType::T_If => "T_If".to_owned(),
            TokenType::T_Print => "T_Print".to_owned(),
            TokenType::T_Return => "T_Return".to_owned(),
            TokenType::T_True => "T_True".to_owned(),
            TokenType::T_Semicolon => "T_Semicolon".to_owned(),
            TokenType::T_Comma => "T_Comma".to_owned(),
            TokenType::T_LP => "T_LP".to_owned(),
            TokenType::T_RP => "T_RP".to_owned(),
            TokenType::T_LC => "T_LC".to_owned(),
            TokenType::T_RC => "T_RC".to_owned(),
            TokenType::T_LB => "T_LB".to_owned(),
            TokenType::T_RB => "T_RB".to_owned(),
            TokenType::T_Assign => "T_Assign".to_owned(),
            TokenType::T_AOp_PL => "T_AOp_PL".to_owned(),
            TokenType::T_AOp_MN => "T_AOp_MN".to_owned(),
            TokenType::T_AOp_ML => "T_AOp_ML".to_owned(),
            TokenType::T_AOp_DV => "T_AOp_DV".to_owned(),
            TokenType::T_AOp_RM => "T_AOp_RM".to_owned(),
            TokenType::T_ROp_E => "T_ROp_E".to_owned(),
            TokenType::T_ROp_NE => "T_ROp_NE".to_owned(),
            TokenType::T_ROp_L => "T_ROp_L".to_owned(),
            TokenType::T_ROp_LE => "T_ROp_LE".to_owned(),
            TokenType::T_ROp_G => "T_ROp_G".to_owned(),
            TokenType::T_ROp_GE => "T_ROp_GE".to_owned(),
            TokenType::T_LOp_AND => "T_LOp_AND".to_owned(),
            TokenType::T_LOp_OR => "T_LOp_OR".to_owned(),
            TokenType::T_LOp_NOT => "T_LOp_NOT".to_owned(),
        }
    }
}

impl Token {
    /// Builds a token from its parts.
    pub fn new(token: TokenType, literal: String, line: usize, column: usize) -> (t: Token)
        ensures
            t.token == token,
            t.literal == literal,
            t.line == line,
            t.column == column,
    {
        Token { token, literal, line, column }
    }
}

} // verus!
