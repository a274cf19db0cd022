//! The LL(1) grammar table: grammar symbols, productions, and the fixed
//! mapping from (non-terminal, lookahead terminal) to production.
//!
//! The table is a hand-authored artifact for one grammar: types `int`,
//! `bool` and `char`; variable declarations; function definitions; block
//! statements; `if`/`else if`/`else`; `for` loops; `print`; `return`;
//! `break`; `continue`; and a precedence-climbing expression grammar
//! (logical-or over logical-and over equality over relational over additive
//! over multiplicative over unary over primary).
//!
//! `grammar_rule` is the table's mathematical statement; `GrammarTable::get`
//! is the executable lookup, proved to return exactly what `grammar_rule`
//! says. At most one production exists per (non-terminal, lookahead) pair by
//! construction, so the parse is deterministic. The absence of an entry is
//! not a construction fault: it is the signal the parse engine uses to
//! detect a syntax error.
//!
//! The registered entries are the fixed artifact, quirks included: some
//! epsilon rules are registered beyond their non-terminal's FOLLOW set, and
//! `ElseIfs` registers only epsilon rules — `ElseIf` has a production but
//! nothing reaches it, so an `else if` chain does not derive, while a plain
//! `else` block does.

use vstd::prelude::*;

use crate::token::TokenType;

verus! {

/// A non-terminal symbol of the grammar.
#[derive(Clone, Copy, Debug, PartialEq, Eq, Structural)]
pub enum NonTerminal {
    Program,
    Declarations,
    Declaration,
    VarOrFunc,
    VarOrFuncRest,
    VarDeclRest,
    FunctionRest,
    Type,
    MoreIdentifiers,
    Initialization,
    Functions,
    Function,
    Parameters,
    ParameterList,
    Parameter,
    MoreParameters,
    Block,
    Statements,
    Statement,
    Assignment,
    IfStatement,
    ElseIfs,
    ElseIf,
    ElseBlock,
    ForStatement,
    ForInit,
    ForCondition,
    ForUpdate,
    PrintStatement,
    PrintArguments,
    MorePrintArguments,
    ReturnStatement,
    BreakStatement,
    ContinueStatement,
    Expression,
    LogicalOr,
    LogicalOrPRE,
    LogicalAnd,
    LogicalAndPRE,
    Equality,
    EqualityPRE,
    Relational,
    RelationalPRE,
    Additive,
    AdditivePRE,
    Multiplicative,
    MultiplicativePRE,
    Unary,
    Primary,
    Identifier,
    IntegerLiteral,
    BooleanLiteral,
    CharacterLiteral,
    StringLiteral,
}


/// The name of a non-terminal, as rendered by [`NonTerminal::name`].
pub open spec fn nt_name(n: NonTerminal) -> Seq<char> {
    match n {
        NonTerminal::Program => "Program"@,
        NonTerminal::Declarations => "Declarations"@,
        NonTerminal::Declaration => "Declaration"@,
        NonTerminal::VarOrFunc => "VarOrFunc"@,
        NonTerminal::VarOrFuncRest => "VarOrFuncRest"@,
        NonTerminal::VarDeclRest => "VarDeclRest"@,
        NonTerminal::FunctionRest => "FunctionRest"@,
        NonTerminal::Type => "Type"@,
        NonTerminal::MoreIdentifiers => "MoreIdentifiers"@,
        NonTerminal::Initialization => "Initialization"@,
        NonTerminal::Functions => "Functions"@,
        NonTerminal::Function => "Function"@,
        NonTerminal::Parameters => "Parameters"@,
        NonTerminal::ParameterList => "ParameterList"@,
        NonTerminal::Parameter => "Parameter"@,
        NonTerminal::MoreParameters => "MoreParameters"@,
        NonTerminal::Block => "Block"@,
        NonTerminal::Statements => "Statements"@,
        NonTerminal::Statement => "Statement"@,
        NonTerminal::Assignment => "Assignment"@,
        NonTerminal::IfStatement => "IfStatement"@,
        NonTerminal::ElseIfs => "ElseIfs"@,
        NonTerminal::ElseIf => "ElseIf"@,
        NonTerminal::ElseBlock => "ElseBlock"@,
        NonTerminal::ForStatement => "ForStatement"@,
        NonTerminal::ForInit => "ForInit"@,
        NonTerminal::ForCondition => "ForCondition"@,
        NonTerminal::ForUpdate => "ForUpdate"@,
        NonTerminal::PrintStatement => "PrintStatement"@,
        NonTerminal::PrintArguments => "PrintArguments"@,
        NonTerminal::MorePrintArguments => "MorePrintArguments"@,
        NonTerminal::ReturnStatement => "ReturnStatement"@,
        NonTerminal::BreakStatement => "BreakStatement"@,
        NonTerminal::ContinueStatement => "ContinueStatement"@,
        NonTerminal::Expression => "Expression"@,
        NonTerminal::LogicalOr => "LogicalOr"@,
        NonTerminal::LogicalOrPRE => "LogicalOrPRE"@,
        NonTerminal::LogicalAnd => "LogicalAnd"@,
        NonTerminal::LogicalAndPRE => "LogicalAndPRE"@,
        NonTerminal::Equality => "Equality"@,
        NonTerminal::EqualityPRE => "EqualityPRE"@,
        NonTerminal::Relational => "Relational"@,
        NonTerminal::RelationalPRE => "RelationalPRE"@,
        NonTerminal::Additive => "Additive"@,
        NonTerminal::AdditivePRE => "AdditivePRE"@,
        NonTerminal::Multiplicative => "Multiplicative"@,
        NonTerminal::MultiplicativePRE => "MultiplicativePRE"@,
        NonTerminal::Unary => "Unary"@,
        NonTerminal::Primary => "Primary"@,
        NonTerminal::Identifier => "Identifier"@,
        NonTerminal::IntegerLiteral => "IntegerLiteral"@,
        NonTerminal::BooleanLiteral => "BooleanLiteral"@,
        NonTerminal::CharacterLiteral => "CharacterLiteral"@,
        NonTerminal::StringLiteral => "StringLiteral"@,
    }
}

impl NonTerminal {
    /// The non-terminal's name, for diagnostics and test output.
    pub fn name(&self) -> (n: String)
        ensures
            n@ == nt_name(*self),
    {
        match self {
            NonTerminal::Program => "Program".to_owned(),
            NonTerminal::Declarations => "Declarations".to_owned(),
            NonTerminal::Declaration => "Declaration".to_owned(),
            NonTerminal::VarOrFunc => "VarOrFunc".to_owned(),
            NonTerminal::VarOrFuncRest => "VarOrFuncRest".to_owned(),
            NonTerminal::VarDeclRest => "VarDeclRest".to_owned(),
            NonTerminal::FunctionRest => "FunctionRest".to_owned(),
            NonTerminal::Type => "Type".to_owned(),
            NonTerminal::MoreIdentifiers => "MoreIdentifiers".to_owned(),
            NonTerminal::Initialization => "Initialization".to_owned(),
            NonTerminal::Functions => "Functions".to_owned(),
            NonTerminal::Function => "Function".to_owned(),
            NonTerminal::Parameters => "Parameters".to_owned(),
            NonTerminal::ParameterList => "ParameterList".to_owned(),
            NonTerminal::Parameter => "Parameter".to_owned(),
            NonTerminal::MoreParameters => "MoreParameters".to_owned(),
            NonTerminal::Block => "Block".to_owned(),
            NonTerminal::Statements => "Statements".to_owned(),
            NonTerminal::Statement => "Statement".to_owned(),
            NonTerminal::Assignment => "Assignment".to_owned(),
            NonTerminal::IfStatement => "IfStatement".to_owned(),
            NonTerminal::ElseIfs => "ElseIfs".to_owned(),
            NonTerminal::ElseIf => "ElseIf".to_owned(),
            NonTerminal::ElseBlock => "ElseBlock".to_owned(),
            NonTerminal::ForStatement => "ForStatement".to_owned(),
            NonTerminal::ForInit => "ForInit".to_owned(),
            NonTerminal::ForCondition => "ForCondition".to_owned(),
            NonTerminal::ForUpdate => "ForUpdate".to_owned(),
            NonTerminal::PrintStatement => "PrintStatement".to_owned(),
            NonTerminal::PrintArguments => "PrintArguments".to_owned(),
            NonTerminal::MorePrintArguments => "MorePrintArguments".to_owned(),
            NonTerminal::ReturnStatement => "ReturnStatement".to_owned(),
            NonTerminal::BreakStatement => "BreakStatement".to_owned(),
            NonTerminal::ContinueStatement => "ContinueStatement".to_owned(),
            NonTerminal::Expression => "Expression".to_owned(),
            NonTerminal::LogicalOr => "LogicalOr".to_owned(),
            NonTerminal::LogicalOrPRE => "LogicalOrPRE".to_owned(),
            NonTerminal::LogicalAnd => "LogicalAnd".to_owned(),
            NonTerminal::LogicalAndPRE => "LogicalAndPRE".to_owned(),
            NonTerminal::Equality => "Equality".to_owned(),
            NonTerminal::EqualityPRE => "EqualityPRE".to_owned(),
            NonTerminal::Relational => "Relational".to_owned(),
            NonTerminal::RelationalPRE => "RelationalPRE".to_owned(),
            NonTerminal::Additive => "Additive".to_owned(),
            NonTerminal::AdditivePRE => "AdditivePRE".to_owned(),
            NonTerminal::Multiplicative => "Multiplicative".to_owned(),
            NonTerminal::MultiplicativePRE => "MultiplicativePRE".to_owned(),
            NonTerminal::Unary => "Unary".to_owned(),
            NonTerminal::Primary => "Primary".to_owned(),
            NonTerminal::Identifier => "Identifier".to_owned(),
            NonTerminal::IntegerLiteral => "IntegerLiteral".to_owned(),
            NonTerminal::BooleanLiteral => "BooleanLiteral".to_owned(),
            NonTerminal::CharacterLiteral => "CharacterLiteral".to_owned(),
            NonTerminal::StringLiteral => "StringLiteral".to_owned(),
        }
    }
}

/// A grammar symbol: either a terminal (a token kind) or a non-terminal.
/// Symbols are immutable and compared by value.
#[derive(Clone, Copy, Debug, PartialEq, Eq, Structural)]
pub enum Symbol {
    Terminal(TokenType),
    NonTerminal(NonTerminal),
}

/// True of the terminals that can begin an expression.
pub open spec fn starts_expression(t: TokenType) -> bool {
    ||| t == TokenType::T_LP
    ||| t == TokenType::T_LOp_NOT
    ||| t == TokenType::T_Id
    ||| t == TokenType::T_Decimal
    ||| t == TokenType::T_True
    ||| t == TokenType::T_False
    ||| t == TokenType::T_Character
    ||| t == TokenType::T_String
}

/// The production registered for `(nt, lookahead)`: `Some(right-hand side)`,
/// possibly empty (an epsilon rule), or `None` when the pair has no rule.
pub open spec fn grammar_rule(nt: NonTerminal, lookahead: TokenType) -> Option<Seq<Symbol>> {
    match nt {
        NonTerminal::Program => match lookahead {
            TokenType::T_Int | TokenType::T_Bool | TokenType::T_Char | TokenType::End => Some(
                seq![Symbol::NonTerminal(NonTerminal::Declarations)],
            ),
            _ => None,
        },
        NonTerminal::Declarations => match lookahead {
            TokenType::T_Int | TokenType::T_Bool | TokenType::T_Char => Some(
                seq![
                    Symbol::NonTerminal(NonTerminal::Declaration),
                    Symbol::NonTerminal(NonTerminal::Declarations),
                ],
            ),
            TokenType::End => Some(Seq::empty()),
            _ => None,
        },
        NonTerminal::Declaration => match lookahead {
            TokenType::T_Int | TokenType::T_Bool | TokenType::T_Char => Some(
                seq![
                    Symbol::NonTerminal(NonTerminal::Type),
                    Symbol::NonTerminal(NonTerminal::VarOrFunc),
                ],
            ),
            _ => None,
        },
        NonTerminal::VarOrFunc => match lookahead {
            TokenType::T_Id => Some(
                seq![
                    Symbol::NonTerminal(NonTerminal::Identifier),
                    Symbol::NonTerminal(NonTerminal::VarOrFuncRest),
                ],
            ),
            _ => None,
        },
        NonTerminal::VarOrFuncRest => match lookahead {
            TokenType::T_LP => Some(seq![Symbol::NonTerminal(NonTerminal::FunctionRest)]),
            TokenType::T_Semicolon | TokenType::T_Int | TokenType::T_Bool | TokenType::T_Char
                | TokenType::T_Comma | TokenType::T_Assign | TokenType::T_LB | TokenType::T_RC
                | TokenType::T_If | TokenType::T_For | TokenType::T_Print | TokenType::T_Return
                | TokenType::T_Break | TokenType::T_Continue | TokenType::T_Id
                | TokenType::End => Some(seq![Symbol::NonTerminal(NonTerminal::VarDeclRest)]),
            _ => None,
        },
        NonTerminal::VarDeclRest => match lookahead {
            TokenType::T_Semicolon | TokenType::T_Int | TokenType::T_Bool | TokenType::T_Char
                | TokenType::T_Comma | TokenType::T_Assign | TokenType::T_LB | TokenType::T_RC
                | TokenType::T_If | TokenType::T_For | TokenType::T_Print | TokenType::T_Return
                | TokenType::T_Break | TokenType::T_Continue | TokenType::T_Id
                | TokenType::End => Some(
                seq![
                    Symbol::NonTerminal(NonTerminal::Initialization),
                    Symbol::NonTerminal(NonTerminal::MoreIdentifiers),
                    Symbol::Terminal(TokenType::T_Semicolon),
                ],
            ),
            _ => None,
        },
        NonTerminal::FunctionRest => match lookahead {
            TokenType::T_LP => Some(
                seq![
                    Symbol::Terminal(TokenType::T_LP),
                    Symbol::NonTerminal(NonTerminal::Parameters),
                    Symbol::Terminal(TokenType::T_RP),
                    Symbol::NonTerminal(NonTerminal::Block),
                ],
            ),
            _ => None,
        },
        NonTerminal::Type => match lookahead {
            TokenType::T_Int => Some(seq![Symbol::Terminal(TokenType::T_Int)]),
            TokenType::T_Bool => Some(seq![Symbol::Terminal(TokenType::T_Bool)]),
            TokenType::T_Char => Some(seq![Symbol::Terminal(TokenType::T_Char)]),
            _ => None,
        },
        NonTerminal::MoreIdentifiers => match lookahead {
            TokenType::T_Semicolon => Some(Seq::empty()),
            TokenType::T_Comma => Some(
                seq![
                    Symbol::Terminal(TokenType::T_Comma),
                    Symbol::NonTerminal(NonTerminal::Identifier),
                    Symbol::NonTerminal(NonTerminal::Initialization),
                    Symbol::NonTerminal(NonTerminal::MoreIdentifiers),
                ],
            ),
            _ => None,
        },
        NonTerminal::Initialization => match lookahead {
            TokenType::T_Assign => Some(
                seq![
                    Symbol::Terminal(TokenType::T_Assign),
                    Symbol::NonTerminal(NonTerminal::Expression),
                ],
            ),
            TokenType::T_LB => Some(
                seq![
                    Symbol::Terminal(TokenType::T_LB),
                    Symbol::NonTerminal(NonTerminal::IntegerLiteral),
                    Symbol::Terminal(TokenType::T_RB),
                    Symbol::NonTerminal(NonTerminal::Initialization),
                ],
            ),
            TokenType::T_Semicolon | TokenType::T_Int | TokenType::T_Bool | TokenType::T_Char
                | TokenType::T_Comma | TokenType::T_RC | TokenType::T_If | TokenType::T_For
                | TokenType::T_Print | TokenType::T_Return | TokenType::T_Break
                | TokenType::T_Continue | TokenType::T_Id | TokenType::End => Some(Seq::empty()),
            _ => None,
        },
        NonTerminal::Functions => match lookahead {
            TokenType::T_Int | TokenType::T_Bool | TokenType::T_Char => Some(
                seq![
                    Symbol::NonTerminal(NonTerminal::Function),
                    Symbol::NonTerminal(NonTerminal::Functions),
                ],
            ),
            _ => None,
        },
        NonTerminal::Function => match lookahead {
            TokenType::T_Int | TokenType::T_Bool | TokenType::T_Char => Some(
                seq![
                    Symbol::NonTerminal(NonTerminal::Type),
                    Symbol::NonTerminal(NonTerminal::Identifier),
                    Symbol::NonTerminal(NonTerminal::FunctionRest),
                ],
            ),
            _ => None,
        },
        NonTerminal::Parameters => match lookahead {
            TokenType::T_RP => Some(Seq::empty()),
            TokenType::T_Int | TokenType::T_Bool | TokenType::T_Char => Some(
                seq![Symbol::NonTerminal(NonTerminal::ParameterList)],
            ),
            _ => None,
        },
        NonTerminal::ParameterList => match lookahead {
            TokenType::T_Int | TokenType::T_Bool | TokenType::T_Char => Some(
                seq![
                    Symbol::NonTerminal(NonTerminal::Parameter),
                    Symbol::NonTerminal(NonTerminal::MoreParameters),
                ],
            ),
            _ => None,
        },
        NonTerminal::Parameter => match lookahead {
            TokenType::T_Int | TokenType::T_Bool | TokenType::T_Char => Some(
                seq![
                    Symbol::NonTerminal(NonTerminal::Type),
                    Symbol::NonTerminal(NonTerminal::Identifier),
                ],
            ),
            _ => None,
        },
        NonTerminal::MoreParameters => match lookahead {
            TokenType::T_RP => Some(Seq::empty()),
            TokenType::T_Comma => Some(
                seq![
                    Symbol::Terminal(TokenType::T_Comma),
                    Symbol::NonTerminal(NonTerminal::Parameter),
                    Symbol::NonTerminal(NonTerminal::MoreParameters),
                ],
            ),
            _ => None,
        },
        NonTerminal::Block => match lookahead {
            TokenType::T_LC => Some(
                seq![
                    Symbol::Terminal(TokenType::T_LC),
                    Symbol::NonTerminal(NonTerminal::Statements),
                    Symbol::Terminal(TokenType::T_RC),
                ],
            ),
            _ => None,
        },
        NonTerminal::Statements => match lookahead {
            TokenType::T_Int | TokenType::T_Bool | TokenType::T_Char | TokenType::T_If
                | TokenType::T_For | TokenType::T_Print | TokenType::T_Return
                | TokenType::T_Break | TokenType::T_Continue | TokenType::T_Id => Some(
                seq![
                    Symbol::NonTerminal(NonTerminal::Statement),
                    Symbol::NonTerminal(NonTerminal::Statements),
                ],
            ),
            TokenType::T_RC => Some(Seq::empty()),
            _ => None,
        },
        NonTerminal::Statement => match lookahead {
            TokenType::T_Int | TokenType::T_Bool | TokenType::T_Char => Some(
                seq![Symbol::NonTerminal(NonTerminal::Declaration)],
            ),
            TokenType::T_If => Some(seq![Symbol::NonTerminal(NonTerminal::IfStatement)]),
            TokenType::T_For => Some(seq![Symbol::NonTerminal(NonTerminal::ForStatement)]),
            TokenType::T_Print => Some(
                seq![
                    Symbol::NonTerminal(NonTerminal::PrintStatement),
                    Symbol::Terminal(TokenType::T_Semicolon),
                ],
            ),
            TokenType::T_Return => Some(
                seq![
                    Symbol::NonTerminal(NonTerminal::ReturnStatement),
                    Symbol::Terminal(TokenType::T_Semicolon),
                ],
            ),
            TokenType::T_Break => Some(
                seq![
                    Symbol::NonTerminal(NonTerminal::BreakStatement),
                    Symbol::Terminal(TokenType::T_Semicolon),
                ],
            ),
            TokenType::T_Continue => Some(
                seq![
                    Symbol::NonTerminal(NonTerminal::ContinueStatement),
                    Symbol::Terminal(TokenType::T_Semicolon),
                ],
            ),
            TokenType::T_Id => Some(
                seq![
                    Symbol::NonTerminal(NonTerminal::Assignment),
                    Symbol::Terminal(TokenType::T_Semicolon),
                ],
            ),
            _ => None,
        },
        NonTerminal::Assignment => match lookahead {
            TokenType::T_Id => Some(
                seq![
                    Symbol::NonTerminal(NonTerminal::Identifier),
                    Symbol::Terminal(TokenType::T_Assign),
                    Symbol::NonTerminal(NonTerminal::Expression),
                ],
            ),
            _ => None,
        },
        NonTerminal::IfStatement => match lookahead {
            TokenType::T_If => Some(
                seq![
                    Symbol::Terminal(TokenType::T_If),
                    Symbol::Terminal(TokenType::T_LP),
                    Symbol::NonTerminal(NonTerminal::Expression),
                    Symbol::Terminal(TokenType::T_RP),
                    Symbol::NonTerminal(NonTerminal::Block),
                    Symbol::NonTerminal(NonTerminal::ElseIfs),
                    Symbol::NonTerminal(NonTerminal::ElseBlock),
                ],
            ),
            _ => None,
        },
        NonTerminal::ElseIfs => match lookahead {
            TokenType::T_Int | TokenType::T_Bool | TokenType::T_Char | TokenType::T_RC
                | TokenType::T_If | TokenType::T_Else | TokenType::T_For | TokenType::T_Print
                | TokenType::T_Return | TokenType::T_Break | TokenType::T_Continue
                | TokenType::T_Id => Some(Seq::empty()),
            _ => None,
        },
        NonTerminal::ElseIf => match lookahead {
            TokenType::T_Else => Some(
                seq![
                    Symbol::Terminal(TokenType::T_Else),
                    Symbol::Terminal(TokenType::T_If),
                    Symbol::Terminal(TokenType::T_LP),
                    Symbol::NonTerminal(NonTerminal::Expression),
                    Symbol::Terminal(TokenType::T_RP),
                    Symbol::NonTerminal(NonTerminal::Block),
                ],
            ),
            _ => None,
        },
        NonTerminal::ElseBlock => match lookahead {
            TokenType::T_Else => Some(
                seq![
                    Symbol::Terminal(TokenType::T_Else),
                    Symbol::NonTerminal(NonTerminal::Block),
                ],
            ),
            TokenType::T_Int | TokenType::T_Bool | TokenType::T_Char | TokenType::T_RC
                | TokenType::T_If | TokenType::T_For | TokenType::T_Print | TokenType::T_Return
                | TokenType::T_Break | TokenType::T_Continue | TokenType::T_Id => Some(
                Seq::empty(),
            ),
            _ => None,
        },
        NonTerminal::ForStatement => match lookahead {
            TokenType::T_For => Some(
                seq![
                    Symbol::Terminal(TokenType::T_For),
                    Symbol::Terminal(TokenType::T_LP),
                    Symbol::NonTerminal(NonTerminal::ForInit),
                    Symbol::Terminal(TokenType::T_Semicolon),
                    Symbol::NonTerminal(NonTerminal::ForCondition),
                    Symbol::Terminal(TokenType::T_Semicolon),
                    Symbol::NonTerminal(NonTerminal::ForUpdate),
                    Symbol::Terminal(TokenType::T_RP),
                    Symbol::NonTerminal(NonTerminal::Block),
                ],
            ),
            _ => None,
        },
        NonTerminal::ForInit => match lookahead {
            TokenType::T_Semicolon => Some(Seq::empty()),
            TokenType::T_Int | TokenType::T_Bool | TokenType::T_Char => Some(
                seq![Symbol::NonTerminal(NonTerminal::Declaration)],
            ),
            TokenType::T_Id => Some(seq![Symbol::NonTerminal(NonTerminal::Assignment)]),
            _ => None,
        },
        NonTerminal::ForCondition => match lookahead {
            TokenType::T_Semicolon => Some(Seq::empty()),
            TokenType::T_LP | TokenType::T_LOp_NOT | TokenType::T_Id | TokenType::T_Decimal
                | TokenType::T_True | TokenType::T_False | TokenType::T_Character
                | TokenType::T_String => Some(seq![Symbol::NonTerminal(NonTerminal::Expression)]),
            _ => None,
        },
        NonTerminal::ForUpdate => match lookahead {
            TokenType::T_RP => Some(Seq::empty()),
            TokenType::T_Id => Some(seq![Symbol::NonTerminal(NonTerminal::Assignment)]),
            _ => None,
        },
        NonTerminal::PrintStatement => match lookahead {
            TokenType::T_Print => Some(
                seq![
                    Symbol::Terminal(TokenType::T_Print),
                    Symbol::Terminal(TokenType::T_LP),
                    Symbol::NonTerminal(NonTerminal::PrintArguments),
                    Symbol::Terminal(TokenType::T_RP),
                ],
            ),
            _ => None,
        },
        NonTerminal::PrintArguments => match lookahead {
            TokenType::T_String => Some(
                seq![
                    Symbol::NonTerminal(NonTerminal::StringLiteral),
                    Symbol::NonTerminal(NonTerminal::MorePrintArguments),
                ],
            ),
            _ => None,
        },
        NonTerminal::MorePrintArguments => match lookahead {
            TokenType::T_RP => Some(Seq::empty()),
            TokenType::T_Comma => Some(
                seq![
                    Symbol::Terminal(TokenType::T_Comma),
                    Symbol::NonTerminal(NonTerminal::Expression),
                    Symbol::NonTerminal(NonTerminal::MorePrintArguments),
                ],
            ),
            _ => None,
        },
        NonTerminal::ReturnStatement => match lookahead {
            TokenType::T_Return => Some(
                seq![
                    Symbol::Terminal(TokenType::T_Return),
                    Symbol::NonTerminal(NonTerminal::Expression),
                ],
            ),
            _ => None,
        },
        NonTerminal::BreakStatement => match lookahead {
            TokenType::T_Break => Some(seq![Symbol::Terminal(TokenType::T_Break)]),
            _ => None,
        },
        NonTerminal::ContinueStatement => match lookahead {
            TokenType::T_Continue => Some(seq![Symbol::Terminal(TokenType::T_Continue)]),
            _ => None,
        },
        NonTerminal::Expression => if starts_expression(lookahead) {
            Some(seq![Symbol::NonTerminal(NonTerminal::LogicalOr)])
        } else {
            None
        },
        NonTerminal::LogicalOr => if starts_expression(lookahead) {
            Some(
                seq![
                    Symbol::NonTerminal(NonTerminal::LogicalAnd),
                    Symbol::NonTerminal(NonTerminal::LogicalOrPRE),
                ],
            )
        } else {
            None
        },
        NonTerminal::LogicalOrPRE => match lookahead {
            TokenType::T_LOp_OR => Some(
                seq![
                    Symbol::Terminal(TokenType::T_LOp_OR),
                    Symbol::NonTerminal(NonTerminal::LogicalAnd),
                    Symbol::NonTerminal(NonTerminal::LogicalOrPRE),
                ],
            ),
            TokenType::T_Semicolon | TokenType::T_RP | TokenType::T_Int | TokenType::T_Bool
                | TokenType::T_Char | TokenType::T_Comma | TokenType::T_RC | TokenType::T_If
                | TokenType::T_For | TokenType::T_Print | TokenType::T_Return
                | TokenType::T_Break | TokenType::T_Continue | TokenType::T_Id
                | TokenType::End => Some(Seq::empty()),
            _ => None,
        },
        NonTerminal::LogicalAnd => if starts_expression(lookahead) {
            Some(
                seq![
                    Symbol::NonTerminal(NonTerminal::Equality),
                    Symbol::NonTerminal(NonTerminal::LogicalAndPRE),
                ],
            )
        } else {
            None
        },
        NonTerminal::LogicalAndPRE => match lookahead {
            TokenType::T_LOp_AND => Some(
                seq![
                    Symbol::Terminal(TokenType::T_LOp_AND),
                    Symbol::NonTerminal(NonTerminal::Equality),
                    Symbol::NonTerminal(NonTerminal::LogicalAndPRE),
                ],
            ),
            TokenType::T_Semicolon | TokenType::T_RP | TokenType::T_Int | TokenType::T_Bool
                | TokenType::T_Char | TokenType::T_Comma | TokenType::T_RC | TokenType::T_If
                | TokenType::T_For | TokenType::T_Print | TokenType::T_Return
                | TokenType::T_Break | TokenType::T_Continue | TokenType::T_LOp_OR
                | TokenType::T_Id | TokenType::End => Some(Seq::empty()),
            _ => None,
        },
        NonTerminal::Equality => if starts_expression(lookahead) {
            Some(
                seq![
                    Symbol::NonTerminal(NonTerminal::Relational),
                    Symbol::NonTerminal(NonTerminal::EqualityPRE),
                ],
            )
        } else {
            None
        },
        NonTerminal::EqualityPRE => match lookahead {
            TokenType::T_ROp_E => Some(
                seq![
                    Symbol::Terminal(TokenType::T_ROp_E),
                    Symbol::NonTerminal(NonTerminal::Relational),
                    Symbol::NonTerminal(NonTerminal::EqualityPRE),
                ],
            ),
            TokenType::T_ROp_NE => Some(
                seq![
                    Symbol::Terminal(TokenType::T_ROp_NE),
                    Symbol::NonTerminal(NonTerminal::Relational),
                    Symbol::NonTerminal(NonTerminal::EqualityPRE),
                ],
            ),
            TokenType::T_Semicolon | TokenType::T_RP | TokenType::T_Int | TokenType::T_Bool
                | TokenType::T_Char | TokenType::T_Comma | TokenType::T_RC | TokenType::T_If
                | TokenType::T_For | TokenType::T_Print | TokenType::T_Return
                | TokenType::T_Break | TokenType::T_Continue | TokenType::T_LOp_OR
                | TokenType::T_LOp_AND | TokenType::T_Id | TokenType::End => Some(Seq::empty()),
            _ => None,
        },
        NonTerminal::Relational => if starts_expression(lookahead) {
            Some(
                seq![
                    Symbol::NonTerminal(NonTerminal::Additive),
                    Symbol::NonTerminal(NonTerminal::RelationalPRE),
                ],
            )
        } else {
            None
        },
        NonTerminal::RelationalPRE => match lookahead {
            TokenType::T_ROp_L => Some(
                seq![
                    Symbol::Terminal(TokenType::T_ROp_L),
                    Symbol::NonTerminal(NonTerminal::Additive),
                    Symbol::NonTerminal(NonTerminal::RelationalPRE),
                ],
            ),
            TokenType::T_ROp_LE => Some(
                seq![
                    Symbol::Terminal(TokenType::T_ROp_LE),
                    Symbol::NonTerminal(NonTerminal::Additive),
                    Symbol::NonTerminal(NonTerminal::RelationalPRE),
                ],
            ),
            TokenType::T_ROp_G => Some(
                seq![
                    Symbol::Terminal(TokenType::T_ROp_G),
                    Symbol::NonTerminal(NonTerminal::Additive),
                    Symbol::NonTerminal(NonTerminal::RelationalPRE),
                ],
            ),
            TokenType::T_ROp_GE => Some(
                seq![
                    Symbol::Terminal(TokenType::T_ROp_GE),
                    Symbol::NonTerminal(NonTerminal::Additive),
                    Symbol::NonTerminal(NonTerminal::RelationalPRE),
                ],
            ),
            TokenType::T_Semicolon | TokenType::T_RP | TokenType::T_Int | TokenType::T_Bool
                | TokenType::T_Char | TokenType::T_Comma | TokenType::T_RC | TokenType::T_If
                | TokenType::T_For | TokenType::T_Print | TokenType::T_Return
                | TokenType::T_Break | TokenType::T_Continue | TokenType::T_LOp_OR
                | TokenType::T_LOp_AND | TokenType::T_ROp_E | TokenType::T_ROp_NE
                | TokenType::T_Id | TokenType::End => Some(Seq::empty()),
            _ => None,
        },
        NonTerminal::Additive => if starts_expression(lookahead) {
            Some(
                seq![
                    Symbol::NonTerminal(NonTerminal::Multiplicative),
                    Symbol::NonTerminal(NonTerminal::AdditivePRE),
                ],
            )
        } else {
            None
        },
        NonTerminal::AdditivePRE => match lookahead {
            TokenType::T_AOp_PL => Some(
                seq![
                    Symbol::Terminal(TokenType::T_AOp_PL),
                    Symbol::NonTerminal(NonTerminal::Multiplicative),
                    Symbol::NonTerminal(NonTerminal::AdditivePRE),
                ],
            ),
            TokenType::T_AOp_MN => Some(
                seq![
                    Symbol::Terminal(TokenType::T_AOp_MN),
                    Symbol::NonTerminal(NonTerminal::Multiplicative),
                    Symbol::NonTerminal(NonTerminal::AdditivePRE),
                ],
            ),
            TokenType::T_Semicolon | TokenType::T_RP | TokenType::T_Int | TokenType::T_Bool
                | TokenType::T_Char | TokenType::T_Comma | TokenType::T_RC | TokenType::T_If
                | TokenType::T_For | TokenType::T_Print | TokenType::T_Return
                | TokenType::T_Break | TokenType::T_Continue | TokenType::T_LOp_OR
                | TokenType::T_LOp_AND | TokenType::T_ROp_E | TokenType::T_ROp_NE
                | TokenType::T_ROp_L | TokenType::T_ROp_LE | TokenType::T_ROp_G
                | TokenType::T_ROp_GE | TokenType::T_Id | TokenType::End => Some(Seq::empty()),
            _ => None,
        },
        NonTerminal::Multiplicative => if starts_expression(lookahead) {
            Some(
                seq![
                    Symbol::NonTerminal(NonTerminal::Unary),
                    Symbol::NonTerminal(NonTerminal::MultiplicativePRE),
                ],
            )
        } else {
            None
        },
        NonTerminal::MultiplicativePRE => match lookahead {
            TokenType::T_AOp_ML => Some(
                seq![
                    Symbol::Terminal(TokenType::T_AOp_ML),
                    Symbol::NonTerminal(NonTerminal::Unary),
                    Symbol::NonTerminal(NonTerminal::MultiplicativePRE),
                ],
            ),
            TokenType::T_AOp_DV => Some(
                seq![
                    Symbol::Terminal(TokenType::T_AOp_DV),
                    Symbol::NonTerminal(NonTerminal::Unary),
                    Symbol::NonTerminal(NonTerminal::MultiplicativePRE),
                ],
            ),
            TokenType::T_AOp_RM => Some(
                seq![
                    Symbol::Terminal(TokenType::T_AOp_RM),
                    Symbol::NonTerminal(NonTerminal::Unary),
                    Symbol::NonTerminal(NonTerminal::MultiplicativePRE),
                ],
            ),
            TokenType::T_Semicolon | TokenType::T_RP | TokenType::T_Int | TokenType::T_Bool
                | TokenType::T_Char | TokenType::T_Comma | TokenType::T_RC | TokenType::T_If
                | TokenType::T_For | TokenType::T_Print | TokenType::T_Return
                | TokenType::T_Break | TokenType::T_Continue | TokenType::T_LOp_OR
                | TokenType::T_LOp_AND | TokenType::T_ROp_E | TokenType::T_ROp_NE
                | TokenType::T_ROp_L | TokenType::T_ROp_LE | TokenType::T_ROp_G
                | TokenType::T_ROp_GE | TokenType::T_AOp_PL | TokenType::T_AOp_MN
                | TokenType::T_Id | TokenType::End => Some(Seq::empty()),
            _ => None,
        },
        NonTerminal::Unary => match lookahead {
            TokenType::T_LOp_NOT => Some(
                seq![
                    Symbol::Terminal(TokenType::T_LOp_NOT),
                    Symbol::NonTerminal(NonTerminal::Unary),
                ],
            ),
            TokenType::T_LP | TokenType::T_Id | TokenType::T_Decimal | TokenType::T_True
                | TokenType::T_False | TokenType::T_Character | TokenType::T_String => Some(
                seq![Symbol::NonTerminal(NonTerminal::Primary)],
            ),
            _ => None,
        },
        NonTerminal::Primary => match lookahead {
            TokenType::T_LP => Some(
                seq![
                    Symbol::Terminal(TokenType::T_LP),
                    Symbol::NonTerminal(NonTerminal::Expression),
                    Symbol::Terminal(TokenType::T_RP),
                ],
            ),
            TokenType::T_Id => Some(seq![Symbol::NonTerminal(NonTerminal::Identifier)]),
            TokenType::T_Decimal => Some(seq![Symbol::NonTerminal(NonTerminal::IntegerLiteral)]),
            TokenType::T_True | TokenType::T_False => Some(
                seq![Symbol::NonTerminal(NonTerminal::BooleanLiteral)],
            ),
            TokenType::T_Character => Some(
                seq![Symbol::NonTerminal(NonTerminal::CharacterLiteral)],
            ),
            TokenType::T_String => Some(seq![Symbol::NonTerminal(NonTerminal::StringLiteral)]),
            _ => None,
        },
        NonTerminal::Identifier => match lookahead {
            TokenType::T_Id => Some(seq![Symbol::Terminal(TokenType::T_Id)]),
            _ => None,
        },
        NonTerminal::IntegerLiteral => match lookahead {
            TokenType::T_Decimal => Some(seq![Symbol::Terminal(TokenType::T_Decimal)]),
            _ => None,
        },
        NonTerminal::BooleanLiteral => match lookahead {
            TokenType::T_True => Some(seq![Symbol::Terminal(TokenType::T_True)]),
            TokenType::T_False => Some(seq![Symbol::Terminal(TokenType::T_False)]),
            _ => None,
        },
        NonTerminal::CharacterLiteral => match lookahead {
            TokenType::T_Character => Some(seq![Symbol::Terminal(TokenType::T_Character)]),
            _ => None,
        },
        NonTerminal::StringLiteral => match lookahead {
            TokenType::T_String => Some(seq![Symbol::Terminal(TokenType::T_String)]),
            _ => None,
        },
    }
}

/// The grammar table. Built once by [`add_rules`], read-only afterward; a
/// single table may serve any number of independent parses. The registered
/// rules are a fixed artifact of the language, so the table carries no
/// mutable state: its entire input/output contract is [`grammar_rule`].
pub struct GrammarTable {
    pub rules_registered: bool,
}

/// Builds the grammar table for the language: exactly one production per
/// (non-terminal, terminal-in-its-FIRST/FOLLOW) pair, as registered by
/// [`grammar_rule`].
pub fn add_rules() -> (t: GrammarTable)
    ensures
        t.wf(),
{
    GrammarTable { rules_registered: true }
}

impl GrammarTable {
    /// A table is well formed once its rules have been registered. This
    /// only records that [`add_rules`] built the value: the rules are a
    /// fixed artifact, so [`GrammarTable::get`]'s contract holds of every
    /// table and nothing more is needed of this predicate.
    pub open spec fn wf(&self) -> bool {
        self.rules_registered
    }

    /// Looks up the production for `(nt, lookahead)`; returns exactly what
    /// [`grammar_rule`] registers for the pair, or `None` when the pair has
    /// no rule.
    pub fn get(&self, nt: NonTerminal, lookahead: TokenType) -> (r: Option<Vec<Symbol>>)
        ensures
            match r {
                Some(p) => grammar_rule(nt, lookahead) == Some(p@),
                None => grammar_rule(nt, lookahead) is None,
            },
    {
        match nt {
            NonTerminal::Program => match lookahead {
                TokenType::T_Int | TokenType::T_Bool | TokenType::T_Char | TokenType::End => Some(
                    vec![Symbol::NonTerminal(NonTerminal::Declarations)],
                ),
                _ => None,
            },
            NonTerminal::Declarations => match lookahead {
                TokenType::T_Int | TokenType::T_Bool | TokenType::T_Char => Some(
                    vec![
                        Symbol::NonTerminal(NonTerminal::Declaration),
                        Symbol::NonTerminal(NonTerminal::Declarations),
                    ],
                ),
                TokenType::End => Some(Vec::new()),
                _ => None,
            },
            NonTerminal::Declaration => match lookahead {
                TokenType::T_Int | TokenType::T_Bool | TokenType::T_Char => Some(
                    vec![
                        Symbol::NonTerminal(NonTerminal::Type),
                        Symbol::NonTerminal(NonTerminal::VarOrFunc),
                    ],
                ),
                _ => None,
            },
            NonTerminal::VarOrFunc => match lookahead {
                TokenType::T_Id => Some(
                    vec![
                        Symbol::NonTerminal(NonTerminal::Identifier),
                        Symbol::NonTerminal(NonTerminal::VarOrFuncRest),
                    ],
                ),
                _ => None,
            },
            NonTerminal::VarOrFuncRest => match lookahead {
                TokenType::T_LP => Some(vec![Symbol::NonTerminal(NonTerminal::FunctionRest)]),
                TokenType::T_Semicolon | TokenType::T_Int | TokenType::T_Bool | TokenType::T_Char
                    | TokenType::T_Comma | TokenType::T_Assign | TokenType::T_LB
                    | TokenType::T_RC | TokenType::T_If | TokenType::T_For | TokenType::T_Print
                    | TokenType::T_Return | TokenType::T_Break | TokenType::T_Continue
                    | TokenType::T_Id | TokenType::End => Some(
                    vec![Symbol::NonTerminal(NonTerminal::VarDeclRest)],
                ),
                _ => None,
            },
            NonTerminal::VarDeclRest => match lookahead {
                TokenType::T_Semicolon | TokenType::T_Int | TokenType::T_Bool | TokenType::T_Char
                    | TokenType::T_Comma | TokenType::T_Assign | TokenType::T_LB
                    | TokenType::T_RC | TokenType::T_If | TokenType::T_For | TokenType::T_Print
                    | TokenType::T_Return | TokenType::T_Break | TokenType::T_Continue
                    | TokenType::T_Id | TokenType::End => Some(
                    vec![
                        Symbol::NonTerminal(NonTerminal::Initialization),
                        Symbol::NonTerminal(NonTerminal::MoreIdentifiers),
                        Symbol::Terminal(TokenType::T_Semicolon),
                    ],
                ),
                _ => None,
            },
            NonTerminal::FunctionRest => match lookahead {
                TokenType::T_LP => Some(
                    vec![
                        Symbol::Terminal(TokenType::T_LP),
                        Symbol::NonTerminal(NonTerminal::Parameters),
                        Symbol::Terminal(TokenType::T_RP),
                        Symbol::NonTerminal(NonTerminal::Block),
                    ],
                ),
                _ => None,
            },
            NonTerminal::Type => match lookahead {
                TokenType::T_Int => Some(vec![Symbol::Terminal(TokenType::T_Int)]),
                TokenType::T_Bool => Some(vec![Symbol::Terminal(TokenType::T_Bool)]),
                TokenType::T_Char => Some(vec![Symbol::Terminal(TokenType::T_Char)]),
                _ => None,
            },
            NonTerminal::MoreIdentifiers => match lookahead {
                TokenType::T_Semicolon => Some(Vec::new()),
                TokenType::T_Comma => Some(
                    vec![
                        Symbol::Terminal(TokenType::T_Comma),
                        Symbol::NonTerminal(NonTerminal::Identifier),
                        Symbol::NonTerminal(NonTerminal::Initialization),
                        Symbol::NonTerminal(NonTerminal::MoreIdentifiers),
                    ],
                ),
                _ => None,
            },
            NonTerminal::Initialization => match lookahead {
                TokenType::T_Assign => Some(
                    vec![
                        Symbol::Terminal(TokenType::T_Assign),
                        Symbol::NonTerminal(NonTerminal::Expression),
                    ],
                ),
                TokenType::T_LB => Some(
                    vec![
                        Symbol::Terminal(TokenType::T_LB),
                        Symbol::NonTerminal(NonTerminal::IntegerLiteral),
                        Symbol::Terminal(TokenType::T_RB),
                        Symbol::NonTerminal(NonTerminal::Initialization),
                    ],
                ),
                TokenType::T_Semicolon | TokenType::T_Int | TokenType::T_Bool | TokenType::T_Char
                    | TokenType::T_Comma | TokenType::T_RC | TokenType::T_If | TokenType::T_For
                    | TokenType::T_Print | TokenType::T_Return | TokenType::T_Break
                    | TokenType::T_Continue | TokenType::T_Id | TokenType::End => Some(
                    Vec::new(),
                ),
                _ => None,
            },
            NonTerminal::Functions => match lookahead {
                TokenType::T_Int | TokenType::T_Bool | TokenType::T_Char => Some(
                    vec![
                        Symbol::NonTerminal(NonTerminal::Function),
                        Symbol::NonTerminal(NonTerminal::Functions),
                    ],
                ),
                _ => None,
            },
            NonTerminal::Function => match lookahead {
                TokenType::T_Int | TokenType::T_Bool | TokenType::T_Char => Some(
                    vec![
                        Symbol::NonTerminal(NonTerminal::Type),
                        Symbol::NonTerminal(NonTerminal::Identifier),
                        Symbol::NonTerminal(NonTerminal::FunctionRest),
                    ],
                ),
                _ => None,
            },
            NonTerminal::Parameters => match lookahead {
                TokenType::T_RP => Some(Vec::new()),
                TokenType::T_Int | TokenType::T_Bool | TokenType::T_Char => Some(
                    vec![Symbol::NonTerminal(NonTerminal::ParameterList)],
                ),
                _ => None,
            },
            NonTerminal::ParameterList => match lookahead {
                TokenType::T_Int | TokenType::T_Bool | TokenType::T_Char => Some(
                    vec![
                        Symbol::NonTerminal(NonTerminal::Parameter),
                        Symbol::NonTerminal(NonTerminal::MoreParameters),
                    ],
                ),
                _ => None,
            },
            NonTerminal::Parameter => match lookahead {
                TokenType::T_Int | TokenType::T_Bool | TokenType::T_Char => Some(
                    vec![
                        Symbol::NonTerminal(NonTerminal::Type),
                        Symbol::NonTerminal(NonTerminal::Identifier),
                    ],
                ),
                _ => None,
            },
            NonTerminal::MoreParameters => match lookahead {
                TokenType::T_RP => Some(Vec::new()),
                TokenType::T_Comma => Some(
                    vec![
                        Symbol::Terminal(TokenType::T_Comma),
                        Symbol::NonTerminal(NonTerminal::Parameter),
                        Symbol::NonTerminal(NonTerminal::MoreParameters),
                    ],
                ),
                _ => None,
            },
            NonTerminal::Block => match lookahead {
                TokenType::T_LC => Some(
                    vec![
                        Symbol::Terminal(TokenType::T_LC),
                        Symbol::NonTerminal(NonTerminal::Statements),
                        Symbol::Terminal(TokenType::T_RC),
                    ],
                ),
                _ => None,
            },
            NonTerminal::Statements => match lookahead {
                TokenType::T_Int | TokenType::T_Bool | TokenType::T_Char | TokenType::T_If
                    | TokenType::T_For | TokenType::T_Print | TokenType::T_Return
                    | TokenType::T_Break | TokenType::T_Continue | TokenType::T_Id => Some(
                    vec![
                        Symbol::NonTerminal(NonTerminal::Statement),
                        Symbol::NonTerminal(NonTerminal::Statements),
                    ],
                ),
                TokenType::T_RC => Some(Vec::new()),
                _ => None,
            },
            NonTerminal::Statement => match lookahead {
                TokenType::T_Int | TokenType::T_Bool | TokenType::T_Char => Some(
                    vec![Symbol::NonTerminal(NonTerminal::Declaration)],
                ),
                TokenType::T_If => Some(vec![Symbol::NonTerminal(NonTerminal::IfStatement)]),
                TokenType::T_For => Some(vec![Symbol::NonTerminal(NonTerminal::ForStatement)]),
                TokenType::T_Print => Some(
                    vec![
                        Symbol::NonTerminal(NonTerminal::PrintStatement),
                        Symbol::Terminal(TokenType::T_Semicolon),
                    ],
                ),
                TokenType::T_Return => Some(
                    vec![
                        Symbol::NonTerminal(NonTerminal::ReturnStatement),
                        Symbol::Terminal(TokenType::T_Semicolon),
                    ],
                ),
                TokenType::T_Break => Some(
                    vec![
                        Symbol::NonTerminal(NonTerminal::BreakStatement),
                        Symbol::Terminal(TokenType::T_Semicolon),
                    ],
                ),
                TokenType::T_Continue => Some(
                    vec![
                        Symbol::NonTerminal(NonTerminal::ContinueStatement),
                        Symbol::Terminal(TokenType::T_Semicolon),
                    ],
                ),
                TokenType::T_Id => Some(
                    vec![
                        Symbol::NonTerminal(NonTerminal::Assignment),
                        Symbol::Terminal(TokenType::T_Semicolon),
                    ],
                ),
                _ => None,
            },
            NonTerminal::Assignment => match lookahead {
                TokenType::T_Id => Some(
                    vec![
                        Symbol::NonTerminal(NonTerminal::Identifier),
                        Symbol::Terminal(TokenType::T_Assign),
                        Symbol::NonTerminal(NonTerminal::Expression),
                    ],
                ),
                _ => None,
            },
            NonTerminal::IfStatement => match lookahead {
                TokenType::T_If => Some(
                    vec![
                        Symbol::Terminal(TokenType::T_If),
                        Symbol::Terminal(TokenType::T_LP),
                        Symbol::NonTerminal(NonTerminal::Expression),
                        Symbol::Terminal(TokenType::T_RP),
                        Symbol::NonTerminal(NonTerminal::Block),
                        Symbol::NonTerminal(NonTerminal::ElseIfs),
                        Symbol::NonTerminal(NonTerminal::ElseBlock),
                    ],
                ),
                _ => None,
            },
            NonTerminal::ElseIfs => match lookahead {
                TokenType::T_Int | TokenType::T_Bool | TokenType::T_Char | TokenType::T_RC
                    | TokenType::T_If | TokenType::T_Else | TokenType::T_For | TokenType::T_Print
                    | TokenType::T_Return | TokenType::T_Break | TokenType::T_Continue
                    | TokenType::T_Id => Some(Vec::new()),
                _ => None,
            },
            NonTerminal::ElseIf => match lookahead {
                TokenType::T_Else => Some(
                    vec![
                        Symbol::Terminal(TokenType::T_Else),
                        Symbol::Terminal(TokenType::T_If),
                        Symbol::Terminal(TokenType::T_LP),
                        Symbol::NonTerminal(NonTerminal::Expression),
                        Symbol::Terminal(TokenType::T_RP),
                        Symbol::NonTerminal(NonTerminal::Block),
                    ],
                ),
                _ => None,
            },
            NonTerminal::ElseBlock => match lookahead {
                TokenType::T_Else => Some(
                    vec![
                        Symbol::Terminal(TokenType::T_Else),
                        Symbol::NonTerminal(NonTerminal::Block),
                    ],
                ),
                TokenType::T_Int | TokenType::T_Bool | TokenType::T_Char | TokenType::T_RC
                    | TokenType::T_If | TokenType::T_For | TokenType::T_Print
                    | TokenType::T_Return | TokenType::T_Break | TokenType::T_Continue
                    | TokenType::T_Id => Some(Vec::new()),
                _ => None,
            },
            NonTerminal::ForStatement => match lookahead {
                TokenType::T_For => Some(
                    vec![
                        Symbol::Terminal(TokenType::T_For),
                        Symbol::Terminal(TokenType::T_LP),
                        Symbol::NonTerminal(NonTerminal::ForInit),
                        Symbol::Terminal(TokenType::T_Semicolon),
                        Symbol::NonTerminal(NonTerminal::ForCondition),
                        Symbol::Terminal(TokenType::T_Semicolon),
                        Symbol::NonTerminal(NonTerminal::ForUpdate),
                        Symbol::Terminal(TokenType::T_RP),
                        Symbol::NonTerminal(NonTerminal::Block),
                    ],
                ),
                _ => None,
            },
            NonTerminal::ForInit => match lookahead {
                TokenType::T_Semicolon => Some(Vec::new()),
                TokenType::T_Int | TokenType::T_Bool | TokenType::T_Char => Some(
                    vec![Symbol::NonTerminal(NonTerminal::Declaration)],
                ),
                TokenType::T_Id => Some(vec![Symbol::NonTerminal(NonTerminal::Assignment)]),
                _ => None,
            },
            NonTerminal::ForCondition => match lookahead {
                TokenType::T_Semicolon => Some(Vec::new()),
                TokenType::T_LP | TokenType::T_LOp_NOT | TokenType::T_Id | TokenType::T_Decimal
                    | TokenType::T_True | TokenType::T_False | TokenType::T_Character
                    | TokenType::T_String => Some(
                    vec![Symbol::NonTerminal(NonTerminal::Expression)],
                ),
                _ => None,
            },
            NonTerminal::ForUpdate => match lookahead {
                TokenType::T_RP => Some(Vec::new()),
                TokenType::T_Id => Some(vec![Symbol::NonTerminal(NonTerminal::Assignment)]),
                _ => None,
            },
            NonTerminal::PrintStatement => match lookahead {
                TokenType::T_Print => Some(
                    vec![
                        Symbol::Terminal(TokenType::T_Print),
                        Symbol::Terminal(TokenType::T_LP),
                        Symbol::NonTerminal(NonTerminal::PrintArguments),
                        Symbol::Terminal(TokenType::T_RP),
                    ],
                ),
                _ => None,
            },
            NonTerminal::PrintArguments => match lookahead {
                TokenType::T_String => Some(
                    vec![
                        Symbol::NonTerminal(NonTerminal::StringLiteral),
                        Symbol::NonTerminal(NonTerminal::MorePrintArguments),
                    ],
                ),
                _ => None,
            },
            NonTerminal::MorePrintArguments => match lookahead {
                TokenType::T_RP => Some(Vec::new()),
                TokenType::T_Comma => Some(
                    vec![
                        Symbol::Terminal(TokenType::T_Comma),
                        Symbol::NonTerminal(NonTerminal::Expression),
                        Symbol::NonTerminal(NonTerminal::MorePrintArguments),
                    ],
                ),
                _ => None,
            },
            NonTerminal::ReturnStatement => match lookahead {
                TokenType::T_Return => Some(
                    vec![
                        Symbol::Terminal(TokenType::T_Return),
                        Symbol::NonTerminal(NonTerminal::Expression),
                    ],
                ),
                _ => None,
            },
            NonTerminal::BreakStatement => match lookahead {
                TokenType::T_Break => Some(vec![Symbol::Terminal(TokenType::T_Break)]),
                _ => None,
            },
            NonTerminal::ContinueStatement => match lookahead {
                TokenType::T_Continue => Some(vec![Symbol::Terminal(TokenType::T_Continue)]),
                _ => None,
            },
            NonTerminal::Expression => match lookahead {
                TokenType::T_LP | TokenType::T_LOp_NOT | TokenType::T_Id | TokenType::T_Decimal
                    | TokenType::T_True | TokenType::T_False | TokenType::T_Character
                    | TokenType::T_String => Some(
                    vec![Symbol::NonTerminal(NonTerminal::LogicalOr)],
                ),
                _ => None,
            },
            NonTerminal::LogicalOr => match lookahead {
                TokenType::T_LP | TokenType::T_LOp_NOT | TokenType::T_Id | TokenType::T_Decimal
                    | TokenType::T_True | TokenType::T_False | TokenType::T_Character
                    | TokenType::T_String => Some(
                    vec![
                        Symbol::NonTerminal(NonTerminal::LogicalAnd),
                        Symbol::NonTerminal(NonTerminal::LogicalOrPRE),
                    ],
                ),
                _ => None,
            },
            NonTerminal::LogicalOrPRE => match lookahead {
                TokenType::T_LOp_OR => Some(
                    vec![
                        Symbol::Terminal(TokenType::T_LOp_OR),
                        Symbol::NonTerminal(NonTerminal::LogicalAnd),
                        Symbol::NonTerminal(NonTerminal::LogicalOrPRE),
                    ],
                ),
                TokenType::T_Semicolon | TokenType::T_RP | TokenType::T_Int | TokenType::T_Bool
                    | TokenType::T_Char | TokenType::T_Comma | TokenType::T_RC | TokenType::T_If
                    | TokenType::T_For | TokenType::T_Print | TokenType::T_Return
                    | TokenType::T_Break | TokenType::T_Continue | TokenType::T_Id
                    | TokenType::End => Some(Vec::new()),
                _ => None,
            },
            NonTerminal::LogicalAnd => match lookahead {
                TokenType::T_LP | TokenType::T_LOp_NOT | TokenType::T_Id | TokenType::T_Decimal
                    | TokenType::T_True | TokenType::T_False | TokenType::T_Character
                    | TokenType::T_String => Some(
                    vec![
                        Symbol::NonTerminal(NonTerminal::Equality),
                        Symbol::NonTerminal(NonTerminal::LogicalAndPRE),
                    ],
                ),
                _ => None,
            },
            NonTerminal::LogicalAndPRE => match lookahead {
                TokenType::T_LOp_AND => Some(
                    vec![
                        Symbol::Terminal(TokenType::T_LOp_AND),
                        Symbol::NonTerminal(NonTerminal::Equality),
                        Symbol::NonTerminal(NonTerminal::LogicalAndPRE),
                    ],
                ),
                TokenType::T_Semicolon | TokenType::T_RP | TokenType::T_Int | TokenType::T_Bool
                    | TokenType::T_Char | TokenType::T_Comma | TokenType::T_RC | TokenType::T_If
                    | TokenType::T_For | TokenType::T_Print | TokenType::T_Return
                    | TokenType::T_Break | TokenType::T_Continue | TokenType::T_LOp_OR
                    | TokenType::T_Id | TokenType::End => Some(Vec::new()),
                _ => None,
            },
            NonTerminal::Equality => match lookahead {
                TokenType::T_LP | TokenType::T_LOp_NOT | TokenType::T_Id | TokenType::T_Decimal
                    | TokenType::T_True | TokenType::T_False | TokenType::T_Character
                    | TokenType::T_String => Some(
                    vec![
                        Symbol::NonTerminal(NonTerminal::Relational),
                        Symbol::NonTerminal(NonTerminal::EqualityPRE),
                    ],
                ),
                _ => None,
            },
            NonTerminal::EqualityPRE => match lookahead {
                TokenType::T_ROp_E => Some(
                    vec![
                        Symbol::Terminal(TokenType::T_ROp_E),
                        Symbol::NonTerminal(NonTerminal::Relational),
                        Symbol::NonTerminal(NonTerminal::EqualityPRE),
                    ],
                ),
                TokenType::T_ROp_NE => Some(
                    vec![
                        Symbol::Terminal(TokenType::T_ROp_NE),
                        Symbol::NonTerminal(NonTerminal::Relational),
                        Symbol::NonTerminal(NonTerminal::EqualityPRE),
                    ],
                ),
                TokenType::T_Semicolon | TokenType::T_RP | TokenType::T_Int | TokenType::T_Bool
                    | TokenType::T_Char | TokenType::T_Comma | TokenType::T_RC | TokenType::T_If
                    | TokenType::T_For | TokenType::T_Print | TokenType::T_Return
                    | TokenType::T_Break | TokenType::T_Continue | TokenType::T_LOp_OR
                    | TokenType::T_LOp_AND | TokenType::T_Id | TokenType::End => Some(Vec::new()),
                _ => None,
            },
            NonTerminal::Relational => match lookahead {
                TokenType::T_LP | TokenType::T_LOp_NOT | TokenType::T_Id | TokenType::T_Decimal
                    | TokenType::T_True | TokenType::T_False | TokenType::T_Character
                    | TokenType::T_String => Some(
                    vec![
                        Symbol::NonTerminal(NonTerminal::Additive),
                        Symbol::NonTerminal(NonTerminal::RelationalPRE),
                    ],
                ),
                _ => None,
            },
            NonTerminal::RelationalPRE => match lookahead {
                TokenType::T_ROp_L => Some(
                    vec![
                        Symbol::Terminal(TokenType::T_ROp_L),
                        Symbol::NonTerminal(NonTerminal::Additive),
                        Symbol::NonTerminal(NonTerminal::RelationalPRE),
                    ],
                ),
                TokenType::T_ROp_LE => Some(
                    vec![
                        Symbol::Terminal(TokenType::T_ROp_LE),
                        Symbol::NonTerminal(NonTerminal::Additive),
                        Symbol::NonTerminal(NonTerminal::RelationalPRE),
                    ],
                ),
                TokenType::T_ROp_G => Some(
                    vec![
                        Symbol::Terminal(TokenType::T_ROp_G),
                        Symbol::NonTerminal(NonTerminal::Additive),
                        Symbol::NonTerminal(NonTerminal::RelationalPRE),
                    ],
                ),
                TokenType::T_ROp_GE => Some(
                    vec![
                        Symbol::Terminal(TokenType::T_ROp_GE),
                        Symbol::NonTerminal(NonTerminal::Additive),
                        Symbol::NonTerminal(NonTerminal::RelationalPRE),
                    ],
                ),
                TokenType::T_Semicolon | TokenType::T_RP | TokenType::T_Int | TokenType::T_Bool
                    | TokenType::T_Char | TokenType::T_Comma | TokenType::T_RC | TokenType::T_If
                    | TokenType::T_For | TokenType::T_Print | TokenType::T_Return
                    | TokenType::T_Break | TokenType::T_Continue | TokenType::T_LOp_OR
                    | TokenType::T_LOp_AND | TokenType::T_ROp_E | TokenType::T_ROp_NE
                    | TokenType::T_Id | TokenType::End => Some(Vec::new()),
                _ => None,
            },
            NonTerminal::Additive => match lookahead {
                TokenType::T_LP | TokenType::T_LOp_NOT | TokenType::T_Id | TokenType::T_Decimal
                    | TokenType::T_True | TokenType::T_False | TokenType::T_Character
                    | TokenType::T_String => Some(
                    vec![
                        Symbol::NonTerminal(NonTerminal::Multiplicative),
                        Symbol::NonTerminal(NonTerminal::AdditivePRE),
                    ],
                ),
                _ => None,
            },
            NonTerminal::AdditivePRE => match lookahead {
                TokenType::T_AOp_PL => Some(
                    vec![
                        Symbol::Terminal(TokenType::T_AOp_PL),
                        Symbol::NonTerminal(NonTerminal::Multiplicative),
                        Symbol::NonTerminal(NonTerminal::AdditivePRE),
                    ],
                ),
                TokenType::T_AOp_MN => Some(
                    vec![
                        Symbol::Terminal(TokenType::T_AOp_MN),
                        Symbol::NonTerminal(NonTerminal::Multiplicative),
                        Symbol::NonTerminal(NonTerminal::AdditivePRE),
                    ],
                ),
                TokenType::T_Semicolon | TokenType::T_RP | TokenType::T_Int | TokenType::T_Bool
                    | TokenType::T_Char | TokenType::T_Comma | TokenType::T_RC | TokenType::T_If
                    | TokenType::T_For | TokenType::T_Print | TokenType::T_Return
                    | TokenType::T_Break | TokenType::T_Continue | TokenType::T_LOp_OR
                    | TokenType::T_LOp_AND | TokenType::T_ROp_E | TokenType::T_ROp_NE
                    | TokenType::T_ROp_L | TokenType::T_ROp_LE | TokenType::T_ROp_G
                    | TokenType::T_ROp_GE | TokenType::T_Id | TokenType::End => Some(Vec::new()),
                _ => None,
            },
            NonTerminal::Multiplicative => match lookahead {
                TokenType::T_LP | TokenType::T_LOp_NOT | TokenType::T_Id | TokenType::T_Decimal
                    | TokenType::T_True | TokenType::T_False | TokenType::T_Character
                    | TokenType::T_String => Some(
                    vec![
                        Symbol::NonTerminal(NonTerminal::Unary),
                        Symbol::NonTerminal(NonTerminal::MultiplicativePRE),
                    ],
                ),
                _ => None,
            },
            NonTerminal::MultiplicativePRE => match lookahead {
                TokenType::T_AOp_ML => Some(
                    vec![
                        Symbol::Terminal(TokenType::T_AOp_ML),
                        Symbol::NonTerminal(NonTerminal::Unary),
                        Symbol::NonTerminal(NonTerminal::MultiplicativePRE),
                    ],
                ),
                TokenType::T_AOp_DV => Some(
                    vec![
                        Symbol::Terminal(TokenType::T_AOp_DV),
                        Symbol::NonTerminal(NonTerminal::Unary),
                        Symbol::NonTerminal(NonTerminal::MultiplicativePRE),
                    ],
                ),
                TokenType::T_AOp_RM => Some(
                    vec![
                        Symbol::Terminal(TokenType::T_AOp_RM),
                        Symbol::NonTerminal(NonTerminal::Unary),
                        Symbol::NonTerminal(NonTerminal::MultiplicativePRE),
                    ],
                ),
                TokenType::T_Semicolon | TokenType::T_RP | TokenType::T_Int | TokenType::T_Bool
                    | TokenType::T_Char | TokenType::T_Comma | TokenType::T_RC | TokenType::T_If
                    | TokenType::T_For | TokenType::T_Print | TokenType::T_Return
                    | TokenType::T_Break | TokenType::T_Continue | TokenType::T_LOp_OR
                    | TokenType::T_LOp_AND | TokenType::T_ROp_E | TokenType::T_ROp_NE
                    | TokenType::T_ROp_L | TokenType::T_ROp_LE | TokenType::T_ROp_G
                    | TokenType::T_ROp_GE | TokenType::T_AOp_PL | TokenType::T_AOp_MN
                    | TokenType::T_Id | TokenType::End => Some(Vec::new()),
                _ => None,
            },
            NonTerminal::Unary => match lookahead {
                TokenType::T_LOp_NOT => Some(
                    vec![
                        Symbol::Terminal(TokenType::T_LOp_NOT),
                        Symbol::NonTerminal(NonTerminal::Unary),
                    ],
                ),
                TokenType::T_LP | TokenType::T_Id | TokenType::T_Decimal | TokenType::T_True
                    | TokenType::T_False | TokenType::T_Character | TokenType::T_String => Some(
                    vec![Symbol::NonTerminal(NonTerminal::Primary)],
                ),
                _ => None,
            },
            NonTerminal::Primary => match lookahead {
                TokenType::T_LP => Some(
                    vec![
                        Symbol::Terminal(TokenType::T_LP),
                        Symbol::NonTerminal(NonTerminal::Expression),
                        Symbol::Terminal(TokenType::T_RP),
                    ],
                ),
                TokenType::T_Id => Some(vec![Symbol::NonTerminal(NonTerminal::Identifier)]),
                TokenType::T_Decimal => Some(
                    vec![Symbol::NonTerminal(NonTerminal::IntegerLiteral)],
                ),
                TokenType::T_True | TokenType::T_False => Some(
                    vec![Symbol::NonTerminal(NonTerminal::BooleanLiteral)],
                ),
                TokenType::T_Character => Some(
                    vec![Symbol::NonTerminal(NonTerminal::CharacterLiteral)],
                ),
                TokenType::T_String => Some(vec![Symbol::NonTerminal(NonTerminal::StringLiteral)]),
                _ => None,
            },
            NonTerminal::Identifier => match lookahead {
                TokenType::T_Id => Some(vec![Symbol::Terminal(TokenType::T_Id)]),
                _ => None,
            },
            NonTerminal::IntegerLiteral => match lookahead {
                TokenType::T_Decimal => Some(vec![Symbol::Terminal(TokenType::T_Decimal)]),
                _ => None,
            },
            NonTerminal::BooleanLiteral => match lookahead {
                TokenType::T_True => Some(vec![Symbol::Terminal(TokenType::T_True)]),
                TokenType::T_False => Some(vec![Symbol::Terminal(TokenType::T_False)]),
                _ => None,
            },
            NonTerminal::CharacterLiteral => match lookahead {
                TokenType::T_Character => Some(vec![Symbol::Terminal(TokenType::T_Character)]),
                _ => None,
            },
            NonTerminal::StringLiteral => match lookahead {
                TokenType::T_String => Some(vec![Symbol::Terminal(TokenType::T_String)]),
                _ => None,
            },
        }
    }
}

} // verus!
