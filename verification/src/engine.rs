//! The table-driven LL(1) parse engine.
//!
//! The engine drives a derivation stack against the grammar table while
//! consuming a forward-only token cursor and building a parse tree in
//! lock-step: an "open node" stack always has the same length as the
//! derivation stack, and the node at each depth is the tree node awaiting
//! the symbol at the same depth. On a syntax error the engine records a
//! diagnostic and resynchronizes with panic-mode recovery instead of
//! aborting, so one error does not hide later, independent errors.
//!
//! The whole algorithm is stated as a small-step machine over
//! [`EngineState`]: [`step`] is one iteration of the driver loop, [`run`]
//! iterates it, and [`Parser::parse`] is proved to return exactly the
//! machine's final state. Nodes popped during recovery remain in the tree as
//! childless placeholders; results outside the error region are unaffected.

use vstd::prelude::*;

use crate::grammar::{grammar_rule, GrammarTable, NonTerminal, Symbol, add_rules};
use crate::measure::{
    lemma_nonsync_production, lemma_program_not_in_rhs, lemma_seg_within, lemma_sync_production,
    lemma_total_concat, lemma_total_drop_last, lemma_total_reverse, seg_bound_from, seg_weight,
    total_weight, vanishes,
};
use crate::token::{Token, TokenModel, TokenType};
use crate::tree::{fresh_node, model_append, nodes_wf, NodeModel, ParseTree};

verus! {

/// The kind of a recoverable syntax error.
#[derive(Clone, Copy, Debug, PartialEq, Eq, Structural)]
pub enum DiagnosticKind {
    /// The table has no production for this non-terminal under this
    /// lookahead token.
    MissingRule { nonterminal: NonTerminal, found: TokenType },
    /// The expected terminal does not match the lookahead token.
    MismatchedTerminal { expected: TokenType, found: TokenType },
}

/// One recoverable syntax error: what was expected against what was found,
/// and the position of the offending token.
#[derive(Clone, Copy, Debug, PartialEq, Eq, Structural)]
pub struct Diagnostic {
    pub kind: DiagnosticKind,
    pub line: usize,
    pub column: usize,
}

/// A fatal parse outcome. Only the two end-of-input conditions are fatal;
/// every grammar-driven error is recovered from and reported as a
/// [`Diagnostic`] instead.
#[derive(Clone, Copy, Debug, PartialEq, Eq, Structural)]
pub enum ParseError {
    /// The token source was exhausted while symbols remained to be matched.
    UnexpectedEndOfInput,
    /// The derivation stack emptied but the remaining input is not exactly
    /// the end-of-input sentinel.
    InputNotFullyConsumed,
}

impl ParseError {
    /// A short description of the error.
    pub fn message(&self) -> (m: String)
        ensures
            self is UnexpectedEndOfInput ==> m@ == "Unexpected end of input"@,
            self is InputNotFullyConsumed ==> m@ == "Input not fully consumed"@,
    {
        match self {
            ParseError::UnexpectedEndOfInput => "Unexpected end of input".to_owned(),
            ParseError::InputNotFullyConsumed => "Input not fully consumed".to_owned(),
        }
    }
}

/// Whether the machine is still running or has reached a terminal state.
pub enum Status {
    /// Symbols remain to be processed.
    Running,
    /// The parse succeeded: the stack emptied with exactly the end-of-input
    /// sentinel remaining.
    Accepted,
    /// Fatal: the input was exhausted while symbols remained.
    UnexpectedEnd,
    /// Fatal: the stack emptied but the remaining input is not exactly the
    /// end-of-input sentinel.
    NotConsumed,
}

/// The full state of the parse machine: the derivation stack, the open-node
/// stack (node indices awaiting their children), the tree arena built so
/// far, the input cursor, the accumulated diagnostics, and the status.
#[verifier::ext_equal]
pub ghost struct EngineState {
    pub stack: Seq<Symbol>,
    pub open: Seq<int>,
    pub nodes: Seq<NodeModel>,
    pub pos: int,
    pub diags: Seq<Diagnostic>,
    pub status: Status,
}

/// The synchronization terminals of panic-mode recovery: the statement
/// separator and the closing parenthesis.
pub open spec fn is_sync(t: TokenType) -> bool {
    t == TokenType::T_Semicolon || t == TokenType::T_RP
}

/// Recovery, stack phase: symbols are discarded from the top of the
/// derivation stack until a synchronization terminal has been discarded or
/// the stack empties; the open-node stack is discarded at the same indices,
/// keeping the two stacks in lock-step.
pub open spec fn recover_stacks(stack: Seq<Symbol>, open: Seq<int>) -> (Seq<Symbol>, Seq<int>)
    decreases stack.len(),
{
    if stack.len() == 0 {
        (stack, open)
    } else {
        let top = stack.last();
        let stack2 = stack.drop_last();
        let open2 = open.drop_last();
        match top {
            Symbol::Terminal(t) => if is_sync(t) {
                (stack2, open2)
            } else {
                recover_stacks(stack2, open2)
            },
            Symbol::NonTerminal(_) => recover_stacks(stack2, open2),
        }
    }
}

/// Recovery, input phase: tokens are discarded until one whose kind is a
/// synchronization terminal is reached (left in place, not consumed), or the
/// input is exhausted.
pub open spec fn recover_input(tokens: Seq<TokenModel>, pos: int) -> int
    decreases tokens.len() - pos,
{
    if pos < 0 || pos >= tokens.len() {
        pos
    } else if is_sync(tokens[pos].token) {
        pos
    } else {
        recover_input(tokens, pos + 1)
    }
}

/// The child indices assigned to `n` nodes appended starting at `base`.
pub open spec fn child_indices(base: int, n: nat) -> Seq<int> {
    Seq::new(n, |i: int| base + i)
}

/// The arena after expanding the open node `parent` with production `prod`:
/// one fresh node per production symbol, appended in forward order, each
/// recorded as a child of `parent`.
pub open spec fn expand_nodes(nodes: Seq<NodeModel>, parent: int, prod: Seq<Symbol>) -> Seq<
    NodeModel,
> {
    Seq::new(
        nodes.len() + prod.len(),
        |i: int|
            if i == parent {
                NodeModel {
                    children: nodes[parent].children + child_indices(nodes.len() as int, prod.len()),
                    ..nodes[parent]
                }
            } else if i < nodes.len() {
                nodes[i]
            } else {
                fresh_node(prod[i - nodes.len()])
            },
    )
}

/// One error step: record the diagnostic, then resynchronize both stacks
/// and the input cursor.
pub open spec fn error_step(tokens: Seq<TokenModel>, popped: EngineState, d: Diagnostic) -> EngineState {
    let (stack2, open2) = recover_stacks(popped.stack, popped.open);
    EngineState {
        stack: stack2,
        open: open2,
        pos: recover_input(tokens, popped.pos),
        diags: popped.diags.push(d),
        ..popped
    }
}

/// One step of the parse machine, driven by the top of the derivation
/// stack. A terminal state is a fixed point.
pub open spec fn step(tokens: Seq<TokenModel>, s: EngineState) -> EngineState {
    if !(s.status is Running) {
        s
    } else if s.stack.len() == 0 {
        if s.pos + 1 == tokens.len() && 0 <= s.pos && tokens[s.pos].token == TokenType::End {
            EngineState { status: Status::Accepted, ..s }
        } else {
            EngineState { status: Status::NotConsumed, ..s }
        }
    } else if s.pos >= tokens.len() {
        EngineState { status: Status::UnexpectedEnd, ..s }
    } else {
        let sym = s.stack.last();
        let node = s.open.last();
        let popped = EngineState { stack: s.stack.drop_last(), open: s.open.drop_last(), ..s };
        let tok = tokens[s.pos];
        match sym {
            Symbol::NonTerminal(nt) => match grammar_rule(nt, tok.token) {
                Some(prod) => if prod.len() == 0 {
                    popped
                } else {
                    EngineState {
                        stack: popped.stack + prod.reverse(),
                        open: popped.open + child_indices(s.nodes.len() as int, prod.len()).reverse(),
                        nodes: expand_nodes(s.nodes, node, prod),
                        ..popped
                    }
                },
                None => error_step(
                    tokens,
                    popped,
                    Diagnostic {
                        kind: DiagnosticKind::MissingRule { nonterminal: nt, found: tok.token },
                        line: tok.line,
                        column: tok.column,
                    },
                ),
            },
            Symbol::Terminal(t) => if tok.token == t {
                EngineState {
                    nodes: s.nodes.update(
                        node,
                        NodeModel { literal: Some(tok.literal), ..s.nodes[node] },
                    ),
                    pos: s.pos + 1,
                    ..popped
                }
            } else {
                error_step(
                    tokens,
                    popped,
                    Diagnostic {
                        kind: DiagnosticKind::MismatchedTerminal { expected: t, found: tok.token },
                        line: tok.line,
                        column: tok.column,
                    },
                )
            },
        }
    }
}

/// The machine's start state: the derivation stack holds the start symbol,
/// the tree holds the matching root, and the cursor is at the first token.
pub open spec fn init_state() -> EngineState {
    EngineState {
        stack: seq![Symbol::NonTerminal(NonTerminal::Program)],
        open: seq![0int],
        nodes: seq![fresh_node(Symbol::NonTerminal(NonTerminal::Program))],
        pos: 0,
        diags: Seq::empty(),
        status: Status::Running,
    }
}

/// The machine's state after `n` steps on `tokens`.
pub open spec fn run(tokens: Seq<TokenModel>, n: nat) -> EngineState
    decreases n,
{
    if n == 0 {
        init_state()
    } else {
        step(tokens, run(tokens, (n - 1) as nat))
    }
}

/// True when the machine reaches a terminal state on `tokens`.
pub open spec fn terminates(tokens: Seq<TokenModel>) -> bool {
    exists|n: nat| !(run(tokens, n).status is Running)
}

/// The machine's terminal state on `tokens`, provided one is reached.
pub open spec fn final_state(tokens: Seq<TokenModel>) -> EngineState {
    run(tokens, choose|n: nat| !(run(tokens, n).status is Running))
}

/// A terminal state is a fixed point: once reached, every later step count
/// yields the same state.
pub proof fn lemma_final_stable(tokens: Seq<TokenModel>, n: nat, m: nat)
    requires
        n <= m,
        !(run(tokens, n).status is Running),
    ensures
        run(tokens, m) == run(tokens, n),
    decreases m,
{
    if m > n {
        lemma_final_stable(tokens, n, (m - 1) as nat);
    }
}

/// If the machine is terminal after `n` steps, that state is the machine's
/// one terminal state.
pub proof fn lemma_final_state_is(tokens: Seq<TokenModel>, n: nat)
    requires
        !(run(tokens, n).status is Running),
    ensures
        terminates(tokens),
        final_state(tokens) == run(tokens, n),
{
    assert(terminates(tokens));
    let n0 = choose|k: nat| !(run(tokens, k).status is Running);
    if n0 <= n {
        lemma_final_stable(tokens, n0, n);
    } else {
        lemma_final_stable(tokens, n, n0);
    }
}

/// The models of a token sequence.
pub open spec fn views(tokens: Seq<Token>) -> Seq<TokenModel> {
    tokens.map_values(|t: Token| t@)
}

/// The start symbol only ever sits at the bottom of the derivation stack:
/// no right-hand side mentions it, so it is never pushed.
pub open spec fn program_bottom(stack: Seq<Symbol>) -> bool {
    forall|i: int|
        0 <= i < stack.len() ==> (#[trigger] stack[i] == Symbol::NonTerminal(NonTerminal::Program)
            ==> i == 0)
}

/// The state well-formedness that the termination measure rests on: the
/// cursor stays inside the input and the start symbol stays at the bottom.
pub open spec fn engine_inv(tokens: Seq<TokenModel>, s: EngineState) -> bool {
    &&& 0 <= s.pos <= tokens.len()
    &&& program_bottom(s.stack)
}

/// The stack component of the termination measure: the total stack weight
/// under a synchronization lookahead, the top-segment weight otherwise.
pub open spec fn stack_measure(stack: Seq<Symbol>, tokens: Seq<TokenModel>, pos: int) -> nat {
    if 0 <= pos < tokens.len() {
        if is_sync(tokens[pos].token) {
            total_weight(stack)
        } else {
            seg_weight(stack, tokens[pos].token)
        }
    } else {
        0
    }
}

/// The input cursor never moves backward during recovery, and never leaves
/// the input.
proof fn lemma_recover_input_bounds(tokens: Seq<TokenModel>, pos: int)
    requires
        0 <= pos <= tokens.len(),
    ensures
        pos <= recover_input(tokens, pos) <= tokens.len(),
    decreases tokens.len() - pos,
{
    if pos < tokens.len() && !is_sync(tokens[pos].token) {
        lemma_recover_input_bounds(tokens, pos + 1);
    }
}

/// Recovery only pops, so it never gains total stack weight.
proof fn lemma_recover_total(stack: Seq<Symbol>, open: Seq<int>)
    ensures
        total_weight(recover_stacks(stack, open).0) <= total_weight(stack),
    decreases stack.len(),
{
    if stack.len() > 0 {
        lemma_total_drop_last(stack);
        match stack.last() {
            Symbol::Terminal(t) => {
                if !is_sync(t) {
                    lemma_recover_total(stack.drop_last(), open.drop_last());
                }
            },
            Symbol::NonTerminal(_) => {
                lemma_recover_total(stack.drop_last(), open.drop_last());
            },
        }
    }
}

/// Recovery discards entries strictly from the top: what remains of the
/// derivation stack is a prefix of what it was, and when the two stacks are
/// in lock-step, so is the open-node stack, at the same length.
pub proof fn lemma_recover_prefix(stack: Seq<Symbol>, open: Seq<int>)
    ensures
        ({
            let (s2, o2) = recover_stacks(stack, open);
            &&& s2.len() <= stack.len()
            &&& forall|i: int| 0 <= i < s2.len() ==> s2[i] == stack[i]
            &&& stack.len() == open.len() ==> {
                &&& s2.len() == o2.len()
                &&& forall|i: int| 0 <= i < o2.len() ==> o2[i] == open[i]
            }
        }),
    decreases stack.len(),
{
    if stack.len() > 0 {
        match stack.last() {
            Symbol::Terminal(t) => {
                if !is_sync(t) {
                    lemma_recover_prefix(stack.drop_last(), open.drop_last());
                }
            },
            Symbol::NonTerminal(_) => {
                lemma_recover_prefix(stack.drop_last(), open.drop_last());
            },
        }
    }
}

/// Every step preserves the state well-formedness.
pub proof fn lemma_step_inv(tokens: Seq<TokenModel>, s: EngineState)
    requires
        engine_inv(tokens, s),
    ensures
        engine_inv(tokens, step(tokens, s)),
{
    let s2 = step(tokens, s);
    if s.status is Running && s.stack.len() > 0 && s.pos < tokens.len() {
        let t = tokens[s.pos].token;
        let stack1 = s.stack.drop_last();
        assert(program_bottom(stack1));
        match s.stack.last() {
            Symbol::NonTerminal(nt) => {
                match grammar_rule(nt, t) {
                    Some(p) => {
                        if p.len() > 0 {
                            lemma_program_not_in_rhs(nt, t);
                            assert forall|i: int| 0 <= i < s2.stack.len() implies (
                            #[trigger] s2.stack[i] == Symbol::NonTerminal(NonTerminal::Program)
                                ==> i == 0) by {
                                if i >= stack1.len() {
                                    assert(s2.stack[i] == p.reverse()[i - stack1.len()]);
                                    assert(s2.stack[i] == p[p.len() - 1 - (i - stack1.len())]);
                                }
                            }
                        }
                    },
                    None => {
                        lemma_recover_input_bounds(tokens, s.pos);
                        lemma_recover_prefix(stack1, s.open.drop_last());
                    },
                }
            },
            Symbol::Terminal(x) => {
                if t != x {
                    lemma_recover_input_bounds(tokens, s.pos);
                    lemma_recover_prefix(stack1, s.open.drop_last());
                }
            },
        }
    }
}

/// The heart of termination: every step that can be followed by another
/// (the stack is not empty and the cursor is inside the input) either
/// consumes a token or shrinks the stack measure while leaving the cursor
/// in place.
pub proof fn lemma_step_decreases(tokens: Seq<TokenModel>, s: EngineState)
    requires
        s.status is Running,
        s.stack.len() > 0,
        0 <= s.pos < tokens.len(),
        program_bottom(s.stack),
    ensures
        ({
            let s2 = step(tokens, s);
            &&& s.pos <= s2.pos <= tokens.len()
            &&& (s2.pos == s.pos ==> stack_measure(s2.stack, tokens, s2.pos) < stack_measure(
                s.stack,
                tokens,
                s.pos,
            ))
        }),
{
    let s2 = step(tokens, s);
    let t = tokens[s.pos].token;
    let sym = s.stack.last();
    let stack1 = s.stack.drop_last();
    let open1 = s.open.drop_last();
    assert(crate::measure::sym_weight(sym) >= 1);
    match sym {
        Symbol::NonTerminal(nt) => {
            match grammar_rule(nt, t) {
                Some(p) => {
                    if p.len() == 0 {
                        // The epsilon rule pops the non-terminal.
                        assert(p =~= Seq::<Symbol>::empty());
                        assert(vanishes(sym, t));
                        if is_sync(t) {
                            lemma_total_drop_last(s.stack);
                        }
                    } else {
                        // An expansion replaces the top with the production.
                        assert(!vanishes(sym, t));
                        if is_sync(t) {
                            lemma_sync_production(nt, t);
                            lemma_total_concat(stack1, p.reverse());
                            lemma_total_reverse(p);
                            lemma_total_drop_last(s.stack);
                        } else {
                            if nt == NonTerminal::Program {
                                reveal_with_fuel(seg_weight, 3);
                                assert(s.stack[s.stack.len() - 1] == Symbol::NonTerminal(
                                    NonTerminal::Program,
                                ));
                                assert(s.stack.len() == 1);
                                assert(stack1 =~= Seq::<Symbol>::empty());
                                assert(p == seq![Symbol::NonTerminal(NonTerminal::Declarations)]);
                                let st2 = stack1 + p.reverse();
                                assert(st2.len() == 1);
                                assert(st2.last() == Symbol::NonTerminal(
                                    NonTerminal::Declarations,
                                ));
                                assert(st2.drop_last() =~= Seq::<Symbol>::empty());
                                assert(seg_weight(st2, t) <= 4);
                            } else {
                                lemma_nonsync_production(nt, t);
                                assert(p.subrange(0, p.len() as int) =~= p);
                                lemma_seg_within(stack1, p, t, 0);
                                assert(seg_weight(stack1 + p.reverse(), t) <= seg_bound_from(p, 0));
                            }
                        }
                    }
                },
                None => {
                    lemma_recover_input_bounds(tokens, s.pos);
                    lemma_recover_input_bounds(tokens, s.pos + 1);
                    if recover_input(tokens, s.pos) == s.pos {
                        assert(is_sync(t));
                        lemma_recover_total(stack1, open1);
                        lemma_total_drop_last(s.stack);
                    }
                },
            }
        },
        Symbol::Terminal(x) => {
            if t == x {
                // A match consumes the lookahead token.
            } else {
                lemma_recover_input_bounds(tokens, s.pos);
                lemma_recover_input_bounds(tokens, s.pos + 1);
                if recover_input(tokens, s.pos) == s.pos {
                    assert(is_sync(t));
                    lemma_recover_total(stack1, open1);
                    lemma_total_drop_last(s.stack);
                }
            }
        },
    }
}

/// Appending one more child under `parent` extends the expansion by one
/// production symbol.
proof fn lemma_expand_step(nodes: Seq<NodeModel>, parent: int, prod: Seq<Symbol>, k: int)
    requires
        0 <= parent < nodes.len(),
        0 <= k < prod.len(),
    ensures
        model_append(expand_nodes(nodes, parent, prod.take(k)), parent, prod[k]) == expand_nodes(
            nodes,
            parent,
            prod.take(k + 1),
        ),
{
    let lhs = model_append(expand_nodes(nodes, parent, prod.take(k)), parent, prod[k]);
    let rhs = expand_nodes(nodes, parent, prod.take(k + 1));
    assert(lhs.len() == rhs.len());
    assert forall|i: int| 0 <= i < lhs.len() implies lhs[i] == rhs[i] by {
        if i == parent {
            assert(lhs[i].children =~= rhs[i].children);
            assert(lhs[i] =~~= rhs[i]);
        }
    }
    assert(lhs =~= rhs);
}

/// Expansion keeps the arena a well-founded ordered tree: the fresh
/// children sit past their parent, and every other node is unchanged.
pub proof fn lemma_expand_wf(nodes: Seq<NodeModel>, parent: int, prod: Seq<Symbol>)
    requires
        nodes_wf(nodes),
        0 <= parent < nodes.len(),
    ensures
        nodes_wf(expand_nodes(nodes, parent, prod)),
{
    let r = expand_nodes(nodes, parent, prod);
    assert forall|i: int, j: int|
        0 <= i < r.len() && 0 <= j < r[i].children.len() implies i < #[trigger] r[i].children[j]
        < r.len() by {
        if i == parent {
            if j < nodes[parent].children.len() {
                assert(nodes[parent].children[j] == r[i].children[j]);
            } else {
                let jj = j - nodes[parent].children.len();
                assert(r[i].children[j] == child_indices(nodes.len() as int, prod.len())[jj]);
            }
        } else if i < nodes.len() {
            assert(r[i] == nodes[i]);
        }
    }
}

/// The kinds and literals of a sequence of token models.
pub open spec fn model_kinds(ms: Seq<TokenModel>) -> Seq<(TokenType, Seq<char>)> {
    ms.map_values(|m: TokenModel| (m.token, m.literal))
}

/// The open-node stack as spec-level indices.
pub open spec fn open_model(open: Seq<usize>) -> Seq<int> {
    open.map_values(|c: usize| c as int)
}

/// A running machine state assembled from its parts.
pub open spec fn state_of(
    stack: Seq<Symbol>,
    open: Seq<int>,
    nodes: Seq<NodeModel>,
    pos: int,
    diags: Seq<Diagnostic>,
) -> EngineState {
    EngineState { stack, open, nodes, pos, diags, status: Status::Running }
}

/// The table-driven LL(1) parser: the grammar table, the token input with a
/// forward-only cursor, the derivation stack, and the diagnostics collected
/// so far.
pub struct Parser {
    table: GrammarTable,
    input: Vec<Token>,
    pos: usize,
    stack: Vec<Symbol>,
    diagnostics: Vec<Diagnostic>,
}

impl Parser {
    /// The models of the tokens this parser was given.
    pub closed spec fn input_model(&self) -> Seq<TokenModel> {
        views(self.input@)
    }

    /// The diagnostics recorded so far.
    pub closed spec fn diags_model(&self) -> Seq<Diagnostic> {
        self.diagnostics@
    }

    /// A parser that has not started: the derivation stack holds the start
    /// symbol, the cursor is at the first token, and no diagnostic has been
    /// recorded.
    pub closed spec fn at_start(&self) -> bool {
        &&& self.table.wf()
        &&& self.stack@ == seq![Symbol::NonTerminal(NonTerminal::Program)]
        &&& self.pos == 0
        &&& self.diagnostics@ == Seq::<Diagnostic>::empty()
    }

    /// Builds a parser over source text: the text is scanned into tokens
    /// (line comments dropped, one end-of-input sentinel last) and the
    /// parser starts at the first of them.
    pub fn new(input: String) -> (p: Parser)
        ensures
            p.at_start(),
            model_kinds(p.input_model()) == crate::lexer::token_seq(input@, 0),
    {
        let tokens = crate::lexer::tokenize(input);
        let ghost tv = tokens@;
        let p = Parser::from_tokens(tokens);
        proof {
            assert(model_kinds(views(tv)) =~= crate::lexer::kinds_and_literals(tv));
        }
        p
    }

    /// Builds a parser over an already-lexed token sequence.
    pub fn from_tokens(input: Vec<Token>) -> (p: Parser)
        ensures
            p.at_start(),
            p.input_model() == views(input@),
    {
        let mut stack: Vec<Symbol> = Vec::new();
        stack.push(Symbol::NonTerminal(NonTerminal::Program));
        let p = Parser { table: add_rules(), input, pos: 0, stack, diagnostics: Vec::new() };
        proof {
            assert(p.stack@ =~= seq![Symbol::NonTerminal(NonTerminal::Program)]);
        }
        p
    }

    /// The diagnostics recorded so far, one per detected syntax error, in
    /// the order they were detected.
    pub fn diagnostics(&self) -> (d: &Vec<Diagnostic>)
        ensures
            d@ == self.diags_model(),
    {
        &self.diagnostics
    }

    /// Whether `token` is a synchronization terminal of panic-mode recovery.
    fn is_synchronization_token(&self, token: TokenType) -> (r: bool)
        ensures
            r == is_sync(token),
    {
        token == TokenType::T_Semicolon || token == TokenType::T_RP
    }

    /// Runs the LL(1) derivation to completion: repeatedly processes the top
    /// of the derivation stack against the lookahead token, building the
    /// parse tree in lock-step and recovering from syntax errors, until the
    /// stack empties or the input runs out.
    ///
    /// The result is exactly the terminal state of the parse machine on this
    /// parser's input: `Ok` with the finished tree when the machine accepts
    /// (the stack emptied with exactly the end-of-input sentinel remaining),
    /// and the matching fatal error otherwise. Either way the recorded
    /// diagnostics are the machine's, one per detected syntax error. This
    /// fixes the outcome of a recovered parse once and for all: a parse that
    /// records diagnostics and does not end at the sentinel is a terminating
    /// failure, and one token sequence always yields one outcome.
    pub fn parse(&mut self) -> (r: Result<ParseTree, ParseError>)
        requires
            old(self).at_start(),
        ensures
            final(self).input_model() == old(self).input_model(),
            terminates(old(self).input_model()),
            ({
                let fin = final_state(old(self).input_model());
                &&& final(self).diags_model() == fin.diags
                &&& match r {
                    Ok(tree) => fin.status is Accepted && tree@ == fin.nodes && tree.wf(),
                    Err(ParseError::UnexpectedEndOfInput) => fin.status is UnexpectedEnd,
                    Err(ParseError::InputNotFullyConsumed) => fin.status is NotConsumed,
                }
            }),
    {
        let ghost toks = views(self.input@);
        let ghost input0 = self.input@;
        let mut tree = ParseTree::new(Symbol::NonTerminal(NonTerminal::Program));
        let mut open: Vec<usize> = Vec::new();
        open.push(0);
        let ghost mut steps: nat = 0;
        proof {
            assert(open_model(open@) =~= seq![0int]);
            assert(run(toks, steps) =~~= state_of(
                self.stack@,
                open_model(open@),
                tree@,
                self.pos as int,
                self.diagnostics@,
            ));
        }
        while !self.stack.is_empty()
            invariant
                input0 == old(self).input@,
                self.input@ == input0,
                toks == views(input0),
                self.table.wf(),
                self.pos <= input0.len(),
                self.stack@.len() == open@.len(),
                forall|k: int| 0 <= k < open@.len() ==> (open@[k] as int) < tree@.len(),
                tree@.len() > 0,
                nodes_wf(tree@),
                program_bottom(self.stack@),
                run(toks, steps) == state_of(
                    self.stack@,
                    open_model(open@),
                    tree@,
                    self.pos as int,
                    self.diagnostics@,
                ),
            decreases input0.len() - self.pos, stack_measure(self.stack@, toks, self.pos as int),
        {
            let ghost pre = run(toks, steps);
            let ghost om_pre = open_model(open@);
            proof {
                assert(forall|k: int| 0 <= k < om_pre.len() ==> om_pre[k] < pre.nodes.len());
            }
            let sym = match self.stack.pop() {
                Some(s) => s,
                None => {
                    proof {
                        assert(false);
                    }
                    vstd::pervasive::unreached()
                },
            };
            let node = match open.pop() {
                Some(n) => n,
                None => {
                    proof {
                        assert(false);
                    }
                    vstd::pervasive::unreached()
                },
            };
            proof {
                assert(node as int == om_pre.last());
                assert(open_model(open@) =~= om_pre.drop_last());
            }
            if self.pos >= self.input.len() {
                proof {
                    steps = steps + 1;
                    assert(run(toks, steps) =~~= EngineState { status: Status::UnexpectedEnd, ..pre });
                    lemma_final_state_is(toks, steps);
                }
                return Err(ParseError::UnexpectedEndOfInput);
            }
            let look = self.input[self.pos].token;
            proof {
                assert(toks[self.pos as int] == self.input@[self.pos as int]@);
            }
            match sym {
                Symbol::NonTerminal(nt) => {
                    match self.table.get(nt, look) {
                        Some(production) => {
                            if production.len() == 0 {
                                proof {
                                    lemma_step_inv(toks, pre);
                                    lemma_step_decreases(toks, pre);
                                    steps = steps + 1;
                                    assert(run(toks, steps) =~~= state_of(
                                        self.stack@,
                                        open_model(open@),
                                        tree@,
                                        self.pos as int,
                                        self.diagnostics@,
                                    ));
                                }
                            } else {
                                let ghost nodes0 = tree@;
                                let ghost stack1 = self.stack@;
                                let ghost open1 = open_model(open@);
                                let base = tree.len();
                                let mut k: usize = 0;
                                while k < production.len()
                                    invariant
                                        k <= production@.len(),
                                        (node as int) < nodes0.len(),
                                        base == nodes0.len(),
                                        tree@ == expand_nodes(
                                            nodes0,
                                            node as int,
                                            production@.take(k as int),
                                        ),
                                    decreases production@.len() - k,
                                {
                                    let s = production[k];
                                    proof {
                                        assert(production@.take(k as int).len() == k);
                                    }
                                    let idx = tree.append_child(node, s);
                                    proof {
                                        lemma_expand_step(nodes0, node as int, production@, k as int);
                                        assert(production@.take(k as int + 1) =~= production@.take(
                                            k as int,
                                        ).push(production@[k as int]));
                                    }
                                    k = k + 1;
                                }
                                let total = tree.len();
                                proof {
                                    assert(production@.take(production@.len() as int) =~= production@);
                                }
                                let ghost pos_g = self.pos;
                                let ghost diags_g = self.diagnostics@;
                                let mut k2: usize = production.len();
                                proof {
                                    assert(production@.subrange(
                                        k2 as int,
                                        production@.len() as int,
                                    ).reverse() =~= Seq::<Symbol>::empty());
                                    assert(child_indices(base as int, production@.len()).subrange(
                                        k2 as int,
                                        production@.len() as int,
                                    ).reverse() =~= Seq::<int>::empty());
                                    assert(self.stack@ =~= stack1 + production@.subrange(
                                        k2 as int,
                                        production@.len() as int,
                                    ).reverse());
                                    assert(open_model(open@) =~= open1 + child_indices(
                                        base as int,
                                        production@.len(),
                                    ).subrange(k2 as int, production@.len() as int).reverse());
                                }
                                while k2 > 0
                                    invariant
                                        k2 <= production@.len(),
                                        base as int + production@.len() == total as int,
                                        self.stack@ == stack1 + production@.subrange(
                                            k2 as int,
                                            production@.len() as int,
                                        ).reverse(),
                                        open_model(open@) == open1 + child_indices(
                                            base as int,
                                            production@.len(),
                                        ).subrange(k2 as int, production@.len() as int).reverse(),
                                        self.input@ == input0,
                                        self.pos == pos_g,
                                        self.diagnostics@ == diags_g,
                                        self.table.wf(),
                                    decreases k2,
                                {
                                    k2 = k2 - 1;
                                    let s = production[k2];
                                    self.stack.push(s);
                                    let idx = base + k2;
                                    let ghost om0 = open_model(open@);
                                    open.push(idx);
                                    proof {
                                        assert(open_model(open@) =~= om0.push(idx as int));
                                        assert(self.stack@ =~= stack1 + production@.subrange(
                                            k2 as int,
                                            production@.len() as int,
                                        ).reverse());
                                        assert(open_model(open@) =~= open1 + child_indices(
                                            base as int,
                                            production@.len(),
                                        ).subrange(k2 as int, production@.len() as int).reverse());
                                    }
                                }
                                proof {
                                    lemma_step_inv(toks, pre);
                                    lemma_step_decreases(toks, pre);
                                    steps = steps + 1;
                                    assert(self.stack@ =~= stack1 + production@.reverse());
                                    assert(open_model(open@) =~= open1 + child_indices(
                                        base as int,
                                        production@.len(),
                                    ).reverse());
                                    lemma_expand_wf(nodes0, node as int, production@);
                                    assert(run(toks, steps) =~~= state_of(
                                        self.stack@,
                                        open_model(open@),
                                        tree@,
                                        self.pos as int,
                                        self.diagnostics@,
                                    ));
                                    assert forall|kk: int| 0 <= kk < open@.len() implies (
                                    open@[kk] as int) < tree@.len() by {
                                        assert(open_model(open@)[kk] == open@[kk] as int);
                                        if kk >= open1.len() {
                                            let jj = open@.len() - 1 - kk;
                                            assert(open_model(open@)[kk] == child_indices(
                                                base as int,
                                                production@.len(),
                                            )[jj]);
                                        } else {
                                            assert(open_model(open@)[kk] == open1[kk]);
                                            assert(open1[kk] == om_pre[kk]);
                                        }
                                    }
                                }
                            }
                        },
                        None => {
                            let tok_line = self.input[self.pos].line;
                            let tok_col = self.input[self.pos].column;
                            let d = Diagnostic {
                                kind: DiagnosticKind::MissingRule { nonterminal: nt, found: look },
                                line: tok_line,
                                column: tok_col,
                            };
                            self.diagnostics.push(d);
                            proof {
                                lemma_recover_prefix(self.stack@, open_model(open@));
                            }
                            self.recover(&mut open);
                            proof {
                                lemma_step_inv(toks, pre);
                                lemma_step_decreases(toks, pre);
                                steps = steps + 1;
                                assert forall|k: int| 0 <= k < open@.len() implies (
                                open@[k] as int) < tree@.len() by {
                                    assert(open_model(open@)[k] == open@[k] as int);
                                    assert(open_model(open@)[k] == om_pre.drop_last()[k]);
                                }
                                assert(run(toks, steps) =~~= state_of(
                                    self.stack@,
                                    open_model(open@),
                                    tree@,
                                    self.pos as int,
                                    self.diagnostics@,
                                ));
                            }
                        },
                    }
                },
                Symbol::Terminal(t) => {
                    if look == t {
                        let lit = self.input[self.pos].literal.clone();
                        tree.set_literal(node, lit);
                        self.pos = self.pos + 1;
                        proof {
                            lemma_step_inv(toks, pre);
                            lemma_step_decreases(toks, pre);
                            steps = steps + 1;
                            assert(run(toks, steps) =~~= state_of(
                                self.stack@,
                                open_model(open@),
                                tree@,
                                self.pos as int,
                                self.diagnostics@,
                            ));
                            assert forall|kk: int, jj: int|
                                0 <= kk < tree@.len() && 0 <= jj < tree@[kk].children.len() implies kk
                                < #[trigger] tree@[kk].children[jj] < tree@.len() by {
                                assert(tree@[kk].children == pre.nodes[kk].children);
                            }
                        }
                    } else {
                        let tok_line = self.input[self.pos].line;
                        let tok_col = self.input[self.pos].column;
                        let d = Diagnostic {
                            kind: DiagnosticKind::MismatchedTerminal { expected: t, found: look },
                            line: tok_line,
                            column: tok_col,
                        };
                        self.diagnostics.push(d);
                        proof {
                            lemma_recover_prefix(self.stack@, open_model(open@));
                        }
                        self.recover(&mut open);
                        proof {
                            lemma_step_inv(toks, pre);
                            lemma_step_decreases(toks, pre);
                            steps = steps + 1;
                            assert forall|k: int| 0 <= k < open@.len() implies (
                            open@[k] as int) < tree@.len() by {
                                assert(open_model(open@)[k] == open@[k] as int);
                                assert(open_model(open@)[k] == om_pre.drop_last()[k]);
                            }
                            assert(run(toks, steps) =~~= state_of(
                                self.stack@,
                                open_model(open@),
                                tree@,
                                self.pos as int,
                                self.diagnostics@,
                            ));
                        }
                    }
                },
            }
        }
        let ghost pre2 = run(toks, steps);
        if self.pos < self.input.len() && self.pos + 1 == self.input.len() && self.input[
            self.pos].token == TokenType::End {
            proof {
                assert(toks[self.pos as int] == self.input@[self.pos as int]@);
                steps = steps + 1;
                assert(run(toks, steps) =~~= EngineState { status: Status::Accepted, ..pre2 });
                lemma_final_state_is(toks, steps);
            }
            Ok(tree)
        } else {
            proof {
                if 0 <= pre2.pos && pre2.pos < toks.len() {
                    assert(toks[pre2.pos] == self.input@[pre2.pos]@);
                }
                steps = steps + 1;
                assert(run(toks, steps) =~~= EngineState { status: Status::NotConsumed, ..pre2 });
                lemma_final_state_is(toks, steps);
            }
            Err(ParseError::InputNotFullyConsumed)
        }
    }

    /// Panic-mode recovery: discards derivation-stack symbols (and their
    /// open nodes, in lock-step) until a synchronization terminal has been
    /// discarded or the stack empties, then discards input tokens up to the
    /// next synchronization terminal, which is left in place.
    fn recover(&mut self, open: &mut Vec<usize>)
        requires
            old(self).stack@.len() == old(open)@.len(),
            old(self).pos <= old(self).input@.len(),
        ensures
            final(self).table == old(self).table,
            final(self).input == old(self).input,
            final(self).diagnostics == old(self).diagnostics,
            (final(self).stack@, open_model(final(open)@)) == recover_stacks(
                old(self).stack@,
                open_model(old(open)@),
            ),
            final(self).stack@.len() == final(open)@.len(),
            final(self).pos as int == recover_input(views(old(self).input@), old(self).pos as int),
            final(self).pos <= final(self).input@.len(),
    {
        let ghost s0 = self.stack@;
        let ghost o0 = open_model(open@);
        loop
            invariant_except_break
                recover_stacks(s0, o0) == recover_stacks(self.stack@, open_model(open@)),
            invariant
                self.stack@.len() == open@.len(),
                self.table == old(self).table,
                self.input == old(self).input,
                self.diagnostics == old(self).diagnostics,
                self.pos == old(self).pos,
            ensures
                (self.stack@, open_model(open@)) == recover_stacks(s0, o0),
                self.stack@.len() == open@.len(),
                self.table == old(self).table,
                self.input == old(self).input,
                self.diagnostics == old(self).diagnostics,
                self.pos == old(self).pos,
            decreases self.stack@.len(),
        {
            match self.stack.pop() {
                None => {
                    break;
                },
                Some(sym) => {
                    let ghost om0 = open_model(open@);
                    let _ = open.pop();
                    proof {
                        assert(open_model(open@) =~= om0.drop_last());
                    }
                    match sym {
                        Symbol::Terminal(t) => {
                            if self.is_synchronization_token(t) {
                                break;
                            }
                        },
                        Symbol::NonTerminal(_) => {},
                    }
                },
            }
        }
        let ghost toks = views(self.input@);
        let ghost p0 = self.pos as int;
        let ghost stack1 = self.stack@;
        let ghost open1 = open_model(open@);
        loop
            invariant
                toks == views(self.input@),
                self.pos <= self.input@.len(),
                recover_input(toks, p0) == recover_input(toks, self.pos as int),
                self.stack@ == stack1,
                open_model(open@) == open1,
                self.table == old(self).table,
                self.input == old(self).input,
                self.diagnostics == old(self).diagnostics,
            ensures
                self.pos as int == recover_input(toks, p0),
                self.stack@ == stack1,
                open_model(open@) == open1,
                self.pos <= self.input@.len(),
                self.table == old(self).table,
                self.input == old(self).input,
                self.diagnostics == old(self).diagnostics,
            decreases self.input@.len() - self.pos,
        {
            if self.pos >= self.input.len() {
                break;
            }
            let k = self.input[self.pos].token;
            proof {
                assert(toks[self.pos as int] == self.input@[self.pos as int]@);
            }
            if self.is_synchronization_token(k) {
                break;
            }
            self.pos = self.pos + 1;
        }
    }
}

} // verus!
