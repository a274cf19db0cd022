//! The termination measure of the parse engine.
//!
//! Every engine step either consumes a token or shrinks a weighted measure
//! of the derivation stack, so no parse runs forever. The measure depends on
//! the lookahead: under a synchronization terminal (where panic-mode
//! recovery may leave the cursor in place) it is the total weight of the
//! stack, which every step then shrinks because the only productions
//! registered under those lookaheads are weight-decreasing and recovery only
//! pops. Under any other lookahead an error always advances the cursor, so
//! the measure only has to shrink on expansions and epsilon rules: there it
//! is the weight of the stack's top segment, the run of symbols reachable
//! without consuming a token, which walks down through symbols that erase
//! under the lookahead and stops at the first one that does not.

use vstd::prelude::*;

use crate::grammar::{grammar_rule, NonTerminal, Symbol};
use crate::token::TokenType;

verus! {

/// The weight of a non-terminal. The weights are chosen so that for every
/// registered production, the weight of the right-hand side that counts
/// toward the measure is strictly below the weight of the left-hand side.
pub open spec fn nt_weight(n: NonTerminal) -> nat {
    match n {
        NonTerminal::Program => 5,
        NonTerminal::Declarations => 4,
        NonTerminal::Declaration => 3,
        NonTerminal::VarOrFunc => 3,
        NonTerminal::VarOrFuncRest => 7,
        NonTerminal::VarDeclRest => 6,
        NonTerminal::FunctionRest => 2,
        NonTerminal::Type => 2,
        NonTerminal::MoreIdentifiers => 2,
        NonTerminal::Initialization => 2,
        NonTerminal::Functions => 4,
        NonTerminal::Function => 3,
        NonTerminal::Parameters => 5,
        NonTerminal::ParameterList => 4,
        NonTerminal::Parameter => 3,
        NonTerminal::MoreParameters => 2,
        NonTerminal::Block => 2,
        NonTerminal::Statements => 5,
        NonTerminal::Statement => 4,
        NonTerminal::Assignment => 3,
        NonTerminal::IfStatement => 2,
        NonTerminal::ElseIfs => 2,
        NonTerminal::ElseIf => 2,
        NonTerminal::ElseBlock => 2,
        NonTerminal::ForStatement => 2,
        NonTerminal::ForInit => 4,
        NonTerminal::ForCondition => 12,
        NonTerminal::ForUpdate => 4,
        NonTerminal::PrintStatement => 2,
        NonTerminal::PrintArguments => 3,
        NonTerminal::MorePrintArguments => 2,
        NonTerminal::ReturnStatement => 2,
        NonTerminal::BreakStatement => 2,
        NonTerminal::ContinueStatement => 2,
        NonTerminal::Expression => 11,
        NonTerminal::LogicalOr => 10,
        NonTerminal::LogicalOrPRE => 2,
        NonTerminal::LogicalAnd => 9,
        NonTerminal::LogicalAndPRE => 2,
        NonTerminal::Equality => 8,
        NonTerminal::EqualityPRE => 2,
        NonTerminal::Relational => 7,
        NonTerminal::RelationalPRE => 2,
        NonTerminal::Additive => 6,
        NonTerminal::AdditivePRE => 2,
        NonTerminal::Multiplicative => 5,
        NonTerminal::MultiplicativePRE => 2,
        NonTerminal::Unary => 4,
        NonTerminal::Primary => 3,
        NonTerminal::Identifier => 2,
        NonTerminal::IntegerLiteral => 2,
        NonTerminal::BooleanLiteral => 2,
        NonTerminal::CharacterLiteral => 2,
        NonTerminal::StringLiteral => 2,
    }
}

/// The weight of a symbol: terminals weigh one.
pub open spec fn sym_weight(s: Symbol) -> nat {
    match s {
        Symbol::Terminal(_) => 1,
        Symbol::NonTerminal(n) => nt_weight(n),
    }
}

/// True of the non-terminals that have an epsilon rule under some
/// lookahead.
pub open spec fn is_nullable(n: NonTerminal) -> bool {
    match n {
        NonTerminal::Declarations => true,
        NonTerminal::MoreIdentifiers => true,
        NonTerminal::Initialization => true,
        NonTerminal::Parameters => true,
        NonTerminal::MoreParameters => true,
        NonTerminal::Statements => true,
        NonTerminal::ElseIfs => true,
        NonTerminal::ElseBlock => true,
        NonTerminal::ForInit => true,
        NonTerminal::ForCondition => true,
        NonTerminal::ForUpdate => true,
        NonTerminal::MorePrintArguments => true,
        NonTerminal::LogicalOrPRE => true,
        NonTerminal::LogicalAndPRE => true,
        NonTerminal::EqualityPRE => true,
        NonTerminal::RelationalPRE => true,
        NonTerminal::AdditivePRE => true,
        NonTerminal::MultiplicativePRE => true,
        _ => false,
    }
}

/// True of symbols that may erase under some lookahead.
pub open spec fn nullable_sym(s: Symbol) -> bool {
    match s {
        Symbol::Terminal(_) => false,
        Symbol::NonTerminal(n) => is_nullable(n),
    }
}

/// True when `s` erases under lookahead `t`: its registered production
/// there is the epsilon rule.
pub open spec fn vanishes(s: Symbol, t: TokenType) -> bool {
    match s {
        Symbol::Terminal(_) => false,
        Symbol::NonTerminal(n) => grammar_rule(n, t) == Some(Seq::<Symbol>::empty()),
    }
}

/// The total weight of a stack.
pub open spec fn total_weight(stack: Seq<Symbol>) -> nat
    decreases stack.len(),
{
    if stack.len() == 0 {
        0
    } else {
        sym_weight(stack.last()) + total_weight(stack.drop_last())
    }
}

/// The weight of the stack's top segment under lookahead `t`: the walk from
/// the top continues through symbols that erase under `t` and stops at (and
/// includes) the first one that does not.
pub open spec fn seg_weight(stack: Seq<Symbol>, t: TokenType) -> nat
    decreases stack.len(),
{
    if stack.len() == 0 {
        0
    } else if vanishes(stack.last(), t) {
        sym_weight(stack.last()) + seg_weight(stack.drop_last(), t)
    } else {
        sym_weight(stack.last())
    }
}

/// An upper bound, independent of the lookahead, on the top-segment weight
/// contributed by the right-hand side `p` from index `i` on: the walk
/// continues through nullable symbols and stops at the first symbol that
/// never erases.
pub open spec fn seg_bound_from(p: Seq<Symbol>, i: int) -> nat
    decreases p.len() - i,
{
    if i < 0 || i >= p.len() {
        0
    } else if nullable_sym(p[i]) {
        sym_weight(p[i]) + seg_bound_from(p, i + 1)
    } else {
        sym_weight(p[i])
    }
}

/// True when every symbol of `p` from index `i` on is nullable.
pub open spec fn all_nullable_from(p: Seq<Symbol>, i: int) -> bool {
    forall|j: int| i <= j < p.len() ==> nullable_sym(#[trigger] p[j])
}

/// A symbol erases only under lookaheads for which it has an epsilon rule,
/// so erasing symbols are nullable.
pub proof fn lemma_vanishes_nullable(s: Symbol, t: TokenType)
    requires
        vanishes(s, t),
    ensures
        nullable_sym(s),
{
    match s {
        Symbol::Terminal(_) => {},
        Symbol::NonTerminal(n) => {
            assert(grammar_rule(n, t) == Some(Seq::<Symbol>::empty()));
            assert(is_nullable(n)) by {
                if !is_nullable(n) {
                    match grammar_rule(n, t) {
                        Some(p) => {
                            assert(p.len() == 0);
                        },
                        None => {},
                    }
                }
            }
        },
    }
}

/// Splitting off the last element splits the total weight.
pub proof fn lemma_total_drop_last(stack: Seq<Symbol>)
    requires
        stack.len() > 0,
    ensures
        total_weight(stack) == sym_weight(stack.last()) + total_weight(stack.drop_last()),
{
}

/// The total weight seen from the front: the first symbol plus the rest.
pub proof fn lemma_total_first(stack: Seq<Symbol>)
    requires
        stack.len() > 0,
    ensures
        total_weight(stack) == sym_weight(stack[0]) + total_weight(stack.drop_first()),
    decreases stack.len(),
{
    if stack.len() == 1 {
        assert(stack.drop_first() =~= Seq::<Symbol>::empty());
        assert(stack.drop_last() =~= Seq::<Symbol>::empty());
    } else {
        lemma_total_first(stack.drop_last());
        assert(stack.drop_last().drop_first() =~= stack.drop_first().drop_last());
        assert(stack.drop_first().last() == stack.last());
        assert(stack.drop_last()[0] == stack[0]);
    }
}

/// Reversal keeps the total weight.
pub proof fn lemma_total_reverse(s: Seq<Symbol>)
    ensures
        total_weight(s.reverse()) == total_weight(s),
    decreases s.len(),
{
    if s.len() > 0 {
        assert(s.reverse().last() == s[0]);
        assert(s.reverse().drop_last() =~= s.drop_first().reverse());
        lemma_total_reverse(s.drop_first());
        lemma_total_first(s);
    }
}

/// Concatenation adds total weights.
pub proof fn lemma_total_concat(s1: Seq<Symbol>, s2: Seq<Symbol>)
    ensures
        total_weight(s1 + s2) == total_weight(s1) + total_weight(s2),
    decreases s2.len(),
{
    if s2.len() == 0 {
        assert(s1 + s2 =~= s1);
    } else {
        assert((s1 + s2).drop_last() =~= s1 + s2.drop_last());
        assert((s1 + s2).last() == s2.last());
        lemma_total_concat(s1, s2.drop_last());
    }
}

/// After pushing a right-hand side that holds a never-erasing symbol, the
/// top segment stays within the pushed symbols: its weight is bounded by
/// the lookahead-independent bound of the right-hand side.
pub proof fn lemma_seg_within(stack1: Seq<Symbol>, p: Seq<Symbol>, t: TokenType, i: int)
    requires
        0 <= i <= p.len(),
        !all_nullable_from(p, i),
    ensures
        seg_weight(stack1 + p.subrange(i, p.len() as int).reverse(), t) <= seg_bound_from(p, i),
    decreases p.len() - i,
{
    let tail = p.subrange(i, p.len() as int).reverse();
    assert(i < p.len());
    assert(tail.len() == p.len() - i);
    assert(tail.last() == p[i]);
    let whole = stack1 + tail;
    assert(whole.len() > 0);
    assert(whole.last() == p[i]);
    if vanishes(p[i], t) {
        lemma_vanishes_nullable(p[i], t);
        assert(!all_nullable_from(p, i + 1));
        assert(whole.drop_last() =~= stack1 + p.subrange(i + 1, p.len() as int).reverse());
        lemma_seg_within(stack1, p, t, i + 1);
    }
}

/// No right-hand side mentions the start symbol, so `Program` can only ever
/// sit at the bottom of the derivation stack.
pub proof fn lemma_program_not_in_rhs(nt: NonTerminal, t: TokenType)
    ensures
        match grammar_rule(nt, t) {
            Some(p) => forall|i: int|
                0 <= i < p.len() ==> #[trigger] p[i] != Symbol::NonTerminal(NonTerminal::Program),
            None => true,
        },
{
}

/// Under a synchronization lookahead the only registered non-epsilon
/// productions lose total weight.
pub proof fn lemma_sync_production(nt: NonTerminal, t: TokenType)
    requires
        crate::engine::is_sync(t),
        grammar_rule(nt, t) is Some,
    ensures
        ({
            let p = grammar_rule(nt, t)->Some_0;
            p.len() > 0 ==> total_weight(p) < nt_weight(nt)
        }),
{
    let p = grammar_rule(nt, t)->Some_0;
    if p.len() > 0 {
        match nt {
            NonTerminal::VarOrFuncRest => {
                lemma_total_single(p);
            },
            NonTerminal::VarDeclRest => {
                lemma_total_three(p);
            },
            _ => {},
        }
    }
}

/// The total weight of a one-symbol sequence.
proof fn lemma_total_single(p: Seq<Symbol>)
    requires
        p.len() == 1,
    ensures
        total_weight(p) == sym_weight(p[0]),
{
    reveal_with_fuel(total_weight, 2);
    assert(p.drop_last() =~= Seq::<Symbol>::empty());
}

/// The total weight of a three-symbol sequence.
proof fn lemma_total_three(p: Seq<Symbol>)
    requires
        p.len() == 3,
    ensures
        total_weight(p) == sym_weight(p[0]) + sym_weight(p[1]) + sym_weight(p[2]),
{
    reveal_with_fuel(total_weight, 4);
    let p2 = p.drop_last();
    let p1 = p2.drop_last();
    assert(p1.drop_last() =~= Seq::<Symbol>::empty());
    assert(p.last() == p[2]);
    assert(p2.last() == p[1]);
    assert(p1.last() == p[0]);
}

/// Under any other lookahead, every registered non-epsilon production of a
/// non-terminal other than the start symbol has a top-segment bound below
/// the weight of that non-terminal, and holds a symbol that never erases.
pub proof fn lemma_nonsync_production(nt: NonTerminal, t: TokenType)
    requires
        !crate::engine::is_sync(t),
        grammar_rule(nt, t) is Some,
        nt != NonTerminal::Program,
    ensures
        ({
            let p = grammar_rule(nt, t)->Some_0;
            p.len() > 0 ==> seg_bound_from(p, 0) < nt_weight(nt) && !all_nullable_from(p, 0)
        }),
{
    let p = grammar_rule(nt, t)->Some_0;
    if p.len() > 0 {
        reveal_with_fuel(seg_bound_from, 10);
        assert(seg_bound_from(p, 0) < nt_weight(nt) && !all_nullable_from(p, 0));
    }
}

} // verus!
