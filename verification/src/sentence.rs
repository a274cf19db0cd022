//! What it means for a token sequence to be a sentence of the grammar, and
//! the engine's completeness against that meaning.
//!
//! A sentence is defined by derivation alone: the machine below drives the
//! derivation stack against the grammar table with no tree, no diagnostics
//! and no recovery — any error rejects. Because the table registers at most
//! one production per (non-terminal, lookahead) pair, this deterministic
//! leftmost derivation is derivability itself: a token sequence is a valid
//! sentence exactly when the run accepts, which requires consuming the whole
//! input up to exactly one end-of-input sentinel as its last token.
//!
//! [`lemma_parse_complete`] then states completeness: the parse engine
//! succeeds with zero diagnostics if and only if its input is a valid
//! sentence.

use vstd::prelude::*;

use crate::engine::{
    final_state, lemma_final_state_is, run, step, terminates, EngineState, Status,
};
use crate::grammar::{grammar_rule, NonTerminal, Symbol};
use crate::token::{TokenModel, TokenType};

verus! {

/// Whether a derivation is still going, has derived the input, or has
/// failed to.
pub enum DeriveStatus {
    Going,
    Accept,
    Reject,
}

/// The state of the pure derivation machine: the derivation stack, the
/// cursor, and the verdict so far.
#[verifier::ext_equal]
pub ghost struct DeriveState {
    pub stack: Seq<Symbol>,
    pub pos: int,
    pub status: DeriveStatus,
}

/// One derivation step: expand the top non-terminal by the registered
/// production or match the top terminal against the lookahead; anything
/// else rejects. A verdict is a fixed point.
pub open spec fn derive_step(tokens: Seq<TokenModel>, d: DeriveState) -> DeriveState {
    if !(d.status is Going) {
        d
    } else if d.stack.len() == 0 {
        if d.pos + 1 == tokens.len() && 0 <= d.pos && tokens[d.pos].token == TokenType::End {
            DeriveState { status: DeriveStatus::Accept, ..d }
        } else {
            DeriveState { status: DeriveStatus::Reject, ..d }
        }
    } else if d.pos >= tokens.len() {
        DeriveState { status: DeriveStatus::Reject, ..d }
    } else {
        let sym = d.stack.last();
        let stack1 = d.stack.drop_last();
        let tok = tokens[d.pos];
        match sym {
            Symbol::NonTerminal(nt) => match grammar_rule(nt, tok.token) {
                Some(prod) => if prod.len() == 0 {
                    DeriveState { stack: stack1, ..d }
                } else {
                    DeriveState { stack: stack1 + prod.reverse(), ..d }
                },
                None => DeriveState { status: DeriveStatus::Reject, ..d },
            },
            Symbol::Terminal(x) => if tok.token == x {
                DeriveState { stack: stack1, pos: d.pos + 1, ..d }
            } else {
                DeriveState { status: DeriveStatus::Reject, ..d }
            },
        }
    }
}

/// The derivation's start state: the start symbol alone, at the first
/// token.
pub open spec fn derive_init() -> DeriveState {
    DeriveState {
        stack: seq![Symbol::NonTerminal(NonTerminal::Program)],
        pos: 0,
        status: DeriveStatus::Going,
    }
}

/// The derivation machine's state after `n` steps on `tokens`.
pub open spec fn derive_run(tokens: Seq<TokenModel>, n: nat) -> DeriveState
    decreases n,
{
    if n == 0 {
        derive_init()
    } else {
        derive_step(tokens, derive_run(tokens, (n - 1) as nat))
    }
}

/// A valid sentence of the grammar: the leftmost derivation from the start
/// symbol consumes the whole token sequence, whose last token is exactly
/// one end-of-input sentinel.
pub open spec fn is_sentence(tokens: Seq<TokenModel>) -> bool {
    exists|n: nat| derive_run(tokens, n).status is Accept
}

/// The simulation between the parse engine and the pure derivation: the
/// derivation has rejected exactly when the engine has recorded a
/// diagnostic or failed fatally, and as long as it has not, the two
/// machines march in step.
proof fn lemma_sim(tokens: Seq<TokenModel>, n: nat)
    ensures
        ({
            let s = run(tokens, n);
            let d = derive_run(tokens, n);
            &&& (d.status is Reject <==> (s.diags.len() > 0 || s.status is UnexpectedEnd
                || s.status is NotConsumed))
            &&& (!(d.status is Reject) ==> {
                &&& d.stack == s.stack
                &&& d.pos == s.pos
                &&& (d.status is Going <==> s.status is Running)
                &&& (d.status is Accept <==> s.status is Accepted)
                &&& s.diags.len() == 0
            })
        }),
    decreases n,
{
    if n > 0 {
        let m = (n - 1) as nat;
        lemma_sim(tokens, m);
        let s = run(tokens, m);
        let d = derive_run(tokens, m);
        assert(run(tokens, n) == step(tokens, s));
        assert(derive_run(tokens, n) == derive_step(tokens, d));
        if d.status is Reject {
            // Rejection is absorbing, and the engine can neither drop a
            // diagnostic nor leave a fatal state.
            assert(step(tokens, s).diags.len() >= s.diags.len());
        }
    }
}

/// Completeness: the parse succeeds with zero diagnostics if and only if
/// the token sequence is a valid sentence of the grammar ending with
/// exactly one end-of-input sentinel as its last token.
pub proof fn lemma_parse_complete(tokens: Seq<TokenModel>)
    requires
        terminates(tokens),
    ensures
        (final_state(tokens).status is Accepted && final_state(tokens).diags.len() == 0)
            <==> is_sentence(tokens),
{
    let n0 = choose|n: nat| !(run(tokens, n).status is Running);
    lemma_final_state_is(tokens, n0);
    if final_state(tokens).status is Accepted && final_state(tokens).diags.len() == 0 {
        lemma_sim(tokens, n0);
        assert(derive_run(tokens, n0).status is Accept);
        assert(is_sentence(tokens));
    }
    if is_sentence(tokens) {
        let m = choose|k: nat| derive_run(tokens, k).status is Accept;
        lemma_sim(tokens, m);
        assert(run(tokens, m).status is Accepted);
        lemma_final_state_is(tokens, m);
    }
}

} // verus!
