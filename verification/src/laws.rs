//! Laws of the parse engine, stated and proved over the machine of
//! [`crate::engine`]: determinism, epsilon handling, termination, and the
//! shape of every tree the engine builds. Completeness with respect to the
//! grammar lives in [`crate::sentence`].

use vstd::prelude::*;

use crate::engine::{
    child_indices, engine_inv, expand_nodes, final_state, init_state, is_sync, lemma_final_stable,
    lemma_final_state_is, lemma_recover_prefix, lemma_step_decreases, lemma_step_inv,
    recover_stacks, run, stack_measure, step, terminates, EngineState, Status,
};
use crate::grammar::{grammar_rule, NonTerminal, Symbol};
use crate::token::{TokenModel, TokenType};
use crate::tree::{nodes_wf, NodeModel};

verus! {

/// Determinism: one token sequence, one table, one outcome. Whenever the
/// machine has reached a terminal state, the state — status, parse tree and
/// diagnostic sequence alike — is the same whatever the step count, so two
/// parses of the same input can never disagree.
pub proof fn lemma_parse_deterministic(tokens: Seq<TokenModel>, n1: nat, n2: nat)
    requires
        !(run(tokens, n1).status is Running),
        !(run(tokens, n2).status is Running),
    ensures
        run(tokens, n1) == run(tokens, n2),
{
    if n1 <= n2 {
        lemma_final_stable(tokens, n1, n2);
    } else {
        lemma_final_stable(tokens, n2, n1);
    }
}

/// Epsilon handling: when the registered production for the non-terminal on
/// top of the stack under the current lookahead is empty, the step consumes
/// no token, adds no node and no child to the tree, records no diagnostic,
/// and simply closes the non-terminal's open node.
pub proof fn lemma_epsilon_step(tokens: Seq<TokenModel>, s: EngineState, nt: NonTerminal)
    requires
        s.status is Running,
        s.stack.len() > 0,
        0 <= s.pos < tokens.len(),
        s.stack.last() == Symbol::NonTerminal(nt),
        grammar_rule(nt, tokens[s.pos].token) == Some(Seq::<Symbol>::empty()),
    ensures
        step(tokens, s).pos == s.pos,
        step(tokens, s).nodes == s.nodes,
        step(tokens, s).diags == s.diags,
        step(tokens, s).stack == s.stack.drop_last(),
        step(tokens, s).open == s.open.drop_last(),
        step(tokens, s).status is Running,
{
}

/// The machine's states all satisfy the engine invariant.
proof fn lemma_run_inv(tokens: Seq<TokenModel>, n: nat)
    ensures
        engine_inv(tokens, run(tokens, n)),
    decreases n,
{
    if n > 0 {
        lemma_run_inv(tokens, (n - 1) as nat);
        lemma_step_inv(tokens, run(tokens, (n - 1) as nat));
    }
}

/// From any reachable state the machine reaches a terminal state: each step
/// either ends the parse, consumes a token, or shrinks the stack measure.
proof fn lemma_terminates_from(tokens: Seq<TokenModel>, n: nat)
    requires
        engine_inv(tokens, run(tokens, n)),
    ensures
        terminates(tokens),
    decreases
            tokens.len() - run(tokens, n).pos,
            stack_measure(run(tokens, n).stack, tokens, run(tokens, n).pos),
{
    let s = run(tokens, n);
    if !(s.status is Running) {
        assert(!(run(tokens, n).status is Running));
        assert(terminates(tokens));
    } else if s.stack.len() == 0 || s.pos >= tokens.len() {
        assert(run(tokens, n + 1) == step(tokens, s));
        assert(!(run(tokens, n + 1).status is Running));
        assert(terminates(tokens));
    } else {
        lemma_step_decreases(tokens, s);
        lemma_step_inv(tokens, s);
        assert(run(tokens, n + 1) == step(tokens, s));
        lemma_terminates_from(tokens, n + 1);
    }
}

/// Recovery termination, in its strongest form: on every input — errors,
/// recovery and all — the parse reaches a terminal state, success or a
/// fatal end-of-input error. No token sequence makes it loop.
pub proof fn lemma_parse_terminates(tokens: Seq<TokenModel>)
    ensures
        terminates(tokens),
{
    lemma_run_inv(tokens, 0);
    lemma_terminates_from(tokens, 0);
}

/// The symbols of a node's children, in order.
pub open spec fn children_symbols(nodes: Seq<NodeModel>, i: int) -> Seq<Symbol> {
    nodes[i].children.map_values(|c: int| nodes[c].symbol)
}

/// The shape of one node: if it has children, it is a non-terminal and its
/// children's symbols are exactly a production the table registers for it —
/// so its direct-child count equals that production's length.
pub open spec fn node_shape_ok(nodes: Seq<NodeModel>, i: int) -> bool {
    nodes[i].children.len() > 0 ==> match nodes[i].symbol {
        Symbol::NonTerminal(nt) => exists|t: TokenType|
            grammar_rule(nt, t) == Some(children_symbols(nodes, i)),
        Symbol::Terminal(_) => false,
    }
}

/// Tree shape, over the whole arena.
pub open spec fn tree_shape_ok(nodes: Seq<NodeModel>) -> bool {
    forall|i: int| 0 <= i < nodes.len() ==> #[trigger] node_shape_ok(nodes, i)
}

/// The lock-step invariant of the engine: the derivation stack and the
/// open-node stack have the same length; each open node lies in the tree,
/// carries the same symbol as the stack entry at its depth, and has no
/// children yet; no node is open twice; and the tree built so far is a
/// well-founded tree of the right shape.
pub open spec fn lockstep_inv(s: EngineState) -> bool {
    &&& s.stack.len() == s.open.len()
    &&& forall|k: int| 0 <= k < s.open.len() ==> 0 <= #[trigger] s.open[k] < s.nodes.len()
    &&& forall|k: int|
        0 <= k < s.open.len() ==> s.nodes[#[trigger] s.open[k]].children.len() == 0
    &&& forall|k: int| 0 <= k < s.open.len() ==> s.nodes[#[trigger] s.open[k]].symbol == s.stack[k]
    &&& forall|k1: int, k2: int|
        #![trigger s.open[k1], s.open[k2]]
        0 <= k1 < k2 < s.open.len() ==> s.open[k1] != s.open[k2]
    &&& nodes_wf(s.nodes)
    &&& tree_shape_ok(s.nodes)
}

/// Every step keeps the engine in lock-step and the tree well shaped.
pub proof fn lemma_step_lockstep(tokens: Seq<TokenModel>, s: EngineState)
    requires
        lockstep_inv(s),
    ensures
        lockstep_inv(step(tokens, s)),
{
    let s2 = step(tokens, s);
    if s.status is Running && s.stack.len() > 0 && s.pos < tokens.len() {
        let t = tokens[s.pos].token;
        let sym = s.stack.last();
        let node = s.open.last();
        let stack1 = s.stack.drop_last();
        let open1 = s.open.drop_last();
        let is_error = match sym {
            Symbol::NonTerminal(nt) => grammar_rule(nt, t) is None,
            Symbol::Terminal(x) => t != x,
        };
        if is_error {
            lemma_recover_prefix(stack1, open1);
            let (rs, ro) = recover_stacks(stack1, open1);
            assert forall|k: int| 0 <= k < ro.len() implies s2.nodes[#[trigger] s2.open[k]].symbol
                == s2.stack[k] by {
                assert(ro[k] == open1[k]);
                assert(rs[k] == stack1[k]);
            }
            assert(tree_shape_ok(s2.nodes));
        } else {
            match sym {
                Symbol::NonTerminal(nt) => {
                    let prod = grammar_rule(nt, t)->Some_0;
                    if prod.len() == 0 {
                        assert(lockstep_inv(s2));
                    } else {
                        let base = s.nodes.len() as int;
                        let n = prod.len();
                        let nodes2 = expand_nodes(s.nodes, node, prod);
                        // The expanded node's children are labeled exactly
                        // with the production.
                        assert(s.nodes[node].children.len() == 0);
                        assert(nodes2[node].children =~= child_indices(base, n));
                        assert(children_symbols(nodes2, node) =~= prod);
                        assert(s.nodes[node].symbol == Symbol::NonTerminal(nt));
                        assert(node_shape_ok(nodes2, node));
                        // Every other old node keeps its children and their
                        // labels, because its children lie in the old arena.
                        assert forall|i: int|
                            0 <= i < nodes2.len() implies #[trigger] node_shape_ok(nodes2, i) by {
                            if i == node {
                            } else if i < base {
                                assert(node_shape_ok(s.nodes, i));
                                assert(nodes2[i] == s.nodes[i]);
                                if s.nodes[i].children.len() > 0 {
                                    assert forall|j: int|
                                        0 <= j < s.nodes[i].children.len() implies children_symbols(
                                        nodes2,
                                        i,
                                    )[j] == #[trigger] children_symbols(s.nodes, i)[j] by {
                                        let c = s.nodes[i].children[j];
                                        assert(i < c < base);
                                        assert(nodes2[c].symbol == s.nodes[c].symbol);
                                    }
                                    assert(children_symbols(nodes2, i) =~= children_symbols(
                                        s.nodes,
                                        i,
                                    ));
                                }
                            } else {
                                assert(nodes2[i].children.len() == 0);
                            }
                        }
                        // The new open entries are the fresh children, in
                        // step with the pushed production symbols.
                        assert forall|k: int|
                            0 <= k < s2.open.len() implies 0 <= #[trigger] s2.open[k]
                            < s2.nodes.len() && s2.nodes[s2.open[k]].children.len() == 0 && s2.nodes[
                            s2.open[k]].symbol == s2.stack[k] by {
                            if k < open1.len() {
                                assert(s2.open[k] == open1[k]);
                                assert(s2.stack[k] == stack1[k]);
                                assert(open1[k] != node);
                                assert(nodes2[open1[k]] == s.nodes[open1[k]]);
                            } else {
                                let jj = s2.open.len() - 1 - k;
                                assert(s2.open[k] == child_indices(base, n).reverse()[k
                                    - open1.len()]);
                                assert(s2.open[k] == base + jj);
                                assert(s2.stack[k] == prod.reverse()[k - stack1.len()]);
                                assert(s2.stack[k] == prod[jj]);
                                assert(nodes2[base + jj] == crate::tree::fresh_node(prod[jj]));
                            }
                        }
                        assert forall|k1: int, k2: int|
                            #![trigger s2.open[k1], s2.open[k2]]
                            0 <= k1 < k2 < s2.open.len() implies s2.open[k1] != s2.open[k2] by {
                            if k2 < open1.len() {
                                assert(s2.open[k1] == open1[k1]);
                                assert(s2.open[k2] == open1[k2]);
                            } else if k1 < open1.len() {
                                assert(s2.open[k1] == open1[k1]);
                                assert(open1[k1] < base);
                                assert(s2.open[k2] == base + (s2.open.len() - 1 - k2));
                            } else {
                                assert(s2.open[k1] == base + (s2.open.len() - 1 - k1));
                                assert(s2.open[k2] == base + (s2.open.len() - 1 - k2));
                            }
                        }
                        assert(nodes_wf(nodes2)) by {
                            crate::engine::lemma_expand_wf(s.nodes, node, prod);
                        }
                    }
                },
                Symbol::Terminal(x) => {
                    // A match only records a literal: children and symbols
                    // are untouched everywhere.
                    let nodes2 = s2.nodes;
                    assert forall|i: int|
                        0 <= i < nodes2.len() implies #[trigger] node_shape_ok(nodes2, i) by {
                        assert(node_shape_ok(s.nodes, i));
                        assert(nodes2[i].children == s.nodes[i].children);
                        assert(nodes2[i].symbol == s.nodes[i].symbol);
                        if s.nodes[i].children.len() > 0 {
                            assert forall|j: int|
                                0 <= j < s.nodes[i].children.len() implies children_symbols(
                                nodes2,
                                i,
                            )[j] == #[trigger] children_symbols(s.nodes, i)[j] by {
                                let c = s.nodes[i].children[j];
                                assert(i < c < s.nodes.len());
                                assert(nodes2[c].symbol == s.nodes[c].symbol);
                            }
                            assert(children_symbols(nodes2, i) =~= children_symbols(s.nodes, i));
                        }
                    }
                },
            }
        }
    }
}

/// The machine stays in lock-step from the start.
proof fn lemma_run_lockstep(tokens: Seq<TokenModel>, n: nat)
    ensures
        lockstep_inv(run(tokens, n)),
    decreases n,
{
    if n == 0 {
        assert(lockstep_inv(init_state())) by {
            let s = init_state();
            assert(node_shape_ok(s.nodes, 0));
        }
    } else {
        lemma_run_lockstep(tokens, (n - 1) as nat);
        lemma_step_lockstep(tokens, run(tokens, (n - 1) as nat));
    }
}

/// Tree shape: in the tree of any finished parse — recovered errors
/// included — every node with children is a non-terminal whose children's
/// symbols are exactly a production the table registers for it, so each
/// direct-child count equals the chosen production's length.
pub proof fn lemma_tree_shape(tokens: Seq<TokenModel>)
    requires
        terminates(tokens),
    ensures
        tree_shape_ok(final_state(tokens).nodes),
{
    let n = choose|n: nat| !(run(tokens, n).status is Running);
    lemma_run_lockstep(tokens, n);
    lemma_final_state_is(tokens, n);
}

} // verus!
