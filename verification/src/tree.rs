//! The parse tree: an ordered, finite, rooted tree over grammar symbols,
//! the sole output of a parse.
//!
//! Nodes live in an arena vector and refer to their children by index.
//! Children are always younger than their parent (a child's index is
//! strictly greater than its parent's), which keeps the structure a
//! well-founded tree: every walk toward the leaves terminates. Terminal
//! nodes additionally carry the literal text of the token they consumed.

use vstd::prelude::*;

use crate::grammar::{nt_name, Symbol};
use crate::token::kind_name;

verus! {

/// One node of the parse tree: its grammar symbol, the literal text
/// recorded when a terminal node consumes its token, and the indices of its
/// children, in order.
#[derive(Clone, Debug)]
pub struct ParseNode {
    pub symbol: Symbol,
    pub literal: Option<String>,
    pub children: Vec<usize>,
}

/// Mathematical model of a node.
#[verifier::ext_equal]
pub ghost struct NodeModel {
    pub symbol: Symbol,
    pub literal: Option<Seq<char>>,
    pub children: Seq<int>,
}

impl View for ParseNode {
    type V = NodeModel;

    open spec fn view(&self) -> NodeModel {
        NodeModel {
            symbol: self.symbol,
            literal: match self.literal {
                Some(s) => Some(s@),
                None => None,
            },
            children: self.children@.map_values(|c: usize| c as int),
        }
    }
}

/// True when every child index points past its parent and into the arena:
/// the shape is an ordered forest rooted at index zero, and recursion toward
/// the leaves is well founded.
pub open spec fn nodes_wf(nodes: Seq<NodeModel>) -> bool {
    forall|i: int, j: int|
        0 <= i < nodes.len() && 0 <= j < nodes[i].children.len() ==> i
            < #[trigger] nodes[i].children[j] < nodes.len()
}

/// The model of a freshly created node for `symbol`: no literal, no
/// children.
pub open spec fn fresh_node(symbol: Symbol) -> NodeModel {
    NodeModel { symbol, literal: None, children: Seq::empty() }
}

/// The model of appending one child labeled `symbol` under `parent`: the new
/// node goes at the end of the arena and its index is recorded as
/// `parent`'s last child.
pub open spec fn model_append(nodes: Seq<NodeModel>, parent: int, symbol: Symbol) -> Seq<
    NodeModel,
> {
    nodes.update(
        parent,
        NodeModel {
            children: nodes[parent].children.push(nodes.len() as int),
            ..nodes[parent]
        },
    ).push(fresh_node(symbol))
}

/// The display name of a symbol.
pub open spec fn symbol_name(s: Symbol) -> Seq<char> {
    match s {
        Symbol::Terminal(t) => kind_name(t),
        Symbol::NonTerminal(n) => nt_name(n),
    }
}

/// The indentation of a node `depth` steps deep.
pub open spec fn indent_spec(depth: nat) -> Seq<char>
    decreases depth,
{
    if depth == 0 {
        Seq::empty()
    } else {
        indent_spec((depth - 1) as nat) + "| "@
    }
}

/// The rendering of a node's recorded literal, if any.
pub open spec fn literal_suffix(l: Option<Seq<char>>) -> Seq<char> {
    match l {
        Some(s) => " '"@ + s + "'"@,
        None => Seq::empty(),
    }
}

/// The branch-prefix rendering of the subtree at `idx`, `depth` steps deep:
/// the node's own line — indentation, symbol name, recorded literal — then
/// its children in order, one step deeper. A child index that does not
/// point past its parent renders nothing, which keeps the function total;
/// in a well-formed tree every child index does.
pub open spec fn format_spec(nodes: Seq<NodeModel>, idx: int, depth: nat) -> Seq<char>
    decreases nodes.len() - idx, nodes[idx].children.len() + 1,
{
    if idx < 0 || idx >= nodes.len() {
        Seq::empty()
    } else {
        indent_spec(depth) + symbol_name(nodes[idx].symbol) + literal_suffix(nodes[idx].literal)
            + "\n"@ + format_kids(nodes, idx, 0, (depth + 1) as nat)
    }
}

/// The renderings of the children of `idx`, from child position `k` on.
pub open spec fn format_kids(nodes: Seq<NodeModel>, idx: int, k: int, depth: nat) -> Seq<char>
    decreases nodes.len() - idx, nodes[idx].children.len() - k,
{
    if 0 <= idx < nodes.len() && 0 <= k < nodes[idx].children.len() {
        let c = nodes[idx].children[k];
        (if idx < c && c < nodes.len() {
            format_spec(nodes, c, depth)
        } else {
            Seq::empty()
        }) + format_kids(nodes, idx, k + 1, depth)
    } else {
        Seq::empty()
    }
}

/// The parse tree, rooted at node index zero.
pub struct ParseTree {
    nodes: Vec<ParseNode>,
}

impl View for ParseTree {
    type V = Seq<NodeModel>;

    closed spec fn view(&self) -> Seq<NodeModel> {
        Seq::new(self.nodes@.len(), |i: int| self.nodes@[i]@)
    }
}

impl ParseTree {
    /// A tree is well formed when it has a root and its shape is a
    /// well-founded ordered tree.
    pub open spec fn wf(&self) -> bool {
        &&& self@.len() > 0
        &&& nodes_wf(self@)
    }

    /// Creates a tree holding only a root labeled `root`.
    pub fn new(root: Symbol) -> (t: ParseTree)
        ensures
            t@ =~~= seq![fresh_node(root)],
            t.wf(),
    {
        let mut nodes: Vec<ParseNode> = Vec::new();
        nodes.push(ParseNode { symbol: root, literal: None, children: Vec::new() });
        let t = ParseTree { nodes };
        proof {
            assert(t@ =~~= seq![fresh_node(root)]);
        }
        t
    }

    /// The number of nodes in the tree.
    pub fn len(&self) -> (n: usize)
        ensures
            n == self@.len(),
    {
        self.nodes.len()
    }

    /// Appends a fresh node labeled `symbol` as the last child of `parent`
    /// and returns its index.
    pub fn append_child(&mut self, parent: usize, symbol: Symbol) -> (idx: usize)
        requires
            parent < old(self)@.len(),
        ensures
            idx == old(self)@.len(),
            final(self)@ =~~= model_append(old(self)@, parent as int, symbol),
    {
        let idx = self.nodes.len();
        self.nodes[parent].children.push(idx);
        self.nodes.push(ParseNode { symbol, literal: None, children: Vec::new() });
        proof {
            assert(self.nodes@[parent as int]@.children =~= old(self)@[parent as int].children.push(
                idx as int,
            ));
            assert(final(self)@ =~~= model_append(old(self)@, parent as int, symbol));
        }
        idx
    }

    /// Records the literal text consumed by the terminal node `idx`.
    pub fn set_literal(&mut self, idx: usize, literal: String)
        requires
            idx < old(self)@.len(),
        ensures
            final(self)@ =~~= old(self)@.update(
                idx as int,
                NodeModel { literal: Some(literal@), ..old(self)@[idx as int] },
            ),
    {
        self.nodes[idx].literal = Some(literal);
    }

    /// The grammar symbol of node `idx`.
    pub fn symbol_at(&self, idx: usize) -> (s: Symbol)
        requires
            idx < self@.len(),
        ensures
            s == self@[idx as int].symbol,
    {
        self.nodes[idx].symbol
    }

    /// The literal recorded at node `idx`, if any.
    pub fn literal_at(&self, idx: usize) -> (l: &Option<String>)
        requires
            idx < self@.len(),
        ensures
            match l {
                Some(s) => self@[idx as int].literal == Some(s@),
                None => self@[idx as int].literal is None,
            },
    {
        &self.nodes[idx].literal
    }

    /// Renders the tree in a stable branch-prefix diagnostic form: exactly
    /// the text of [`format_spec`] — one node per line, each child indented
    /// one step under its parent, terminal nodes followed by their recorded
    /// literal.
    pub fn format(&self) -> (r: String)
        requires
            self.wf(),
        ensures
            r@ == format_spec(self@, 0, 0),
    {
        let mut out = String::new();
        self.format_node(0, 0, &mut out);
        proof {
            assert(Seq::<char>::empty() + format_spec(self@, 0, 0) =~= format_spec(self@, 0, 0));
        }
        out
    }

    /// Renders the subtree at `idx`, indented `depth` steps, onto `out`. In
    /// a well-formed tree children are strictly younger than their parents,
    /// so a node's depth never exceeds its index.
    fn format_node(&self, idx: usize, depth: usize, out: &mut String)
        requires
            self.wf(),
            idx < self@.len(),
            depth <= idx,
        ensures
            final(out)@ == old(out)@ + format_spec(self@, idx as int, depth as nat),
        decreases self@.len() - idx,
    {
        let ghost out0 = out@;
        let total = self.len();
        let mut d: usize = 0;
        proof {
            assert(out@ == out0 + indent_spec(0)) by {
                assert(out0 + indent_spec(0) =~= out0);
            }
        }
        while d < depth
            invariant
                d <= depth,
                out@ == out0 + indent_spec(d as nat),
            decreases depth - d,
        {
            out.append("| ");
            d = d + 1;
            proof {
                assert(out@ =~= out0 + indent_spec(d as nat));
            }
        }
        match self.symbol_at(idx) {
            Symbol::Terminal(t) => {
                let n = t.name();
                out.append(n.as_str());
            },
            Symbol::NonTerminal(nt) => {
                let n = nt.name();
                out.append(n.as_str());
            },
        }
        match self.literal_at(idx) {
            Some(l) => {
                let text = l.clone();
                out.append(" '");
                out.append(text.as_str());
                out.append("'");
            },
            None => {},
        }
        out.append("\n");
        let ghost node = self@[idx as int];
        proof {
            assert(out@ =~= out0 + (indent_spec(depth as nat) + symbol_name(node.symbol)
                + literal_suffix(node.literal) + "\n"@));
        }
        let next_depth = depth + 1;
        let kids = self.children_at(idx);
        let count = kids.len();
        let mut k: usize = 0;
        proof {
            assert(out@ + format_kids(self@, idx as int, 0, next_depth as nat) =~= out0
                + format_spec(self@, idx as int, depth as nat));
        }
        while k < count
            invariant
                self.wf(),
                idx < self@.len(),
                depth <= idx,
                next_depth == depth + 1,
                kids@.map_values(|x: usize| x as int) == self@[idx as int].children,
                count == self@[idx as int].children.len(),
                k <= count,
                out@ + format_kids(self@, idx as int, k as int, next_depth as nat) == out0
                    + format_spec(self@, idx as int, depth as nat),
            decreases count - k,
        {
            let c = kids[k];
            proof {
                assert(kids@.map_values(|x: usize| x as int)[k as int] == c as int);
                assert((idx as int) < (c as int) && (c as int) < self@.len());
            }
            self.format_node(c, next_depth, out);
            k = k + 1;
            proof {
                assert(format_kids(self@, idx as int, k - 1, next_depth as nat) == format_spec(
                    self@,
                    c as int,
                    next_depth as nat,
                ) + format_kids(self@, idx as int, k as int, next_depth as nat));
                assert(out@ + format_kids(self@, idx as int, k as int, next_depth as nat) =~= out0
                    + format_spec(self@, idx as int, depth as nat));
            }
        }
        proof {
            assert(format_kids(self@, idx as int, count as int, next_depth as nat)
                =~= Seq::<char>::empty());
            assert(out@ =~= out0 + format_spec(self@, idx as int, depth as nat));
        }
    }

    /// The child indices of node `idx`, in order.
    pub fn children_at(&self, idx: usize) -> (c: &Vec<usize>)
        requires
            idx < self@.len(),
        ensures
            c@.map_values(|x: usize| x as int) == self@[idx as int].children,
    {
        &self.nodes[idx].children
    }
}

} // verus!
