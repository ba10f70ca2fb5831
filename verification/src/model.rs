//! The mathematical model of expression trees.
//!
//! `Node` is the specification-level picture of an expression: a number
//! (as an unbounded integer), a variable (as a character sequence), or a
//! multiplication over a sequence of child nodes.  All contracts of the
//! executable engine are stated over this model: what one reduction pass
//! does (`fold_node`, `fold_children`), which trees collapse to a scalar
//! (`value_of`), which operators can still make progress
//! (`node_reducible`), and the canonical debug rendering (`render_node`).

use vstd::prelude::*;

verus! {

/// Specification-level expression tree.
#[verifier::ext_equal]
pub enum Node {
    /// A scalar literal.
    Num(int),
    /// An unbound variable, by name.
    Var(Seq<char>),
    /// A multiplication node over its (ordered) children.
    Mul(Seq<Node>),
}

/// A well-formed node: every literal fits the machine scalar type and
/// every multiplication has exactly two children.
pub open spec fn node_wf(n: Node) -> bool
    decreases n,
{
    match n {
        Node::Num(v) => i64::MIN <= v <= i64::MAX,
        Node::Var(_) => true,
        Node::Mul(cs) => cs.len() == 2 && node_wf(cs[0]) && node_wf(cs[1]),
    }
}

/// The scalar a tree collapses to in one reduction pass, if it does:
/// `Some` exactly when no variable (and no malformed node) occurs in it.
pub open spec fn value_of(n: Node) -> Option<int>
    decreases n,
{
    match n {
        Node::Num(v) => Some(v),
        Node::Var(_) => None,
        Node::Mul(cs) => if cs.len() == 2 {
            match (value_of(cs[0]), value_of(cs[1])) {
                (Some(a), Some(b)) => Some(a * b),
                _ => None,
            }
        } else {
            None
        },
    }
}

/// What one reduction pass leaves of a node, seen from its parent: a
/// fully numeric subtree becomes its scalar, anything else keeps its
/// shape with every numeric portion folded in place.
pub open spec fn fold_node(n: Node) -> Node
    decreases n,
{
    match n {
        Node::Num(_) => n,
        Node::Var(_) => n,
        Node::Mul(cs) => if cs.len() == 2 {
            match value_of(n) {
                Some(v) => Node::Num(v),
                None => Node::Mul(seq![fold_node(cs[0]), fold_node(cs[1])]),
            }
        } else {
            n
        },
    }
}

/// What one reduction pass leaves of an operator node itself: its
/// children folded, the node still in place.  This is the state of an
/// operator after `reduce`, whatever the reported outcome.
pub open spec fn fold_children(n: Node) -> Node {
    match n {
        Node::Mul(cs) => if cs.len() == 2 {
            Node::Mul(seq![fold_node(cs[0]), fold_node(cs[1])])
        } else {
            n
        },
        _ => n,
    }
}

/// Every product a reduction pass computes over this tree fits the
/// machine scalar type.  This is the machine-limit precondition of
/// `reduce`: the mathematics of folding has no bound of its own.
pub open spec fn pass_ok(n: Node) -> bool
    decreases n,
{
    match n {
        Node::Num(_) => true,
        Node::Var(_) => true,
        Node::Mul(cs) => if cs.len() == 2 {
            pass_ok(cs[0]) && pass_ok(cs[1]) && match (value_of(cs[0]), value_of(cs[1])) {
                (Some(a), Some(b)) => i64::MIN <= a * b <= i64::MAX,
                _ => true,
            }
        } else {
            true
        },
    }
}

/// Whether an operator node can still make progress: some child operator
/// can, or both children are already number literals.
pub open spec fn node_reducible(n: Node) -> bool
    decreases n,
{
    match n {
        Node::Num(_) => false,
        Node::Var(_) => false,
        Node::Mul(cs) => cs.len() == 2 && (node_reducible(cs[0]) || node_reducible(cs[1]) || (
        cs[0] is Num && cs[1] is Num)),
    }
}

/// The number of nodes in a tree.
pub open spec fn node_count(n: Node) -> nat
    decreases n,
{
    match n {
        Node::Num(_) => 1,
        Node::Var(_) => 1,
        Node::Mul(cs) => if cs.len() == 2 {
            1 + node_count(cs[0]) + node_count(cs[1])
        } else {
            1
        },
    }
}

/// The digit character of `d`, for `d < 10`.
pub open spec fn digit_char(d: nat) -> char {
    if d == 0 {
        '0'
    } else if d == 1 {
        '1'
    } else if d == 2 {
        '2'
    } else if d == 3 {
        '3'
    } else if d == 4 {
        '4'
    } else if d == 5 {
        '5'
    } else if d == 6 {
        '6'
    } else if d == 7 {
        '7'
    } else if d == 8 {
        '8'
    } else {
        '9'
    }
}

/// The decimal digits of `n`, most significant first.
pub open spec fn dec_digits(n: nat) -> Seq<char>
    decreases n,
{
    if n < 10 {
        seq![digit_char(n)]
    } else {
        dec_digits(n / 10).push(digit_char(n % 10))
    }
}

/// The decimal rendering of an integer, with a leading minus sign when
/// negative.
pub open spec fn dec_int(v: int) -> Seq<char> {
    if v < 0 {
        seq!['-'] + dec_digits((-v) as nat)
    } else {
        dec_digits(v as nat)
    }
}

/// The canonical debug rendering of a tree:
/// `Number{v}`, `Variable{name}`, or `Multiply{child,child}`.
pub open spec fn render_node(n: Node) -> Seq<char>
    decreases n,
{
    match n {
        Node::Num(v) => "Number{"@ + dec_int(v) + "}"@,
        Node::Var(s) => "Variable{"@ + s + "}"@,
        Node::Mul(cs) => if cs.len() == 2 {
            "Multiply{"@ + render_node(cs[0]) + ","@ + render_node(cs[1]) + "}"@
        } else {
            "Multiply{"@ + "}"@
        },
    }
}

/// The scalar a well-formed tree folds to fits the machine scalar type:
/// literals fit by well-formedness, products fit by `pass_ok`.
pub proof fn lemma_value_in_range(n: Node)
    requires
        node_wf(n),
        pass_ok(n),
        value_of(n) is Some,
    ensures
        i64::MIN <= value_of(n)->Some_0 <= i64::MAX,
{
}

/// One reduction pass does not change what a tree stands for: the folded
/// tree collapses to a scalar exactly when the original does, and to the
/// same scalar.
pub proof fn lemma_fold_value(n: Node)
    ensures
        value_of(fold_node(n)) == value_of(n),
    decreases n,
{
    match n {
        Node::Mul(cs) => {
            if cs.len() == 2 {
                lemma_fold_value(cs[0]);
                lemma_fold_value(cs[1]);
            }
        },
        _ => {},
    }
}

/// One reduction pass keeps a tree well formed and keeps every product
/// of a further pass within the machine scalar type.
pub proof fn lemma_fold_preserves_wf(n: Node)
    requires
        node_wf(n),
        pass_ok(n),
    ensures
        node_wf(fold_node(n)),
        pass_ok(fold_node(n)),
    decreases n,
{
    match n {
        Node::Mul(cs) => {
            if cs.len() == 2 {
                lemma_fold_preserves_wf(cs[0]);
                lemma_fold_preserves_wf(cs[1]);
                lemma_fold_value(cs[0]);
                lemma_fold_value(cs[1]);
                if value_of(n) is Some {
                    lemma_value_in_range(n);
                }
            }
        },
        _ => {},
    }
}

/// As `lemma_fold_preserves_wf` and `lemma_fold_value`, for the state an
/// operator node is left in by its own `reduce` call.
pub proof fn lemma_fold_children_preserves(n: Node)
    requires
        node_wf(n),
        pass_ok(n),
    ensures
        node_wf(fold_children(n)),
        pass_ok(fold_children(n)),
        value_of(fold_children(n)) == value_of(n),
{
    match n {
        Node::Mul(cs) => {
            if cs.len() == 2 {
                lemma_fold_preserves_wf(cs[0]);
                lemma_fold_preserves_wf(cs[1]);
                lemma_fold_value(cs[0]);
                lemma_fold_value(cs[1]);
            }
        },
        _ => {},
    }
}

/// One reduction pass reaches a fixed point: folding a folded tree
/// changes nothing.
pub proof fn lemma_fold_idempotent(n: Node)
    ensures
        fold_node(fold_node(n)) == fold_node(n),
    decreases n,
{
    match n {
        Node::Mul(cs) => {
            if cs.len() == 2 {
                match value_of(n) {
                    Some(_) => {},
                    None => {
                        lemma_fold_idempotent(cs[0]);
                        lemma_fold_idempotent(cs[1]);
                        lemma_fold_value(cs[0]);
                        lemma_fold_value(cs[1]);
                        lemma_fold_value(n);
                        assert(fold_node(fold_node(n)) =~= fold_node(n));
                    },
                }
            }
        },
        _ => {},
    }
}

/// Law: reduction is idempotent on stuck operators.  An operator whose
/// tree does not collapse to a scalar (its `reduce` reported that it
/// stayed in place) is left by that call in a state that a second call
/// neither collapses nor changes: the fixed point is reached.
pub proof fn lemma_reduce_fixed_point(n: Node)
    requires
        value_of(n) is None,
    ensures
        value_of(fold_children(n)) is None,
        fold_children(fold_children(n)) == fold_children(n),
{
    match n {
        Node::Mul(cs) => {
            if cs.len() == 2 {
                lemma_fold_value(cs[0]);
                lemma_fold_value(cs[1]);
                lemma_fold_idempotent(cs[0]);
                lemma_fold_idempotent(cs[1]);
                assert(fold_children(fold_children(n)) =~= fold_children(n));
            }
        },
        _ => {},
    }
}

/// Law: one reduction pass never grows a tree.  Whether or not the pass
/// makes progress, the folded tree has at most as many nodes as the
/// original; in particular an operator that stays in place is never
/// larger after `reduce` than before.
pub proof fn lemma_fold_never_grows(n: Node)
    ensures
        node_count(fold_node(n)) <= node_count(n),
        node_count(fold_children(n)) <= node_count(n),
    decreases n,
{
    match n {
        Node::Mul(cs) => {
            if cs.len() == 2 {
                lemma_fold_never_grows(cs[0]);
                lemma_fold_never_grows(cs[1]);
            }
        },
        _ => {},
    }
}

} // verus!
