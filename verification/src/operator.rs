//! The operator capability contract and the generic
//! "reduce the arguments, then combine if fully numeric" algorithm that
//! purely arithmetic operators share.

use vstd::prelude::*;

use crate::errors::WrongNumberOfArgumentsError;
use crate::expression::Element;
use crate::expression::Expression;
use crate::expression::elem_model;
use crate::model::Node;
use crate::model::fold_children;
use crate::model::fold_node;
use crate::model::node_reducible;
use crate::model::node_wf;
use crate::model::pass_ok;
use crate::model::render_node;
use crate::model::value_of;

verus! {

/// The outcome of one reduction step.
#[derive(Debug, PartialEq, Eq, Structural, Clone, Copy)]
pub enum ReductionResult {
    /// The operator remains in place; zero or more of its arguments may
    /// have been simplified where they stand.
    StayedInPlace,
    /// The operator's whole subtree collapsed to this scalar, and the
    /// caller should replace the node by it.
    ReducedToNumber(i64),
}

/// The models of an argument list, in order.
pub open spec fn arg_models(s: Seq<Expression>) -> Seq<Node> {
    Seq::new(s.len(), |i: int| elem_model(s[i].element))
}

/// Every argument is well formed and folds without leaving the machine
/// scalar range.
pub open spec fn all_wf(ms: Seq<Node>) -> bool {
    forall|i: int| 0 <= i < ms.len() ==> node_wf(#[trigger] ms[i]) && pass_ok(ms[i])
}

/// Every argument folds to a scalar.
pub open spec fn all_numeric(ms: Seq<Node>) -> bool {
    forall|i: int| 0 <= i < ms.len() ==> value_of(#[trigger] ms[i]) is Some
}

/// `vs` collects, in order, the scalars the arguments fold to.
pub open spec fn values_match(ms: Seq<Node>, vs: Seq<i64>) -> bool {
    vs.len() == ms.len() && (forall|i: int|
        0 <= i < ms.len() ==> value_of(#[trigger] ms[i]) == Some(vs[i] as int))
}

/// The capability every concrete operator kind supports: construction
/// from an argument list with arity validation, one-step reduction,
/// a reducibility report, and the canonical debug rendering.  All
/// contracts are stated over the mathematical tree the operator stands
/// for.
pub trait Operator: Sized {
    /// The mathematical tree this operator stands for.
    spec fn model(&self) -> Node;

    /// The fixed number of arguments this operator kind requires.
    spec fn arity() -> usize;

    /// The node this operator kind builds over its children's models.
    spec fn node_of(children: Seq<Node>) -> Node;

    /// Validates the argument count against the operator's fixed arity;
    /// succeeds exactly on lists of that length, whatever the elements,
    /// and fails with the expected and actual counts otherwise.
    fn try_new(args: Vec<Expression>) -> (r: Result<Self, WrongNumberOfArgumentsError>)
        ensures
            match r {
                Ok(op) => args@.len() == Self::arity() && op.model() == Self::node_of(
                    arg_models(args@),
                ),
                Err(e) => args@.len() != Self::arity() && e.expected == Self::arity() && e.actual
                    == args@.len(),
            },
    ;

    /// One step of simplification, in place.  Afterwards every argument
    /// is folded; the outcome says whether the whole subtree collapsed
    /// to a scalar (which the caller should put in this node's place)
    /// or the operator stays, with its numeric portions folded.
    fn reduce(&mut self) -> (r: ReductionResult)
        requires
            node_wf(old(self).model()),
            pass_ok(old(self).model()),
        ensures
            final(self).model() == fold_children(old(self).model()),
            match r {
                ReductionResult::ReducedToNumber(v) => value_of(old(self).model()) == Some(
                    v as int,
                ),
                ReductionResult::StayedInPlace => value_of(old(self).model()) is None,
            },
    ;

    /// Whether further rewriting of this operator can make progress.
    fn is_reducible(&self) -> (r: bool)
        requires
            node_wf(self.model()),
        ensures
            r == node_reducible(self.model()),
    ;

    /// The canonical debug rendering, `OperatorName{arg,arg}`.
    fn to_string(&self) -> (r: String)
        requires
            node_wf(self.model()),
        ensures
            r@ == render_node(self.model()),
    ;
}

/// Reduces each argument in place and, when every argument has become
/// numeric, applies the combining function to the collected scalars.
/// Otherwise reports `StayedInPlace`, leaving whatever partial folding
/// happened visible in the argument list.
pub fn reduce_ops_then_run_if_numeric<F: Fn(Vec<i64>) -> i64>(
    args: &mut Vec<Expression>,
    the_fn: F,
) -> (r: ReductionResult)
    requires
        all_wf(arg_models(old(args)@)),
        forall|v: Vec<i64>|
            values_match(arg_models(old(args)@), v@) ==> #[trigger] call_requires(the_fn, (v,)),
    ensures
        final(args)@.len() == old(args)@.len(),
        forall|i: int|
            0 <= i < old(args)@.len() ==> #[trigger] elem_model(final(args)@[i].element)
                == fold_node(arg_models(old(args)@)[i]),
        match r {
            ReductionResult::StayedInPlace => !all_numeric(arg_models(old(args)@)),
            ReductionResult::ReducedToNumber(n) => all_numeric(arg_models(old(args)@)) && (
            exists|v: Vec<i64>|
                values_match(arg_models(old(args)@), #[trigger] v@) && call_ensures(
                    the_fn,
                    (v,),
                    n,
                )),
        },
    decreases *old(args),
{
    let ghost ms = arg_models(old(args)@);
    let mut all_numbers: Vec<i64> = Vec::new();
    let mut all_reduced: bool = true;
    let mut i: usize = 0;
    while i < args.len()
        invariant
            ms == arg_models(old(args)@),
            args@.len() == ms.len(),
            i <= ms.len(),
            all_wf(ms),
            forall|v: Vec<i64>| values_match(ms, v@) ==> #[trigger] call_requires(the_fn, (v,)),
            forall|j: int| i <= j < ms.len() ==> args@[j] == old(args)@[j],
            forall|j: int|
                0 <= j < i ==> #[trigger] elem_model(args@[j].element) == fold_node(ms[j]),
            all_reduced == (forall|j: int| 0 <= j < i ==> value_of(#[trigger] ms[j]) is Some),
            all_reduced ==> all_numbers@.len() == i,
            all_reduced ==> forall|j: int|
                0 <= j < i ==> value_of(ms[j]) == Some(#[trigger] all_numbers@[j] as int),
        decreases ms.len() - i,
    {
        let mut arg = args.remove(i);
        proof {
            assert(arg == old(args)@[i as int]);
            assert(node_wf(ms[i as int]) && pass_ok(ms[i as int]));
        }
        match &mut arg.element {
            Element::Number(num) => {
                all_numbers.push(*num);
            },
            Element::Operator(op) => {
                proof {
                    assert(decreases_to!(*old(args) => old(args)@));
                    assert(decreases_to!(old(args)@ => old(args)@[i as int]));
                    assert(decreases_to!(old(args)@[i as int] => old(args)@[i as int].element));
                    assert(decreases_to!(
                        old(args)@[i as int].element => old(args)@[i as int].element->Operator_0));
                    assert(*op == old(args)@[i as int].element->Operator_0);
                }
                let res = op.reduce();
                match res {
                    ReductionResult::ReducedToNumber(num) => {
                        all_numbers.push(num);
                        arg.element = Element::Number(num);
                    },
                    ReductionResult::StayedInPlace => {
                        all_reduced = false;
                    },
                }
            },
            Element::Variable(_) => {
                all_reduced = false;
            },
        }
        args.insert(i, arg);
        i = i + 1;
    }
    if all_reduced {
        proof {
            assert(values_match(ms, all_numbers@));
        }
        let result = the_fn(all_numbers);
        ReductionResult::ReducedToNumber(result)
    } else {
        ReductionResult::StayedInPlace
    }
}

} // verus!
