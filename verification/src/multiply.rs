//! Binary multiplication, the reference arithmetic operator: arity two,
//! scalar combination by product, traversal and partial folding
//! inherited from the generic reduction helper.

use vstd::prelude::*;
use vstd::string::StringExecFns;

use crate::errors::WrongNumberOfArgumentsError;
use crate::expression::Element;
use crate::expression::Expression;
use crate::expression::elem_model;
use crate::model::Node;
use crate::model::fold_children;
use crate::model::fold_node;
use crate::model::node_reducible;
use crate::model::node_wf;
use crate::model::pass_ok;
use crate::model::render_node;
use crate::model::value_of;
use crate::operator::Operator;
use crate::operator::ReductionResult;
use crate::operator::all_numeric;
use crate::operator::arg_models;
use crate::operator::all_wf;
use crate::operator::reduce_ops_then_run_if_numeric;
use crate::operator::values_match;

verus! {

/// Multiplication of exactly two subexpressions.
#[derive(Debug)]
pub struct Multiply {
    /// The two argument subtrees, in order; fixed at construction.
    pub args: Vec<Expression>,
}

/// The mathematical tree a `Multiply` stands for.
pub open spec fn mult_model(m: Multiply) -> Node
    decreases m,
{
    if m.args@.len() == 2 {
        Node::Mul(seq![elem_model(m.args@[0].element), elem_model(m.args@[1].element)])
    } else {
        Node::Mul(Seq::empty())
    }
}

impl Operator for Multiply {
    open spec fn model(&self) -> Node {
        mult_model(*self)
    }

    open spec fn arity() -> usize {
        2
    }

    open spec fn node_of(children: Seq<Node>) -> Node {
        Node::Mul(children)
    }

    fn try_new(args: Vec<Expression>) -> (r: Result<Self, WrongNumberOfArgumentsError>) {
        if args.len() != 2 {
            Err(WrongNumberOfArgumentsError { expected: 2, actual: args.len() })
        } else {
            let m = Multiply { args };
            proof {
                assert(arg_models(m.args@)[0] == elem_model(m.args@[0].element));
                assert(arg_models(m.args@)[1] == elem_model(m.args@[1].element));
                assert(seq![
                    elem_model(m.args@[0].element),
                    elem_model(m.args@[1].element),
                ] =~= arg_models(m.args@));
                assert(mult_model(m) == Node::Mul(arg_models(m.args@)));
            }
            Ok(m)
        }
    }

    fn reduce(&mut self) -> (r: ReductionResult) {
        multiply_reduce(self)
    }

    fn is_reducible(&self) -> (r: bool) {
        multiply_is_reducible(self)
    }

    fn to_string(&self) -> (r: String) {
        render_multiply(self)
    }
}

/// One reduction step of a `Multiply`: fold both arguments, then take
/// the product when both became numeric.
pub(crate) fn multiply_reduce(m: &mut Multiply) -> (r: ReductionResult)
    requires
        node_wf(mult_model(*old(m))),
        pass_ok(mult_model(*old(m))),
    ensures
        mult_model(*final(m)) == fold_children(mult_model(*old(m))),
        match r {
            ReductionResult::ReducedToNumber(v) => value_of(mult_model(*old(m))) == Some(v as int),
            ReductionResult::StayedInPlace => value_of(mult_model(*old(m))) is None,
        },
    decreases *old(m),
{
    let ghost nm = mult_model(*old(m));
    let ghost ms = arg_models(old(m).args@);
    proof {
        assert(ms =~= nm->Mul_0);
        assert(all_wf(ms));
    }
    let the_fn = |vals: Vec<i64>| -> (p: i64)
        requires
            vals@.len() == 2,
            i64::MIN <= vals@[0] * vals@[1] <= i64::MAX,
        ensures
            p == vals@[0] * vals@[1],
        { vals[0] * vals[1] };
    proof {
        assert forall|v: Vec<i64>| values_match(ms, v@) implies #[trigger] call_requires(
            the_fn,
            (v,),
        ) by {
            assert(value_of(ms[0]) == Some(v@[0] as int));
            assert(value_of(ms[1]) == Some(v@[1] as int));
        }
    }
    let r = reduce_ops_then_run_if_numeric(&mut m.args, the_fn);
    proof {
        assert(elem_model(m.args@[0].element) == fold_node(ms[0]));
        assert(elem_model(m.args@[1].element) == fold_node(ms[1]));
        assert(mult_model(*m) =~= fold_children(nm));
        match r {
            ReductionResult::ReducedToNumber(n) => {
                let v = choose|v: Vec<i64>| values_match(ms, v@) && call_ensures(the_fn, (v,), n);
                assert(value_of(ms[0]) == Some(v@[0] as int));
                assert(value_of(ms[1]) == Some(v@[1] as int));
            },
            ReductionResult::StayedInPlace => {
                assert(!(value_of(ms[0]) is Some && value_of(ms[1]) is Some)) by {
                    if value_of(ms[0]) is Some && value_of(ms[1]) is Some {
                        assert(all_numeric(ms));
                    }
                }
            },
        }
    }
    r
}

/// Whether a `Multiply` can make progress: some argument operator can,
/// or both arguments are already number literals.
pub(crate) fn multiply_is_reducible(m: &Multiply) -> (r: bool)
    requires
        node_wf(mult_model(*m)),
    ensures
        r == node_reducible(mult_model(*m)),
    decreases *m,
{
    let first_reducible = match &m.args[0].element {
        Element::Operator(k) => {
            proof {
                assert(decreases_to!(*m => m.args));
                assert(decreases_to!(m.args => m.args@));
                assert(decreases_to!(m.args@ => m.args@[0]));
                assert(decreases_to!(m.args@[0] => m.args@[0].element));
                assert(decreases_to!(m.args@[0].element => m.args@[0].element->Operator_0));
            }
            k.is_reducible()
        },
        _ => false,
    };
    proof {
        assert(first_reducible == node_reducible(elem_model(m.args@[0].element)));
    }
    if first_reducible {
        return true;
    }
    let second_reducible = match &m.args[1].element {
        Element::Operator(k) => {
            proof {
                assert(decreases_to!(*m => m.args));
                assert(decreases_to!(m.args => m.args@));
                assert(decreases_to!(m.args@ => m.args@[1]));
                assert(decreases_to!(m.args@[1] => m.args@[1].element));
                assert(decreases_to!(m.args@[1].element => m.args@[1].element->Operator_0));
            }
            k.is_reducible()
        },
        _ => false,
    };
    proof {
        assert(second_reducible == node_reducible(elem_model(m.args@[1].element)));
    }
    if second_reducible {
        return true;
    }
    match (&m.args[0].element, &m.args[1].element) {
        (Element::Number(_), Element::Number(_)) => true,
        _ => false,
    }
}

/// The canonical debug rendering of a `Multiply`.
pub(crate) fn render_multiply(m: &Multiply) -> (r: String)
    requires
        node_wf(mult_model(*m)),
    ensures
        r@ == render_node(mult_model(*m)),
    decreases *m,
{
    let mut s = String::from_str("Multiply{");
    proof {
        assert(decreases_to!(*m => m.args));
        assert(decreases_to!(m.args => m.args@));
        assert(decreases_to!(m.args@ => m.args@[0]));
        assert(decreases_to!(m.args@[0] => m.args@[0].element));
    }
    let first = m.args[0].element.to_string();
    s.append(first.as_str());
    s.append(",");
    proof {
        assert(decreases_to!(m.args@ => m.args@[1]));
        assert(decreases_to!(m.args@[1] => m.args@[1].element));
    }
    let second = m.args[1].element.to_string();
    s.append(second.as_str());
    s.append("}");
    proof {
        assert(s@ =~= render_node(mult_model(*m)));
    }
    s
}

} // verus!
