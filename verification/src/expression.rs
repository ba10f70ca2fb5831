//! Expression trees: a node holds a number literal, a named variable,
//! or an operator application owning its argument subtrees.

use vstd::prelude::*;
use vstd::string::StringExecFns;

use crate::model::Node;
use crate::model::node_wf;
use crate::model::pass_ok;
use crate::model::fold_children;
use crate::model::value_of;
use crate::model::node_reducible;
use crate::model::render_node;
use crate::multiply::Multiply;
use crate::multiply::mult_model;
use crate::multiply::multiply_is_reducible;
use crate::multiply::multiply_reduce;
use crate::multiply::render_multiply;
use crate::operator::ReductionResult;
use crate::render::push_int;

verus! {

/// A single node of an algebraic tree, together with everything beneath
/// it.
#[derive(Debug)]
pub struct Expression {
    pub element: Element,
}

/// The content of an `Expression`: a terminal literal, a terminal
/// variable, or an operator owning its arguments.
#[derive(Debug)]
pub enum Element {
    /// An operator application, the only internal node kind.
    Operator(OperatorKind),
    /// A scalar literal; always fully reduced.
    Number(i64),
    /// An unbound symbol; never auto-reduces.
    Variable(String),
}

/// The closed set of operator kinds the engine knows.  Adding an
/// operator means adding a variant here and matching it wherever
/// operators are inspected.
#[derive(Debug)]
pub enum OperatorKind {
    /// Binary multiplication.
    Multiply(Multiply),
}

/// The mathematical tree an element stands for.
pub open spec fn elem_model(e: Element) -> Node
    decreases e,
{
    match e {
        Element::Operator(k) => kind_model(k),
        Element::Number(v) => Node::Num(v as int),
        Element::Variable(s) => Node::Var(s@),
    }
}

/// The mathematical tree an operator stands for.
pub open spec fn kind_model(k: OperatorKind) -> Node
    decreases k,
{
    match k {
        OperatorKind::Multiply(m) => mult_model(m),
    }
}

impl Expression {
    /// Wraps an element; validation is the operator constructors' job.
    pub fn new(element: Element) -> (r: Self)
        ensures
            r.element == element,
    {
        Expression { element }
    }

    /// The canonical debug rendering of the whole tree.
    pub fn to_string(&self) -> (r: String)
        requires
            node_wf(elem_model(self.element)),
        ensures
            r@ == render_node(elem_model(self.element)),
    {
        self.element.to_string()
    }
}

impl Element {
    /// The canonical debug rendering: `Number{v}`, `Variable{name}`, or
    /// `OperatorName{arg,arg}`.
    pub fn to_string(&self) -> (r: String)
        requires
            node_wf(elem_model(*self)),
        ensures
            r@ == render_node(elem_model(*self)),
        decreases *self,
    {
        match self {
            Element::Number(num) => {
                let mut s = String::from_str("Number{");
                push_int(&mut s, *num);
                s.append("}");
                s
            },
            Element::Variable(name) => {
                let mut s = String::from_str("Variable{");
                s.append(name.as_str());
                s.append("}");
                s
            },
            Element::Operator(k) => k.to_string(),
        }
    }
}

impl OperatorKind {
    /// One reduction step, dispatched over the closed operator set.
    pub fn reduce(&mut self) -> (r: ReductionResult)
        requires
            node_wf(kind_model(*old(self))),
            pass_ok(kind_model(*old(self))),
        ensures
            kind_model(*final(self)) == fold_children(kind_model(*old(self))),
            match r {
                ReductionResult::ReducedToNumber(v) => value_of(kind_model(*old(self))) == Some(
                    v as int,
                ),
                ReductionResult::StayedInPlace => value_of(kind_model(*old(self))) is None,
            },
        decreases *old(self),
    {
        match self {
            OperatorKind::Multiply(m) => multiply_reduce(m),
        }
    }

    /// Whether this operator can still make progress.
    pub fn is_reducible(&self) -> (r: bool)
        requires
            node_wf(kind_model(*self)),
        ensures
            r == node_reducible(kind_model(*self)),
        decreases *self,
    {
        match self {
            OperatorKind::Multiply(m) => multiply_is_reducible(m),
        }
    }

    /// The canonical debug rendering of this operator.
    pub fn to_string(&self) -> (r: String)
        requires
            node_wf(kind_model(*self)),
        ensures
            r@ == render_node(kind_model(*self)),
        decreases *self,
    {
        match self {
            OperatorKind::Multiply(m) => render_multiply(m),
        }
    }
}

} // verus!
