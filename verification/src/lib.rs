//! A small symbolic expression engine.
//!
//! Expressions are trees of number literals, named variables, and n-ary
//! operator applications (currently `Multiply`).  The engine repeatedly
//! rewrites ("reduces") a tree toward a more evaluated form: one call of
//! `reduce` folds every fully numeric subtree into a single number, and
//! reports whether the whole tree collapsed to a scalar or an operator
//! node had to stay in place.

pub mod errors;
pub mod expression;
pub mod model;
pub mod multiply;
pub mod operator;
pub mod render;
