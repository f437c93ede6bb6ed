//! Pieces of an expression.

use vstd::prelude::*;
use crate::decimal::push_decimal;
use crate::model::Term;

verus! {

/// A piece of an expression: a string or an integer.
#[derive(Debug, PartialEq)]
pub enum Expression {
    Str(String),
    Int(i32),
}

impl View for Expression {
    type V = Term;

    open spec fn view(&self) -> Term {
        match self {
            Expression::Str(s) => Term::Var(s@),
            Expression::Int(i) => Term::Imm(*i as int),
        }
    }
}

impl Expression {
    /// Returns the expression as it is displayed: a string as it is, an
    /// integer in decimal.
    pub fn to_string(&self) -> (r: String)
        ensures
            r@ == self@.text(),
    {
        match self {
            Expression::Str(s) => s.clone(),
            Expression::Int(i) => {
                let mut out = String::new();
                push_decimal(&mut out, *i);
                out
            },
        }
    }
}

} // verus!
