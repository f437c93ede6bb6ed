//! Big operators and the terms under and over them.

use vstd::prelude::*;
use vstd::string::StringExecFns;
use crate::decimal::push_decimal;
use crate::latex_file::LatexFile;
use crate::model::{OperatorKind, Operation, Term};
use crate::writable::Writable;

verus! {

/// A variable name or an immediate integer.
#[derive(Debug, PartialEq)]
pub enum VarOrImm {
    Var(String),
    Imm(i32),
}

impl View for VarOrImm {
    type V = Term;

    open spec fn view(&self) -> Term {
        match self {
            VarOrImm::Var(name) => Term::Var(name@),
            VarOrImm::Imm(i) => Term::Imm(*i as int),
        }
    }
}

impl Clone for VarOrImm {
    fn clone(&self) -> (r: Self)
        ensures
            r@ == self@,
    {
        match self {
            VarOrImm::Var(name) => VarOrImm::Var(name.clone()),
            VarOrImm::Imm(i) => VarOrImm::Imm(*i),
        }
    }
}

/// What can be turned into a [`VarOrImm`].
pub trait VarOrImmTrait {
    /// The term the value stands for.
    spec fn term(&self) -> Term;

    /// Returns the value as a name or an integer.
    fn to_var_or_imm(&self) -> (r: VarOrImm)
        ensures
            r@ == self.term(),
    ;
}

impl<'a> VarOrImmTrait for &'a str {
    open spec fn term(&self) -> Term {
        Term::Var(self@)
    }

    fn to_var_or_imm(&self) -> (r: VarOrImm) {
        VarOrImm::Var(String::from_str(*self))
    }
}

impl VarOrImmTrait for i32 {
    open spec fn term(&self) -> Term {
        Term::Imm(*self as int)
    }

    fn to_var_or_imm(&self) -> (r: VarOrImm) {
        VarOrImm::Imm(*self)
    }
}

impl VarOrImm {
    /// Returns the term that `v` stands for.
    pub fn new<T: VarOrImmTrait>(v: T) -> (r: Self)
        ensures
            r@ == v.term(),
    {
        v.to_var_or_imm()
    }

    /// Returns the text the term is written as.
    pub fn get_val(&self) -> (r: String)
        ensures
            r@ == self@.text(),
    {
        match self {
            VarOrImm::Var(x) => x.clone(),
            VarOrImm::Imm(x) => {
                let mut out = String::new();
                push_decimal(&mut out, *x);
                out
            },
        }
    }
}

/// A big operator over a running variable.
#[derive(Debug, PartialEq)]
pub enum Operators {
    /// Sum(variable, begin, end)
    Sum(VarOrImm, VarOrImm, VarOrImm),
    /// Product(variable, begin, end)
    Product(VarOrImm, VarOrImm, VarOrImm),
}

impl View for Operators {
    type V = Operation;

    open spec fn view(&self) -> Operation {
        match self {
            Operators::Sum(v, b, e) => Operation {
                kind: OperatorKind::Sum,
                variable: v@,
                begin: b@,
                end: e@,
            },
            Operators::Product(v, b, e) => Operation {
                kind: OperatorKind::Product,
                variable: v@,
                begin: b@,
                end: e@,
            },
        }
    }
}

impl Clone for Operators {
    fn clone(&self) -> (r: Self)
        ensures
            r@ == self@,
    {
        match self {
            Operators::Sum(v, b, e) => Operators::Sum(v.clone(), b.clone(), e.clone()),
            Operators::Product(v, b, e) => Operators::Product(v.clone(), b.clone(), e.clone()),
        }
    }
}

impl Operators {
    /// Returns the LaTeX command of the operator's glyph.
    pub fn latex_code_op(&self) -> (r: &'static str)
        ensures
            r@ == self@.kind.glyph(),
    {
        match self {
            Operators::Sum(_, _, _) => "\\sum",
            Operators::Product(_, _, _) => "\\prod",
        }
    }

    /// Returns the running variable of the operator.
    pub fn variable(&self) -> (r: &VarOrImm)
        ensures
            r@ == self@.variable,
    {
        match self {
            Operators::Sum(v, _, _) => v,
            Operators::Product(v, _, _) => v,
        }
    }

    /// Returns the lower bound of the operator.
    pub fn begin(&self) -> (r: &VarOrImm)
        ensures
            r@ == self@.begin,
    {
        match self {
            Operators::Sum(_, b, _) => b,
            Operators::Product(_, b, _) => b,
        }
    }

    /// Returns the upper bound of the operator.
    pub fn end(&self) -> (r: &VarOrImm)
        ensures
            r@ == self@.end,
    {
        match self {
            Operators::Sum(_, _, e) => e,
            Operators::Product(_, _, e) => e,
        }
    }

    /// Returns the LaTeX text of the operator.
    pub fn latex_code(&self) -> (r: String)
        ensures
            r@ == self@.latex_code(),
    {
        let mut out = String::from_str(self.latex_code_op());
        out.append("_{");
        out.append(self.variable().get_val().as_str());
        out.append(" = ");
        out.append(self.begin().get_val().as_str());
        out.append("}^{");
        out.append(self.end().get_val().as_str());
        out.append("}");
        out
    }
}

impl Writable for Operators {
    open spec fn latex(&self) -> Seq<char> {
        self@.latex_code()
    }

    fn write_latex(&self, file: &mut LatexFile) {
        let mut writer = String::new();
        self.write_to_buffer(&mut writer);
        file.write_in_file(writer.as_str());
    }

    fn write_to_buffer(&self, buf: &mut String) {
        buf.append(self.latex_code().as_str());
    }
}

} // verus!
