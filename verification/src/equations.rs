//! Displayed equations and the elements they are made of.

use vstd::prelude::*;
use vstd::string::StringExecFns;
use crate::latex_file::LatexFile;
use crate::model::Element;
use crate::operators::Operators;
use crate::render::{env_begin, lemma_render_elements_take, render_elements, render_equation};
use crate::str_or_string::StrOrString;
use crate::symbols::{is_op, lemma_symbol_tokens, Symbols};
use crate::writable::Writable;

verus! {

/// One element of an equation.
#[derive(Debug, PartialEq)]
pub enum EquationElements {
    Text(String),
    Symb(Symbols),
    Operator(Operators),
}

impl View for EquationElements {
    type V = Element;

    open spec fn view(&self) -> Element {
        match self {
            EquationElements::Text(s) => Element::Text(s@),
            EquationElements::Symb(s) => Element::Symb(*s),
            EquationElements::Operator(op) => Element::Operator(op@),
        }
    }
}

impl Clone for EquationElements {
    fn clone(&self) -> (r: Self)
        ensures
            r@ == self@,
    {
        match self {
            EquationElements::Text(s) => EquationElements::Text(s.clone()),
            EquationElements::Symb(s) => EquationElements::Symb(*s),
            EquationElements::Operator(op) => EquationElements::Operator(op.clone()),
        }
    }
}

impl EquationElements {
    /// Reads a raw token: one of the eight symbol tokens becomes its symbol,
    /// every other string becomes text.
    pub fn get_enum(elem: String) -> (r: Self)
        ensures
            r@ == Element::classify(elem@),
    {
        proof {
            lemma_symbol_tokens(elem@);
        }
        if is_op(&elem) {
            EquationElements::Symb(Symbols::get_symbol(elem).unwrap())
        } else {
            EquationElements::Text(elem)
        }
    }
}

/// An equation: its elements from left to right.
pub type Equation = Vec<EquationElements>;

/// The elements that a sequence of values stands for, in the same order.
pub open spec fn elements_of(items: Seq<EquationElements>) -> Seq<Element> {
    items.map_values(|e: EquationElements| e@)
}

/// Returns a copy of `eq` that stands for the same elements.
pub fn clone_equation(eq: &Equation) -> (r: Equation)
    ensures
        elements_of(r@) == elements_of(eq@),
{
    let mut out: Vec<EquationElements> = Vec::new();
    let mut i: usize = 0;
    while i < eq.len()
        invariant
            i <= eq.len(),
            out@.len() == i,
            forall|k: int| 0 <= k < i ==> out@[k]@ == eq@[k]@,
        decreases eq.len() - i,
    {
        out.push(eq[i].clone());
        i = i + 1;
    }
    out
}

/// Returns an Equation from a vector of tokens, each read as
/// [`EquationElements::get_enum`] reads it.
pub fn new_equation<T: StrOrString>(vec: &Vec<T>) -> (r: Equation)
    ensures
        elements_of(r@) == vec@.map_values(|t: T| Element::classify(t.text())),
{
    let mut out: Vec<EquationElements> = Vec::new();
    let mut i: usize = 0;
    while i < vec.len()
        invariant
            i <= vec.len(),
            out@.len() == i,
            forall|k: int| 0 <= k < i ==> out@[k]@ == Element::classify(vec@[k].text()),
        decreases vec.len() - i,
    {
        out.push(EquationElements::get_enum(vec[i].convert_string()));
        i = i + 1;
    }
    out
}

impl Writable for EquationElements {
    open spec fn latex(&self) -> Seq<char> {
        self@.fragment() + " "@
    }

    fn write_latex(&self, file: &mut LatexFile) {
        let mut writer = String::new();
        self.write_to_buffer(&mut writer);
        file.write_in_file(writer.as_str());
    }

    fn write_to_buffer(&self, buf: &mut String) {
        match self {
            EquationElements::Text(s) => {
                buf.append(s.as_str());
            },
            EquationElements::Symb(s) => {
                buf.append(s.latex_code().as_str());
            },
            EquationElements::Operator(s) => {
                buf.append(s.latex_code().as_str());
            },
        }
        buf.append(" ");
    }
}

impl Writable for Equation {
    open spec fn latex(&self) -> Seq<char> {
        render_equation(elements_of(self@))
    }

    fn write_latex(&self, file: &mut LatexFile) {
        let mut writer = String::new();
        self.write_to_buffer(&mut writer);
        file.write_in_file(writer.as_str());
    }

    fn write_to_buffer(&self, buf: &mut String) {
        let ghost start = buf@;
        let ghost elements = elements_of(self@);
        buf.append("\\begin{");
        buf.append("equation");
        buf.append("}");
        buf.append("\n\\displaystyle ");
        let mut i: usize = 0;
        while i < self.len()
            invariant
                i <= self.len(),
                elements == elements_of(self@),
                buf@ == start + env_begin("equation"@) + "\n\\displaystyle "@ + render_elements(
                    elements.take(i as int),
                ),
            decreases self.len() - i,
        {
            self[i].write_to_buffer(buf);
            proof {
                lemma_render_elements_take(elements, i as int);
            }
            i = i + 1;
        }
        proof {
            assert(elements.take(i as int) =~= elements);
        }
        buf.append("\n");
        buf.append("\\end{");
        buf.append("equation");
        buf.append("}\n");
    }
}

} // verus!
