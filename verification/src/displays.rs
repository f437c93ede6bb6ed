//! Small pieces of LaTeX text made from strings.

use vstd::prelude::*;
use vstd::string::StringExecFns;
use crate::str_or_string::StrOrString;

verus! {

/// The text of a fraction with the given numerator and denominator.
pub open spec fn frac_text(top: Seq<char>, bottom: Seq<char>) -> Seq<char> {
    "\\frac{"@ + top + "}{"@ + bottom + "}"@
}

/// The text of `text` set in a typewriter face.
pub open spec fn texttt_text(text: Seq<char>) -> Seq<char> {
    "\\texttt{"@ + text + "}"@
}

/// The text of a command with one optional and one mandatory argument.
pub open spec fn two_args_text(name: Seq<char>, arg1: Seq<char>, arg2: Seq<char>) -> Seq<char> {
    "\\"@ + name + "["@ + arg1 + "]{"@ + arg2 + "}"@
}

/// Returns the `\frac` of the two arguments.
pub fn frac<A: StrOrString, B: StrOrString>(top: A, bottom: B) -> (r: String)
    ensures
        r@ == frac_text(top.text(), bottom.text()),
{
    let mut out = String::from_str("\\frac{");
    out.append(top.convert_string().as_str());
    out.append("}{");
    out.append(bottom.convert_string().as_str());
    out.append("}");
    out
}

/// Returns `text` wrapped in `\texttt`.
pub fn texttt<T: StrOrString>(text: T) -> (r: String)
    ensures
        r@ == texttt_text(text.text()),
{
    let mut out = String::from_str("\\texttt{");
    out.append(text.convert_string().as_str());
    out.append("}");
    out
}

/// Returns the command `\name[arg1]{arg2}`.
pub fn two_args<A: StrOrString, B: StrOrString, C: StrOrString>(name: A, arg1: B, arg2: C) -> (r:
    String)
    ensures
        r@ == two_args_text(name.text(), arg1.text(), arg2.text()),
{
    let mut out = String::from_str("\\");
    out.append(name.convert_string().as_str());
    out.append("[");
    out.append(arg1.convert_string().as_str());
    out.append("]{");
    out.append(arg2.convert_string().as_str());
    out.append("}");
    out
}

} // verus!
