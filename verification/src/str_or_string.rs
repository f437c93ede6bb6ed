//! Borrowed and owned text under one trait.

use vstd::prelude::*;
use vstd::string::StringExecFns;

verus! {

/// Text that can be handed over either borrowed or owned.
pub trait StrOrString {
    /// The characters of the text.
    spec fn text(&self) -> Seq<char>;

    /// An owned copy of the text.
    fn convert_string(&self) -> (s: String)
        ensures
            s@ == self.text(),
    ;
}

impl<'a> StrOrString for &'a str {
    open spec fn text(&self) -> Seq<char> {
        self@
    }

    fn convert_string(&self) -> (s: String) {
        String::from_str(*self)
    }
}

impl StrOrString for String {
    open spec fn text(&self) -> Seq<char> {
        self@
    }

    fn convert_string(&self) -> (s: String) {
        self.clone()
    }
}

} // verus!
