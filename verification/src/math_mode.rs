//! Mathematics inside a line of text.

use vstd::prelude::*;
use vstd::string::StringExecFns;
use crate::latex_file::LatexFile;
use crate::render::render_math;
use crate::writable::Writable;

verus! {

/// Mathematics set inside a line of text.
#[derive(Debug, PartialEq)]
pub struct MathContent {
    content: String,
}

impl View for MathContent {
    type V = Seq<char>;

    closed spec fn view(&self) -> Seq<char> {
        self.content@
    }
}

impl Clone for MathContent {
    fn clone(&self) -> (r: Self)
        ensures
            r@ == self@,
    {
        MathContent { content: self.content.clone() }
    }
}

impl MathContent {
    /// Returns `content` as inline mathematics.
    pub fn new(content: String) -> (r: Self)
        ensures
            r@ == content@,
    {
        MathContent { content }
    }
}

impl Writable for MathContent {
    open spec fn latex(&self) -> Seq<char> {
        render_math(self@)
    }

    fn write_latex(&self, file: &mut LatexFile) {
        let mut writer = String::new();
        self.write_to_buffer(&mut writer);
        file.write_in_file(writer.as_str());
    }

    fn write_to_buffer(&self, buf: &mut String) {
        buf.append("$");
        buf.append(self.content.as_str());
        buf.append("$");
    }
}

} // verus!
