//! Listings of source code that lives in a file of its own.

use vstd::prelude::*;
use vstd::string::StringExecFns;
use crate::latex_file::LatexFile;
use crate::writable::Writable;

verus! {

/// What a [`Code`] stands for: the file to list and its language.
pub struct CodeView {
    pub filename: Seq<char>,
    pub language: Seq<char>,
}

impl CodeView {
    /// The line that asks for the listing of the file.
    pub open spec fn listing(self) -> Seq<char> {
        "\\lstinputlisting[language="@ + self.language + "]{"@ + self.filename + "}\n"@
    }
}

/// Source code to be listed from a file of its own.
#[derive(Debug, PartialEq)]
pub struct Code {
    filename: String,
    language: String,
}

impl View for Code {
    type V = CodeView;

    closed spec fn view(&self) -> CodeView {
        CodeView { filename: self.filename@, language: self.language@ }
    }
}

impl Clone for Code {
    fn clone(&self) -> (r: Self)
        ensures
            r@ == self@,
    {
        Code { filename: self.filename.clone(), language: self.language.clone() }
    }
}

impl Code {
    /// Returns a new Code struct
    pub fn new(filename: String, language: String) -> (r: Self)
        ensures
            r@ == (CodeView { filename: filename@, language: language@ }),
    {
        Code { filename, language }
    }
}

impl Writable for Code {
    open spec fn latex(&self) -> Seq<char> {
        self@.listing()
    }

    fn write_latex(&self, file: &mut LatexFile) {
        let mut writer = String::new();
        self.write_to_buffer(&mut writer);
        file.write_in_file(writer.as_str());
    }

    fn write_to_buffer(&self, buf: &mut String) {
        buf.append("\\lstinputlisting[language=");
        buf.append(self.language.as_str());
        buf.append("]{");
        buf.append(self.filename.as_str());
        buf.append("}\n");
    }
}

} // verus!
