//! Writing values into a buffer or a document.

use vstd::prelude::*;
use vstd::string::StringExecFns;
use crate::latex_file::LatexFile;

verus! {

/// What can be written into a LaTeX document.
pub trait Writable {
    /// The LaTeX text of the value.
    spec fn latex(&self) -> Seq<char>;

    /// Writes the value at the end of `file`.
    fn write_latex(&self, file: &mut LatexFile)
        ensures
            final(file)@ == old(file)@.emit(self.latex()),
    ;

    /// Writes the value at the end of `buf`.
    fn write_to_buffer(&self, buf: &mut String)
        ensures
            final(buf)@ == old(buf)@ + self.latex(),
    ;
}

impl Writable for String {
    open spec fn latex(&self) -> Seq<char> {
        self@
    }

    fn write_latex(&self, file: &mut LatexFile) {
        let mut writer = String::new();
        self.write_to_buffer(&mut writer);
        file.write_in_file(writer.as_str());
    }

    fn write_to_buffer(&self, buf: &mut String) {
        buf.append(self.as_str());
    }
}

} // verus!
