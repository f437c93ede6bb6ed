//! Commands applied to one node.

use vstd::prelude::*;
use vstd::string::StringExecFns;
use crate::content::Core;
use crate::latex_file::LatexFile;
use crate::model::TagView;
use crate::render::render_tag;
use crate::writable::Writable;

verus! {

/// A command applied to one node, such as `\item`.
#[derive(Debug, PartialEq)]
pub struct SingleTag {
    /// Name of the Tag
    name: String,
    /// The content of the tag
    content: Box<Core>,
}

impl View for SingleTag {
    type V = TagView;

    closed spec fn view(&self) -> TagView
        decreases self,
    {
        TagView { name: self.name@, child: Box::new((*self.content)@) }
    }
}

impl Clone for SingleTag {
    fn clone(&self) -> (r: Self)
        ensures
            r@ == self@,
        decreases self,
    {
        let inner: &Core = &*self.content;
        SingleTag { name: self.name.clone(), content: Box::new(inner.clone()) }
    }
}

impl SingleTag {
    /// Returns a new SingleTag
    pub fn new(name: String, content: Core) -> (r: Self)
        ensures
            r@ == (TagView { name: name@, child: Box::new(content@) }),
    {
        SingleTag { name, content: Box::new(content) }
    }

    /// Returns a \item tag
    pub fn item(content: Core) -> (r: Self)
        ensures
            r@ == (TagView { name: "item"@, child: Box::new(content@) }),
    {
        SingleTag::new(String::from_str("item"), content)
    }
}

impl Writable for SingleTag {
    open spec fn latex(&self) -> Seq<char> {
        render_tag(self@)
    }

    fn write_latex(&self, file: &mut LatexFile) {
        let mut writer = String::new();
        self.write_to_buffer(&mut writer);
        file.write_in_file(writer.as_str());
    }

    fn write_to_buffer(&self, buf: &mut String)
        decreases self,
    {
        buf.append("\\");
        buf.append(self.name.as_str());
        buf.append(" ");
        self.content.write_to_buffer(buf);
        buf.append("\n");
    }
}

} // verus!
