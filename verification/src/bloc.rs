//! Environments: content between a `\\begin` and an `\\end` of one kind.

use vstd::prelude::*;
use vstd::string::StringExecFns;
use crate::content::{clone_nodes, lemma_nodes_of, nodes_of, Core};
use crate::latex_file::LatexFile;
use crate::model::BlocView;
use crate::render::{env_begin, lemma_render_all_take, render_all, render_bloc};
use crate::str_or_string::StrOrString;
use crate::writable::Writable;

verus! {

/// An environment, for example \begin{center}...\end{center}
#[derive(Debug, PartialEq)]
pub struct Bloc {
    /// The type of the Bloc
    bloc_type: String,
    /// The content in the Bloc
    content: Vec<Core>,
}

impl View for Bloc {
    type V = BlocView;

    closed spec fn view(&self) -> BlocView
        decreases self,
    {
        BlocView { kind: self.bloc_type@, children: nodes_of(self.content@) }
    }
}

impl Clone for Bloc {
    fn clone(&self) -> (r: Self)
        ensures
            r@ == self@,
        decreases self,
    {
        Bloc { bloc_type: self.bloc_type.clone(), content: clone_nodes(&self.content) }
    }
}

impl Bloc {
    /// Returns a new Bloc
    pub fn new<T: StrOrString>(bloc_type: T, content: Vec<Core>) -> (r: Self)
        ensures
            r@ == (BlocView { kind: bloc_type.text(), children: nodes_of(content@) }),
    {
        Bloc { bloc_type: bloc_type.convert_string(), content: content }
    }

    /// Returns a new Bloc with an empty body
    pub fn new_empty<T: StrOrString>(bloc_type: T) -> (r: Self)
        ensures
            r@ == (BlocView { kind: bloc_type.text(), children: Seq::empty() }),
    {
        Bloc { bloc_type: bloc_type.convert_string(), content: Vec::new() }
    }

    /// Adds an element to the content of the bloc
    pub fn add(&mut self, element: Core)
        ensures
            final(self)@ == old(self)@.with_child(element@),
    {
        proof {
            assert(self.content@.push(element).drop_last() =~= self.content@);
        }
        self.content.push(element);
    }

    /// Returns the content of the bloc, in the order in which it was added.
    pub fn content(&self) -> (r: &Vec<Core>)
        ensures
            nodes_of(r@) == self@.children,
    {
        &self.content
    }
}

impl Writable for Bloc {
    open spec fn latex(&self) -> Seq<char> {
        render_bloc(self@)
    }

    fn write_latex(&self, file: &mut LatexFile) {
        let mut writer = String::new();
        self.write_to_buffer(&mut writer);
        file.write_in_file(writer.as_str());
    }

    fn write_to_buffer(&self, buf: &mut String)
        decreases self,
    {
        let ghost start = buf@;
        let ghost children = self@.children;
        buf.append("\\begin{");
        buf.append(self.bloc_type.as_str());
        buf.append("}");
        buf.append("\n");
        let mut i: usize = 0;
        proof {
            lemma_nodes_of(self.content@);
        }
        while i < self.content.len()
            invariant
                i <= self.content.len(),
                children == nodes_of(self.content@),
                children.len() == self.content.len(),
                forall|k: int| 0 <= k < children.len() ==> children[k] == self.content[k]@,
                buf@ == start + env_begin(self@.kind) + "\n"@ + render_all(children.take(i as int)),
            decreases self.content.len() - i,
        {
            self.content[i].write_to_buffer(buf);
            proof {
                lemma_render_all_take(children, i as int);
            }
            i = i + 1;
        }
        proof {
            assert(children.take(i as int) =~= children);
        }
        buf.append("\\end{");
        buf.append(self.bloc_type.as_str());
        buf.append("}\n");
    }
}

} // verus!
