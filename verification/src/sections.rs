//! Sections of the four ranks.

use vstd::prelude::*;
use vstd::string::StringExecFns;
use crate::content::{clone_nodes, lemma_nodes_of, nodes_of, Core};
use crate::error::LatexError;
use crate::latex_file::LatexFile;
use crate::model::SectionView;
use crate::render::{lemma_render_all_take, render_all, render_section, section_open};
use crate::str_or_string::StrOrString;
use crate::writable::Writable;

verus! {

/// How deep a section lies under the document.
#[derive(Debug, PartialEq, Eq, Clone, Copy, Structural)]
pub enum Rank {
    Section,
    SubSection,
    SubSubSection,
    Paragraph,
}

impl Rank {
    /// The rank with the given number: 0 for a section down to 3 for a
    /// paragraph, and none above that.
    pub open spec fn of_index(index: nat) -> Option<Rank> {
        if index == 0 {
            Some(Rank::Section)
        } else if index == 1 {
            Some(Rank::SubSection)
        } else if index == 2 {
            Some(Rank::SubSubSection)
        } else if index == 3 {
            Some(Rank::Paragraph)
        } else {
            None
        }
    }

    /// The LaTeX command that opens a section of this rank.
    pub open spec fn command(self) -> Seq<char> {
        match self {
            Rank::Section => "\\section"@,
            Rank::SubSection => "\\subsection"@,
            Rank::SubSubSection => "\\subsubsection"@,
            Rank::Paragraph => "\\paragraph"@,
        }
    }
}

/// A section of some rank: a title and the content under it.
#[derive(Debug, PartialEq)]
pub struct Section {
    /// The title of the section
    pub title: String,
    /// The rank, fixed when the section is made
    rank: Rank,
    /// The content of the section
    content: Vec<Core>,
}

impl View for Section {
    type V = SectionView;

    closed spec fn view(&self) -> SectionView
        decreases self,
    {
        SectionView { title: self.title@, rank: self.rank, children: nodes_of(self.content@) }
    }
}

impl Clone for Section {
    fn clone(&self) -> (r: Self)
        ensures
            r@ == self@,
        decreases self,
    {
        Section {
            title: self.title.clone(),
            rank: self.rank,
            content: clone_nodes(&self.content),
        }
    }
}

impl Section {
    /// Returns a new section of the rank with number `rank` and without
    /// content, or an error if there is no such rank.
    pub fn new<T: StrOrString>(title: T, rank: usize) -> (r: Result<Self, LatexError>)
        ensures
            match Rank::of_index(rank as nat) {
                Some(k) => r matches Ok(s) && s@ == (SectionView {
                    title: title.text(),
                    rank: k,
                    children: Seq::empty(),
                }),
                None => r matches Err(e) && e == LatexError::InvalidConstructionArgument,
            },
    {
        let rank = match rank {
            0 => Rank::Section,
            1 => Rank::SubSection,
            2 => Rank::SubSubSection,
            3 => Rank::Paragraph,
            _ => {
                return Err(LatexError::InvalidConstructionArgument);
            },
        };
        Ok(Section { title: title.convert_string(), rank, content: Vec::new() })
    }

    /// Returns a new section of the given rank without content.
    fn with_rank<T: StrOrString>(title: T, rank: Rank) -> (r: Self)
        ensures
            r@ == (SectionView { title: title.text(), rank, children: Seq::empty() }),
    {
        Section { title: title.convert_string(), rank, content: Vec::new() }
    }

    /// Returns a new Section
    pub fn new_section<T: StrOrString>(title: T) -> (r: Self)
        ensures
            r@ == (SectionView { title: title.text(), rank: Rank::Section, children: Seq::empty() }),
    {
        Section::with_rank(title, Rank::Section)
    }

    /// Returns a new SubSection
    pub fn new_subsection<T: StrOrString>(title: T) -> (r: Self)
        ensures
            r@ == (SectionView {
                title: title.text(),
                rank: Rank::SubSection,
                children: Seq::empty(),
            }),
    {
        Section::with_rank(title, Rank::SubSection)
    }

    /// Returns a new SubSubSection
    pub fn new_subsubsection<T: StrOrString>(title: T) -> (r: Self)
        ensures
            r@ == (SectionView {
                title: title.text(),
                rank: Rank::SubSubSection,
                children: Seq::empty(),
            }),
    {
        Section::with_rank(title, Rank::SubSubSection)
    }

    /// Returns a new Paragraph
    pub fn new_paragraph<T: StrOrString>(title: T) -> (r: Self)
        ensures
            r@ == (SectionView {
                title: title.text(),
                rank: Rank::Paragraph,
                children: Seq::empty(),
            }),
    {
        Section::with_rank(title, Rank::Paragraph)
    }

    /// Push some content in the section
    pub fn add_content(&mut self, new_content: Core)
        ensures
            final(self)@ == old(self)@.with_child(new_content@),
    {
        proof {
            assert(self.content@.push(new_content).drop_last() =~= self.content@);
        }
        self.content.push(new_content);
    }

    /// Changes the title of the Section
    pub fn change_title<T: StrOrString>(&mut self, new_title: T)
        ensures
            final(self)@ == (SectionView {
                title: new_title.text(),
                rank: old(self)@.rank,
                children: old(self)@.children,
            }),
    {
        self.title = new_title.convert_string();
    }

    /// Returns the title of the section
    pub fn get_title(&self) -> (r: &String)
        ensures
            r@ == self@.title,
    {
        &self.title
    }

    /// Returns the content of the section, in the order in which it was
    /// added.
    pub fn content(&self) -> (r: &Vec<Core>)
        ensures
            nodes_of(r@) == self@.children,
    {
        &self.content
    }

    /// Return the string corresponding on the rank
    pub fn type_of_section(&self) -> (r: &'static str)
        ensures
            r@ == self@.rank.command(),
    {
        match self.rank {
            Rank::Section => "\\section",
            Rank::SubSection => "\\subsection",
            Rank::SubSubSection => "\\subsubsection",
            Rank::Paragraph => "\\paragraph",
        }
    }
}

impl Writable for Section {
    open spec fn latex(&self) -> Seq<char> {
        render_section(self@)
    }

    fn write_latex(&self, file: &mut LatexFile) {
        let mut writer = String::new();
        self.write_to_buffer(&mut writer);
        file.write_in_file(writer.as_str());
    }

    fn write_to_buffer(&self, buf: &mut String)
        decreases self,
    {
        let ghost start = buf@;
        let ghost children = self@.children;
        buf.append(self.type_of_section());
        buf.append("{");
        buf.append(self.title.as_str());
        buf.append("}\n");
        let mut i: usize = 0;
        proof {
            lemma_nodes_of(self.content@);
        }
        while i < self.content.len()
            invariant
                i <= self.content.len(),
                children == nodes_of(self.content@),
                children.len() == self.content.len(),
                forall|k: int| 0 <= k < children.len() ==> children[k] == self.content[k]@,
                buf@ == start + section_open(self@) + render_all(children.take(i as int)),
            decreases self.content.len() - i,
        {
            self.content[i].write_to_buffer(buf);
            proof {
                lemma_render_all_take(children, i as int);
            }
            i = i + 1;
        }
        proof {
            assert(children.take(i as int) =~= children);
        }
        buf.append("\n\n");
    }
}

} // verus!
