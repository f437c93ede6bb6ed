//! The content node: the one type that document trees are built from.

use vstd::prelude::*;
use crate::bloc::Bloc;
use crate::equations::{clone_equation, elements_of, Equation};
use crate::error::LatexError;
use crate::into_tab::IntoTab;
use crate::latex_file::LatexFile;
use crate::math_mode::MathContent;
use crate::model::{BlocView, Node, SectionView, TagView};
use crate::render::render;
use crate::sections::{Rank, Section};
use crate::str_or_string::StrOrString;
use crate::tabular::Tabular;
use crate::tag::SingleTag;
use crate::writable::Writable;

verus! {

/// One node of a document tree.
#[derive(Debug, PartialEq)]
pub enum Core {
    Sec(Section),
    RawText(String),
    Equa(Equation),
    Bloc(Bloc),
    Tag(SingleTag),
    Tab(Tabular),
    Math(MathContent),
}

impl View for Core {
    type V = Node;

    open spec fn view(&self) -> Node
        decreases self,
    {
        match self {
            Core::Sec(section) => Node::Sec(section@),
            Core::RawText(text) => Node::RawText(text@),
            Core::Equa(eq) => Node::Equa(elements_of(eq@)),
            Core::Bloc(bloc) => Node::Bloc(bloc@),
            Core::Tag(tag) => Node::Tag(tag@),
            Core::Tab(tab) => Node::Tab(tab@),
            Core::Math(m) => Node::Math(m@),
        }
    }
}

/// The nodes that a sequence of values stands for, in the same order.
pub open spec fn nodes_of(items: Seq<Core>) -> Seq<Node>
    decreases items,
{
    if items.len() == 0 {
        Seq::empty()
    } else {
        nodes_of(items.drop_last()).push(items.last()@)
    }
}

/// The rows of nodes that a sequence of rows of values stands for.
pub open spec fn rows_of(rows: Seq<Vec<Core>>) -> Seq<Seq<Node>>
    decreases rows,
{
    if rows.len() == 0 {
        Seq::empty()
    } else {
        rows_of(rows.drop_last()).push(nodes_of(rows.last()@))
    }
}

/// `nodes_of` keeps the length and takes the view of each item in place.
pub proof fn lemma_nodes_of(items: Seq<Core>)
    ensures
        nodes_of(items).len() == items.len(),
        forall|i: int| 0 <= i < items.len() ==> (#[trigger] nodes_of(items)[i]) == items[i]@,
    decreases items.len(),
{
    if items.len() > 0 {
        lemma_nodes_of(items.drop_last());
        assert(nodes_of(items) == nodes_of(items.drop_last()).push(items.last()@));
    } else {
    }
}

/// `rows_of` keeps the length and takes the nodes of each row in place.
pub proof fn lemma_rows_of(rows: Seq<Vec<Core>>)
    ensures
        rows_of(rows).len() == rows.len(),
        forall|i: int| 0 <= i < rows.len() ==> (#[trigger] rows_of(rows)[i]) == nodes_of(rows[i]@),
    decreases rows.len(),
{
    if rows.len() > 0 {
        lemma_rows_of(rows.drop_last());
    }
}

/// Returns a copy of `items` that stands for the same nodes.
pub fn clone_nodes(items: &Vec<Core>) -> (r: Vec<Core>)
    ensures
        nodes_of(r@) == nodes_of(items@),
    decreases items,
{
    let mut out: Vec<Core> = Vec::new();
    let mut i: usize = 0;
    while i < items.len()
        invariant
            i <= items.len(),
            out@.len() == i,
            forall|k: int| 0 <= k < i ==> out@[k]@ == items@[k]@,
        decreases items.len() - i,
    {
        out.push(items[i].clone());
        i = i + 1;
    }
    proof {
        lemma_nodes_of(out@);
        lemma_nodes_of(items@);
    }
    out
}

/// Returns a copy of `rows` that stands for the same rows of nodes.
pub fn clone_rows(rows: &Vec<Vec<Core>>) -> (r: Vec<Vec<Core>>)
    ensures
        rows_of(r@) == rows_of(rows@),
    decreases rows,
{
    let mut out: Vec<Vec<Core>> = Vec::new();
    let mut i: usize = 0;
    while i < rows.len()
        invariant
            i <= rows.len(),
            out@.len() == i,
            forall|k: int| 0 <= k < i ==> nodes_of(out@[k]@) == nodes_of(rows@[k]@),
        decreases rows.len() - i,
    {
        out.push(clone_nodes(&rows[i]));
        i = i + 1;
    }
    proof {
        lemma_rows_of(out@);
        lemma_rows_of(rows@);
    }
    out
}

impl Clone for Core {
    fn clone(&self) -> (r: Self)
        ensures
            r@ == self@,
        decreases self,
    {
        match self {
            Core::Sec(section) => Core::Sec(section.clone()),
            Core::RawText(text) => Core::RawText(text.clone()),
            Core::Equa(eq) => Core::Equa(clone_equation(eq)),
            Core::Bloc(bloc) => Core::Bloc(bloc.clone()),
            Core::Tag(tag) => Core::Tag(tag.clone()),
            Core::Tab(tab) => Core::Tab(tab.clone()),
            Core::Math(m) => Core::Math(m.clone()),
        }
    }
}

impl Writable for Core {
    open spec fn latex(&self) -> Seq<char> {
        render(self@)
    }

    fn write_latex(&self, file: &mut LatexFile) {
        let mut writer = String::new();
        self.write_to_buffer(&mut writer);
        file.write_in_file(writer.as_str());
    }

    fn write_to_buffer(&self, buf: &mut String)
        decreases self,
    {
        match self {
            Core::Sec(section) => section.write_to_buffer(buf),
            Core::RawText(text) => text.write_to_buffer(buf),
            Core::Equa(eq) => eq.write_to_buffer(buf),
            Core::Bloc(bloc) => bloc.write_to_buffer(buf),
            Core::Tag(tag) => tag.write_to_buffer(buf),
            Core::Tab(tab) => tab.write_to_buffer(buf),
            Core::Math(m) => m.write_to_buffer(buf),
        }
    }
}

impl Core {
    /// Returns a new section
    pub fn section<T: StrOrString>(title: T) -> (r: Self)
        ensures
            r@ == Node::Sec(
                SectionView { title: title.text(), rank: Rank::Section, children: Seq::empty() },
            ),
    {
        Core::Sec(Section::new_section(title))
    }

    /// Returns a new subsection
    pub fn subsection<T: StrOrString>(title: T) -> (r: Self)
        ensures
            r@ == Node::Sec(
                SectionView { title: title.text(), rank: Rank::SubSection, children: Seq::empty() },
            ),
    {
        Core::Sec(Section::new_subsection(title))
    }

    /// Returns a new subsubsection
    pub fn subsubsection<T: StrOrString>(title: T) -> (r: Self)
        ensures
            r@ == Node::Sec(
                SectionView {
                    title: title.text(),
                    rank: Rank::SubSubSection,
                    children: Seq::empty(),
                },
            ),
    {
        Core::Sec(Section::new_subsubsection(title))
    }

    /// Returns a new paragraph
    pub fn paragraph<T: StrOrString>(title: T) -> (r: Self)
        ensures
            r@ == Node::Sec(
                SectionView { title: title.text(), rank: Rank::Paragraph, children: Seq::empty() },
            ),
    {
        Core::Sec(Section::new_paragraph(title))
    }

    /// Return a new text
    pub fn text<T: StrOrString>(raw_text: T) -> (r: Self)
        ensures
            r@ == Node::RawText(raw_text.text()),
    {
        Core::RawText(raw_text.convert_string())
    }

    /// Returns a new equation
    pub fn equation(eq: Equation) -> (r: Self)
        ensures
            r@ == Node::Equa(elements_of(eq@)),
    {
        Core::Equa(eq)
    }

    /// Returns a new Bloc
    pub fn bloc<T: StrOrString>(title: T) -> (r: Self)
        ensures
            r@ == Node::Bloc(BlocView { kind: title.text(), children: Seq::empty() }),
    {
        Core::Bloc(Bloc::new_empty(title))
    }

    /// Returns a new Tab, or an error if `content` has no row
    pub fn tab<T: IntoTab>(content: &T) -> (r: Result<Self, LatexError>)
        ensures
            content.grid().len() > 0 ==> (r matches Ok(c) && c@ == Node::Tab(content.grid())),
            content.grid().len() == 0 ==> (r matches Err(e) && e
                == LatexError::InvalidConstructionArgument),
    {
        match Tabular::new(content) {
            Ok(tab) => Ok(Core::Tab(tab)),
            Err(e) => Err(e),
        }
    }

    /// Returns a new \item tag
    pub fn item(content: Core) -> (r: Self)
        ensures
            r@ == Node::Tag(TagView { name: "item"@, child: Box::new(content@) }),
    {
        Core::Tag(SingleTag::item(content))
    }

    /// Return a math mode element
    pub fn math<T: StrOrString>(content: T) -> (r: Self)
        ensures
            r@ == Node::Math(content.text()),
    {
        Core::Math(MathContent::new(content.convert_string()))
    }

    /// Adds an element after the present children of a section or a bloc,
    /// and reports an error for every other node, which is left as it was.
    pub fn add(&mut self, element: Core) -> (r: Result<(), LatexError>)
        ensures
            old(self)@.accepts_children() ==> r is Ok && final(self)@ == old(self)@.with_child(
                element@,
            ),
            !old(self)@.accepts_children() ==> r == Err::<(), LatexError>(
                LatexError::UnsupportedOperation,
            ) && final(self)@ == old(self)@,
            final(self)@.children().len() == old(self)@.children().len() + if r is Ok {
                1int
            } else {
                0int
            },
    {
        match self {
            Core::Sec(section) => {
                section.add_content(element);
                Ok(())
            },
            Core::Bloc(bloc) => {
                bloc.add(element);
                Ok(())
            },
            _ => Err(LatexError::UnsupportedOperation),
        }
    }
}

} // verus!
