//! The mathematical values that the library's types stand for.
//!
//! Contracts speak of these: a `String` is seen as its sequence of
//! characters, a `Vec` as a sequence, and a tree of `Core` values as a tree
//! of [`Node`] values.

use vstd::prelude::*;
use crate::decimal::decimal;
use crate::sections::Rank;
use crate::symbols::{is_op_token, lemma_symbol_idempotent, Symbols};

verus! {

/// A bound or a variable of an operator: a name or an integer.
pub enum Term {
    Var(Seq<char>),
    Imm(int),
}

impl Term {
    /// The text a term is written as: a name as it is, an integer in decimal.
    pub open spec fn text(self) -> Seq<char> {
        match self {
            Term::Var(name) => name,
            Term::Imm(i) => decimal(i),
        }
    }
}

/// Which big operator is meant.
pub enum OperatorKind {
    Sum,
    Product,
}

impl OperatorKind {
    /// The LaTeX command of the operator's glyph.
    pub open spec fn glyph(self) -> Seq<char> {
        match self {
            OperatorKind::Sum => "\\sum"@,
            OperatorKind::Product => "\\prod"@,
        }
    }
}

/// A big operator with its running variable and its two bounds.
pub struct Operation {
    pub kind: OperatorKind,
    pub variable: Term,
    pub begin: Term,
    pub end: Term,
}

impl Operation {
    /// The glyph, with `variable = begin` below it and `end` above it.
    pub open spec fn latex_code(self) -> Seq<char> {
        self.kind.glyph() + "_{"@ + self.variable.text() + " = "@ + self.begin.text() + "}^{"@
            + self.end.text() + "}"@
    }
}

/// One element of an equation.
pub enum Element {
    Text(Seq<char>),
    Symb(Symbols),
    Operator(Operation),
}

impl Element {
    /// The element that a raw token is read as: a symbol if the token stands
    /// for one, and the token itself as text otherwise.
    pub open spec fn classify(token: Seq<char>) -> Element {
        match Symbols::of_token(token) {
            Some(sym) => Element::Symb(sym),
            None => Element::Text(token),
        }
    }

    /// The text an element contributes to its equation.
    pub open spec fn fragment(self) -> Seq<char> {
        match self {
            Element::Text(s) => s,
            Element::Symb(sym) => sym.code(),
            Element::Operator(op) => op.latex_code(),
        }
    }
}

/// A section heading with what stands under it.
pub struct SectionView {
    pub title: Seq<char>,
    pub rank: Rank,
    pub children: Seq<Node>,
}

impl SectionView {
    /// The section with `child` appended after its present children.
    pub open spec fn with_child(self, child: Node) -> SectionView {
        SectionView { title: self.title, rank: self.rank, children: self.children.push(child) }
    }
}

/// An environment of a given kind with what stands inside it.
pub struct BlocView {
    pub kind: Seq<char>,
    pub children: Seq<Node>,
}

impl BlocView {
    /// The environment with `child` appended after its present children.
    pub open spec fn with_child(self, child: Node) -> BlocView {
        BlocView { kind: self.kind, children: self.children.push(child) }
    }
}

/// A command applied to exactly one node.
pub struct TagView {
    pub name: Seq<char>,
    pub child: Box<Node>,
}

/// One node of a document tree.
pub enum Node {
    Sec(SectionView),
    RawText(Seq<char>),
    Equa(Seq<Element>),
    Bloc(BlocView),
    Tag(TagView),
    /// The rows of a table, each a sequence of cells.
    Tab(Seq<Seq<Node>>),
    Math(Seq<char>),
}

impl Node {
    /// Whether further children can be appended to the node: only sections
    /// and environments take them.
    pub open spec fn accepts_children(self) -> bool {
        self is Sec || self is Bloc
    }

    /// The appended children of a section or an environment, in the order
    /// in which they were appended; empty for every other node.
    pub open spec fn children(self) -> Seq<Node> {
        match self {
            Node::Sec(s) => s.children,
            Node::Bloc(b) => b.children,
            _ => Seq::empty(),
        }
    }

    /// The node with `child` appended, where it accepts children; the node
    /// itself where it does not.
    pub open spec fn with_child(self, child: Node) -> Node {
        match self {
            Node::Sec(s) => Node::Sec(s.with_child(child)),
            Node::Bloc(b) => Node::Bloc(b.with_child(child)),
            _ => self,
        }
    }

    /// Whether `self` is `tree` or one of the nodes under it.
    pub open spec fn within(self, tree: Node) -> bool
        decreases tree,
    {
        self == tree || match tree {
            Node::Sec(s) => exists|i: int|
                0 <= i < s.children.len() && self.within(#[trigger] s.children[i]),
            Node::Bloc(b) => exists|i: int|
                0 <= i < b.children.len() && self.within(#[trigger] b.children[i]),
            Node::Tag(t) => self.within(*t.child),
            Node::Tab(rows) => exists|i: int, j: int|
                0 <= i < rows.len() && 0 <= j < rows[i].len() && self.within(
                    #[trigger] rows[i][j],
                ),
            _ => false,
        }
    }

    /// The name of the environment that the node opens and closes, for the
    /// nodes that are rendered as one.
    pub open spec fn environment_name(self) -> Option<Seq<char>> {
        match self {
            Node::Bloc(b) => Some(b.kind),
            Node::Equa(_) => Some("equation"@),
            Node::Tab(_) => Some("tabular"@),
            _ => None,
        }
    }
}

/// Appending to a section or an environment adds exactly one child, after
/// those that were there, and keeps everything else; appending to any other
/// node changes nothing.
pub proof fn lemma_with_child(n: Node, child: Node)
    ensures
        n.accepts_children() ==> n.with_child(child).children() == n.children().push(child),
        n.accepts_children() ==> n.with_child(child).children().len() == n.children().len() + 1,
        n.accepts_children() ==> n.with_child(child).accepts_children(),
        n matches Node::Sec(s) ==> (n.with_child(child) matches Node::Sec(t) && t.title == s.title
            && t.rank == s.rank),
        n matches Node::Bloc(b) ==> (n.with_child(child) matches Node::Bloc(c) && c.kind
            == b.kind),
        !n.accepts_children() ==> n.with_child(child) == n,
{
}

/// Reading a token is total, and reading it again after writing the symbol
/// back changes nothing: each of the eight symbol tokens is read as a
/// symbol whose own token is read as that same symbol, and every other
/// string is read as the text it is.
pub proof fn lemma_classify(token: Seq<char>)
    ensures
        is_op_token(token) ==> (Element::classify(token) matches Element::Symb(sym)
            && Element::classify(sym.token()) == Element::classify(token)),
        !is_op_token(token) ==> Element::classify(token) == Element::Text(token),
{
    if is_op_token(token) {
        lemma_symbol_idempotent(token);
    }
}

} // verus!
