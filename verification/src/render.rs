//! The text that a document tree renders to.
//!
//! Rendering is one depth-first pass: a node writes what opens it, then its
//! children from first to last, then what closes it.

use vstd::prelude::*;
use crate::model::{BlocView, Element, Node, SectionView, TagView};

verus! {

/// The text of a node.
pub open spec fn render(n: Node) -> Seq<char>
    decreases n, 0nat,
{
    match n {
        Node::Sec(s) => render_section(s),
        Node::RawText(text) => text,
        Node::Equa(elements) => render_equation(elements),
        Node::Bloc(b) => render_bloc(b),
        Node::Tag(t) => render_tag(t),
        Node::Tab(rows) => render_table(rows),
        Node::Math(content) => render_math(content),
    }
}

/// The texts of a sequence of nodes, one after the other.
pub open spec fn render_all(nodes: Seq<Node>) -> Seq<char>
    decreases nodes, 0nat,
{
    if nodes.len() == 0 {
        Seq::empty()
    } else {
        render_all(nodes.drop_last()) + render(nodes.last())
    }
}

/// The line that opens a section.
pub open spec fn section_open(s: SectionView) -> Seq<char> {
    s.rank.command() + "{"@ + s.title + "}\n"@
}

/// A section: its heading, its children, and a blank line.
pub open spec fn render_section(s: SectionView) -> Seq<char>
    decreases s, 0nat,
{
    section_open(s) + render_all(s.children) + "\n\n"@
}

/// What opens the environment `name`.
pub open spec fn env_begin(name: Seq<char>) -> Seq<char> {
    "\\begin{"@ + name + "}"@
}

/// The line that closes the environment `name`.
pub open spec fn env_end(name: Seq<char>) -> Seq<char> {
    "\\end{"@ + name + "}\n"@
}

/// The environment `name` around `body`: the closing line stands right
/// after the last character of the body.
pub open spec fn environment(name: Seq<char>, body: Seq<char>) -> Seq<char> {
    env_begin(name) + body + env_end(name)
}

/// An environment of the bloc's kind around its children.
pub open spec fn render_bloc(b: BlocView) -> Seq<char>
    decreases b, 0nat,
{
    environment(b.kind, "\n"@ + render_all(b.children))
}

/// A command, a space, the one node it applies to, and a line end.
pub open spec fn render_tag(t: TagView) -> Seq<char>
    decreases t, 0nat,
{
    "\\"@ + t.name + " "@ + render(*t.child) + "\n"@
}

/// Inline mathematics between two dollar signs.
pub open spec fn render_math(content: Seq<char>) -> Seq<char> {
    "$"@ + content + "$"@
}

/// The fragments of the elements, each followed by one space.
pub open spec fn render_elements(elements: Seq<Element>) -> Seq<char>
    decreases elements.len(),
{
    if elements.len() == 0 {
        Seq::empty()
    } else {
        render_elements(elements.drop_last()) + elements.last().fragment() + " "@
    }
}

/// A displayed equation: the equation environment around the display
/// style and the elements.
pub open spec fn render_equation(elements: Seq<Element>) -> Seq<char> {
    environment("equation"@, "\n\\displaystyle "@ + render_elements(elements) + "\n"@)
}

/// The column specification of a table with `columns` columns: each column
/// centred and boxed.
pub open spec fn column_spec(columns: nat) -> Seq<char>
    decreases columns,
{
    if columns == 0 {
        "|"@
    } else {
        column_spec((columns - 1) as nat) + " c |"@
    }
}

/// The number of columns of a table: the length of its first row.
pub open spec fn columns(rows: Seq<Seq<Node>>) -> nat {
    if rows.len() > 0 {
        rows[0].len()
    } else {
        0
    }
}

/// What stands in a table before its rows: the column specification.
pub open spec fn table_head(rows: Seq<Seq<Node>>) -> Seq<char> {
    "{"@ + column_spec(columns(rows)) + "}\n"@
}

/// The cells of a row, with a separator between neighbours.
pub open spec fn render_cells(row: Seq<Node>) -> Seq<char>
    decreases row, 0nat,
{
    if row.len() == 0 {
        Seq::empty()
    } else if row.len() == 1 {
        render(row[0])
    } else {
        render_cells(row.drop_last()) + " & "@ + render(row.last())
    }
}

/// A row: a rule, the cells, and the end of the row.
pub open spec fn render_row(row: Seq<Node>) -> Seq<char>
    decreases row, 1nat,
{
    "\\hline\n"@ + render_cells(row) + "  \\\\\n"@
}

/// The rows of a table, one after the other.
pub open spec fn render_rows(rows: Seq<Seq<Node>>) -> Seq<char>
    decreases rows, 1nat,
{
    if rows.len() == 0 {
        Seq::empty()
    } else {
        render_rows(rows.drop_last()) + render_row(rows.last())
    }
}

/// A table: the tabular environment around the column specification, the
/// rows and a last rule.
pub open spec fn render_table(rows: Seq<Seq<Node>>) -> Seq<char>
    decreases rows, 2nat,
{
    environment("tabular"@, table_head(rows) + render_rows(rows) + "\\hline\n"@)
}

/// Rendering one more node appends its text.
pub proof fn lemma_render_all_push(nodes: Seq<Node>, n: Node)
    ensures
        render_all(nodes.push(n)) == render_all(nodes) + render(n),
{
    assert(nodes.push(n).drop_last() =~= nodes);
}

/// Rendering the first `i + 1` nodes is rendering the first `i` and then
/// the node at `i`.
pub proof fn lemma_render_all_take(nodes: Seq<Node>, i: int)
    requires
        0 <= i < nodes.len(),
    ensures
        render_all(nodes.take(i + 1)) == render_all(nodes.take(i)) + render(nodes[i]),
{
    assert(nodes.take(i + 1).drop_last() =~= nodes.take(i));
}

/// Rendering the first `i + 1` rows is rendering the first `i` and then the
/// row at `i`.
pub proof fn lemma_render_rows_take(rows: Seq<Seq<Node>>, i: int)
    requires
        0 <= i < rows.len(),
    ensures
        render_rows(rows.take(i + 1)) == render_rows(rows.take(i)) + render_row(rows[i]),
{
    assert(rows.take(i + 1).drop_last() =~= rows.take(i));
}

/// Rendering the first `i + 1` cells is rendering the first `i`, a
/// separator unless there are none, and then the cell at `i`.
pub proof fn lemma_render_cells_take(row: Seq<Node>, i: int)
    requires
        0 <= i < row.len(),
    ensures
        render_cells(row.take(i + 1)) == if i == 0 {
            render(row[i])
        } else {
            render_cells(row.take(i)) + " & "@ + render(row[i])
        },
{
    assert(row.take(i + 1).drop_last() =~= row.take(i));
}

/// Rendering the first `i + 1` elements is rendering the first `i` and then
/// the fragment at `i` with its space.
pub proof fn lemma_render_elements_take(elements: Seq<Element>, i: int)
    requires
        0 <= i < elements.len(),
    ensures
        render_elements(elements.take(i + 1)) == render_elements(elements.take(i))
            + elements[i].fragment() + " "@,
{
    assert(elements.take(i + 1).drop_last() =~= elements.take(i));
}

/// Rendering two sequences of nodes one after the other is rendering their
/// concatenation.
pub proof fn lemma_render_all_concat(front: Seq<Node>, back: Seq<Node>)
    ensures
        render_all(front + back) == render_all(front) + render_all(back),
    decreases back.len(),
{
    if back.len() > 0 {
        lemma_render_all_concat(front, back.drop_last());
        assert((front + back).drop_last() =~= front + back.drop_last());
    }
}

/// The children of a node are rendered in their order: the text of the
/// child at `i` stands after the texts of all children before it and before
/// the texts of all children after it.
pub proof fn lemma_render_all_in_order(nodes: Seq<Node>, i: int)
    requires
        0 <= i < nodes.len(),
    ensures
        render_all(nodes) == render_all(nodes.take(i)) + render(nodes[i]) + render_all(
            nodes.skip(i + 1),
        ),
{
    lemma_render_all_take(nodes, i);
    lemma_render_all_concat(nodes.take(i + 1), nodes.skip(i + 1));
    assert(nodes.take(i + 1) + nodes.skip(i + 1) =~= nodes);
}

/// What a section or an environment writes before its children.
pub open spec fn opening(n: Node) -> Seq<char> {
    match n {
        Node::Sec(s) => section_open(s),
        Node::Bloc(b) => env_begin(b.kind) + "\n"@,
        _ => Seq::empty(),
    }
}

/// What a section or an environment writes after its children.
pub open spec fn closing(n: Node) -> Seq<char> {
    match n {
        Node::Sec(_) => "\n\n"@,
        Node::Bloc(b) => env_end(b.kind),
        _ => Seq::empty(),
    }
}

/// A section or an environment is rendered as what opens it, its children
/// in the order in which they were appended, and what closes it.
pub proof fn lemma_children_in_order(n: Node, i: int)
    requires
        n.accepts_children(),
        0 <= i < n.children().len(),
    ensures
        render(n) == opening(n) + render_all(n.children().take(i)) + render(n.children()[i])
            + render_all(n.children().skip(i + 1)) + closing(n),
{
    lemma_render_all_in_order(n.children(), i);
}

/// An appended child is rendered last: its text stands right after the
/// texts of the children that were there and right before what closes the
/// node, and nothing else changes.
pub proof fn lemma_appended_child_is_last(n: Node, child: Node)
    requires
        n.accepts_children(),
    ensures
        render(n) == opening(n) + render_all(n.children()) + closing(n),
        render(n.with_child(child)) == opening(n) + render_all(n.children()) + render(child)
            + closing(n),
{
    lemma_render_all_push(n.children(), child);
}

/// Rendering two sequences of rows one after the other is rendering their
/// concatenation.
proof fn lemma_render_rows_concat(front: Seq<Seq<Node>>, back: Seq<Seq<Node>>)
    ensures
        render_rows(front + back) == render_rows(front) + render_rows(back),
    decreases back.len(),
{
    if back.len() > 0 {
        lemma_render_rows_concat(front, back.drop_last());
        assert((front + back).drop_last() =~= front + back.drop_last());
    }
}

/// The text of the cell at `j` stands in one piece in the text of its row's
/// cells. Returns what stands before and after it.
proof fn lemma_cell_in_cells(row: Seq<Node>, j: int) -> (around: (Seq<char>, Seq<char>))
    requires
        0 <= j < row.len(),
    ensures
        render_cells(row) == around.0 + render(row[j]) + around.1,
    decreases row.len(),
{
    if row.len() == 1 {
        (Seq::empty(), Seq::empty())
    } else if j == row.len() - 1 {
        (render_cells(row.drop_last()) + " & "@, Seq::empty())
    } else {
        let inner = lemma_cell_in_cells(row.drop_last(), j);
        (inner.0, inner.1 + " & "@ + render(row.last()))
    }
}

/// A piece of a text is a piece of every text that the text is a piece of.
proof fn lemma_piece_of_piece(
    head: Seq<char>,
    inner: (Seq<char>, Seq<char>),
    text: Seq<char>,
    tail: Seq<char>,
)
    ensures
        head + (inner.0 + text + inner.1) + tail == (head + inner.0) + text + (inner.1 + tail),
{
}

/// A piece of the text of a child is a piece of the text of its parent.
proof fn lemma_piece_of_child(
    n: Node,
    i: int,
    text: Seq<char>,
    inner: (Seq<char>, Seq<char>),
) -> (around: (Seq<char>, Seq<char>))
    requires
        n.accepts_children(),
        0 <= i < n.children().len(),
        render(n.children()[i]) == inner.0 + text + inner.1,
    ensures
        render(n) == around.0 + text + around.1,
{
    lemma_children_in_order(n, i);
    let head = opening(n) + render_all(n.children().take(i));
    let tail = render_all(n.children().skip(i + 1)) + closing(n);
    lemma_piece_of_piece(head, inner, text, tail);
    (head + inner.0, inner.1 + tail)
}

/// A piece of the text of a tag's node is a piece of the text of the tag.
proof fn lemma_piece_of_tagged(
    t: TagView,
    text: Seq<char>,
    inner: (Seq<char>, Seq<char>),
) -> (around: (Seq<char>, Seq<char>))
    requires
        render(*t.child) == inner.0 + text + inner.1,
    ensures
        render_tag(t) == around.0 + text + around.1,
{
    let head = "\\"@ + t.name + " "@;
    lemma_piece_of_piece(head, inner, text, "\n"@);
    (head + inner.0, inner.1 + "\n"@)
}

/// A piece of the text of a cell is a piece of the text of its row.
proof fn lemma_piece_of_cell(
    row: Seq<Node>,
    j: int,
    text: Seq<char>,
    inner: (Seq<char>, Seq<char>),
) -> (around: (Seq<char>, Seq<char>))
    requires
        0 <= j < row.len(),
        render(row[j]) == inner.0 + text + inner.1,
    ensures
        render_row(row) == around.0 + text + around.1,
{
    let cell = lemma_cell_in_cells(row, j);
    lemma_piece_of_piece(cell.0, inner, text, cell.1);
    let in_cells = (cell.0 + inner.0, inner.1 + cell.1);
    lemma_piece_of_piece("\\hline\n"@, in_cells, text, "  \\\\\n"@);
    ("\\hline\n"@ + in_cells.0, in_cells.1 + "  \\\\\n"@)
}

/// The text of the row at `i` stands in one piece in the text of the rows.
proof fn lemma_render_rows_in_order(rows: Seq<Seq<Node>>, i: int)
    requires
        0 <= i < rows.len(),
    ensures
        render_rows(rows) == render_rows(rows.take(i)) + render_row(rows[i]) + render_rows(
            rows.skip(i + 1),
        ),
{
    lemma_render_rows_take(rows, i);
    lemma_render_rows_concat(rows.take(i + 1), rows.skip(i + 1));
    assert(rows.take(i + 1) + rows.skip(i + 1) =~= rows);
}

/// A piece of the text of a row is a piece of the text of its table.
proof fn lemma_piece_of_row(
    rows: Seq<Seq<Node>>,
    i: int,
    text: Seq<char>,
    inner: (Seq<char>, Seq<char>),
) -> (around: (Seq<char>, Seq<char>))
    requires
        0 <= i < rows.len(),
        render_row(rows[i]) == inner.0 + text + inner.1,
    ensures
        render_table(rows) == around.0 + text + around.1,
{
    lemma_render_rows_in_order(rows, i);
    let before = render_rows(rows.take(i));
    let after = render_rows(rows.skip(i + 1));
    lemma_piece_of_piece(before, inner, text, after);
    let in_rows = (before + inner.0, inner.1 + after);
    let head = env_begin("tabular"@) + table_head(rows);
    let tail = "\\hline\n"@ + env_end("tabular"@);
    lemma_piece_of_piece(head, in_rows, text, tail);
    (head + in_rows.0, in_rows.1 + tail)
}

/// The text of every node of a tree stands in one piece in the text of the
/// tree. Returns what stands before and after it.
pub proof fn lemma_subtree_in_one_piece(tree: Node, part: Node) -> (around: (Seq<char>, Seq<char>))
    requires
        part.within(tree),
    ensures
        render(tree) == around.0 + render(part) + around.1,
    decreases tree,
{
    if part == tree {
        (Seq::empty(), Seq::empty())
    } else {
        match tree {
            Node::Sec(s) => {
                let i = choose|i: int|
                    0 <= i < s.children.len() && part.within(#[trigger] s.children[i]);
                let inner = lemma_subtree_in_one_piece(s.children[i], part);
                lemma_piece_of_child(tree, i, render(part), inner)
            },
            Node::Bloc(b) => {
                let i = choose|i: int|
                    0 <= i < b.children.len() && part.within(#[trigger] b.children[i]);
                let inner = lemma_subtree_in_one_piece(b.children[i], part);
                lemma_piece_of_child(tree, i, render(part), inner)
            },
            Node::Tag(t) => {
                let inner = lemma_subtree_in_one_piece(*t.child, part);
                lemma_piece_of_tagged(t, render(part), inner)
            },
            Node::Tab(rows) => {
                let (i, j) = choose|i: int, j: int|
                    0 <= i < rows.len() && 0 <= j < rows[i].len() && part.within(
                        #[trigger] rows[i][j],
                    );
                let inner = lemma_subtree_in_one_piece(rows[i][j], part);
                let in_row = lemma_piece_of_cell(rows[i], j, render(part), inner);
                lemma_piece_of_row(rows, i, render(part), in_row)
            },
            _ => (Seq::empty(), Seq::empty()),
        }
    }
}

/// What stands between the opening and the closing of the environment that
/// a node is rendered as.
pub open spec fn environment_body(n: Node) -> Seq<char> {
    match n {
        Node::Bloc(b) => "\n"@ + render_all(b.children),
        Node::Equa(elements) => "\n\\displaystyle "@ + render_elements(elements) + "\n"@,
        Node::Tab(rows) => table_head(rows) + render_rows(rows) + "\\hline\n"@,
        _ => Seq::empty(),
    }
}

/// Environments are balanced. Wherever a bloc, an equation or a table
/// stands in a tree, the text of the tree holds, in one piece, the opening
/// of that node's environment, then the text of what the node holds, and
/// right after it the closing of the same environment. Returns what stands
/// before and after that piece.
pub proof fn lemma_environments_balanced(tree: Node, part: Node) -> (around: (Seq<char>, Seq<char>))
    requires
        part.within(tree),
        part.environment_name() is Some,
    ensures
        render(part) == environment(part.environment_name().unwrap(), environment_body(part)),
        render(tree) == around.0 + env_begin(part.environment_name().unwrap())
            + environment_body(part) + env_end(part.environment_name().unwrap()) + around.1,
{
    lemma_subtree_in_one_piece(tree, part)
}

/// The column specification has one bar first and then four characters for
/// each column.
pub proof fn lemma_column_spec_len(n: nat)
    ensures
        column_spec(n).len() == 1 + 4 * n,
    decreases n,
{
    reveal_strlit("|");
    reveal_strlit(" c |");
    if n > 0 {
        lemma_column_spec_len((n - 1) as nat);
    }
}

/// The column specification of a table is that of its first row: two tables
/// whose first rows are equally long open alike, whatever their other rows
/// hold.
pub proof fn lemma_columns_from_first_row(rows: Seq<Seq<Node>>, other: Seq<Seq<Node>>)
    requires
        rows.len() > 0,
        other.len() > 0,
        rows[0].len() == other[0].len(),
    ensures
        table_head(rows) == table_head(other),
        table_head(rows) == "{"@ + column_spec(rows[0].len()) + "}\n"@,
        column_spec(columns(rows)).len() == 1 + 4 * rows[0].len(),
{
    lemma_column_spec_len(rows[0].len());
}

} // verus!
