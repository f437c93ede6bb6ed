//! Tables.

use vstd::prelude::*;
use vstd::string::StringExecFns;
use crate::content::{clone_rows, lemma_nodes_of, lemma_rows_of, rows_of, Core};
use crate::error::LatexError;
use crate::into_tab::IntoTab;
use crate::latex_file::LatexFile;
use crate::model::Node;
use crate::render::{
    column_spec, env_begin, lemma_render_cells_take, lemma_render_rows_take, render_cells,
    render_rows, render_table, table_head,
};
use crate::writable::Writable;

verus! {

/// A table: rows of cells, of which there is at least one row.
#[derive(Debug, PartialEq)]
pub struct Tabular {
    /// Content
    content: Vec<Vec<Core>>,
}

impl View for Tabular {
    type V = Seq<Seq<Node>>;

    closed spec fn view(&self) -> Seq<Seq<Node>>
        decreases self,
    {
        rows_of(self.content@)
    }
}

impl Clone for Tabular {
    fn clone(&self) -> (r: Self)
        ensures
            r@ == self@,
        decreases self,
    {
        proof {
            use_type_invariant(self);
        }
        let content = clone_rows(&self.content);
        proof {
            lemma_rows_of(content@);
            lemma_rows_of(self.content@);
        }
        Tabular { content }
    }
}

impl Tabular {
    /// A table has at least one row.
    #[verifier::type_invariant]
    spec fn has_rows(&self) -> bool {
        self.content@.len() > 0
    }

    /// Returns the table that `content` is laid out as, or an error if that
    /// has no row.
    pub fn new<T: IntoTab>(content: &T) -> (r: Result<Self, LatexError>)
        ensures
            content.grid().len() > 0 ==> (r matches Ok(t) && t@ == content.grid()),
            content.grid().len() == 0 ==> (r matches Err(e) && e
                == LatexError::InvalidConstructionArgument),
    {
        let rows = content.into_tab();
        proof {
            lemma_rows_of(rows@);
        }
        if rows.len() == 0 {
            Err(LatexError::InvalidConstructionArgument)
        } else {
            Ok(Tabular { content: rows })
        }
    }

    /// Returns the column specification: one centred, boxed column for each
    /// cell of the first row, whatever the other rows hold.
    pub fn align(&self) -> (r: String)
        ensures
            self@.len() > 0,
            r@ == column_spec(self@[0].len()),
    {
        proof {
            use_type_invariant(self);
            lemma_rows_of(self.content@);
            lemma_nodes_of(self.content@[0]@);
        }
        let size = self.content[0].len();
        let mut cols = String::from_str("|");
        let mut i: usize = 0;
        while i < size
            invariant
                i <= size,
                cols@ == column_spec(i as nat),
            decreases size - i,
        {
            cols.append(" c |");
            i = i + 1;
        }
        cols
    }
}

impl Writable for Tabular {
    open spec fn latex(&self) -> Seq<char> {
        render_table(self@)
    }

    fn write_latex(&self, file: &mut LatexFile) {
        let mut writer = String::new();
        self.write_to_buffer(&mut writer);
        file.write_in_file(writer.as_str());
    }

    fn write_to_buffer(&self, buf: &mut String)
        decreases self,
    {
        let ghost start = buf@;
        let ghost rows = self@;
        buf.append("\\begin{");
        buf.append("tabular");
        buf.append("}");
        buf.append("{");
        buf.append(self.align().as_str());
        buf.append("}\n");
        proof {
            lemma_rows_of(self.content@);
        }
        let mut i: usize = 0;
        while i < self.content.len()
            invariant
                i <= self.content.len(),
                rows == rows_of(self.content@),
                rows.len() == self.content.len(),
                buf@ == start + env_begin("tabular"@) + table_head(rows) + render_rows(
                    rows.take(i as int),
                ),
            decreases self.content.len() - i,
        {
            let line = &self.content[i];
            let ghost row = rows[i as int];
            let ghost before = buf@;
            proof {
                lemma_rows_of(self.content@);
                lemma_nodes_of(line@);
            }
            buf.append("\\hline\n");
            let mut j: usize = 0;
            while j < line.len()
                invariant
                    j <= line.len(),
                    line == self.content[i as int],
                    i < self.content.len(),
                    row.len() == line.len(),
                    forall|k: int| 0 <= k < row.len() ==> row[k] == line[k]@,
                    buf@ == before + "\\hline\n"@ + render_cells(row.take(j as int)),
                decreases line.len() - j,
            {
                if j > 0 {
                    buf.append(" & ");
                }
                line[j].write_to_buffer(buf);
                proof {
                    lemma_render_cells_take(row, j as int);
                }
                j = j + 1;
            }
            buf.append("  \\\\\n");
            proof {
                assert(row.take(j as int) =~= row);
                lemma_render_rows_take(rows, i as int);
            }
            i = i + 1;
        }
        proof {
            assert(rows.take(i as int) =~= rows);
        }
        buf.append("\\hline\n");
        buf.append("\\end{");
        buf.append("tabular");
        buf.append("}\n");
    }
}

} // verus!
