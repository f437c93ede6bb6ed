//! What a table can be made from.

use vstd::prelude::*;
use crate::content::{clone_nodes, clone_rows, lemma_rows_of, nodes_of, rows_of, Core};
use crate::model::Node;

verus! {

/// What can be laid out as the rows of a table.
pub trait IntoTab {
    /// The rows of nodes that the value is laid out as.
    spec fn grid(&self) -> Seq<Seq<Node>>;

    /// Returns a copy of the value laid out in rows.
    fn into_tab(&self) -> (r: Vec<Vec<Core>>)
        ensures
            rows_of(r@) == self.grid(),
    ;
}

/// A sequence of nodes is one row.
impl IntoTab for Vec<Core> {
    open spec fn grid(&self) -> Seq<Seq<Node>> {
        seq![nodes_of(self@)]
    }

    fn into_tab(&self) -> (r: Vec<Vec<Core>>) {
        let mut res = Vec::new();
        res.push(clone_nodes(self));
        proof {
            lemma_rows_of(res@);
        }
        res
    }
}

/// A sequence of rows is laid out as it is.
impl IntoTab for Vec<Vec<Core>> {
    open spec fn grid(&self) -> Seq<Seq<Node>> {
        rows_of(self@)
    }

    fn into_tab(&self) -> (r: Vec<Vec<Core>>) {
        clone_rows(self)
    }
}

} // verus!
