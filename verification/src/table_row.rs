//! The cells and rows that a read of a table hands back.
use vstd::prelude::*;

verus! {

/// One cell of a row.
#[derive(Debug, Clone)]
pub enum Col {
    Integer(i64),
    Text(String),
}

/// One row of a table, its cells in column order.
#[derive(Debug, Clone)]
pub struct Row {
    pub cols: Vec<Col>,
}

} // verus!
