//! The SQL state interface offered to guest components. Outside the
//! sandbox these entry points are deterministic no-ops that succeed.

use vstd::prelude::*;

verus! {

/// A row returned from a query: column names and their values.
#[derive(Debug, Clone)]
pub struct Row {
    pub columns: Vec<String>,
    pub values: Vec<String>,
}

/// Runs a query that returns rows. Outside the sandbox: no rows.
pub fn query(sql: &str, params: &[String]) -> (r: Result<Vec<Row>, String>)
    ensures
        r matches Ok(rows) && rows@.len() == 0,
{
    Ok(Vec::new())
}

/// Runs a statement that changes data and returns how many rows it
/// changed. Outside the sandbox: none.
pub fn execute(sql: &str, params: &[String]) -> (r: Result<u32, String>)
    ensures
        r == Ok::<u32, String>(0),
{
    Ok(0)
}

} // verus!
