//! Elasticsearch: nothing is rendered yet.

use crate::error::{rendered, DdlError, ErrorSpec};
use crate::model::SQLTable;
use vstd::prelude::*;
use vstd::string::*;

verus! {

/// Stands in for a renderer: hands back the table's name, and never fails.
pub fn create_table(conf: &SQLTable) -> (r: Result<String, DdlError>)
    ensures
        rendered(r) == Ok::<Seq<char>, ErrorSpec>(conf@.name),
{
    Ok(conf.name.clone())
}

} // verus!
