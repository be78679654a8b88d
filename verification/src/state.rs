//! The two inputs a front end hands to the converter: the target table name
//! and the raw JSON text.

use vstd::prelude::*;

verus! {

/// The state a front end edits before asking for a conversion.
#[derive(Clone)]
pub struct AppState {
    pub table_name: String,
    pub file_content: String,
}

impl Default for AppState {
    /// A fresh state holds an empty table name and no file content.
    fn default() -> (r: Self)
        ensures
            r.table_name@ == Seq::<char>::empty(),
            r.file_content@ == Seq::<char>::empty(),
    {
        AppState { table_name: String::new(), file_content: String::new() }
    }
}

impl AppState {
    /// Whether two states hold the same table name and the same content.
    pub fn same(&self, other: &Self) -> (r: bool)
        ensures
            r == (self.table_name@ == other.table_name@
                && self.file_content@ == other.file_content@),
    {
        self.table_name == other.table_name && self.file_content == other.file_content
    }
}

} // verus!
