//! The library's own model of the parsed input: the top level is a sequence
//! of items, each item either an object (an ordered list of fields) or some
//! other JSON value. A field's value is held flat: scalars carry their own
//! data, and a nested array or object carries its compact JSON text.

use vstd::prelude::*;

verus! {

/// One field value of a record. Numbers are held as their numeric text, so
/// that rendering never re-interprets them; a nested array or object is held
/// as its compact JSON text.
pub enum JsonScalar {
    Null,
    Bool(bool),
    Num(String),
    Str(String),
    Nested(String),
}

/// One element of the top-level input array: either an object, whose fields
/// are kept in the order they occur in the input text, or any other JSON
/// value, which cannot serve as a record.
pub enum JsonItem {
    Object(Vec<(String, JsonScalar)>),
    Other,
}

impl JsonItem {
    /// Whether this item is an object and can serve as a record.
    pub open spec fn is_object(self) -> bool {
        self matches JsonItem::Object(_)
    }

    /// The fields of an object item, in input order; empty for other items.
    pub open spec fn fields(self) -> Seq<(String, JsonScalar)> {
        match self {
            JsonItem::Object(fields) => fields@,
            JsonItem::Other => Seq::empty(),
        }
    }
}

} // verus!
