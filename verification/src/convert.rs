//! The conversion itself: parse the input text into records, derive the
//! column list from the first record, and emit one `INSERT` statement per
//! record.

use vstd::prelude::*;

use serde_json::Value;

use crate::json::{JsonItem, JsonScalar};
use crate::sql::{
    field_names, seq_views, spec_field_names, spec_statement, statement_for,
};

verus! {

/// Why a conversion failed.
#[derive(Debug)]
pub enum ConvertError {
    /// The input text is not valid JSON, or its top-level value is not an
    /// array. Carries the parser's description of the failure.
    Parse(String),
    /// The element at this index of the input array is not an object.
    Schema(usize),
}

/// Whether every item of the input is an object.
pub open spec fn all_objects(items: Seq<JsonItem>) -> bool {
    forall|i: int| 0 <= i < items.len() ==> (#[trigger] items[i]).is_object()
}

/// The column list of a conversion whose first record is this item: its
/// field names, in input order.
pub open spec fn spec_columns(item: JsonItem) -> Seq<Seq<char>> {
    spec_field_names(item.fields())
}

/// The statements of a successful conversion: one per record, in input
/// order, each against the column list of the first record.
pub open spec fn spec_statements(items: Seq<JsonItem>, table: Seq<char>) -> Seq<Seq<char>> {
    Seq::new(items.len(), |i: int| spec_statement(items[i].fields(), spec_columns(items[0]), table))
}

/// What the parser finds in the input text: the items of its top-level
/// array, or nothing where the text is not valid JSON or its top-level value
/// is not an array.
pub uninterp spec fn parsed_items(text: Seq<char>) -> Option<Seq<JsonItem>>;

/// Relies on `serde_json::from_str` for `Vec<serde_json::Value>`, which
/// succeeds exactly on valid JSON whose top-level value is an array, and on
/// `Value`'s `Display`, which renders a value as its compact JSON text. With
/// serde_json's `preserve_order` feature, object fields come out in the
/// order they occur in the text. The result depends on the text alone.
#[verifier::external_body]
fn parse_records(text: &str) -> (r: Result<Vec<JsonItem>, String>)
    ensures
        r matches Ok(items) ==> parsed_items(text@) == Some(items@),
        r is Ok <==> parsed_items(text@) is Some,
{
    match serde_json::from_str::<Vec<Value>>(text) {
        Err(e) => Err(e.to_string()),
        Ok(vals) => Ok(vals.into_iter().map(|v| match v {
            Value::Object(m) => JsonItem::Object(m.into_iter().map(|(k, w)| (k, match w {
                Value::Null => JsonScalar::Null,
                Value::Bool(b) => JsonScalar::Bool(b),
                Value::Number(n) => JsonScalar::Num(n.to_string()),
                Value::String(s) => JsonScalar::Str(s),
                w => JsonScalar::Nested(w.to_string()),
            })).collect()),
            _ => JsonItem::Other,
        }).collect()),
    }
}

/// Convert already-parsed records: derive the column list from the first
/// record and emit one statement per record. Fails with the index of the
/// first record that is not an object; an empty input succeeds with no
/// statements.
pub fn convert_items(items: &Vec<JsonItem>, table_name: &str) -> (r: Result<
    Vec<String>,
    ConvertError,
>)
    requires
        table_name@.len() > 0,
    ensures
        r is Ok <==> all_objects(items@),
        r matches Ok(stmts) ==> seq_views(stmts@) == spec_statements(items@, table_name@),
        r matches Err(e) ==> (e matches ConvertError::Schema(i) && i < items@.len()
            && !items@[i as int].is_object() && (forall|j: int|
            0 <= j < i ==> (#[trigger] items@[j]).is_object())),
{
    let n = items.len();
    let mut stmts: Vec<String> = Vec::new();
    let mut cols: Vec<String> = Vec::new();
    let mut idx: usize = 0;
    while idx < n
        invariant
            idx <= n,
            n == items@.len(),
            forall|j: int| 0 <= j < idx ==> (#[trigger] items@[j]).is_object(),
            idx > 0 ==> seq_views(cols@) == spec_columns(items@[0]),
            stmts@.len() == idx,
            forall|j: int|
                0 <= j < idx ==> #[trigger] stmts@[j]@ == spec_statement(
                    items@[j].fields(),
                    spec_columns(items@[0]),
                    table_name@,
                ),
        decreases n - idx,
    {
        match &items[idx] {
            JsonItem::Other => {
                return Err(ConvertError::Schema(idx));
            },
            JsonItem::Object(fields) => {
                if idx == 0 {
                    cols = field_names(fields);
                }
                let stmt = statement_for(fields, &cols, table_name);
                stmts.push(stmt);
            },
        }
        idx = idx + 1;
    }
    proof {
        assert(seq_views(stmts@) =~= spec_statements(items@, table_name@));
    }
    Ok(stmts)
}

/// Convert JSON text to one `INSERT` statement per element of its top-level
/// array, against the given table. Fails with `Parse` where the text is not
/// valid JSON or not an array, and with `Schema` at the first element that
/// is not an object.
pub fn convert(json_text: &str, table_name: &str) -> (r: Result<Vec<String>, ConvertError>)
    requires
        table_name@.len() > 0,
    ensures
        r matches Err(ConvertError::Parse(_)) <==> parsed_items(json_text@) is None,
        r is Ok <==> (parsed_items(json_text@) matches Some(items) && all_objects(items)),
        r matches Ok(stmts) ==> (parsed_items(json_text@) matches Some(items) && seq_views(
            stmts@,
        ) == spec_statements(items, table_name@)),
        r matches Err(ConvertError::Schema(i)) ==> (parsed_items(json_text@) matches Some(items)
            && i < items.len() && !items[i as int].is_object() && (forall|j: int|
            0 <= j < i ==> (#[trigger] items[j]).is_object())),
{
    match parse_records(json_text) {
        Err(msg) => Err(ConvertError::Parse(msg)),
        Ok(items) => convert_items(&items, table_name),
    }
}

/// One statement per record: a non-empty input whose items are all objects —
/// in particular one whose records share a single key set — converts to
/// exactly one statement per record, in input order, each formed against the
/// column list of the first record.
pub proof fn lemma_one_statement_per_record(items: Seq<JsonItem>, table: Seq<char>)
    requires
        items.len() > 0,
        all_objects(items),
        forall|i: int|
            0 <= i < items.len() ==> spec_columns(#[trigger] items[i]) == spec_columns(items[0]),
    ensures
        spec_statements(items, table).len() == items.len(),
        forall|i: int|
            0 <= i < items.len() ==> #[trigger] spec_statements(items, table)[i] == spec_statement(
                items[i].fields(),
                spec_columns(items[0]),
                table,
            ),
{
}

/// An empty input converts successfully: no statements, no error.
pub proof fn lemma_empty_input(table: Seq<char>)
    ensures
        all_objects(Seq::<JsonItem>::empty()),
        spec_statements(Seq::<JsonItem>::empty(), table) == Seq::<Seq<char>>::empty(),
{
    assert(spec_statements(Seq::<JsonItem>::empty(), table) =~= Seq::<Seq<char>>::empty());
}

} // verus!
