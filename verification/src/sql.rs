//! Rendering of SQL text: escaping of string values, joining of statement
//! parts, and composition of one `INSERT` statement per record.

use vstd::prelude::*;

use crate::json::JsonScalar;

verus! {

/// A string value is escaped by doubling every single-quote character;
/// every other character is kept as it is.
pub open spec fn escape_sql(s: Seq<char>) -> Seq<char>
    decreases s.len(),
{
    if s.len() == 0 {
        Seq::empty()
    } else if s[0] == '\'' {
        seq!['\'', '\''] + escape_sql(s.drop_first())
    } else {
        seq![s[0]] + escape_sql(s.drop_first())
    }
}

/// The views of a sequence of strings, each as its sequence of characters.
pub open spec fn seq_views(strings: Seq<String>) -> Seq<Seq<char>> {
    strings.map_values(|s: String| s@)
}

/// Escape a string value for use inside a single-quoted SQL literal.
pub fn escape_sql_str(s: &str) -> (r: String)
    ensures
        r@ == escape_sql(s@),
{
    let n: usize = s.unicode_len();
    let mut r = String::new();
    let mut i: usize = 0;
    proof {
        assert(s@.skip(0) =~= s@);
    }
    while i < n
        invariant
            i <= n,
            n == s@.len(),
            escape_sql(s@) =~= r@ + escape_sql(s@.skip(i as int)),
        decreases n - i,
    {
        proof {
            assert(s@.skip(i as int)[0] == s@[i as int]);
            assert(s@.skip(i as int).drop_first() =~= s@.skip(i as int + 1));
        }
        let c = s.get_char(i);
        if c == '\'' {
            proof {
                reveal_strlit("''");
                assert("''"@ =~= seq!['\'', '\'']);
            }
            r.append("''");
        } else {
            let piece = s.substring_char(i, i + 1);
            proof {
                assert(piece@ =~= seq![s@[i as int]]);
            }
            r.append(piece);
        }
        i = i + 1;
    }
    proof {
        assert(s@.skip(n as int) =~= Seq::<char>::empty());
        assert(r@ =~= escape_sql(s@));
    }
    r
}

/// Undo the escaping: each doubled single quote reads back as one.
pub open spec fn unescape_sql(s: Seq<char>) -> Seq<char>
    decreases s.len(),
{
    if s.len() == 0 {
        Seq::empty()
    } else if s[0] == '\'' {
        if s.len() == 1 {
            seq!['\'']
        } else {
            seq!['\''] + unescape_sql(s.skip(2))
        }
    } else {
        seq![s[0]] + unescape_sql(s.drop_first())
    }
}

/// Whether every single quote in the text comes doubled — what a naive SQL
/// tokenizer needs in order to read the text as the inside of exactly one
/// string literal.
pub open spec fn quotes_doubled(s: Seq<char>) -> bool
    decreases s.len(),
{
    if s.len() == 0 {
        true
    } else if s[0] == '\'' {
        s.len() >= 2 && s[1] == '\'' && quotes_doubled(s.skip(2))
    } else {
        quotes_doubled(s.drop_first())
    }
}

/// Escaping is reversible: unescaping the escaped text gives the original
/// text back.
pub proof fn lemma_escape_roundtrip(s: Seq<char>)
    ensures
        unescape_sql(escape_sql(s)) == s,
    decreases s.len(),
{
    if s.len() == 0 {
        assert(unescape_sql(escape_sql(s)) =~= s);
    } else {
        lemma_escape_roundtrip(s.drop_first());
        let e = escape_sql(s);
        if s[0] == '\'' {
            assert(e.skip(2) =~= escape_sql(s.drop_first()));
            assert(unescape_sql(e) =~= s);
        } else {
            assert(e.drop_first() =~= escape_sql(s.drop_first()));
            assert(unescape_sql(e) =~= s);
        }
    }
}

/// The escaped text is well formed: every single quote in it is doubled, so
/// a naive SQL tokenizer reads a quoted escaped value as one string literal.
pub proof fn lemma_escape_quotes_doubled(s: Seq<char>)
    ensures
        quotes_doubled(escape_sql(s)),
    decreases s.len(),
{
    if s.len() == 0 {
    } else {
        lemma_escape_quotes_doubled(s.drop_first());
        let e = escape_sql(s);
        if s[0] == '\'' {
            assert(e.skip(2) =~= escape_sql(s.drop_first()));
        } else {
            assert(e.drop_first() =~= escape_sql(s.drop_first()));
        }
    }
}

/// Read an escaped value back: each doubled single quote becomes one.
pub fn unescape_sql_str(s: &str) -> (r: String)
    ensures
        r@ == unescape_sql(s@),
{
    let n: usize = s.unicode_len();
    let mut r = String::new();
    let mut i: usize = 0;
    proof {
        assert(s@.skip(0) =~= s@);
    }
    while i < n
        invariant
            i <= n,
            n == s@.len(),
            unescape_sql(s@) =~= r@ + unescape_sql(s@.skip(i as int)),
        decreases n - i,
    {
        proof {
            assert(s@.skip(i as int)[0] == s@[i as int]);
        }
        let c = s.get_char(i);
        if c == '\'' {
            proof {
                reveal_strlit("'");
                assert("'"@ =~= seq!['\'']);
            }
            r.append("'");
            if i + 1 < n {
                proof {
                    assert(s@.skip(i as int).skip(2) =~= s@.skip(i as int + 2));
                }
                i = i + 2;
            } else {
                proof {
                    assert(s@.skip(i as int).len() == 1);
                    assert(s@.skip(n as int) =~= Seq::<char>::empty());
                }
                i = n;
            }
        } else {
            let piece = s.substring_char(i, i + 1);
            proof {
                assert(piece@ =~= seq![s@[i as int]]);
                assert(s@.skip(i as int).drop_first() =~= s@.skip(i as int + 1));
            }
            r.append(piece);
            i = i + 1;
        }
    }
    proof {
        assert(s@.skip(n as int) =~= Seq::<char>::empty());
        assert(r@ =~= unescape_sql(s@));
    }
    r
}

/// What follows the first part of a joined list: a separator before each
/// further part.
pub open spec fn spec_join_rest(parts: Seq<Seq<char>>, sep: Seq<char>) -> Seq<char>
    decreases parts.len(),
{
    if parts.len() == 0 {
        Seq::empty()
    } else {
        sep + parts[0] + spec_join_rest(parts.drop_first(), sep)
    }
}

/// The parts concatenated with the separator between each two of them.
pub open spec fn spec_join(parts: Seq<Seq<char>>, sep: Seq<char>) -> Seq<char> {
    if parts.len() == 0 {
        Seq::empty()
    } else {
        parts[0] + spec_join_rest(parts.drop_first(), sep)
    }
}

/// Join the parts with the separator between each two of them.
pub fn join_with(parts: &Vec<String>, sep: &str) -> (r: String)
    ensures
        r@ == spec_join(seq_views(parts@), sep@),
{
    let mut r = String::new();
    let n = parts.len();
    if n == 0 {
        proof {
            assert(r@ =~= spec_join(seq_views(parts@), sep@));
        }
        return r;
    }
    r.append(parts[0].as_str());
    let mut i: usize = 1;
    proof {
        assert(seq_views(parts@).skip(1) =~= seq_views(parts@).drop_first());
    }
    while i < n
        invariant
            1 <= i <= n,
            n == parts@.len(),
            spec_join(seq_views(parts@), sep@) =~= r@ + spec_join_rest(
                seq_views(parts@).skip(i as int),
                sep@,
            ),
        decreases n - i,
    {
        proof {
            assert(seq_views(parts@).skip(i as int)[0] == parts@[i as int]@);
            assert(seq_views(parts@).skip(i as int).drop_first() =~= seq_views(parts@).skip(
                i as int + 1,
            ));
        }
        r.append(sep);
        r.append(parts[i].as_str());
        i = i + 1;
    }
    proof {
        assert(seq_views(parts@).skip(n as int) =~= Seq::<Seq<char>>::empty());
        assert(r@ =~= spec_join(seq_views(parts@), sep@));
    }
    r
}

/// The SQL text of one field value: `NULL`, `TRUE` or `FALSE`, the numeric
/// text of a number, a single-quoted escaped string, or the raw JSON text of
/// a nested value.
pub open spec fn spec_render(v: JsonScalar) -> Seq<char> {
    match v {
        JsonScalar::Null => "NULL"@,
        JsonScalar::Bool(b) => if b {
            "TRUE"@
        } else {
            "FALSE"@
        },
        JsonScalar::Num(s) => s@,
        JsonScalar::Str(s) => seq!['\''] + escape_sql(s@) + seq!['\''],
        JsonScalar::Nested(s) => s@,
    }
}

/// The SQL text of one value slot of a record: a missing field renders as
/// `NULL`.
pub open spec fn spec_render_slot(slot: Option<JsonScalar>) -> Seq<char> {
    match slot {
        None => "NULL"@,
        Some(v) => spec_render(v),
    }
}

/// Render one field value to its SQL text.
pub fn render_scalar(v: &JsonScalar) -> (r: String)
    ensures
        r@ == spec_render(*v),
{
    match v {
        JsonScalar::Null => String::from_str("NULL"),
        JsonScalar::Bool(b) => if *b {
            String::from_str("TRUE")
        } else {
            String::from_str("FALSE")
        },
        JsonScalar::Num(s) => s.clone(),
        JsonScalar::Str(s) => {
            let mut r = String::from_str("'");
            let escaped = escape_sql_str(s.as_str());
            r.append(escaped.as_str());
            r.append("'");
            proof {
                reveal_strlit("'");
                assert("'"@ =~= seq!['\'']);
                assert(r@ =~= seq!['\''] + escape_sql(s@) + seq!['\'']);
            }
            r
        },
        JsonScalar::Nested(s) => s.clone(),
    }
}

/// The value of the first field with this name, if any.
pub open spec fn spec_lookup(fields: Seq<(String, JsonScalar)>, key: Seq<char>) -> Option<
    JsonScalar,
>
    decreases fields.len(),
{
    if fields.len() == 0 {
        None
    } else if fields[0].0@ == key {
        Some(fields[0].1)
    } else {
        spec_lookup(fields.drop_first(), key)
    }
}

/// Find the value of the first field with this name, if any.
pub fn lookup_field<'a>(fields: &'a Vec<(String, JsonScalar)>, key: &String) -> (r: Option<
    &'a JsonScalar,
>)
    ensures
        r matches Some(v) ==> spec_lookup(fields@, key@) == Some(*v),
        r is None ==> spec_lookup(fields@, key@) is None,
{
    let n = fields.len();
    let mut j: usize = 0;
    proof {
        assert(fields@.skip(0) =~= fields@);
    }
    while j < n
        invariant
            j <= n,
            n == fields@.len(),
            spec_lookup(fields@, key@) == spec_lookup(fields@.skip(j as int), key@),
        decreases n - j,
    {
        proof {
            assert(fields@.skip(j as int)[0] == fields@[j as int]);
            assert(fields@.skip(j as int).drop_first() =~= fields@.skip(j as int + 1));
        }
        if fields[j].0 == *key {
            return Some(&fields[j].1);
        }
        j = j + 1;
    }
    proof {
        assert(fields@.skip(n as int) =~= Seq::<(String, JsonScalar)>::empty());
    }
    None
}

/// The names of a record's fields, in input order.
pub open spec fn spec_field_names(fields: Seq<(String, JsonScalar)>) -> Seq<Seq<char>> {
    fields.map_values(|f: (String, JsonScalar)| f.0@)
}

/// Collect the names of a record's fields, in input order.
pub fn field_names(fields: &Vec<(String, JsonScalar)>) -> (r: Vec<String>)
    ensures
        seq_views(r@) == spec_field_names(fields@),
{
    let mut r: Vec<String> = Vec::new();
    let n = fields.len();
    let mut j: usize = 0;
    while j < n
        invariant
            j <= n,
            n == fields@.len(),
            r@.len() == j,
            forall|i: int| 0 <= i < j ==> #[trigger] r@[i]@ == fields@[i].0@,
        decreases n - j,
    {
        r.push(fields[j].0.clone());
        j = j + 1;
    }
    proof {
        assert(seq_views(r@) =~= spec_field_names(fields@));
    }
    r
}

/// The value slots of a record, one per column, in column order.
pub open spec fn spec_values(fields: Seq<(String, JsonScalar)>, cols: Seq<Seq<char>>) -> Seq<
    Seq<char>,
> {
    cols.map_values(|c: Seq<char>| spec_render_slot(spec_lookup(fields, c)))
}

/// The full `INSERT` statement for one record, against the given columns and
/// table name.
pub open spec fn spec_statement(
    fields: Seq<(String, JsonScalar)>,
    cols: Seq<Seq<char>>,
    table: Seq<char>,
) -> Seq<char> {
    "INSERT INTO "@ + table + " ("@ + spec_join(cols, ", "@) + ") VALUES ("@ + spec_join(
        spec_values(fields, cols),
        ", "@,
    ) + ");"@
}

/// Compose the `INSERT` statement for one record.
pub fn statement_for(
    fields: &Vec<(String, JsonScalar)>,
    cols: &Vec<String>,
    table_name: &str,
) -> (r: String)
    ensures
        r@ == spec_statement(fields@, seq_views(cols@), table_name@),
{
    let mut vals: Vec<String> = Vec::new();
    let n = cols.len();
    let mut k: usize = 0;
    while k < n
        invariant
            k <= n,
            n == cols@.len(),
            vals@.len() == k,
            forall|i: int| 0 <= i < k ==> #[trigger] vals@[i]@ == spec_render_slot(
                spec_lookup(fields@, cols@[i]@),
            ),
        decreases n - k,
    {
        let rendered = match lookup_field(fields, &cols[k]) {
            None => String::from_str("NULL"),
            Some(v) => render_scalar(v),
        };
        vals.push(rendered);
        k = k + 1;
    }
    proof {
        assert(seq_views(vals@) =~= spec_values(fields@, seq_views(cols@)));
    }
    let mut r = String::from_str("INSERT INTO ");
    r.append(table_name);
    r.append(" (");
    let cols_joined = join_with(cols, ", ");
    r.append(cols_joined.as_str());
    r.append(") VALUES (");
    let vals_joined = join_with(&vals, ", ");
    r.append(vals_joined.as_str());
    r.append(");");
    proof {
        assert(r@ =~= spec_statement(fields@, seq_views(cols@), table_name@));
    }
    r
}

} // verus!
