//! ClickHouse: its names for the types, and its `CREATE TABLE`.
//!
//! A column is the field's name, the type, `NULL` or `NOT NULL` and the
//! default; the last three only where the field has constraints at all.
//! After the columns comes the engine, and for an engine of the MergeTree
//! family the primary key and the ordering.

use crate::engine::{
    all_or_first_error, column_list, default_clause, default_text, header, header_text,
    lemma_all_grows, lemma_first_error_stays, nullability, nullability_text,
};
use crate::error::{rendered, unsupported_error, DdlError, ErrorSpec};
use crate::grammar::{parse, type_of_text};
use crate::model::{
    engine_text, merge_tree_family, without_increment, without_role, ClickhouseEngine, Field,
    FieldSpec, FieldType, IndexType, SQLTable, TableSpec,
};
use crate::text::{
    append_copies, decimal, decimal_string, join, join_strings, lemma_texts_push, lowercase,
    option_texts, texts,
};
use vstd::prelude::*;
use vstd::string::*;

verus! {

// ----------------- Types -----------------

/// The error for a type that ClickHouse does not have, by the type's name.
pub open spec fn unavailable(type_word: Seq<char>) -> ErrorSpec {
    unsupported_error(type_word + " is not available in ClickHouse"@)
}

/// What ClickHouse calls a type, or the error for a type it does not have.
///
/// An array is written around what its elements are called, and is not
/// available where they are not.
pub open spec fn clickhouse_type(t: FieldType) -> Result<Seq<char>, ErrorSpec>
    decreases t,
{
    match t {
        FieldType::UInt8 => Ok("UInt8"@),
        FieldType::UInt16 => Ok("UInt16"@),
        FieldType::UInt32 => Ok("UInt32"@),
        FieldType::UInt64 => Ok("UInt64"@),
        FieldType::UInt128 => Ok("UInt128"@),
        FieldType::UInt256 => Ok("UInt256"@),
        FieldType::Int8 => Ok("Int8"@),
        FieldType::Int16 => Ok("Int16"@),
        FieldType::Int32 => Ok("Int32"@),
        FieldType::Int64 => Ok("Int64"@),
        FieldType::Int128 => Ok("Int128"@),
        FieldType::Int256 => Ok("Int256"@),
        FieldType::Float32 => Ok("Float32"@),
        FieldType::Double => Ok("Float64"@),
        FieldType::Decimal(precision, scale) => Ok(
            "Decimal("@ + decimal(precision as nat) + ", "@ + decimal(scale as nat) + ")"@,
        ),
        FieldType::Boolean => Ok("Bool"@),
        FieldType::Varchar(_) | FieldType::Char(_) | FieldType::Text => Ok("String"@),
        FieldType::FixedString(len) => Ok("FixedString("@ + decimal(len as nat) + ")"@),
        FieldType::Date => Ok("Date"@),
        FieldType::DateTime => Ok("DateTime"@),
        FieldType::DateTime64 => Ok("DateTime64"@),
        FieldType::Json => Ok("Json"@),
        FieldType::IPv4 => Ok("IPv4"@),
        FieldType::IPv6 => Ok("IPv6"@),
        FieldType::Array(element) => match clickhouse_type(*element) {
            Ok(inner) => Ok("Array("@ + inner + ")"@),
            Err(e) => Err(e),
        },
        FieldType::VarBinary => Err(unavailable("VarBinary"@)),
        FieldType::Float16 => Err(unavailable("Float16"@)),
        FieldType::Float64 => Err(unavailable("Float64"@)),
        FieldType::Time => Err(unavailable("Time"@)),
        FieldType::Timestamp => Err(unavailable("Timestamp"@)),
        FieldType::Struct => Err(unavailable("Struct"@)),
        FieldType::Null => Err(unavailable("Null"@)),
    }
}

fn unavailable_error(type_word: &str) -> (e: DdlError)
    ensures
        e@ == unavailable(type_word@),
{
    let mut detail = String::from_str(type_word);
    detail.append(" is not available in ClickHouse");
    DdlError::unsupported(detail)
}

/// What ClickHouse calls a type, or the error for a type it does not have.
pub fn field_type(t: &FieldType) -> (r: Result<String, DdlError>)
    ensures
        rendered(r) == clickhouse_type(*t),
    decreases *t,
{
    match t {
        FieldType::UInt8 => Ok(String::from_str("UInt8")),
        FieldType::UInt16 => Ok(String::from_str("UInt16")),
        FieldType::UInt32 => Ok(String::from_str("UInt32")),
        FieldType::UInt64 => Ok(String::from_str("UInt64")),
        FieldType::UInt128 => Ok(String::from_str("UInt128")),
        FieldType::UInt256 => Ok(String::from_str("UInt256")),
        FieldType::Int8 => Ok(String::from_str("Int8")),
        FieldType::Int16 => Ok(String::from_str("Int16")),
        FieldType::Int32 => Ok(String::from_str("Int32")),
        FieldType::Int64 => Ok(String::from_str("Int64")),
        FieldType::Int128 => Ok(String::from_str("Int128")),
        FieldType::Int256 => Ok(String::from_str("Int256")),
        FieldType::Float32 => Ok(String::from_str("Float32")),
        FieldType::Double => Ok(String::from_str("Float64")),
        FieldType::Decimal(precision, scale) => {
            let mut s = String::from_str("Decimal(");
            let precision_text = decimal_string(*precision as u64);
            s.append(precision_text.as_str());
            s.append(", ");
            let scale_text = decimal_string(*scale as u64);
            s.append(scale_text.as_str());
            s.append(")");
            Ok(s)
        },
        FieldType::Boolean => Ok(String::from_str("Bool")),
        FieldType::Varchar(_) | FieldType::Char(_) | FieldType::Text => Ok(
            String::from_str("String"),
        ),
        FieldType::FixedString(len) => {
            let mut s = String::from_str("FixedString(");
            let len_text = decimal_string(*len as u64);
            s.append(len_text.as_str());
            s.append(")");
            Ok(s)
        },
        FieldType::Date => Ok(String::from_str("Date")),
        FieldType::DateTime => Ok(String::from_str("DateTime")),
        FieldType::DateTime64 => Ok(String::from_str("DateTime64")),
        FieldType::Json => Ok(String::from_str("Json")),
        FieldType::IPv4 => Ok(String::from_str("IPv4")),
        FieldType::IPv6 => Ok(String::from_str("IPv6")),
        FieldType::Array(element) => match field_type(element) {
            Ok(inner) => {
                let mut s = String::from_str("Array(");
                s.append(inner.as_str());
                s.append(")");
                Ok(s)
            },
            Err(e) => Err(e),
        },
        FieldType::VarBinary => Err(unavailable_error("VarBinary")),
        FieldType::Float16 => Err(unavailable_error("Float16")),
        FieldType::Float64 => Err(unavailable_error("Float64")),
        FieldType::Time => Err(unavailable_error("Time")),
        FieldType::Timestamp => Err(unavailable_error("Timestamp")),
        FieldType::Struct => Err(unavailable_error("Struct")),
        FieldType::Null => Err(unavailable_error("Null")),
    }
}

// ----------------- Columns -----------------

/// Whether ClickHouse takes the default of a column of this type in single
/// quotes: it does for characters, fixed strings and dates.
pub open spec fn quoted_default(t: FieldType) -> bool {
    ||| t is Char
    ||| t is FixedString
    ||| t is Varchar
    ||| t is Date
    ||| t is DateTime
    ||| t is DateTime64
}

/// What follows the type in a column: nothing for a field without
/// constraints, else the nullability and the default. That a field counts
/// up by itself is not written: ClickHouse has no word for it.
pub open spec fn constraints(field: FieldSpec, t: FieldType) -> Seq<char> {
    match field.value {
        Some(value) => nullability(value.not_null) + default_clause(
            value.default,
            quoted_default(t),
        ),
        None => Seq::empty(),
    }
}

/// The column of a field whose type has been read as `t`.
pub open spec fn column_of(field: FieldSpec, t: FieldType) -> Result<Seq<char>, ErrorSpec> {
    match clickhouse_type(t) {
        Ok(type_word) => Ok(field.name + " "@ + type_word + constraints(field, t)),
        Err(e) => Err(e),
    }
}

/// The column of a field: its type is read first, and a fault in it is the
/// column's error.
pub open spec fn column(field: FieldSpec) -> Result<Seq<char>, ErrorSpec> {
    match type_of_text(lowercase(field.f_type)) {
        Ok(t) => column_of(field, t),
        Err(e) => Err(e),
    }
}

/// The columns of the fields, in their order.
pub open spec fn columns(fields: Seq<FieldSpec>) -> Seq<Result<Seq<char>, ErrorSpec>> {
    Seq::new(fields.len(), |i: int| column(fields[i]))
}

/// Whether [`quoted_default`] holds of the type.
pub fn has_quoted_default(t: &FieldType) -> (b: bool)
    ensures
        b == quoted_default(*t),
{
    match t {
        FieldType::Char(_)
        | FieldType::FixedString(_)
        | FieldType::Varchar(_)
        | FieldType::Date
        | FieldType::DateTime
        | FieldType::DateTime64 => true,
        _ => false,
    }
}

/// Renders the column of a field whose type has been read as `t`.
pub fn render_column(field: &Field, t: &FieldType) -> (r: Result<String, DdlError>)
    ensures
        rendered(r) == column_of(field@, *t),
{
    let type_word = match field_type(t) {
        Ok(word) => word,
        Err(e) => {
            return Err(e);
        },
    };
    let mut s = field.name.clone();
    s.append(" ");
    s.append(type_word.as_str());
    match &field.value {
        Some(value) => {
            let mut clauses = String::from_str(nullability_text(value.not_null));
            let default = default_text(&value.default, has_quoted_default(t));
            clauses.append(default.as_str());
            s.append(clauses.as_str());
        },
        None => {
            assert(s@ + Seq::<char>::empty() =~= s@);
        },
    }
    Ok(s)
}

// ----------------- Statement -----------------

/// The names of the fields that are primary keys, in the order of the
/// fields.
pub open spec fn primary_names(fields: Seq<FieldSpec>) -> Seq<Seq<char>>
    decreases fields.len(),
{
    if fields.len() == 0 {
        Seq::empty()
    } else if fields.last().index == Some(IndexType::Primary) {
        primary_names(fields.drop_last()).push(fields.last().name)
    } else {
        primary_names(fields.drop_last())
    }
}

/// The primary key, where there is one, and the ordering, where the table
/// names columns to order by. The ordering starts with the primary keys,
/// also where the table names them again.
pub open spec fn key_clauses(keys: Seq<Seq<char>>, order_by: Option<Seq<Seq<char>>>) -> Seq<
    char,
> {
    let primary = if keys.len() > 0 {
        " PRIMARY KEY ("@ + join(keys, ","@) + ")"@
    } else {
        Seq::empty()
    };
    let ordering = match order_by {
        Some(columns) => " ORDER BY ("@ + join(keys + columns, ","@) + ")"@,
        None => Seq::empty(),
    };
    primary + ordering
}

/// The engine of a table: the plain MergeTree where it names none.
pub open spec fn engine_of(table: TableSpec) -> ClickhouseEngine {
    match table.table_engine {
        Some(engine) => engine,
        None => ClickhouseEngine::MergeTree,
    }
}

/// What follows the columns: the engine and, in the MergeTree family, the
/// keys.
pub open spec fn trailer(table: TableSpec) -> Seq<char> {
    let engine = engine_of(table);
    let keys = if merge_tree_family(engine) {
        key_clauses(primary_names(table.fields), table.order_by)
    } else {
        Seq::empty()
    };
    ") ENGINE = "@ + engine_text(engine) + keys
}

/// The `CREATE TABLE` of a table, or the error of its first field that has
/// one.
pub open spec fn statement(table: TableSpec) -> Result<Seq<char>, ErrorSpec> {
    match column_list(columns(table.fields)) {
        Ok(list) => Ok(header(table.name) + list + trailer(table)),
        Err(e) => Err(e),
    }
}

/// The key clauses, as a string.
pub fn render_key_clauses(keys: &Vec<String>, order_by: &Option<Vec<String>>) -> (s: String)
    ensures
        s@ == key_clauses(texts(keys@), option_texts(*order_by)),
{
    let mut clauses = String::new();
    if keys.len() > 0 {
        clauses.append(" PRIMARY KEY (");
        let joined = join_strings(keys, ",");
        clauses.append(joined.as_str());
        clauses.append(")");
        assert(clauses@ =~= " PRIMARY KEY ("@ + join(texts(keys@), ","@) + ")"@);
    }
    let mut ordering = String::new();
    match order_by {
        Some(columns) => {
            let mut all: Vec<String> = Vec::new();
            append_copies(&mut all, keys);
            append_copies(&mut all, columns);
            assert(texts(all@) =~= texts(keys@) + texts(columns@));
            ordering.append(" ORDER BY (");
            let joined = join_strings(&all, ",");
            ordering.append(joined.as_str());
            ordering.append(")");
            assert(ordering@ =~= " ORDER BY ("@ + join(texts(keys@) + texts(columns@), ","@)
                + ")"@);
        },
        None => {},
    }
    clauses.append(ordering.as_str());
    clauses
}

/// Writes the `CREATE TABLE` of a table for ClickHouse.
///
/// The fields are taken in their order, and the first whose type cannot be
/// read, or is a type that ClickHouse does not have, ends the rendering
/// with its error.
pub fn create_table(conf: &SQLTable) -> (r: Result<String, DdlError>)
    ensures
        rendered(r) == statement(conf@),
{
    let n: usize = conf.fields.len();
    let ghost fields = conf@.fields;
    let mut rendered_columns: Vec<String> = Vec::new();
    let mut primary_key: Vec<String> = Vec::new();
    let mut index: usize = 0;
    proof {
        assert(columns(fields).take(0) =~= Seq::empty());
        assert(texts(rendered_columns@) =~= Seq::empty());
        assert(texts(primary_key@) =~= Seq::empty());
        assert(fields.take(0) =~= Seq::empty());
    }
    while index < n
        invariant
            n == conf.fields.len(),
            fields == conf@.fields,
            index <= n,
            all_or_first_error(columns(fields).take(index as int)) == Ok::<
                Seq<Seq<char>>,
                ErrorSpec,
            >(texts(rendered_columns@)),
            texts(primary_key@) == primary_names(fields.take(index as int)),
        decreases n - index,
    {
        let field = &conf.fields[index];
        assert(fields[index as int] == field@);
        let parsed = match parse(field.f_type.as_str()) {
            Ok(t) => render_column(field, &t),
            Err(e) => Err(e),
        };
        assert(rendered(parsed) == columns(fields)[index as int]);
        match parsed {
            Ok(text) => {
                proof {
                    lemma_all_grows(columns(fields), index as int);
                    lemma_texts_push(rendered_columns@, text);
                    assert(fields.take(index + 1).drop_last() =~= fields.take(index as int));
                }
                rendered_columns.push(text);
            },
            Err(e) => {
                proof {
                    lemma_first_error_stays(columns(fields), index as int);
                }
                return Err(e);
            },
        }
        if let Some(role) = &field.index {
            if let IndexType::Primary = role {
                let key = field.name.clone();
                proof {
                    lemma_texts_push(primary_key@, key);
                }
                primary_key.push(key);
            }
        }
        index += 1;
    }
    proof {
        assert(columns(fields).take(n as int) =~= columns(fields));
        assert(fields.take(n as int) =~= fields);
    }
    let mut sql = header_text(conf.name.as_str());
    let list = join_strings(&rendered_columns, ", ");
    sql.append(list.as_str());
    let (engine_word, family) = match &conf.table_engine {
        Some(engine) => (engine.to_string(), engine.is_merge_tree_family()),
        None => (ClickhouseEngine::MergeTree.to_string(), true),
    };
    let mut end = String::from_str(") ENGINE = ");
    end.append(engine_word.as_str());
    if family {
        let keys = render_key_clauses(&primary_key, &conf.order_by);
        end.append(keys.as_str());
    } else {
        assert(end@ + Seq::<char>::empty() =~= end@);
    }
    sql.append(end.as_str());
    Ok(sql)
}

// ----------------- What holds of every table -----------------

/// The type of the elements of an array, of their elements where they are
/// arrays again, and so on; of any other type, the type itself.
pub open spec fn innermost(t: FieldType) -> FieldType
    decreases t,
{
    match t {
        FieldType::Array(element) => innermost(*element),
        _ => t,
    }
}

/// Whether ClickHouse has a type, for a type that is no array: it has all
/// but binary data, the floats of 16 and 64 bits, times, timestamps,
/// structs and the null type.
pub open spec fn available(t: FieldType) -> bool {
    match t {
        FieldType::VarBinary
        | FieldType::Float16
        | FieldType::Float64
        | FieldType::Time
        | FieldType::Timestamp
        | FieldType::Struct
        | FieldType::Null => false,
        _ => true,
    }
}

/// A type has a name in ClickHouse where its innermost type is available,
/// and only there; the error for any other is of the kind `Unsupported`.
pub proof fn lemma_available_types(t: FieldType)
    ensures
        clickhouse_type(t) is Ok <==> available(innermost(t)),
        clickhouse_type(t) matches Err(e) ==> e.kind is Unsupported,
    decreases t,
{
    match t {
        FieldType::Array(element) => {
            lemma_available_types(*element);
        },
        _ => {},
    }
}

/// Of the types that a text can spell out, ClickHouse lacks times and
/// timestamps and the arrays of them, and no others.
pub proof fn lemma_read_types(s: Seq<char>)
    ensures
        type_of_text(s) matches Ok(t) ==> (clickhouse_type(t) is Err <==> (innermost(t) is Time
            || innermost(t) is Timestamp)),
{
    if let Ok(t) = type_of_text(s) {
        crate::grammar::lemma_read_types_are_spelled(s);
        lemma_available_types(t);
        lemma_innermost_is_spelled(t);
    }
}

/// The innermost type of a type that is spelled is spelled.
pub proof fn lemma_innermost_is_spelled(t: FieldType)
    requires
        crate::grammar::spelled(t),
    ensures
        crate::grammar::spelled(innermost(t)),
        !(innermost(t) is Array),
    decreases t,
{
    match t {
        FieldType::Array(element) => {
            lemma_innermost_is_spelled(*element);
        },
        _ => {},
    }
}

/// With a log engine nothing follows the engine's name, and neither the
/// index roles of the fields nor the columns to order by change a
/// character of the statement.
pub proof fn lemma_log_engine_takes_no_keys(table: TableSpec)
    requires
        !merge_tree_family(engine_of(table)),
    ensures
        statement(table) == match column_list(columns(table.fields)) {
            Ok(list) => Ok::<Seq<char>, ErrorSpec>(
                header(table.name) + list + ") ENGINE = "@ + engine_text(engine_of(table)),
            ),
            Err(e) => Err(e),
        },
        statement(table) == statement(
            TableSpec {
                fields: table.fields.map_values(|field: FieldSpec| without_role(field)),
                order_by: None,
                ..table
            },
        ),
{
    let bare = table.fields.map_values(|field: FieldSpec| without_role(field));
    assert(columns(bare) =~= columns(table.fields));
    let end = ") ENGINE = "@ + engine_text(engine_of(table));
    assert(end + Seq::<char>::empty() =~= end);
    if let Ok(list) = column_list(columns(table.fields)) {
        assert(header(table.name) + list + end =~= header(table.name) + list + ") ENGINE = "@
            + engine_text(engine_of(table)));
    }
}

/// That a field counts up by itself changes nothing in the statement:
/// ClickHouse has no word for it, and none is written.
pub proof fn lemma_increment_is_not_written(table: TableSpec)
    ensures
        statement(table) == statement(
            TableSpec {
                fields: table.fields.map_values(|field: FieldSpec| without_increment(field)),
                ..table
            },
        ),
{
    let plain = table.fields.map_values(|field: FieldSpec| without_increment(field));
    assert(columns(plain) =~= columns(table.fields));
    lemma_same_names(table.fields, plain);
}

/// Fields with the same names and roles have the same primary keys.
pub proof fn lemma_same_names(a: Seq<FieldSpec>, b: Seq<FieldSpec>)
    requires
        a.len() == b.len(),
        forall|i: int| 0 <= i < a.len() ==> a[i].name == b[i].name && a[i].index == b[i].index,
    ensures
        primary_names(a) == primary_names(b),
    decreases a.len(),
{
    if a.len() > 0 {
        lemma_same_names(a.drop_last(), b.drop_last());
    }
}

/// In the MergeTree family, a table with a primary key and columns to
/// order by ends in the engine, then the primary key, then the ordering,
/// which starts with the primary key.
pub proof fn lemma_keys_then_ordering(table: TableSpec)
    requires
        merge_tree_family(engine_of(table)),
        primary_names(table.fields).len() > 0,
        table.order_by is Some,
    ensures
        statement(table) == match column_list(columns(table.fields)) {
            Ok(list) => Ok::<Seq<char>, ErrorSpec>(
                header(table.name) + list + ") ENGINE = "@ + engine_text(engine_of(table))
                    + " PRIMARY KEY ("@ + join(primary_names(table.fields), ","@) + ") ORDER BY ("@
                    + join(primary_names(table.fields) + table.order_by->Some_0, ","@) + ")"@,
            ),
            Err(e) => Err(e),
        },
{
    reveal_strlit(")");
    reveal_strlit(" ORDER BY (");
    reveal_strlit(") ORDER BY (");
    assert(")"@ + " ORDER BY ("@ =~= ") ORDER BY ("@);
    if let Ok(list) = column_list(columns(table.fields)) {
        let keys = primary_names(table.fields);
        let start = header(table.name) + list;
        let engine = ") ENGINE = "@ + engine_text(engine_of(table));
        let key_list = join(keys, ","@);
        let order_list = join(keys + table.order_by->Some_0, ","@);
        assert(start + (engine + ((" PRIMARY KEY ("@ + key_list + ")"@) + (" ORDER BY ("@
            + order_list + ")"@))) =~= start + ") ENGINE = "@ + engine_text(engine_of(table))
            + " PRIMARY KEY ("@ + key_list + ") ORDER BY ("@ + order_list + ")"@);
    }
}

} // verus!
