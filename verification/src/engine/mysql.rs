//! MySQL: its names for the types, and its `CREATE TABLE`.
//!
//! A column is the field's name between backticks, the type, and for a
//! field with constraints `AUTO_INCREMENT` where it counts up by itself,
//! `NULL` or `NOT NULL`, and the default. Nothing follows the columns but
//! the closing bracket.

use crate::engine::{
    all_or_first_error, column_list, default_clause, default_text, header, header_text,
    lemma_all_grows, lemma_error_is_of_an_item, lemma_first_error_stays, nullability,
    nullability_text,
};
use crate::error::{rendered, DdlError, ErrorSpec};
use crate::grammar::{lemma_errors_are_syntax, parse, type_of_text};
use crate::model::{without_role, Field, FieldSpec, FieldType, SQLTable, TableSpec};
use crate::text::{decimal, decimal_string, join_strings, lemma_texts_push, lowercase, texts};
use vstd::prelude::*;
use vstd::string::*;

verus! {

// ----------------- Types -----------------

/// What MySQL calls a type. Every type has a name there: the integers of
/// 128 and 256 bits are decimals wide enough for them, an address is as
/// many characters as its longest notation, and what has no columns of its
/// own (arrays, structs, the null type) is JSON.
pub open spec fn mysql_type(t: FieldType) -> Seq<char> {
    match t {
        FieldType::Char(len) => "char("@ + decimal(len as nat) + ")"@,
        FieldType::Varchar(len) => "varchar("@ + decimal(len as nat) + ")"@,
        FieldType::Text => "text"@,
        FieldType::Int8 => "tinyint"@,
        FieldType::Int16 => "smallint"@,
        FieldType::Int32 => "int"@,
        FieldType::Int64 => "bigint"@,
        FieldType::Float16 => "float"@,
        FieldType::Float32 => "float"@,
        FieldType::Float64 => "double"@,
        FieldType::Double => "double"@,
        FieldType::Decimal(precision, scale) => "decimal("@ + decimal(precision as nat) + ","@
            + decimal(scale as nat) + ")"@,
        FieldType::Boolean => "tinyint(1)"@,
        FieldType::Date => "date"@,
        FieldType::Time => "time"@,
        FieldType::DateTime => "datetime"@,
        FieldType::DateTime64 => "datetime"@,
        FieldType::Timestamp => "timestamp"@,
        FieldType::Json => "json"@,
        FieldType::VarBinary => "blob"@,
        FieldType::FixedString(len) => "char("@ + decimal(len as nat) + ")"@,
        FieldType::UInt8 => "tinyint unsigned"@,
        FieldType::UInt16 => "smallint unsigned"@,
        FieldType::UInt32 => "int unsigned"@,
        FieldType::UInt64 => "bigint unsigned"@,
        FieldType::UInt128 => "decimal(39,0)"@,
        FieldType::UInt256 => "decimal(78,0)"@,
        FieldType::Int128 => "decimal(39,0)"@,
        FieldType::Int256 => "decimal(78,0)"@,
        FieldType::IPv4 => "varchar(15)"@,
        FieldType::IPv6 => "varchar(39)"@,
        FieldType::Array(_) | FieldType::Struct | FieldType::Null => "json"@,
    }
}

/// What MySQL calls a type.
pub fn field_type_mysql(field_type: &FieldType) -> (s: String)
    ensures
        s@ == mysql_type(*field_type),
{
    match field_type {
        FieldType::Char(len) => {
            let mut s = String::from_str("char(");
            let len_text = decimal_string(*len as u64);
            s.append(len_text.as_str());
            s.append(")");
            s
        },
        FieldType::Varchar(len) => {
            let mut s = String::from_str("varchar(");
            let len_text = decimal_string(*len as u64);
            s.append(len_text.as_str());
            s.append(")");
            s
        },
        FieldType::Text => String::from_str("text"),
        FieldType::Int8 => String::from_str("tinyint"),
        FieldType::Int16 => String::from_str("smallint"),
        FieldType::Int32 => String::from_str("int"),
        FieldType::Int64 => String::from_str("bigint"),
        FieldType::Float16 => String::from_str("float"),
        FieldType::Float32 => String::from_str("float"),
        FieldType::Float64 => String::from_str("double"),
        FieldType::Double => String::from_str("double"),
        FieldType::Decimal(precision, scale) => {
            let mut s = String::from_str("decimal(");
            let precision_text = decimal_string(*precision as u64);
            s.append(precision_text.as_str());
            s.append(",");
            let scale_text = decimal_string(*scale as u64);
            s.append(scale_text.as_str());
            s.append(")");
            s
        },
        FieldType::Boolean => String::from_str("tinyint(1)"),
        FieldType::Date => String::from_str("date"),
        FieldType::Time => String::from_str("time"),
        FieldType::DateTime => String::from_str("datetime"),
        FieldType::DateTime64 => String::from_str("datetime"),
        FieldType::Timestamp => String::from_str("timestamp"),
        FieldType::Json => String::from_str("json"),
        FieldType::VarBinary => String::from_str("blob"),
        FieldType::FixedString(len) => {
            let mut s = String::from_str("char(");
            let len_text = decimal_string(*len as u64);
            s.append(len_text.as_str());
            s.append(")");
            s
        },
        FieldType::UInt8 => String::from_str("tinyint unsigned"),
        FieldType::UInt16 => String::from_str("smallint unsigned"),
        FieldType::UInt32 => String::from_str("int unsigned"),
        FieldType::UInt64 => String::from_str("bigint unsigned"),
        FieldType::UInt128 => String::from_str("decimal(39,0)"),
        FieldType::UInt256 => String::from_str("decimal(78,0)"),
        FieldType::Int128 => String::from_str("decimal(39,0)"),
        FieldType::Int256 => String::from_str("decimal(78,0)"),
        FieldType::IPv4 => String::from_str("varchar(15)"),
        FieldType::IPv6 => String::from_str("varchar(39)"),
        FieldType::Array(_) | FieldType::Struct | FieldType::Null => String::from_str("json"),
    }
}

// ----------------- Columns -----------------

/// Whether MySQL takes the default of a column of this type in single
/// quotes: it does for every kind of text, for dates and times, for JSON
/// and for addresses.
pub open spec fn quoted_default(t: FieldType) -> bool {
    ||| t is Char
    ||| t is FixedString
    ||| t is Varchar
    ||| t is Text
    ||| t is Date
    ||| t is DateTime
    ||| t is DateTime64
    ||| t is Time
    ||| t is Timestamp
    ||| t is Json
    ||| t is IPv4
    ||| t is IPv6
}

/// The word for a field that counts up by itself; nothing for one that
/// does not.
pub open spec fn increment_clause(increment: Option<bool>) -> Seq<char> {
    if increment == Some(true) {
        " AUTO_INCREMENT"@
    } else {
        Seq::empty()
    }
}

/// What follows the type in a column: nothing for a field without
/// constraints, else the increment, the nullability and the default, in
/// this order.
pub open spec fn constraints(field: FieldSpec, t: FieldType) -> Seq<char> {
    match field.value {
        Some(value) => increment_clause(value.increment) + nullability(value.not_null)
            + default_clause(value.default, quoted_default(t)),
        None => Seq::empty(),
    }
}

/// The column of a field whose type has been read as `t`.
pub open spec fn column_of(field: FieldSpec, t: FieldType) -> Seq<char> {
    "`"@ + field.name + "` "@ + mysql_type(t) + constraints(field, t)
}

/// The column of a field: its type is read first, and a fault in it is the
/// column's error.
pub open spec fn column(field: FieldSpec) -> Result<Seq<char>, ErrorSpec> {
    match type_of_text(lowercase(field.f_type)) {
        Ok(t) => Ok(column_of(field, t)),
        Err(e) => Err(e),
    }
}

/// The columns of the fields, in their order.
pub open spec fn columns(fields: Seq<FieldSpec>) -> Seq<Result<Seq<char>, ErrorSpec>> {
    Seq::new(fields.len(), |i: int| column(fields[i]))
}

/// The `CREATE TABLE` of a table, or the error of its first field whose
/// type cannot be read.
pub open spec fn statement(table: TableSpec) -> Result<Seq<char>, ErrorSpec> {
    match column_list(columns(table.fields)) {
        Ok(list) => Ok(header(table.name) + list + ")"@),
        Err(e) => Err(e),
    }
}

/// Whether [`quoted_default`] holds of the type.
pub fn has_quoted_default(t: &FieldType) -> (b: bool)
    ensures
        b == quoted_default(*t),
{
    match t {
        FieldType::Char(_)
        | FieldType::FixedString(_)
        | FieldType::Varchar(_)
        | FieldType::Text
        | FieldType::Date
        | FieldType::DateTime
        | FieldType::DateTime64
        | FieldType::Time
        | FieldType::Timestamp
        | FieldType::Json
        | FieldType::IPv4
        | FieldType::IPv6 => true,
        _ => false,
    }
}

/// Renders the column of a field whose type has been read as `t`.
pub fn render_column(field: &Field, t: &FieldType) -> (s: String)
    ensures
        s@ == column_of(field@, *t),
{
    let mut s = String::from_str("`");
    s.append(field.name.as_str());
    s.append("` ");
    let type_word = field_type_mysql(t);
    s.append(type_word.as_str());
    match &field.value {
        Some(value) => {
            let mut clauses = String::new();
            match value.increment {
                Some(true) => {
                    clauses.append(" AUTO_INCREMENT");
                    assert(clauses@ =~= increment_clause(value.increment));
                },
                _ => {},
            }
            clauses.append(nullability_text(value.not_null));
            let default = default_text(&value.default, has_quoted_default(t));
            clauses.append(default.as_str());
            s.append(clauses.as_str());
        },
        None => {
            assert(s@ + Seq::<char>::empty() =~= s@);
        },
    }
    s
}

/// Writes the `CREATE TABLE` of a table for MySQL.
///
/// The fields are taken in their order, and the first whose type cannot be
/// read ends the rendering with its error.
pub fn create_table(conf: &SQLTable) -> (r: Result<String, DdlError>)
    ensures
        rendered(r) == statement(conf@),
        r matches Err(e) ==> e@.kind is Syntax,
{
    proof {
        lemma_only_syntax_errors(conf@);
    }
    let n: usize = conf.fields.len();
    let ghost fields = conf@.fields;
    let mut rendered_columns: Vec<String> = Vec::new();
    let mut index: usize = 0;
    proof {
        assert(columns(fields).take(0) =~= Seq::empty());
        assert(texts(rendered_columns@) =~= Seq::empty());
    }
    while index < n
        invariant
            n == conf.fields.len(),
            fields == conf@.fields,
            index <= n,
            all_or_first_error(columns(fields).take(index as int)) == Ok::<
                Seq<Seq<char>>,
                ErrorSpec,
            >(texts(rendered_columns@)),
        decreases n - index,
    {
        let field = &conf.fields[index];
        assert(fields[index as int] == field@);
        match parse(field.f_type.as_str()) {
            Ok(t) => {
                let text = render_column(field, &t);
                proof {
                    lemma_all_grows(columns(fields), index as int);
                    lemma_texts_push(rendered_columns@, text);
                }
                rendered_columns.push(text);
            },
            Err(e) => {
                proof {
                    lemma_first_error_stays(columns(fields), index as int);
                }
                return Err(e);
            },
        }
        index += 1;
    }
    proof {
        assert(columns(fields).take(n as int) =~= columns(fields));
    }
    let mut sql = header_text(conf.name.as_str());
    let list = join_strings(&rendered_columns, ", ");
    sql.append(list.as_str());
    sql.append(")");
    Ok(sql)
}

// ----------------- What holds of every table -----------------

/// MySQL has a name for every type, so a table fails to render only where
/// the text of a type is not read: every error is a syntax error.
pub proof fn lemma_only_syntax_errors(table: TableSpec)
    ensures
        statement(table) matches Err(e) ==> e.kind is Syntax,
{
    if all_or_first_error(columns(table.fields)) is Err {
        let i = lemma_error_is_of_an_item(columns(table.fields));
        lemma_errors_are_syntax(lowercase(table.fields[i].f_type));
    }
}

/// A table renders where the text of each field's type is read.
pub proof fn lemma_renders_what_is_read(table: TableSpec)
    requires
        forall|i: int|
            0 <= i < table.fields.len() ==> type_of_text(
                lowercase(#[trigger] table.fields[i].f_type),
            ) is Ok,
    ensures
        statement(table) is Ok,
{
    if all_or_first_error(columns(table.fields)) is Err {
        let i = lemma_error_is_of_an_item(columns(table.fields));
        assert(type_of_text(lowercase(table.fields[i].f_type)) is Ok);
    }
}

/// The statement is made of the table's name and of the name, the type and
/// the constraints of each field: the index roles, the engine and the
/// columns to order by change nothing in it.
pub proof fn lemma_roles_and_engine_are_not_written(table: TableSpec)
    ensures
        statement(table) == statement(
            TableSpec {
                name: table.name,
                fields: table.fields.map_values(|field: FieldSpec| without_role(field)),
                table_engine: None,
                order_by: None,
            },
        ),
{
    let bare = table.fields.map_values(|field: FieldSpec| without_role(field));
    assert(columns(bare) =~= columns(table.fields));
}

/// For a field that counts up by itself, `AUTO_INCREMENT` is written
/// behind the type and before the nullability.
pub proof fn lemma_increment_before_nullability(field: FieldSpec, t: FieldType)
    requires
        field.value matches Some(value) && value.increment == Some(true),
    ensures
        column_of(field, t) == "`"@ + field.name + "` "@ + mysql_type(t) + " AUTO_INCREMENT"@
            + nullability(field.value->Some_0.not_null) + default_clause(
            field.value->Some_0.default,
            quoted_default(t),
        ),
{
    let value = field.value->Some_0;
    let start = "`"@ + field.name + "` "@ + mysql_type(t);
    let end = default_clause(value.default, quoted_default(t));
    assert(start + (" AUTO_INCREMENT"@ + nullability(value.not_null) + end) =~= start
        + " AUTO_INCREMENT"@ + nullability(value.not_null) + end);
}

/// A field that must not be null and has a default, and does not count up
/// by itself, ends in `NOT NULL DEFAULT` and the default: between single
/// quotes for a type of the quoted kind, such as a `varchar`, and as it
/// stands for any other, such as an `int32`.
pub proof fn lemma_default_after_not_null(field: FieldSpec, t: FieldType)
    requires
        field.value matches Some(value) && value.increment != Some(true) && value.not_null
            == Some(true) && value.default is Some,
    ensures
        t is Varchar ==> quoted_default(t),
        t is Int32 ==> !quoted_default(t),
        quoted_default(t) ==> column_of(field, t) == "`"@ + field.name + "` "@ + mysql_type(t)
            + " NOT NULL DEFAULT '"@ + field.value->Some_0.default->Some_0 + "'"@,
        !quoted_default(t) ==> column_of(field, t) == "`"@ + field.name + "` "@ + mysql_type(t)
            + " NOT NULL DEFAULT "@ + field.value->Some_0.default->Some_0,
{
    reveal_strlit(" NOT NULL");
    reveal_strlit(" DEFAULT '");
    reveal_strlit(" DEFAULT ");
    reveal_strlit(" NOT NULL DEFAULT '");
    reveal_strlit(" NOT NULL DEFAULT ");
    let text = field.value->Some_0.default->Some_0;
    let start = "`"@ + field.name + "` "@ + mysql_type(t);
    assert(" NOT NULL"@ + " DEFAULT '"@ =~= " NOT NULL DEFAULT '"@);
    assert(" NOT NULL"@ + " DEFAULT "@ =~= " NOT NULL DEFAULT "@);
    assert(Seq::<char>::empty() + " NOT NULL"@ =~= " NOT NULL"@);
    assert(start + (" NOT NULL"@ + (" DEFAULT '"@ + text + "'"@)) =~= start + (" NOT NULL"@
        + " DEFAULT '"@) + text + "'"@);
    assert(start + (" NOT NULL"@ + (" DEFAULT "@ + text)) =~= start + (" NOT NULL"@
        + " DEFAULT "@) + text);
}

} // verus!
