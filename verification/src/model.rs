//! The table description: what a caller fills in and a renderer reads.

use crate::error::{outcome, DdlError};
use crate::grammar::type_of_text;
use crate::text::{
    decimal, decimal_string, lowercase, option_text, option_texts, same_text, signed_decimal,
    signed_decimal_string, to_lowercase,
};
use vstd::prelude::*;
use vstd::std_specs::convert::FromSpecImpl;
use vstd::string::*;

verus! {

// ----------------- ClickHouse engine -----------------

/// The storage engine of a ClickHouse table.
///
/// The six engines of the MergeTree family take a primary key and an
/// ordering; the three log engines take neither.
#[derive(Clone, Debug, PartialEq)]
pub enum ClickhouseEngine {
    MergeTree,
    ReplacingMergeTree,
    SummingMergeTree,
    AggregatingMergeTree,
    /// Holds the sign. The engine is written `CollapsingMergeTree`.
    CollapsingMergerTree(i8),
    /// Holds the sign and the version.
    VersionedCollapsingMergeTree(i8, u8),
    TinyLog,
    StripeLog,
    Log,
}

/// Whether `engine` belongs to the MergeTree family.
pub open spec fn merge_tree_family(engine: ClickhouseEngine) -> bool {
    match engine {
        ClickhouseEngine::TinyLog | ClickhouseEngine::StripeLog | ClickhouseEngine::Log => false,
        _ => true,
    }
}

/// The engine as it stands behind `ENGINE =`.
pub open spec fn engine_text(engine: ClickhouseEngine) -> Seq<char> {
    match engine {
        ClickhouseEngine::MergeTree => "MergeTree()"@,
        ClickhouseEngine::ReplacingMergeTree => "ReplacingMergeTree()"@,
        ClickhouseEngine::SummingMergeTree => "SummingMergeTree()"@,
        ClickhouseEngine::AggregatingMergeTree => "AggregatingMergeTree()"@,
        ClickhouseEngine::CollapsingMergerTree(sign) => "CollapsingMergeTree("@ + signed_decimal(
            sign as int,
        ) + ")"@,
        ClickhouseEngine::VersionedCollapsingMergeTree(sign, version) =>
            "VersionedCollapsingMergeTree("@ + signed_decimal(sign as int) + ","@ + decimal(
                version as nat,
            ) + ")"@,
        ClickhouseEngine::TinyLog => "TinyLog"@,
        ClickhouseEngine::StripeLog => "StripeLog"@,
        ClickhouseEngine::Log => "Log"@,
    }
}

/// The engine that an engine's name stands for, the name already in lowercase.
pub open spec fn engine_named(name: Seq<char>) -> ClickhouseEngine {
    if name == "log"@ {
        ClickhouseEngine::Log
    } else {
        ClickhouseEngine::MergeTree
    }
}

impl ClickhouseEngine {
    /// Whether the engine takes `PRIMARY KEY` and `ORDER BY`.
    pub fn is_merge_tree_family(&self) -> (b: bool)
        ensures
            b == merge_tree_family(*self),
    {
        match self {
            ClickhouseEngine::TinyLog | ClickhouseEngine::StripeLog | ClickhouseEngine::Log => false,
            _ => true,
        }
    }

    /// The engine as it stands behind `ENGINE =`.
    pub fn to_string(&self) -> (s: String)
        ensures
            s@ == engine_text(*self),
    {
        match self {
            ClickhouseEngine::MergeTree => String::from_str("MergeTree()"),
            ClickhouseEngine::ReplacingMergeTree => String::from_str("ReplacingMergeTree()"),
            ClickhouseEngine::SummingMergeTree => String::from_str("SummingMergeTree()"),
            ClickhouseEngine::AggregatingMergeTree => String::from_str("AggregatingMergeTree()"),
            ClickhouseEngine::CollapsingMergerTree(sign) => {
                let mut s = String::from_str("CollapsingMergeTree(");
                let sign_text = signed_decimal_string(*sign as i64);
                s.append(sign_text.as_str());
                s.append(")");
                s
            },
            ClickhouseEngine::VersionedCollapsingMergeTree(sign, version) => {
                let mut s = String::from_str("VersionedCollapsingMergeTree(");
                let sign_text = signed_decimal_string(*sign as i64);
                s.append(sign_text.as_str());
                s.append(",");
                let version_text = decimal_string(*version as u64);
                s.append(version_text.as_str());
                s.append(")");
                s
            },
            ClickhouseEngine::TinyLog => String::from_str("TinyLog"),
            ClickhouseEngine::StripeLog => String::from_str("StripeLog"),
            ClickhouseEngine::Log => String::from_str("Log"),
        }
    }

    /// The engine that `name` stands for once it is in lowercase: `log` is
    /// the log engine, and every other name the plain MergeTree.
    pub fn from_lowercase(name: &str) -> (engine: ClickhouseEngine)
        ensures
            engine == engine_named(name@),
    {
        if same_text(name, "log") {
            ClickhouseEngine::Log
        } else {
            ClickhouseEngine::MergeTree
        }
    }
}

impl Default for ClickhouseEngine {
    fn default() -> (engine: ClickhouseEngine)
        ensures
            engine == ClickhouseEngine::MergeTree,
    {
        ClickhouseEngine::MergeTree
    }
}

impl From<&str> for ClickhouseEngine {
    /// Reads an engine's name, whatever its case.
    fn from(value: &str) -> (engine: ClickhouseEngine) {
        let lowered = to_lowercase(value);
        ClickhouseEngine::from_lowercase(lowered.as_str())
    }
}

impl FromSpecImpl<&str> for ClickhouseEngine {
    open spec fn obeys_from_spec() -> bool {
        true
    }

    open spec fn from_spec(value: &str) -> ClickhouseEngine {
        engine_named(lowercase(value@))
    }
}

// ----------------- Table description -----------------

/// The constraints on a field's values. A flag that is absent counts as unset.
#[derive(Clone, Debug, PartialEq)]
pub struct ValueConf {
    pub increment: Option<bool>,
    /// The default value, written as the statement is to hold it, without
    /// quotes.
    pub default: Option<String>,
    pub not_null: Option<bool>,
}

/// What a [`ValueConf`] holds, its default as a sequence of characters.
pub struct ValueSpec {
    pub increment: Option<bool>,
    pub default: Option<Seq<char>>,
    pub not_null: Option<bool>,
}

impl View for ValueConf {
    type V = ValueSpec;

    open spec fn view(&self) -> ValueSpec {
        ValueSpec {
            increment: self.increment,
            default: option_text(self.default),
            not_null: self.not_null,
        }
    }
}

/// The role of a field in the table's indexes.
#[derive(Clone, Copy, Debug, PartialEq, Eq, Structural)]
pub enum IndexType {
    Primary,
    Unique,
    Index,
    FullText,
    Spatial,
}

/// One column: its name, the text of its type, and what else is known of it.
#[derive(Clone, Debug, PartialEq)]
pub struct Field {
    pub name: String,
    /// The type as text, such as `varchar(255)`. It is read when the table
    /// is rendered, not before.
    pub f_type: String,
    pub index: Option<IndexType>,
    pub value: Option<ValueConf>,
}

/// What a [`Field`] holds, its texts as sequences of characters.
pub struct FieldSpec {
    pub name: Seq<char>,
    pub f_type: Seq<char>,
    pub index: Option<IndexType>,
    pub value: Option<ValueSpec>,
}

impl View for Field {
    type V = FieldSpec;

    open spec fn view(&self) -> FieldSpec {
        FieldSpec {
            name: self.name@,
            f_type: self.f_type@,
            index: self.index,
            value: match self.value {
                Some(value) => Some(value@),
                None => None,
            },
        }
    }
}

/// A field with a name and a type, and nothing else.
pub open spec fn plain_field(name: Seq<char>, f_type: Seq<char>) -> FieldSpec {
    FieldSpec { name, f_type, index: None, value: None }
}

/// A primary key: an `int32` that counts up by itself and is never null.
pub open spec fn key_field(name: Seq<char>) -> FieldSpec {
    FieldSpec {
        name,
        f_type: "int32"@,
        index: Some(IndexType::Primary),
        value: Some(ValueSpec { increment: Some(true), default: None, not_null: Some(true) }),
    }
}

/// The field without its index role.
pub open spec fn without_role(field: FieldSpec) -> FieldSpec {
    FieldSpec { index: None, ..field }
}

/// The field as it is, but for counting up by itself.
pub open spec fn without_increment(field: FieldSpec) -> FieldSpec {
    FieldSpec {
        value: match field.value {
            Some(value) => Some(ValueSpec { increment: None, ..value }),
            None => None,
        },
        ..field
    }
}

impl Field {
    /// A field of type `varchar(255)`, with no index role and no constraints.
    pub fn new(name: &str) -> (field: Field)
        ensures
            field@ == plain_field(name@, "varchar(255)"@),
    {
        Field {
            name: String::from_str(name),
            f_type: String::from_str("varchar(255)"),
            index: None,
            value: None,
        }
    }

    /// A field of the given type, with no index role and no constraints.
    pub fn new2(name: &str, table_type: &str) -> (field: Field)
        ensures
            field@ == plain_field(name@, table_type@),
    {
        Field {
            name: String::from_str(name),
            f_type: String::from_str(table_type),
            index: None,
            value: None,
        }
    }

    /// A primary key: an `int32` that counts up by itself and is never null.
    pub fn primary_key(name: &str) -> (field: Field)
        ensures
            field@ == key_field(name@),
    {
        Field {
            name: String::from_str(name),
            f_type: String::from_str("int32"),
            index: Some(IndexType::Primary),
            value: Some(ValueConf { increment: Some(true), default: None, not_null: Some(true) }),
        }
    }
}

/// A table: its name, its fields in the order in which they are written,
/// and, for ClickHouse, the engine and the columns to order by.
#[derive(Clone, Debug, PartialEq)]
pub struct SQLTable {
    pub name: String,
    pub fields: Vec<Field>,
    pub table_engine: Option<ClickhouseEngine>,
    pub order_by: Option<Vec<String>>,
}

/// What an [`SQLTable`] holds, its texts and lists as sequences.
pub struct TableSpec {
    pub name: Seq<char>,
    pub fields: Seq<FieldSpec>,
    pub table_engine: Option<ClickhouseEngine>,
    pub order_by: Option<Seq<Seq<char>>>,
}

/// What the fields of a list hold, in their order.
pub open spec fn field_specs(fields: Seq<Field>) -> Seq<FieldSpec> {
    Seq::new(fields.len(), |i: int| fields[i]@)
}

impl View for SQLTable {
    type V = TableSpec;

    open spec fn view(&self) -> TableSpec {
        TableSpec {
            name: self.name@,
            fields: field_specs(self.fields@),
            table_engine: self.table_engine,
            order_by: option_texts(self.order_by),
        }
    }
}

impl Default for SQLTable {
    /// The table `my_table`, with a primary key `id` and a field `value`.
    fn default() -> (table: SQLTable)
        ensures
            table@.name == "my_table"@,
            table@.fields == seq![key_field("id"@), plain_field("value"@, "varchar(255)"@)],
            table@.table_engine is None,
            table@.order_by is None,
    {
        let mut fields: Vec<Field> = Vec::new();
        fields.push(Field::primary_key("id"));
        fields.push(Field::new("value"));
        let table = SQLTable {
            name: String::from_str("my_table"),
            fields,
            table_engine: None,
            order_by: None,
        };
        assert(table@.fields =~= seq![key_field("id"@), plain_field("value"@, "varchar(255)"@)]);
        table
    }
}

// ----------------- Field type -----------------

/// The storage type of a field, as the text of a type spells it out.
#[derive(Debug, PartialEq, Eq)]
pub enum FieldType {
    /// Holds the width.
    Char(u8),
    /// Holds the width.
    Varchar(u32),
    /// Holds the length.
    FixedString(usize),
    Text,
    VarBinary,
    UInt8,
    UInt16,
    UInt32,
    UInt64,
    UInt128,
    UInt256,
    Int8,
    Int16,
    Int32,
    Int64,
    Int128,
    Int256,
    Float16,
    Float32,
    Float64,
    Double,
    /// Holds the precision, then the scale.
    Decimal(usize, usize),
    Boolean,
    Date,
    Time,
    DateTime,
    DateTime64,
    Timestamp,
    Json,
    IPv4,
    IPv6,
    /// Holds the type of the elements, which may be an array again.
    Array(Box<FieldType>),
    Struct,
    Null,
}

impl FieldType {
    /// Reads the type that `text` spells out, in whatever case it is
    /// written.
    pub fn parse(text: &str) -> (r: Result<FieldType, DdlError>)
        ensures
            outcome(r) == type_of_text(lowercase(text@)),
            r matches Err(e) ==> e@.kind is Syntax,
    {
        crate::grammar::parse(text)
    }
}

impl std::str::FromStr for FieldType {
    type Err = DdlError;

    /// Reads a type as [`FieldType::parse`] does.
    fn from_str(s: &str) -> (r: Result<FieldType, DdlError>)
        ensures
            outcome(r) == type_of_text(lowercase(s@)),
            r matches Err(e) ==> e@.kind is Syntax,
    {
        crate::grammar::parse(s)
    }
}

} // verus!
