use table_ddl::engine::mysql::{create_table, field_type_mysql, has_quoted_default, render_column};
use table_ddl::error::{DdlError, ErrorKind, SyntaxReason};
use table_ddl::model::{ClickhouseEngine, Field, FieldType, IndexType, SQLTable, ValueConf};

fn one_field(field: Field) -> SQLTable {
    SQLTable { name: "t".to_string(), fields: vec![field], table_engine: None, order_by: None }
}

fn with_value(name: &str, f_type: &str, value: ValueConf) -> Field {
    Field { name: name.to_string(), f_type: f_type.to_string(), index: None, value: Some(value) }
}

#[test]
fn mysql_default_table() {
    assert_eq!(
        create_table(&SQLTable::default()),
        Ok("CREATE TABLE IF NOT EXISTS `my_table` ( `id` int AUTO_INCREMENT NOT NULL, `value` varchar(255))".to_string())
    );
}

#[test]
fn mysql_varchar_default_is_quoted() {
    let field = with_value(
        "name",
        "varchar(255)",
        ValueConf { increment: None, default: Some("anon".to_string()), not_null: Some(true) },
    );
    assert_eq!(
        create_table(&one_field(field)).unwrap(),
        "CREATE TABLE IF NOT EXISTS `t` ( `name` varchar(255) NOT NULL DEFAULT 'anon')"
    );
}

#[test]
fn mysql_int_default_is_not_quoted() {
    let field = with_value(
        "name",
        "int32",
        ValueConf { increment: None, default: Some("42".to_string()), not_null: Some(true) },
    );
    assert_eq!(
        create_table(&one_field(field)).unwrap(),
        "CREATE TABLE IF NOT EXISTS `t` ( `name` int NOT NULL DEFAULT 42)"
    );
}

#[test]
fn mysql_auto_increment_stands_before_nullability() {
    let field = with_value(
        "id",
        "int",
        ValueConf { increment: Some(true), default: None, not_null: Some(true) },
    );
    let sql = create_table(&one_field(field)).unwrap();
    assert_eq!(sql, "CREATE TABLE IF NOT EXISTS `t` ( `id` int AUTO_INCREMENT NOT NULL)");
    assert!(sql.find("AUTO_INCREMENT").unwrap() < sql.find("NOT NULL").unwrap());
    let nullable = with_value(
        "id",
        "int",
        ValueConf { increment: Some(true), default: Some("1".to_string()), not_null: None },
    );
    assert_eq!(
        create_table(&one_field(nullable)).unwrap(),
        "CREATE TABLE IF NOT EXISTS `t` ( `id` int AUTO_INCREMENT NULL DEFAULT 1)"
    );
}

#[test]
fn mysql_unset_flags_count_as_absent() {
    let field = with_value(
        "n",
        "int",
        ValueConf { increment: Some(false), default: None, not_null: Some(false) },
    );
    assert_eq!(
        create_table(&one_field(field)).unwrap(),
        "CREATE TABLE IF NOT EXISTS `t` ( `n` int NULL)"
    );
    let empty = with_value("n", "int", ValueConf { increment: None, default: None, not_null: None });
    assert_eq!(
        create_table(&one_field(empty)).unwrap(),
        "CREATE TABLE IF NOT EXISTS `t` ( `n` int NULL)"
    );
}

#[test]
fn mysql_ignores_engine_keys_and_order() {
    let mut key = Field::new("k");
    key.index = Some(IndexType::Primary);
    let t = SQLTable {
        name: "t".to_string(),
        fields: vec![key, Field::new2("d", "date")],
        table_engine: Some(ClickhouseEngine::Log),
        order_by: Some(vec!["d".to_string()]),
    };
    assert_eq!(
        create_table(&t).unwrap(),
        "CREATE TABLE IF NOT EXISTS `t` ( `k` varchar(255), `d` date)"
    );
}

#[test]
fn mysql_no_fields() {
    let t = SQLTable { name: "t".to_string(), fields: vec![], table_engine: None, order_by: None };
    assert_eq!(create_table(&t).unwrap(), "CREATE TABLE IF NOT EXISTS `t` ( )");
}

#[test]
fn mysql_type_words() {
    let cases = [
        (FieldType::Char(3), "char(3)"),
        (FieldType::Varchar(4294967295), "varchar(4294967295)"),
        (FieldType::Text, "text"),
        (FieldType::Int8, "tinyint"),
        (FieldType::Int16, "smallint"),
        (FieldType::Int32, "int"),
        (FieldType::Int64, "bigint"),
        (FieldType::Float16, "float"),
        (FieldType::Float32, "float"),
        (FieldType::Float64, "double"),
        (FieldType::Double, "double"),
        (FieldType::Decimal(10, 2), "decimal(10,2)"),
        (FieldType::Boolean, "tinyint(1)"),
        (FieldType::Date, "date"),
        (FieldType::Time, "time"),
        (FieldType::DateTime, "datetime"),
        (FieldType::DateTime64, "datetime"),
        (FieldType::Timestamp, "timestamp"),
        (FieldType::Json, "json"),
        (FieldType::VarBinary, "blob"),
        (FieldType::FixedString(16), "char(16)"),
        (FieldType::UInt8, "tinyint unsigned"),
        (FieldType::UInt16, "smallint unsigned"),
        (FieldType::UInt32, "int unsigned"),
        (FieldType::UInt64, "bigint unsigned"),
        (FieldType::UInt128, "decimal(39,0)"),
        (FieldType::UInt256, "decimal(78,0)"),
        (FieldType::Int128, "decimal(39,0)"),
        (FieldType::Int256, "decimal(78,0)"),
        (FieldType::IPv4, "varchar(15)"),
        (FieldType::IPv6, "varchar(39)"),
        (FieldType::Array(Box::new(FieldType::Int32)), "json"),
        (FieldType::Struct, "json"),
        (FieldType::Null, "json"),
    ];
    for (t, word) in cases.iter() {
        assert_eq!(field_type_mysql(t), *word, "{:?}", t);
    }
}

#[test]
fn mysql_struct_and_null_fields_are_json() {
    let field = Field::new("s");
    assert_eq!(render_column(&field, &FieldType::Struct), "`s` json");
    assert_eq!(render_column(&field, &FieldType::Null), "`s` json");
}

#[test]
fn mysql_quoted_default_set() {
    let quoted = [
        FieldType::Char(1),
        FieldType::FixedString(2),
        FieldType::Varchar(3),
        FieldType::Text,
        FieldType::Date,
        FieldType::DateTime,
        FieldType::DateTime64,
        FieldType::Time,
        FieldType::Timestamp,
        FieldType::Json,
        FieldType::IPv4,
        FieldType::IPv6,
    ];
    for t in quoted.iter() {
        assert!(has_quoted_default(t), "{:?}", t);
    }
    let bare = [
        FieldType::Int32,
        FieldType::UInt8,
        FieldType::Boolean,
        FieldType::Double,
        FieldType::Decimal(10, 2),
        FieldType::VarBinary,
        FieldType::Array(Box::new(FieldType::Text)),
        FieldType::Struct,
        FieldType::Null,
    ];
    for t in bare.iter() {
        assert!(!has_quoted_default(t), "{:?}", t);
    }
}

#[test]
fn mysql_renders_every_type_the_grammar_reads() {
    let t = SQLTable {
        name: "t".to_string(),
        fields: vec![
            Field::new2("a", "time"),
            Field::new2("b", "timestamp"),
            Field::new2("c", "array(time)"),
            Field::new2("d", "ipv4"),
            Field::new2("e", "uint256"),
        ],
        table_engine: None,
        order_by: None,
    };
    assert_eq!(
        create_table(&t).unwrap(),
        "CREATE TABLE IF NOT EXISTS `t` ( `a` time, `b` timestamp, `c` json, `d` varchar(15), `e` decimal(78,0))"
    );
}

#[test]
fn mysql_syntax_error_ends_the_rendering() {
    let t = SQLTable {
        name: "t".to_string(),
        fields: vec![Field::new("a"), Field::new2("b", "decimal(1)"), Field::new2("c", "nope")],
        table_engine: None,
        order_by: None,
    };
    assert_eq!(
        create_table(&t),
        Err(DdlError {
            kind: ErrorKind::Syntax(SyntaxReason::ArgumentCount),
            detail: "decimal takes a precision and a scale, found 1".to_string(),
        })
    );
}
