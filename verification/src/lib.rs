//! Turns a dialect-neutral table description into `CREATE TABLE` statements.
//!
//! A field's storage type is written as a short text such as `varchar(255)`,
//! `decimal(10,2)` or `array(int32)`. [`model::FieldType`] is the parsed form
//! of such a text, and each module under [`engine`] renders a whole
//! [`model::SQLTable`] for one target.
//!
//! Every function states its result over sequences of characters, so a
//! statement is known character by character before it is built.

pub mod engine;
pub mod error;
pub mod grammar;
pub mod model;
pub mod text;

