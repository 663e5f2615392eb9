//! One renderer for each target, and what their statements have in common.

use crate::error::ErrorSpec;
use crate::text::{join, option_text};
use vstd::prelude::*;
use vstd::string::*;

pub mod clickhouse;
pub mod elasticsearch;
pub mod mysql;

verus! {

/// How a statement opens, up to the first column.
pub open spec fn header(table_name: Seq<char>) -> Seq<char> {
    "CREATE TABLE IF NOT EXISTS `"@ + table_name + "` ( "@
}

/// Whether a column takes nulls: it does unless its not-null flag is set.
pub open spec fn nullability(not_null: Option<bool>) -> Seq<char> {
    if not_null == Some(true) {
        " NOT NULL"@
    } else {
        " NULL"@
    }
}

/// The default of a column, in single quotes where `quoted` says so;
/// nothing where the column has no default.
pub open spec fn default_clause(default: Option<Seq<char>>, quoted: bool) -> Seq<char> {
    match default {
        Some(text) => if quoted {
            " DEFAULT '"@ + text + "'"@
        } else {
            " DEFAULT "@ + text
        },
        None => Seq::empty(),
    }
}

/// The texts of a list of results, or the error of the first that failed.
pub open spec fn all_or_first_error(items: Seq<Result<Seq<char>, ErrorSpec>>) -> Result<
    Seq<Seq<char>>,
    ErrorSpec,
>
    decreases items.len(),
{
    if items.len() == 0 {
        Ok(Seq::empty())
    } else {
        match all_or_first_error(items.drop_last()) {
            Err(e) => Err(e),
            Ok(before) => match items.last() {
                Err(e) => Err(e),
                Ok(text) => Ok(before.push(text)),
            },
        }
    }
}

/// The columns of a statement, with a comma and a blank between each two;
/// where a column failed, the error of the first that did.
pub open spec fn column_list(columns: Seq<Result<Seq<char>, ErrorSpec>>) -> Result<
    Seq<char>,
    ErrorSpec,
> {
    match all_or_first_error(columns) {
        Ok(texts) => Ok(join(texts, ", "@)),
        Err(e) => Err(e),
    }
}

/// Once a column has failed after columns that did not, the whole list
/// fails with its error, whatever follows.
pub proof fn lemma_first_error_stays(items: Seq<Result<Seq<char>, ErrorSpec>>, i: int)
    requires
        0 <= i < items.len(),
        all_or_first_error(items.take(i)) is Ok,
        items[i] is Err,
    ensures
        all_or_first_error(items) == Err::<Seq<Seq<char>>, ErrorSpec>(items[i]->Err_0),
    decreases items.len(),
{
    if i == items.len() - 1 {
        assert(items.drop_last() =~= items.take(i));
    } else {
        let shorter = items.drop_last();
        assert(shorter.take(i) =~= items.take(i));
        lemma_first_error_stays(shorter, i);
    }
}

/// A list of columns that did not fail grows by one that did not.
pub proof fn lemma_all_grows(items: Seq<Result<Seq<char>, ErrorSpec>>, i: int)
    requires
        0 <= i < items.len(),
        all_or_first_error(items.take(i)) is Ok,
        items[i] is Ok,
    ensures
        all_or_first_error(items.take(i + 1)) == Ok::<Seq<Seq<char>>, ErrorSpec>(
            all_or_first_error(items.take(i))->Ok_0.push(items[i]->Ok_0),
        ),
{
    assert(items.take(i + 1).drop_last() =~= items.take(i));
}

/// The error of a list is the error of one of its items.
pub proof fn lemma_error_is_of_an_item(items: Seq<Result<Seq<char>, ErrorSpec>>) -> (i: int)
    requires
        all_or_first_error(items) is Err,
    ensures
        0 <= i < items.len(),
        items[i] == Err::<Seq<char>, ErrorSpec>(all_or_first_error(items)->Err_0),
    decreases items.len(),
{
    if all_or_first_error(items.drop_last()) is Err {
        lemma_error_is_of_an_item(items.drop_last())
    } else {
        items.len() - 1
    }
}

/// The nullability of a column, as a string.
pub fn nullability_text(not_null: Option<bool>) -> (s: &'static str)
    ensures
        s@ == nullability(not_null),
{
    match not_null {
        Some(true) => " NOT NULL",
        _ => " NULL",
    }
}

/// The default of a column, as a string.
pub fn default_text(default: &Option<String>, quoted: bool) -> (s: String)
    ensures
        s@ == default_clause(option_text(*default), quoted),
{
    match default {
        Some(text) => {
            if quoted {
                let mut s = String::from_str(" DEFAULT '");
                s.append(text.as_str());
                s.append("'");
                s
            } else {
                let mut s = String::from_str(" DEFAULT ");
                s.append(text.as_str());
                s
            }
        },
        None => String::new(),
    }
}

/// How a statement opens, as a string.
pub fn header_text(table_name: &str) -> (s: String)
    ensures
        s@ == header(table_name@),
{
    let mut s = String::from_str("CREATE TABLE IF NOT EXISTS `");
    s.append(table_name);
    s.append("` ( ");
    s
}

} // verus!
