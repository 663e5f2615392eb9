//! The grammar of field types: a name, then arguments in round brackets.
//!
//! `varchar(255)`, `decimal(10,2)` and `array(int32)` are texts of this
//! grammar. The name runs up to the first `(`. What stands between that
//! bracket and the next `)` are the arguments, but only where they are
//! letters, digits and commas throughout: anything else between the
//! brackets, and a bracket that is never closed, count as no arguments.

use crate::error::{outcome, syntax_error, DdlError, ErrorSpec, SyntaxReason};
use crate::model::FieldType;
use crate::text::{
    lowercase, number_of, parse_unsigned, same_text, to_chars, to_lowercase, NumberFault,
};
use vstd::prelude::*;
use vstd::string::*;
use winnow::error::{ContextError, ErrMode};
use winnow::token::take_while;
use winnow::Parser;

verus! {

// ----------------- Name and arguments -----------------

/// How many characters of `s` stand before the first `stop`; all of them
/// where `s` holds no `stop`.
pub open spec fn position(s: Seq<char>, stop: char) -> nat
    decreases s.len(),
{
    if s.len() == 0 || s[0] == stop {
        0
    } else {
        1 + position(s.skip(1), stop)
    }
}

/// What [`position`] is: within the text, with no `stop` before it, and at
/// a `stop` unless it is the end.
pub proof fn lemma_position(s: Seq<char>, stop: char)
    ensures
        position(s, stop) <= s.len(),
        forall|i: int| 0 <= i < position(s, stop) ==> s[i] != stop,
        position(s, stop) < s.len() ==> s[position(s, stop) as int] == stop,
    decreases s.len(),
{
    if s.len() == 0 || s[0] == stop {
    } else {
        let tail = s.skip(1);
        lemma_position(tail, stop);
        assert forall|i: int| 0 <= i < position(s, stop) implies s[i] != stop by {
            if i > 0 {
                assert(tail[i - 1] == s[i]);
            }
        }
        if position(s, stop) < s.len() {
            assert(tail[position(tail, stop) as int] == s[position(s, stop) as int]);
        }
    }
}

/// Only one place is a [`position`].
pub proof fn lemma_position_is(s: Seq<char>, stop: char, n: int)
    requires
        0 <= n <= s.len(),
        forall|i: int| 0 <= i < n ==> s[i] != stop,
        n < s.len() ==> s[n] == stop,
    ensures
        position(s, stop) == n,
{
    lemma_position(s, stop);
    let p = position(s, stop) as int;
    if p < n {
        assert(s[p] != stop);
    } else if n < p {
        assert(s[n] != stop);
    }
}

/// The name of the type: what stands before the first `(`.
pub open spec fn name_of(s: Seq<char>) -> Seq<char> {
    s.take(position(s, '(') as int)
}

/// What follows the name: nothing, or a text that starts with `(`.
pub open spec fn after_name(s: Seq<char>) -> Seq<char> {
    s.skip(position(s, '(') as int)
}

/// Whether `c` may stand among the arguments: an ASCII letter, a digit or
/// a comma.
pub open spec fn argument_char(c: char) -> bool {
    ||| 'a' <= c <= 'z'
    ||| 'A' <= c <= 'Z'
    ||| '0' <= c <= '9'
    ||| c == ','
}

/// Whether every character of `s` may stand among the arguments.
pub open spec fn argument_chars(s: Seq<char>) -> bool {
    forall|i: int| 0 <= i < s.len() ==> argument_char(#[trigger] s[i])
}

/// The arguments that a text holds, the text starting at its opening
/// bracket.
pub open spec fn bracketed(rest: Seq<char>) -> Seq<char> {
    if rest.len() > 0 && rest[0] == '(' {
        let body = rest.skip(1);
        let inner = body.take(position(body, ')') as int);
        if position(body, ')') < body.len() && argument_chars(inner) {
            inner
        } else {
            Seq::empty()
        }
    } else {
        Seq::empty()
    }
}

/// The arguments of the type; empty where it has none.
pub open spec fn arguments(s: Seq<char>) -> Seq<char> {
    bracketed(after_name(s))
}

/// The arguments are shorter than a text with a name.
pub proof fn lemma_arguments_shorter(s: Seq<char>)
    requires
        name_of(s).len() > 0,
    ensures
        arguments(s).len() < s.len(),
{
    lemma_position(s, '(');
    let rest = after_name(s);
    if rest.len() > 0 && rest[0] == '(' {
        lemma_position(rest.skip(1), ')');
    }
}

/// Whether `c` may stand in the name of a type: every character but `(`.
pub fn is_name_char(c: char) -> (b: bool)
    ensures
        b == (c != '('),
{
    c != '('
}

/// Splits a text behind its name with winnow's `take_while(1.., ..)`, run by
/// `Parser::parse_peek`. The parser takes the longest run of characters that
/// are not `(`, and fails where that run is empty; on success it hands back
/// what is left, then what it took.
#[verifier::external_body]
fn split_name<'a>(input: &'a str) -> (r: Option<(&'a str, &'a str)>)
    ensures
        match r {
            Some((rest, name)) => {
                &&& position(input@, '(') > 0
                &&& name@ == name_of(input@)
                &&& rest@ == after_name(input@)
            },
            None => position(input@, '(') == 0,
        },
{
    let taken: Result<(&str, &str), ErrMode<ContextError>> = take_while(
        1..,
        |c: char| is_name_char(c),
    ).parse_peek(input);
    match taken {
        Ok(pair) => Some(pair),
        Err(_) => None,
    }
}

/// Whether `c` may stand among the arguments.
pub fn is_argument_char(c: char) -> (b: bool)
    ensures
        b == argument_char(c),
{
    ('a' <= c && c <= 'z') || ('A' <= c && c <= 'Z') || ('0' <= c && c <= '9') || c == ','
}

/// The arguments that `rest` holds, `rest` starting at its opening bracket.
#[verifier::loop_isolation(false)]
pub fn bracketed_text<'a>(rest: &'a str) -> (args: &'a str)
    ensures
        args@ == bracketed(rest@),
{
    proof {
        reveal_strlit("");
    }
    let chars = to_chars(rest);
    let n: usize = chars.len();
    if n == 0 || chars[0] != '(' {
        return "";
    }
    let ghost body = rest@.skip(1);
    let mut end: usize = 1;
    while end < n && chars[end] != ')'
        invariant
            n == chars.len(),
            chars@ == rest@,
            body == rest@.skip(1),
            1 <= end <= n,
            forall|i: int| 0 <= i < end - 1 ==> body[i] != ')',
        decreases n - end,
    {
        assert(body[end - 1] == chars@[end as int]);
        end += 1;
    }
    proof {
        if end < n {
            assert(body[end - 1] == chars@[end as int]);
        }
        lemma_position_is(body, ')', end - 1);
    }
    if end == n {
        return "";
    }
    let ghost inner = body.take(end - 1);
    let mut i: usize = 1;
    while i < end
        invariant
            n == chars.len(),
            chars@ == rest@,
            body == rest@.skip(1),
            inner == body.take(end - 1),
            1 <= i <= end < n,
            forall|j: int| 0 <= j < i - 1 ==> argument_char(#[trigger] inner[j]),
        decreases end - i,
    {
        if !is_argument_char(chars[i]) {
            assert(inner[i - 1] == chars@[i as int]);
            assert(!argument_chars(inner));
            return "";
        }
        assert(inner[i - 1] == chars@[i as int]);
        i += 1;
    }
    let args = rest.substring_char(1, end);
    assert(args@ =~= inner);
    args
}

// ----------------- Numbers among the arguments -----------------

/// A fault in words.
pub open spec fn fault_text(fault: NumberFault) -> Seq<char> {
    match fault {
        NumberFault::Empty => "no digits"@,
        NumberFault::InvalidDigit => "not a number"@,
        NumberFault::TooLarge => "number too large"@,
    }
}

/// The detail of an error about a number: what was expected, the text that
/// was found, and the fault in it.
pub open spec fn number_detail(label: Seq<char>, found: Seq<char>, fault: NumberFault) -> Seq<
    char,
> {
    label + found + ": "@ + fault_text(fault)
}

/// The argument `found` read as a number of at most `limit`; a fault in it
/// is a syntax error with the given reason.
pub open spec fn number_argument(
    found: Seq<char>,
    limit: nat,
    reason: SyntaxReason,
    label: Seq<char>,
) -> Result<nat, ErrorSpec> {
    match number_of(found, limit) {
        Ok(n) => Ok(n),
        Err(fault) => Err(syntax_error(reason, number_detail(label, found, fault))),
    }
}

/// The width that the arguments of `char` or `varchar` give: 255 where
/// there are none.
pub open spec fn width(args: Seq<char>, limit: nat) -> Result<nat, ErrorSpec> {
    if args.len() == 0 {
        Ok(255)
    } else {
        number_argument(args, limit, SyntaxReason::InvalidWidth, "invalid width "@)
    }
}

/// The type that the arguments of `decimal` give: precision 10 and scale 2
/// where there are none, else the two numbers on either side of the one
/// comma.
pub open spec fn decimal_type(args: Seq<char>) -> Result<FieldType, ErrorSpec> {
    let comma = position(args, ',') as int;
    if args.len() == 0 {
        Ok(FieldType::Decimal(10, 2))
    } else if comma >= args.len() || position(args.skip(comma + 1), ',') < args.len() - comma - 1 {
        Err(
            syntax_error(
                SyntaxReason::ArgumentCount,
                "decimal takes a precision and a scale, found "@ + args,
            ),
        )
    } else {
        match number_argument(
            args.take(comma),
            usize::MAX as nat,
            SyntaxReason::InvalidPrecision,
            "invalid precision "@,
        ) {
            Err(e) => Err(e),
            Ok(precision) => match number_argument(
                args.skip(comma + 1),
                usize::MAX as nat,
                SyntaxReason::InvalidScale,
                "invalid scale "@,
            ) {
                Err(e) => Err(e),
                Ok(scale) => Ok(FieldType::Decimal(precision as usize, scale as usize)),
            },
        }
    }
}

/// The type with the given name, for the names that take no arguments.
pub open spec fn plain_type(name: Seq<char>) -> Option<FieldType> {
    if name == "text"@ {
        Some(FieldType::Text)
    } else if name == "uint8"@ {
        Some(FieldType::UInt8)
    } else if name == "uint16"@ {
        Some(FieldType::UInt16)
    } else if name == "uint32"@ {
        Some(FieldType::UInt32)
    } else if name == "uint128"@ {
        Some(FieldType::UInt128)
    } else if name == "uint256"@ {
        Some(FieldType::UInt256)
    } else if name == "int8"@ {
        Some(FieldType::Int8)
    } else if name == "int16"@ {
        Some(FieldType::Int16)
    } else if name == "int32"@ || name == "int"@ {
        Some(FieldType::Int32)
    } else if name == "int128"@ {
        Some(FieldType::Int128)
    } else if name == "int256"@ {
        Some(FieldType::Int256)
    } else if name == "float32"@ {
        Some(FieldType::Float32)
    } else if name == "double"@ {
        Some(FieldType::Double)
    } else if name == "boolean"@ {
        Some(FieldType::Boolean)
    } else if name == "datetime"@ {
        Some(FieldType::DateTime)
    } else if name == "datetime64"@ {
        Some(FieldType::DateTime64)
    } else if name == "timestamp"@ {
        Some(FieldType::Timestamp)
    } else if name == "time"@ {
        Some(FieldType::Time)
    } else if name == "date"@ {
        Some(FieldType::Date)
    } else if name == "json"@ {
        Some(FieldType::Json)
    } else if name == "ipv4"@ {
        Some(FieldType::IPv4)
    } else if name == "ipv6"@ {
        Some(FieldType::IPv6)
    } else {
        None
    }
}

/// The error of an array whose element type has the error `inner`.
pub open spec fn element_error(inner: ErrorSpec) -> ErrorSpec {
    syntax_error(SyntaxReason::Element, "array element: "@ + inner.detail)
}

/// The type that a text in lowercase spells out, or what is wrong with it.
pub open spec fn type_of_text(s: Seq<char>) -> Result<FieldType, ErrorSpec>
    decreases s.len(),
{
    let name = name_of(s);
    let args = arguments(s);
    if name.len() == 0 {
        Err(syntax_error(SyntaxReason::MissingName, "missing type name: "@ + s))
    } else if name == "char"@ {
        match width(args, u8::MAX as nat) {
            Ok(w) => Ok(FieldType::Char(w as u8)),
            Err(e) => Err(e),
        }
    } else if name == "varchar"@ {
        match width(args, u32::MAX as nat) {
            Ok(w) => Ok(FieldType::Varchar(w as u32)),
            Err(e) => Err(e),
        }
    } else if name == "decimal"@ {
        decimal_type(args)
    } else if name == "array"@ {
        proof {
            lemma_arguments_shorter(s);
        }
        match type_of_text(args) {
            Ok(element) => Ok(FieldType::Array(Box::new(element))),
            Err(e) => Err(element_error(e)),
        }
    } else {
        match plain_type(name) {
            Some(field_type) => Ok(field_type),
            None => Err(syntax_error(SyntaxReason::UnknownType, "unknown field type: "@ + name)),
        }
    }
}

// ----------------- Reading a text -----------------

fn fault_words(fault: NumberFault) -> (words: &'static str)
    ensures
        words@ == fault_text(fault),
{
    match fault {
        NumberFault::Empty => "no digits",
        NumberFault::InvalidDigit => "not a number",
        NumberFault::TooLarge => "number too large",
    }
}

/// Reads the argument `found` as a number of at most `limit`.
fn read_number(found: &str, limit: u64, reason: SyntaxReason, label: &str) -> (r: Result<
    u64,
    DdlError,
>)
    ensures
        match r {
            Ok(n) => number_argument(found@, limit as nat, reason, label@) == Ok::<nat, ErrorSpec>(
                n as nat,
            ),
            Err(e) => number_argument(found@, limit as nat, reason, label@) == Err::<
                nat,
                ErrorSpec,
            >(e@),
        },
{
    match parse_unsigned(found, limit) {
        Ok(n) => Ok(n),
        Err(fault) => {
            let mut detail = String::from_str(label);
            detail.append(found);
            detail.append(": ");
            detail.append(fault_words(fault));
            Err(DdlError::syntax(reason, detail))
        },
    }
}

/// The width that the arguments of `char` or `varchar` give.
fn width_of(args: &str, limit: u64) -> (r: Result<u64, DdlError>)
    ensures
        match r {
            Ok(w) => width(args@, limit as nat) == Ok::<nat, ErrorSpec>(w as nat),
            Err(e) => width(args@, limit as nat) == Err::<nat, ErrorSpec>(e@),
        },
{
    if args.unicode_len() == 0 {
        Ok(255)
    } else {
        read_number(args, limit, SyntaxReason::InvalidWidth, "invalid width ")
    }
}

/// The type that the arguments of `decimal` give.
#[verifier::loop_isolation(false)]
fn decimal_of(args: &str) -> (r: Result<FieldType, DdlError>)
    ensures
        outcome(r) == decimal_type(args@),
{
    let chars = to_chars(args);
    let n: usize = chars.len();
    if n == 0 {
        return Ok(FieldType::Decimal(10, 2));
    }
    let mut comma: usize = 0;
    while comma < n && chars[comma] != ','
        invariant
            comma <= n,
            forall|i: int| 0 <= i < comma ==> chars@[i] != ',',
        decreases n - comma,
    {
        comma += 1;
    }
    proof {
        lemma_position_is(args@, ',', comma as int);
    }
    let mut single: bool = comma < n;
    if single {
        let ghost tail = args@.skip(comma + 1);
        let mut next: usize = comma + 1;
        while next < n && chars[next] != ','
            invariant
                comma < next <= n,
                forall|i: int| 0 <= i < next - comma - 1 ==> tail[i] != ',',
            decreases n - next,
        {
            assert(tail[next - comma - 1] == chars@[next as int]);
            next += 1;
        }
        proof {
            if next < n {
                assert(tail[next - comma - 1] == chars@[next as int]);
            }
            lemma_position_is(tail, ',', next - comma - 1);
        }
        single = next == n;
    }
    if !single {
        let mut detail = String::from_str("decimal takes a precision and a scale, found ");
        detail.append(args);
        return Err(DdlError::syntax(SyntaxReason::ArgumentCount, detail));
    }
    let first = args.substring_char(0, comma);
    let second = args.substring_char(comma + 1, n);
    assert(first@ =~= args@.take(comma as int));
    assert(second@ =~= args@.skip(comma + 1));
    let limit: u64 = usize::MAX as u64;
    let precision = match read_number(
        first,
        limit,
        SyntaxReason::InvalidPrecision,
        "invalid precision ",
    ) {
        Ok(n) => n,
        Err(e) => {
            return Err(e);
        },
    };
    let scale = match read_number(second, limit, SyntaxReason::InvalidScale, "invalid scale ") {
        Ok(n) => n,
        Err(e) => {
            return Err(e);
        },
    };
    Ok(FieldType::Decimal(precision as usize, scale as usize))
}

/// The type with the given name, for the names that take no arguments.
pub fn plain_type_of(name: &str) -> (r: Option<FieldType>)
    ensures
        r == plain_type(name@),
{
    if same_text(name, "text") {
        Some(FieldType::Text)
    } else if same_text(name, "uint8") {
        Some(FieldType::UInt8)
    } else if same_text(name, "uint16") {
        Some(FieldType::UInt16)
    } else if same_text(name, "uint32") {
        Some(FieldType::UInt32)
    } else if same_text(name, "uint128") {
        Some(FieldType::UInt128)
    } else if same_text(name, "uint256") {
        Some(FieldType::UInt256)
    } else if same_text(name, "int8") {
        Some(FieldType::Int8)
    } else if same_text(name, "int16") {
        Some(FieldType::Int16)
    } else if same_text(name, "int32") || same_text(name, "int") {
        Some(FieldType::Int32)
    } else if same_text(name, "int128") {
        Some(FieldType::Int128)
    } else if same_text(name, "int256") {
        Some(FieldType::Int256)
    } else if same_text(name, "float32") {
        Some(FieldType::Float32)
    } else if same_text(name, "double") {
        Some(FieldType::Double)
    } else if same_text(name, "boolean") {
        Some(FieldType::Boolean)
    } else if same_text(name, "datetime") {
        Some(FieldType::DateTime)
    } else if same_text(name, "datetime64") {
        Some(FieldType::DateTime64)
    } else if same_text(name, "timestamp") {
        Some(FieldType::Timestamp)
    } else if same_text(name, "time") {
        Some(FieldType::Time)
    } else if same_text(name, "date") {
        Some(FieldType::Date)
    } else if same_text(name, "json") {
        Some(FieldType::Json)
    } else if same_text(name, "ipv4") {
        Some(FieldType::IPv4)
    } else if same_text(name, "ipv6") {
        Some(FieldType::IPv6)
    } else {
        None
    }
}

/// Reads the type that a text in lowercase spells out.
///
/// Nothing is lowered here: a name in capitals is an unknown type.
pub fn parse_lowered(s: &str) -> (r: Result<FieldType, DdlError>)
    ensures
        outcome(r) == type_of_text(s@),
        r matches Err(e) ==> e@.kind is Syntax,
    decreases s@.len(),
{
    proof {
        lemma_position(s@, '(');
    }
    let (rest, name) = match split_name(s) {
        Some(pair) => pair,
        None => {
            let mut detail = String::from_str("missing type name: ");
            detail.append(s);
            return Err(DdlError::syntax(SyntaxReason::MissingName, detail));
        },
    };
    let args = bracketed_text(rest);
    if same_text(name, "char") {
        match width_of(args, 255) {
            Ok(w) => Ok(FieldType::Char(w as u8)),
            Err(e) => Err(e),
        }
    } else if same_text(name, "varchar") {
        match width_of(args, 0xffff_ffff) {
            Ok(w) => Ok(FieldType::Varchar(w as u32)),
            Err(e) => Err(e),
        }
    } else if same_text(name, "decimal") {
        decimal_of(args)
    } else if same_text(name, "array") {
        proof {
            lemma_arguments_shorter(s@);
        }
        match parse_lowered(args) {
            Ok(element) => Ok(FieldType::Array(Box::new(element))),
            Err(inner) => {
                let mut detail = String::from_str("array element: ");
                detail.append(inner.detail.as_str());
                Err(DdlError::syntax(SyntaxReason::Element, detail))
            },
        }
    } else {
        match plain_type_of(name) {
            Some(field_type) => Ok(field_type),
            None => {
                let mut detail = String::from_str("unknown field type: ");
                detail.append(name);
                Err(DdlError::syntax(SyntaxReason::UnknownType, detail))
            },
        }
    }
}

/// Reads the type that a text spells out, in whatever case it is written.
pub fn parse(text: &str) -> (r: Result<FieldType, DdlError>)
    ensures
        outcome(r) == type_of_text(lowercase(text@)),
        r matches Err(e) ==> e@.kind is Syntax,
{
    let lowered = to_lowercase(text);
    parse_lowered(lowered.as_str())
}

// ----------------- What holds of every text -----------------

/// Whether the grammar has a type of this name.
pub open spec fn known_name(name: Seq<char>) -> bool {
    ||| name == "char"@
    ||| name == "varchar"@
    ||| name == "decimal"@
    ||| name == "array"@
    ||| plain_type(name) is Some
}

/// Whether some text spells the type out. The grammar has no name for a
/// fixed string, for binary data, for the integers of 64 bits, for the
/// floats of 16 and 64 bits, for a struct and for the null type; an array
/// is spelled where its elements are.
pub open spec fn spelled(t: FieldType) -> bool
    decreases t,
{
    match t {
        FieldType::FixedString(_)
        | FieldType::VarBinary
        | FieldType::UInt64
        | FieldType::Int64
        | FieldType::Float16
        | FieldType::Float64
        | FieldType::Struct
        | FieldType::Null => false,
        FieldType::Array(element) => spelled(*element),
        _ => true,
    }
}

/// The name, an opening bracket, the arguments and a closing bracket.
pub open spec fn with_arguments(name: Seq<char>, args: Seq<char>) -> Seq<char> {
    name + seq!['('] + args + seq![')']
}

/// A text that is not read is a syntax error: reading a type fails in no
/// other way.
pub proof fn lemma_errors_are_syntax(s: Seq<char>)
    ensures
        type_of_text(s) matches Err(e) ==> e.kind is Syntax,
{
}

/// A text without a name is never read as a type: the error says that the
/// name is missing.
pub proof fn lemma_missing_name(s: Seq<char>)
    requires
        s.len() == 0 || s[0] == '(',
    ensures
        type_of_text(s) == Err::<FieldType, ErrorSpec>(
            syntax_error(SyntaxReason::MissingName, "missing type name: "@ + s),
        ),
{
}

/// A text with a name that the grammar does not know is never read as a
/// type, whatever its arguments: the error says that the type is unknown,
/// and names it.
pub proof fn lemma_unknown_name(s: Seq<char>)
    requires
        name_of(s).len() > 0,
        !known_name(name_of(s)),
    ensures
        type_of_text(s) == Err::<FieldType, ErrorSpec>(
            syntax_error(SyntaxReason::UnknownType, "unknown field type: "@ + name_of(s)),
        ),
{
}

/// Without arguments, or with arguments that do not count, `char` and
/// `varchar` are 255 wide and `decimal` has precision 10 and scale 2.
pub proof fn lemma_defaults(s: Seq<char>)
    requires
        arguments(s).len() == 0,
    ensures
        name_of(s) == "char"@ ==> type_of_text(s) == Ok::<FieldType, ErrorSpec>(
            FieldType::Char(255),
        ),
        name_of(s) == "varchar"@ ==> type_of_text(s) == Ok::<FieldType, ErrorSpec>(
            FieldType::Varchar(255),
        ),
        name_of(s) == "decimal"@ ==> type_of_text(s) == Ok::<FieldType, ErrorSpec>(
            FieldType::Decimal(10, 2),
        ),
{
    reveal_strlit("char");
    reveal_strlit("varchar");
    reveal_strlit("decimal");
    assert("char"@.len() != "varchar"@.len());
    assert("char"@.len() != "decimal"@.len());
    assert("varchar"@[0] != "decimal"@[0]);
}

/// The arguments hold letters, digits and commas only, and so no bracket.
pub proof fn lemma_arguments_are_plain(s: Seq<char>)
    ensures
        argument_chars(arguments(s)),
{
}

/// Only types that the grammar has a name for are read.
pub proof fn lemma_read_types_are_spelled(s: Seq<char>)
    ensures
        type_of_text(s) matches Ok(t) ==> spelled(t),
    decreases s.len(),
{
    if name_of(s).len() > 0 && name_of(s) == "array"@ {
        lemma_arguments_shorter(s);
        lemma_read_types_are_spelled(arguments(s));
    }
}

/// A name and arguments in brackets are read back as that name and those
/// arguments.
pub proof fn lemma_with_arguments(name: Seq<char>, args: Seq<char>)
    requires
        name.len() > 0,
        forall|i: int| 0 <= i < name.len() ==> name[i] != '(',
        argument_chars(args),
    ensures
        name_of(with_arguments(name, args)) == name,
        arguments(with_arguments(name, args)) == args,
{
    let s = with_arguments(name, args);
    lemma_position_is(s, '(', name.len() as int);
    assert(name_of(s) =~= name);
    let rest = after_name(s);
    assert(rest =~= seq!['('] + args + seq![')']);
    let body = rest.skip(1);
    assert(body =~= args + seq![')']);
    assert forall|i: int| 0 <= i < args.len() implies body[i] != ')' by {
        assert(argument_char(args[i]));
    }
    lemma_position_is(body, ')', args.len() as int);
    assert(body.take(args.len() as int) =~= args);
}

/// `array(..)` around the text of a type without arguments is the array of
/// that type, and fails where the element fails.
pub proof fn lemma_array_of(element: Seq<char>)
    requires
        argument_chars(element),
    ensures
        type_of_text(with_arguments("array"@, element)) == match type_of_text(element) {
            Ok(t) => Ok::<FieldType, ErrorSpec>(FieldType::Array(Box::new(t))),
            Err(e) => Err(element_error(e)),
        },
{
    reveal_strlit("array");
    reveal_strlit("char");
    reveal_strlit("varchar");
    reveal_strlit("decimal");
    lemma_with_arguments("array"@, element);
    assert("array"@.len() != "char"@.len());
    assert("array"@.len() != "varchar"@.len());
    assert("array"@.len() != "decimal"@.len());
}

/// A text without brackets is not read as an array: it leaves the array
/// without an element.
pub proof fn lemma_bare_text_is_no_array(s: Seq<char>)
    requires
        forall|i: int| 0 <= i < s.len() ==> s[i] != '(',
    ensures
        !(type_of_text(s) matches Ok(FieldType::Array(_))),
{
    lemma_position_is(s, '(', s.len() as int);
    assert(after_name(s) =~= Seq::<char>::empty());
    assert(arguments(s) =~= Seq::<char>::empty());
    lemma_missing_name(arguments(s));
    lemma_plain_types_are_no_arrays(name_of(s));
}

/// The elements of an array that was read are no arrays themselves: the
/// text of the element stands among the arguments, where it can have no
/// brackets, and so no element of its own.
pub proof fn lemma_arrays_are_one_level(s: Seq<char>)
    ensures
        type_of_text(s) matches Ok(FieldType::Array(element)) ==> !(*element is Array),
{
    let inner = arguments(s);
    lemma_arguments_are_plain(s);
    assert forall|i: int| 0 <= i < inner.len() implies inner[i] != '(' by {
        assert(argument_char(inner[i]));
    }
    lemma_bare_text_is_no_array(inner);
    lemma_plain_types_are_no_arrays(name_of(s));
}

/// No name without arguments stands for an array.
pub proof fn lemma_plain_types_are_no_arrays(name: Seq<char>)
    ensures
        plain_type(name) matches Some(t) ==> !(t is Array),
{
}

} // verus!
