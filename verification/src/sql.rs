//! Statements: SQL text with the values of its placeholders.
use crate::error::StorageError;
use vstd::prelude::*;

verus! {

/// A value that goes into a placeholder.
#[derive(Debug, PartialEq, Eq)]
pub enum SqlValue {
    Null,
    Integer(i64),
    Text(String),
    Blob(Vec<u8>),
}

/// What a placeholder's value stands for.
#[verifier::ext_equal]
pub enum SqlArg {
    Null,
    Integer(int),
    Text(Seq<char>),
    Blob(Seq<u8>),
}

impl View for SqlValue {
    type V = SqlArg;

    open spec fn view(&self) -> SqlArg {
        match *self {
            SqlValue::Null => SqlArg::Null,
            SqlValue::Integer(n) => SqlArg::Integer(n as int),
            SqlValue::Text(s) => SqlArg::Text(s@),
            SqlValue::Blob(b) => SqlArg::Blob(b@),
        }
    }
}

/// What the values of a statement's placeholders stand for, in order.
pub open spec fn args(params: Vec<SqlValue>) -> Seq<SqlArg> {
    params@.map_values(|v: SqlValue| v@)
}

/// The argument of a text that may be missing.
pub open spec fn optional_text_arg(s: Option<Seq<char>>) -> SqlArg {
    match s {
        Some(s) => SqlArg::Text(s),
        None => SqlArg::Null,
    }
}

/// The view of a borrowed text that may be missing.
pub open spec fn optional_str(s: Option<&str>) -> Option<Seq<char>> {
    match s {
        Some(s) => Some(s@),
        None => None,
    }
}

/// The view of an owned text that may be missing.
pub open spec fn optional_string(s: Option<String>) -> Option<Seq<char>> {
    match s {
        Some(s) => Some(s@),
        None => None,
    }
}

/// A statement to run.
#[derive(Debug, PartialEq, Eq)]
pub struct Statement {
    pub sql: String,
    pub params: Vec<SqlValue>,
}

/// What a statement is: its text, and what its placeholders stand for.
#[verifier::ext_equal]
pub struct StatementView {
    pub sql: Seq<char>,
    pub args: Seq<SqlArg>,
}

impl View for Statement {
    type V = StatementView;

    open spec fn view(&self) -> StatementView {
        StatementView { sql: self.sql@, args: args(self.params) }
    }
}

/// Statements to run in order, and the error to end with once they have run.
#[derive(Debug, PartialEq, Eq)]
pub struct Script {
    pub statements: Vec<Statement>,
    pub failure: Option<StorageError>,
}

/// What the statements of a list are.
pub open spec fn statements(list: Seq<Statement>) -> Seq<StatementView> {
    list.map_values(|s: Statement| s@)
}

/// A text value.
pub fn text(s: &str) -> (r: SqlValue)
    ensures
        r@ == SqlArg::Text(s@),
{
    SqlValue::Text(s.to_owned())
}

/// An integer value.
pub fn integer(n: i64) -> (r: SqlValue)
    ensures
        r@ == SqlArg::Integer(n as int),
{
    SqlValue::Integer(n)
}

/// A text value, or null where there is none.
pub fn optional_text(s: Option<&str>) -> (r: SqlValue)
    ensures
        r@ == optional_text_arg(optional_str(s)),
{
    match s {
        Some(s) => SqlValue::Text(s.to_owned()),
        None => SqlValue::Null,
    }
}

/// The argument of a flag.
pub open spec fn flag_arg(b: bool) -> SqlArg {
    SqlArg::Integer(if b { 1int } else { 0int })
}

/// A flag, as 1 or 0.
pub fn flag(b: bool) -> (r: SqlValue)
    ensures
        r@ == flag_arg(b),
{
    SqlValue::Integer(if b { 1 } else { 0 })
}

/// The argument of a number of seconds that may be missing.
pub open spec fn optional_seconds_arg(n: Option<u32>) -> SqlArg {
    match n {
        Some(n) => SqlArg::Integer(n as int),
        None => SqlArg::Null,
    }
}

/// A number of seconds, or null where there is none.
pub fn optional_seconds(n: Option<u32>) -> (r: SqlValue)
    ensures
        r@ == optional_seconds_arg(n),
{
    match n {
        Some(n) => SqlValue::Integer(n as i64),
        None => SqlValue::Null,
    }
}

/// The argument of an integer that may be missing.
pub open spec fn optional_integer_arg(n: Option<i64>) -> SqlArg {
    match n {
        Some(n) => SqlArg::Integer(n as int),
        None => SqlArg::Null,
    }
}

/// An integer, or null where there is none.
pub fn optional_integer(n: Option<i64>) -> (r: SqlValue)
    ensures
        r@ == optional_integer_arg(n),
{
    match n {
        Some(n) => SqlValue::Integer(n),
        None => SqlValue::Null,
    }
}

/// A copy of some bytes.
pub fn bytes(b: &[u8]) -> (r: Vec<u8>)
    ensures
        r@ == b@,
{
    let mut copy: Vec<u8> = Vec::with_capacity(b.len());
    let mut i: usize = 0;
    while i < b.len()
        invariant
            i <= b.len(),
            copy@ == b@.take(i as int),
        decreases b.len() - i,
    {
        copy.push(b[i]);
        i = i + 1;
    }
    assert(b@.take(b@.len() as int) =~= b@);
    copy
}

/// A byte string value.
pub fn blob(b: &[u8]) -> (r: SqlValue)
    ensures
        r@ == SqlArg::Blob(b@),
{
    SqlValue::Blob(bytes(b))
}

/// The statement of a text and its values.
pub fn statement(parts: (&'static str, Vec<SqlValue>)) -> (r: Statement)
    ensures
        r@ == (StatementView { sql: parts.0@, args: args(parts.1) }),
{
    Statement { sql: parts.0.to_owned(), params: parts.1 }
}

} // verus!
