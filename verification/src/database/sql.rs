//! SQL statements under construction, held in sqlx's `QueryBuilder`.

use sqlx::{QueryBuilder, Sqlite};
use vstd::prelude::*;

use crate::convert::Convert;
use crate::database::coins::length_error;
use crate::error::DatabaseError;

verus! {

/// A value bound to a placeholder of a statement.
pub enum SqlValue {
    Text(Seq<char>),
    Integer(int),
    Blob(Seq<u8>),
}

/// A statement for SQLite under construction: sqlx's `QueryBuilder`, which
/// Verus sees only through the names and functions below.
#[verifier::external_body]
pub struct SqlQuery {
    pub builder: QueryBuilder<'static, Sqlite>,
}

/// The statement text that a builder holds.
pub uninterp spec fn query_sql(query: SqlQuery) -> Seq<char>;

/// The arguments that a builder has bound, in order.
pub uninterp spec fn query_binds(query: SqlQuery) -> Seq<SqlValue>;

/// `QueryBuilder::new` with the given initial text and no arguments.
#[verifier::external_body]
pub(crate) fn new_query(init: &str) -> (query: SqlQuery)
    ensures
        query_sql(query) == init@,
        query_binds(query) == Seq::<SqlValue>::empty(),
{
    SqlQuery { builder: QueryBuilder::new(init) }
}

/// `QueryBuilder::push`: appends the text as it is.
#[verifier::external_body]
pub(crate) fn push_sql(query: &mut SqlQuery, sql: &str)
    ensures
        query_sql(*final(query)) == query_sql(*old(query)) + sql@,
        query_binds(*final(query)) == query_binds(*old(query)),
{
    query.builder.push(sql);
}

/// `QueryBuilder::push_bind` with a string: appends SQLite's placeholder `?`
/// and binds the string to it.
#[verifier::external_body]
pub(crate) fn push_bind_text(query: &mut SqlQuery, value: String)
    ensures
        query_sql(*final(query)) == query_sql(*old(query)) + "?"@,
        query_binds(*final(query)) == query_binds(*old(query)).push(SqlValue::Text(value@)),
{
    query.builder.push_bind(value);
}

/// `QueryBuilder::push_bind` with an unsigned 32-bit integer: appends SQLite's
/// placeholder `?` and binds the integer to it.
#[verifier::external_body]
pub(crate) fn push_bind_u32(query: &mut SqlQuery, value: u32)
    ensures
        query_sql(*final(query)) == query_sql(*old(query)) + "?"@,
        query_binds(*final(query)) == query_binds(*old(query)).push(SqlValue::Integer(value as int)),
{
    query.builder.push_bind(value);
}

/// `QueryBuilder::push_bind` with a byte: appends SQLite's placeholder `?`
/// and binds the number to it.
#[verifier::external_body]
pub(crate) fn push_bind_u8(query: &mut SqlQuery, value: u8)
    ensures
        query_sql(*final(query)) == query_sql(*old(query)) + "?"@,
        query_binds(*final(query)) == query_binds(*old(query)).push(SqlValue::Integer(value as int)),
{
    query.builder.push_bind(value);
}

/// `QueryBuilder::push_bind` with a signed 64-bit integer: appends SQLite's
/// placeholder `?` and binds the integer to it.
#[verifier::external_body]
pub(crate) fn push_bind_i64(query: &mut SqlQuery, value: i64)
    ensures
        query_sql(*final(query)) == query_sql(*old(query)) + "?"@,
        query_binds(*final(query)) == query_binds(*old(query)).push(SqlValue::Integer(value as int)),
{
    query.builder.push_bind(value);
}

/// `QueryBuilder::push_bind` with a byte string: appends SQLite's placeholder
/// `?` and binds the bytes to it as a blob.
#[verifier::external_body]
pub(crate) fn push_bind_blob(query: &mut SqlQuery, value: Vec<u8>)
    ensures
        query_sql(*final(query)) == query_sql(*old(query)) + "?"@,
        query_binds(*final(query)) == query_binds(*old(query)).push(SqlValue::Blob(value@)),
{
    query.builder.push_bind(value);
}

/// `format!("%{value}%")`: the value between two `%` wildcards, the pattern
/// that `LIKE` matches against any text containing it.
#[verifier::external_body]
pub(crate) fn like_pattern(value: &str) -> (pattern: String)
    ensures
        pattern@ == "%"@ + value@ + "%"@,
{
    format!("%{value}%")
}

/// `part` occurs in `text` starting at position `at`.
pub open spec fn occurs_at(text: Seq<char>, part: Seq<char>, at: int) -> bool {
    &&& 0 <= at
    &&& at + part.len() <= text.len()
    &&& text.subrange(at, at + part.len()) == part
}

/// `part` occurs somewhere in `text`.
pub open spec fn contains_text(text: Seq<char>, part: Seq<char>) -> bool {
    exists|at: int| #[trigger] occurs_at(text, part, at)
}

/// What occurs in a text occurs in any extension of it.
pub(crate) proof fn lemma_occurs_extended(text: Seq<char>, more: Seq<char>, part: Seq<char>, at: int)
    requires
        occurs_at(text, part, at),
    ensures
        occurs_at(text + more, part, at),
{
    assert((text + more).subrange(at, at + part.len() as int) =~= text.subrange(at, at + part.len() as int));
}

/// The total count of a page of rows: zero for no rows, otherwise the count
/// that the first row carries, which must fit in 32 unsigned bits.
pub fn page_total(first: Option<i64>) -> (r: Result<u32, DatabaseError>)
    ensures
        match first {
            None => r == Ok::<u32, DatabaseError>(0),
            Some(t) => match r {
                Ok(v) => 0 <= t <= u32::MAX && v == t,
                Err(e) => (t < 0 || t > u32::MAX) && e is PrecisionLost,
            },
        },
{
    match first {
        None => Ok(0),
        Some(t) => t.convert(),
    }
}

/// The stored columns of one result row, and what they decode to.
pub trait RowColumns: Sized {
    type Row;

    /// Every column converts.
    spec fn decodable(&self) -> bool;

    /// `row` holds these columns' values.
    spec fn decodes_to(&self, row: Self::Row) -> bool;

    /// `e` is the error that decoding these columns fails with: that of the
    /// first column that does not convert.
    spec fn decode_error(&self, e: DatabaseError) -> bool;

    /// Converts the columns; fails with the error of the first column that
    /// does not convert.
    fn decode_row(self) -> (r: Result<Self::Row, DatabaseError>)
        ensures
            r is Ok <==> self.decodable(),
            r matches Ok(row) ==> self.decodes_to(row),
            r matches Err(e) ==> self.decode_error(e),
    ;
}

/// `e` is the error of the first of `rows` that does not decode.
pub open spec fn first_row_error<C: RowColumns>(rows: Seq<C>, e: DatabaseError) -> bool {
    exists|i: int|
        0 <= i < rows.len() && !rows[i].decodable() && (forall|j: int| 0 <= j < i ==> #[trigger] rows[j].decodable())
            && #[trigger] rows[i].decode_error(e)
}

/// Decodes result rows in order; fails with the error of the first row that
/// does not decode.
pub fn decode_rows<C: RowColumns>(rows: Vec<C>) -> (r: Result<Vec<C::Row>, DatabaseError>)
    ensures
        r is Ok <==> forall|i: int| 0 <= i < rows@.len() ==> #[trigger] rows@[i].decodable(),
        r matches Ok(decoded) ==> decoded@.len() == rows@.len() && forall|i: int|
            0 <= i < rows@.len() ==> #[trigger] rows@[i].decodes_to(decoded@[i]),
        r matches Err(e) ==> first_row_error(rows@, e),
{
    let ghost all = rows@;
    let mut decoded: Vec<C::Row> = Vec::new();
    for row in it: rows.into_iter()
        invariant
            it.seq() == all,
            decoded@.len() == it.index(),
            forall|i: int| 0 <= i < it.index() ==> #[trigger] all[i].decodable(),
            forall|i: int| 0 <= i < it.index() ==> #[trigger] all[i].decodes_to(decoded@[i]),
    {
        proof {
            assert(row == all[it.index()]);
        }
        match row.decode_row() {
            Ok(d) => decoded.push(d),
            Err(e) => {
                proof {
                    assert(all[it.index()].decode_error(e));
                }
                return Err(e);
            },
        }
    }
    Ok(decoded)
}

/// A stored 32-byte hash.
#[derive(Debug, Clone)]
pub struct HashColumn {
    pub hash: Vec<u8>,
}

impl RowColumns for HashColumn {
    type Row = [u8; 32];

    open spec fn decodable(&self) -> bool {
        self.hash@.len() == 32
    }

    open spec fn decodes_to(&self, hash: [u8; 32]) -> bool {
        hash@ == self.hash@
    }

    open spec fn decode_error(&self, e: DatabaseError) -> bool {
        e == length_error(self.hash@, 32)
    }

    fn decode_row(self) -> (r: Result<[u8; 32], DatabaseError>) {
        self.hash.convert()
    }
}

/// Decodes stored 32-byte hashes; fails with the error of the first that has
/// not 32 bytes.
pub fn decode_hashes(rows: Vec<HashColumn>) -> (r: Result<Vec<[u8; 32]>, DatabaseError>)
    ensures
        r is Ok <==> forall|i: int| 0 <= i < rows@.len() ==> #[trigger] rows@[i].decodable(),
        r matches Ok(hashes) ==> hashes@.len() == rows@.len() && forall|i: int|
            0 <= i < rows@.len() ==> #[trigger] rows@[i].decodes_to(hashes@[i]),
        r matches Err(e) ==> first_row_error(rows@, e),
{
    decode_rows(rows)
}

} // verus!
