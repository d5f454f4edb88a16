//! The calls into `sqlx::QueryBuilder` that statements are built with, and the
//! model of a statement under construction: its SQL text and its bound arguments.
use vstd::prelude::*;
use sqlx::{Postgres, QueryBuilder};
use crate::text::{decimal, utf8_len};
use crate::model::DecimalValue;
use crate::time::{valid_date, valid_wall_clock, CalendarDate, WallClock};

verus! {

/// A statement under construction: a `sqlx::QueryBuilder` for Postgres, whose SQL
/// text and bound arguments are named by `query_sql` and `query_args`. The builder is
/// handed out in `inner` so that callers can run the statement; the contracts describe
/// it as a function of the library returns it.
#[verifier::external_body]
pub struct SqlBuilder {
    pub inner: QueryBuilder<'static, Postgres>,
}

/// The Postgres type of a `NULL` argument.
pub enum SqlType {
    Text,
    Int4,
    Bool,
    Date,
    TextArray,
    Numeric,
    TimestampTz,
}

/// A bound argument, by the value it carries.
pub enum SqlArg {
    /// `NULL` of the given type (an absent optional value).
    Null(SqlType),
    Text(Seq<char>),
    Int4(i32),
    Int8(i64),
    Bool(bool),
    Uuid(u128),
    UuidArray(Seq<u128>),
    TextArray(Seq<Seq<char>>),
    Date(CalendarDate),
    Timestamp(WallClock),
    /// A `TIMESTAMPTZ` argument, by the UTC wall clock of the instant.
    TimestampTz(WallClock),
    /// A `NUMERIC` argument: `mantissa * 10^-scale`.
    Numeric(i128, u32),
}

/// Name for the SQL text that a `QueryBuilder` holds (`QueryBuilder::sql`).
pub uninterp spec fn query_sql(qb: SqlBuilder) -> Seq<char>;

/// Name for the arguments a `QueryBuilder` has bound, in order; `None` once
/// `build` has taken them.
pub uninterp spec fn query_args(qb: SqlBuilder) -> Option<Seq<SqlArg>>;

/// A piece of a statement: literal SQL, or an argument bound behind a placeholder.
pub enum Piece {
    Sql(Seq<char>),
    Bind(SqlArg),
}

/// The text and arguments of a statement under construction.
pub struct Stmt {
    pub sql: Seq<char>,
    pub args: Seq<SqlArg>,
}

pub open spec fn stmt_of(qb: SqlBuilder) -> Stmt {
    Stmt { sql: query_sql(qb), args: query_args(qb).unwrap() }
}

/// The builder still accepts pieces (`build` has not taken its arguments).
pub open spec fn open_builder(qb: SqlBuilder) -> bool {
    query_args(qb) is Some
}

/// The placeholder Postgres gives the `n`-th bound argument: `$n`.
pub open spec fn placeholder(n: nat) -> Seq<char> {
    seq!['$'] + decimal(n)
}

pub open spec fn after_piece(st: Stmt, p: Piece) -> Stmt {
    match p {
        Piece::Sql(t) => Stmt { sql: st.sql + t, args: st.args },
        Piece::Bind(a) => Stmt {
            sql: st.sql + placeholder(st.args.len() + 1),
            args: st.args.push(a),
        },
    }
}

/// The statement after appending `ps`, one piece after the other.
pub open spec fn after_pieces(st: Stmt, ps: Seq<Piece>) -> Stmt
    decreases ps.len(),
{
    if ps.len() == 0 {
        st
    } else {
        after_piece(after_pieces(st, ps.drop_last()), ps.last())
    }
}

/// Postgres' binary encoding can carry the argument (every encoded value, and an
/// array as a whole, must fit in `i32::MAX` bytes).
pub open spec fn bindable(a: SqlArg) -> bool {
    match a {
        SqlArg::Text(t) => utf8_len(t) <= i32::MAX,
        SqlArg::UuidArray(ids) => 20 + 20 * ids.len() <= i32::MAX,
        SqlArg::TextArray(ts) => text_array_size(ts) <= i32::MAX,
        SqlArg::Date(d) => valid_date(d),
        SqlArg::Timestamp(w) => valid_wall_clock(w),
        SqlArg::TimestampTz(w) => valid_wall_clock(w),
        SqlArg::Numeric(m, s) => s <= 28 && -0x1_0000_0000_0000_0000_0000_0000 < m
            < 0x1_0000_0000_0000_0000_0000_0000,
        _ => true,
    }
}

/// Encoded size of a text array: a 20-byte header, and a 4-byte length before each item.
pub open spec fn text_array_size(ts: Seq<Seq<char>>) -> int
    decreases ts.len(),
{
    if ts.len() == 0 {
        20
    } else {
        text_array_size(ts.drop_last()) + 4 + utf8_len(ts.last())
    }
}

pub proof fn lemma_after_pieces_concat(st: Stmt, p1: Seq<Piece>, p2: Seq<Piece>)
    ensures
        after_pieces(st, p1 + p2) == after_pieces(after_pieces(st, p1), p2),
    decreases p2.len(),
{
    if p2.len() == 0 {
        assert(p1 + p2 =~= p1);
    } else {
        assert((p1 + p2).drop_last() =~= p1 + p2.drop_last());
        lemma_after_pieces_concat(st, p1, p2.drop_last());
    }
}

/// Calls `QueryBuilder::new(init)`: the SQL text is `init`, with no argument bound.
#[verifier::external_body]
pub(crate) fn new_builder(init: &str) -> (qb: SqlBuilder)
    ensures
        query_sql(qb) == init@,
        query_args(qb) == Some(Seq::<SqlArg>::empty()),
{
    SqlBuilder { inner: QueryBuilder::new(init) }
}

/// Calls `QueryBuilder::push(sql)`: appends the text, binds nothing. It panics after
/// `build`, which `open_builder` rules out.
#[verifier::external_body]
pub(crate) fn push_sql(qb: &mut SqlBuilder, sql: &str)
    requires
        open_builder(*old(qb)),
    ensures
        open_builder(*final(qb)),
        stmt_of(*final(qb)) == after_piece(stmt_of(*old(qb)), Piece::Sql(sql@)),
{
    qb.inner.push(sql);
}

/// Calls `QueryBuilder::push_bind` with a `String`: binds it as `TEXT` and appends
/// `$n`, `n` being the new number of arguments. Encoding fails, and `push_bind`
/// panics, beyond `i32::MAX` bytes.
#[verifier::external_body]
pub(crate) fn push_bind_text(qb: &mut SqlBuilder, v: String)
    requires
        open_builder(*old(qb)),
        bindable(SqlArg::Text(v@)),
    ensures
        open_builder(*final(qb)),
        stmt_of(*final(qb)) == after_piece(stmt_of(*old(qb)), Piece::Bind(SqlArg::Text(v@))),
{
    qb.inner.push_bind(v);
}

/// Calls `QueryBuilder::push_bind` with an `i32` (`INT4`).
#[verifier::external_body]
pub(crate) fn push_bind_i32(qb: &mut SqlBuilder, v: i32)
    requires
        open_builder(*old(qb)),
    ensures
        open_builder(*final(qb)),
        stmt_of(*final(qb)) == after_piece(stmt_of(*old(qb)), Piece::Bind(SqlArg::Int4(v))),
{
    qb.inner.push_bind(v);
}

/// Calls `QueryBuilder::push_bind` with an `i64` (`INT8`).
#[verifier::external_body]
pub(crate) fn push_bind_i64(qb: &mut SqlBuilder, v: i64)
    requires
        open_builder(*old(qb)),
    ensures
        open_builder(*final(qb)),
        stmt_of(*final(qb)) == after_piece(stmt_of(*old(qb)), Piece::Bind(SqlArg::Int8(v))),
{
    qb.inner.push_bind(v);
}

/// Calls `QueryBuilder::push_bind` with a `bool` (`BOOL`).
#[verifier::external_body]
pub(crate) fn push_bind_bool(qb: &mut SqlBuilder, v: bool)
    requires
        open_builder(*old(qb)),
    ensures
        open_builder(*final(qb)),
        stmt_of(*final(qb)) == after_piece(stmt_of(*old(qb)), Piece::Bind(SqlArg::Bool(v))),
{
    qb.inner.push_bind(v);
}

/// Calls `QueryBuilder::push_bind` with the `uuid::Uuid` whose 128-bit value is `id`.
#[verifier::external_body]
pub(crate) fn push_bind_uuid(qb: &mut SqlBuilder, id: u128)
    requires
        open_builder(*old(qb)),
    ensures
        open_builder(*final(qb)),
        stmt_of(*final(qb)) == after_piece(stmt_of(*old(qb)), Piece::Bind(SqlArg::Uuid(id))),
{
    qb.inner.push_bind(uuid::Uuid::from_u128(id));
}

/// Calls `QueryBuilder::push_bind` with a `Vec<uuid::Uuid>` (`UUID[]`), the ids in order.
#[verifier::external_body]
pub(crate) fn push_bind_uuid_array(qb: &mut SqlBuilder, ids: Vec<u128>)
    requires
        open_builder(*old(qb)),
        bindable(SqlArg::UuidArray(ids@)),
    ensures
        open_builder(*final(qb)),
        stmt_of(*final(qb)) == after_piece(
            stmt_of(*old(qb)),
            Piece::Bind(SqlArg::UuidArray(ids@)),
        ),
{
    let v: Vec<uuid::Uuid> = ids.into_iter().map(uuid::Uuid::from_u128).collect();
    qb.inner.push_bind(v);
}

/// Calls `QueryBuilder::push_bind` with the `chrono::NaiveDate` of `d` (`DATE`).
#[verifier::external_body]
pub(crate) fn push_bind_date(qb: &mut SqlBuilder, d: CalendarDate)
    requires
        open_builder(*old(qb)),
        valid_date(d),
    ensures
        open_builder(*final(qb)),
        stmt_of(*final(qb)) == after_piece(stmt_of(*old(qb)), Piece::Bind(SqlArg::Date(d))),
{
    qb.inner.push_bind(chrono::NaiveDate::from_ymd_opt(d.year, d.month, d.day).expect("valid date"));
}

/// Calls `QueryBuilder::push_bind` with the `chrono::NaiveDateTime` of `w` (`TIMESTAMP`).
#[verifier::external_body]
pub(crate) fn push_bind_timestamp(qb: &mut SqlBuilder, w: WallClock)
    requires
        open_builder(*old(qb)),
        valid_wall_clock(w),
    ensures
        open_builder(*final(qb)),
        stmt_of(*final(qb)) == after_piece(
            stmt_of(*old(qb)),
            Piece::Bind(SqlArg::Timestamp(w)),
        ),
{
    let d = chrono::NaiveDate::from_ymd_opt(w.date.year, w.date.month, w.date.day).expect(
        "valid date",
    );
    qb.inner.push_bind(d.and_hms_nano_opt(w.hour, w.minute, w.second, w.nanosecond).expect("valid time"));
}

/// The texts of a list, by their views.
pub open spec fn texts_view(v: Seq<String>) -> Seq<Seq<char>> {
    crate::model::texts_of(v)
}

/// Calls `QueryBuilder::push_bind` with a `Vec<String>` (`TEXT[]`).
#[verifier::external_body]
pub(crate) fn push_bind_text_array(qb: &mut SqlBuilder, v: Vec<String>)
    requires
        open_builder(*old(qb)),
        bindable(SqlArg::TextArray(texts_view(v@))),
    ensures
        open_builder(*final(qb)),
        stmt_of(*final(qb)) == after_piece(
            stmt_of(*old(qb)),
            Piece::Bind(SqlArg::TextArray(texts_view(v@))),
        ),
{
    qb.inner.push_bind(v);
}

/// Calls `QueryBuilder::push_bind` with the `rust_decimal::Decimal` of `d` (`NUMERIC`).
#[verifier::external_body]
pub(crate) fn push_bind_numeric(qb: &mut SqlBuilder, d: DecimalValue)
    requires
        open_builder(*old(qb)),
        bindable(SqlArg::Numeric(d.mantissa, d.scale)),
    ensures
        open_builder(*final(qb)),
        stmt_of(*final(qb)) == after_piece(
            stmt_of(*old(qb)),
            Piece::Bind(SqlArg::Numeric(d.mantissa, d.scale)),
        ),
{
    qb.inner.push_bind(rust_decimal::Decimal::from_i128_with_scale(d.mantissa, d.scale));
}

/// Calls `QueryBuilder::push_bind` with the `chrono::DateTime<Utc>` whose UTC wall
/// clock is `w` (`TIMESTAMPTZ`).
#[verifier::external_body]
pub(crate) fn push_bind_timestamptz(qb: &mut SqlBuilder, w: WallClock)
    requires
        open_builder(*old(qb)),
        valid_wall_clock(w),
    ensures
        open_builder(*final(qb)),
        stmt_of(*final(qb)) == after_piece(
            stmt_of(*old(qb)),
            Piece::Bind(SqlArg::TimestampTz(w)),
        ),
{
    let d = chrono::NaiveDate::from_ymd_opt(w.date.year, w.date.month, w.date.day).expect(
        "valid date",
    );
    let t = d.and_hms_nano_opt(w.hour, w.minute, w.second, w.nanosecond).expect("valid time");
    qb.inner.push_bind(chrono::DateTime::<chrono::Utc>::from_naive_utc_and_offset(t, chrono::Utc));
}

/// An optional argument: its value, or `NULL` of its type.
pub open spec fn opt_arg_text(v: Option<String>) -> SqlArg {
    match v {
        Some(x) => SqlArg::Text(x@),
        None => SqlArg::Null(SqlType::Text),
    }
}

pub open spec fn opt_arg_i32(v: Option<i32>) -> SqlArg {
    match v {
        Some(x) => SqlArg::Int4(x),
        None => SqlArg::Null(SqlType::Int4),
    }
}

pub open spec fn opt_arg_bool(v: Option<bool>) -> SqlArg {
    match v {
        Some(x) => SqlArg::Bool(x),
        None => SqlArg::Null(SqlType::Bool),
    }
}

pub open spec fn opt_arg_date(v: Option<CalendarDate>) -> SqlArg {
    match v {
        Some(x) => SqlArg::Date(x),
        None => SqlArg::Null(SqlType::Date),
    }
}

pub open spec fn opt_arg_text_array(v: Option<Vec<String>>) -> SqlArg {
    match v {
        Some(x) => SqlArg::TextArray(texts_view(x@)),
        None => SqlArg::Null(SqlType::TextArray),
    }
}

pub open spec fn opt_arg_numeric(v: Option<DecimalValue>) -> SqlArg {
    match v {
        Some(x) => SqlArg::Numeric(x.mantissa, x.scale),
        None => SqlArg::Null(SqlType::Numeric),
    }
}

pub open spec fn opt_arg_timestamptz(v: Option<WallClock>) -> SqlArg {
    match v {
        Some(x) => SqlArg::TimestampTz(x),
        None => SqlArg::Null(SqlType::TimestampTz),
    }
}

/// Calls `QueryBuilder::push_bind` with an optional value: `NULL` when absent.
#[verifier::external_body]
pub(crate) fn push_bind_opt_text(qb: &mut SqlBuilder, v: Option<String>)
    requires
        open_builder(*old(qb)),
        v matches Some(x) ==> bindable(SqlArg::Text(x@)),
    ensures
        open_builder(*final(qb)),
        stmt_of(*final(qb)) == after_piece(stmt_of(*old(qb)), Piece::Bind(opt_arg_text(v))),
{
    qb.inner.push_bind(v);
}

/// Calls `QueryBuilder::push_bind` with an optional value: `NULL` when absent.
#[verifier::external_body]
pub(crate) fn push_bind_opt_i32(qb: &mut SqlBuilder, v: Option<i32>)
    requires
        open_builder(*old(qb)),
    ensures
        open_builder(*final(qb)),
        stmt_of(*final(qb)) == after_piece(stmt_of(*old(qb)), Piece::Bind(opt_arg_i32(v))),
{
    qb.inner.push_bind(v);
}

/// Calls `QueryBuilder::push_bind` with an optional value: `NULL` when absent.
#[verifier::external_body]
pub(crate) fn push_bind_opt_bool(qb: &mut SqlBuilder, v: Option<bool>)
    requires
        open_builder(*old(qb)),
    ensures
        open_builder(*final(qb)),
        stmt_of(*final(qb)) == after_piece(stmt_of(*old(qb)), Piece::Bind(opt_arg_bool(v))),
{
    qb.inner.push_bind(v);
}

/// Calls `QueryBuilder::push_bind` with an optional value: `NULL` when absent.
#[verifier::external_body]
pub(crate) fn push_bind_opt_date(qb: &mut SqlBuilder, v: Option<CalendarDate>)
    requires
        open_builder(*old(qb)),
        v matches Some(x) ==> valid_date(x),
    ensures
        open_builder(*final(qb)),
        stmt_of(*final(qb)) == after_piece(stmt_of(*old(qb)), Piece::Bind(opt_arg_date(v))),
{
    qb.inner.push_bind(v.map(|d| chrono::NaiveDate::from_ymd_opt(d.year, d.month, d.day).expect("valid date")));
}

/// Calls `QueryBuilder::push_bind` with an optional value: `NULL` when absent.
#[verifier::external_body]
pub(crate) fn push_bind_opt_text_array(qb: &mut SqlBuilder, v: Option<Vec<String>>)
    requires
        open_builder(*old(qb)),
        v matches Some(x) ==> bindable(SqlArg::TextArray(texts_view(x@))),
    ensures
        open_builder(*final(qb)),
        stmt_of(*final(qb)) == after_piece(stmt_of(*old(qb)), Piece::Bind(opt_arg_text_array(v))),
{
    qb.inner.push_bind(v);
}

/// Calls `QueryBuilder::push_bind` with an optional value: `NULL` when absent.
#[verifier::external_body]
pub(crate) fn push_bind_opt_numeric(qb: &mut SqlBuilder, v: Option<DecimalValue>)
    requires
        open_builder(*old(qb)),
        v matches Some(x) ==> bindable(SqlArg::Numeric(x.mantissa, x.scale)),
    ensures
        open_builder(*final(qb)),
        stmt_of(*final(qb)) == after_piece(stmt_of(*old(qb)), Piece::Bind(opt_arg_numeric(v))),
{
    qb.inner.push_bind(v.map(|d| rust_decimal::Decimal::from_i128_with_scale(d.mantissa, d.scale)));
}

/// Calls `QueryBuilder::push_bind` with an optional value: `NULL` when absent.
#[verifier::external_body]
pub(crate) fn push_bind_opt_timestamptz(qb: &mut SqlBuilder, v: Option<WallClock>)
    requires
        open_builder(*old(qb)),
        v matches Some(x) ==> valid_wall_clock(x),
    ensures
        open_builder(*final(qb)),
        stmt_of(*final(qb)) == after_piece(stmt_of(*old(qb)), Piece::Bind(opt_arg_timestamptz(v))),
{
    let t = v.map(|w| {
        let d = chrono::NaiveDate::from_ymd_opt(w.date.year, w.date.month, w.date.day).expect(
            "valid date",
        );
        let n = d.and_hms_nano_opt(w.hour, w.minute, w.second, w.nanosecond).expect("valid time");
        chrono::DateTime::<chrono::Utc>::from_naive_utc_and_offset(n, chrono::Utc)
    });
    qb.inner.push_bind(t);
}

} // verus!
