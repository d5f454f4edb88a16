//! The fixed statements that create and replace a book and the requesting user's
//! reading data: fixed SQL texts, with every value bound.
use vstd::prelude::*;
use vstd::string::*;
use crate::model::{CreateBookDto, DecimalValue};
use crate::query::{lemma_unfold_pieces, start};
use crate::sql::{
    after_piece, after_pieces, bindable, lemma_after_pieces_concat, new_builder, open_builder, opt_arg_bool,
    opt_arg_date, opt_arg_i32, opt_arg_numeric, opt_arg_text, opt_arg_text_array,
    opt_arg_timestamptz, push_bind_opt_bool, push_bind_opt_date, push_bind_opt_i32,
    push_bind_opt_numeric, push_bind_opt_text, push_bind_opt_text_array, push_bind_opt_timestamptz,
    push_bind_text, push_bind_text_array, push_bind_uuid, push_sql, stmt_of, texts_view, Piece,
    SqlArg, SqlBuilder, Stmt,
};
use crate::time::{valid_date, valid_wall_clock, CalendarDate, WallClock};

verus! {

/// The requesting user's reading data of a book being created or replaced.
pub struct BookInteraction {
    pub read_status: Option<String>,
    pub rating: Option<i32>,
    pub personal_notes: Option<String>,
    pub reading_notes: Option<String>,
    pub date_started: Option<CalendarDate>,
    pub date_finished: Option<CalendarDate>,
}

pub open spec fn interaction_of(p: CreateBookDto) -> BookInteraction {
    BookInteraction {
        read_status: p.read_status,
        rating: p.rating,
        personal_notes: p.personal_notes,
        reading_notes: p.reading_notes,
        date_started: p.date_started,
        date_finished: p.date_finished,
    }
}

/// The reading status stored: the given one, `unread` by default.
pub open spec fn status_or_unread(s: Option<String>) -> Seq<char> {
    match s {
        Some(x) => x@,
        None => "unread"@,
    }
}

/// The arguments placed after the SQL segments, one segment after each.
pub open spec fn interleave(segs: Seq<Seq<char>>, args: Seq<SqlArg>) -> Seq<Piece>
    decreases segs.len(),
{
    if segs.len() == 0 || args.len() == 0 {
        seq![]
    } else {
        interleave(segs.drop_last(), args.drop_last()) + seq![
            Piece::Bind(args.last()),
            Piece::Sql(segs.last()),
        ]
    }
}

proof fn lemma_interleave_step(
    st0: Stmt,
    segs: Seq<Seq<char>>,
    args: Seq<SqlArg>,
    s: Seq<char>,
    a: SqlArg,
    st1: Stmt,
)
    requires
        segs.len() == args.len(),
        st1 == after_pieces(st0, interleave(segs, args)),
    ensures
        after_pieces(st0, interleave(segs.push(s), args.push(a))) == after_piece(
            after_piece(st1, Piece::Bind(a)),
            Piece::Sql(s),
        ),
{
    assert(segs.push(s).drop_last() =~= segs);
    assert(args.push(a).drop_last() =~= args);
    let tail = seq![Piece::Bind(a), Piece::Sql(s)];
    lemma_after_pieces_concat(st0, interleave(segs, args), tail);
    lemma_unfold_pieces(st1, tail, 1);
    lemma_unfold_pieces(st1, tail, 2);
}

pub const INSERT_BOOK_HEAD: &'static str = "\n        INSERT INTO books (\n            library_id, isbn_13, isbn_10, open_library_id, oclc_number, title, subtitle, original_title,\n            authors, translators, illustrators, publisher, publish_date, original_publish_date,\n            edition, edition_number, printing_number, original_edition, is_first_edition, collection_name,\n            volume_in_collection, series_name, volume_in_series, book_format, page_count,\n            dimensions, weight, language, original_language, subjects, genres, target_audience,\n            description, table_of_contents, cover_url, purchase_date, purchase_price,\n            store_or_vendor, acquisition_type, location_property, location_room, location_bookcase,\n            location_shelf, location_position, condition_state, is_loaned, loaned_to,\n            loan_date, expected_return_date\n        ) VALUES (\n            ";
pub const UPDATE_BOOK_HEAD: &'static str = "\n        UPDATE books SET\n            library_id = ";
pub const INSERT_INTERACTION_HEAD: &'static str = "\n        INSERT INTO user_book_interactions (\n            user_id, book_id, read_status, rating, personal_notes, reading_notes, date_started, date_finished\n        ) VALUES (";
pub const UPSERT_INTERACTION_HEAD: &'static str = "\n        INSERT INTO user_book_interactions (user_id, book_id, read_status, rating, personal_notes, reading_notes, date_started, date_finished)\n        VALUES (";

/// The SQL after each placeholder of the book insertion.
pub open spec fn insert_book_segments() -> Seq<Seq<char>> {
    seq![
        ", "@,
        ", "@,
        ", "@,
        ", "@,
        ", "@,
        ", "@,
        ", "@,
        ", "@,
        ", "@,
        ", "@,
        ", "@,
        ", "@,
        ", "@,
        ", "@,
        ", "@,
        ", "@,
        ", "@,
        ", "@,
        ",\n            "@,
        ", "@,
        ", "@,
        ", "@,
        ", "@,
        ", "@,
        ", "@,
        ", "@,
        ", "@,
        ", "@,
        ", "@,
        ", "@,
        ", "@,
        ", "@,
        ", "@,
        ", "@,
        ", "@,
        ",\n            "@,
        ", "@,
        ", "@,
        ", "@,
        ", "@,
        ", "@,
        ", "@,
        ", "@,
        ", "@,
        ", "@,
        ", "@,
        ", "@,
        ", "@,
        "\n        )\n        RETURNING id\n        "@,
    ]
}
/// The SQL after each placeholder of the book replacement.
pub open spec fn update_book_segments() -> Seq<Seq<char>> {
    seq![
        ", isbn_13 = "@,
        ", isbn_10 = "@,
        ", open_library_id = "@,
        ", oclc_number = "@,
        ", title = "@,
        ",\n            subtitle = "@,
        ", original_title = "@,
        ", authors = "@,
        ", translators = "@,
        ", illustrators = "@,
        ",\n            publisher = "@,
        ", publish_date = "@,
        ", original_publish_date = "@,
        ", edition = "@,
        ", edition_number = "@,
        ",\n            printing_number = "@,
        ", original_edition = "@,
        ", is_first_edition = "@,
        ", collection_name = "@,
        ",\n            volume_in_collection = "@,
        ", series_name = "@,
        ", volume_in_series = "@,
        ", book_format = "@,
        ",\n            page_count = "@,
        ", dimensions = "@,
        ", weight = "@,
        ", language = "@,
        ", original_language = "@,
        ",\n            subjects = "@,
        ", genres = "@,
        ", target_audience = "@,
        ", description = "@,
        ", table_of_contents = "@,
        ",\n            cover_url = "@,
        ", purchase_date = "@,
        ", purchase_price = "@,
        ", store_or_vendor = "@,
        ",\n            acquisition_type = "@,
        ", location_property = "@,
        ", location_room = "@,
        ", location_bookcase = "@,
        ",\n            location_shelf = "@,
        ", location_position = "@,
        ", condition_state = "@,
        ", is_loaned = "@,
        ",\n            loaned_to = "@,
        ", loan_date = "@,
        ", expected_return_date = "@,
        "\n        WHERE id = "@,
        "\n        "@,
    ]
}
/// The SQL after each placeholder of the reading-data insertion.
pub open spec fn insert_interaction_segments() -> Seq<Seq<char>> {
    seq![
        ", "@,
        ", "@,
        ", "@,
        ", "@,
        ", "@,
        ", "@,
        ", "@,
        ")\n        "@,
    ]
}
/// The SQL after each placeholder of the reading-data upsert.
pub open spec fn upsert_interaction_segments() -> Seq<Seq<char>> {
    seq![
        ", "@,
        ", "@,
        ", "@,
        ", "@,
        ", "@,
        ", "@,
        ", "@,
        ")\n        ON CONFLICT (user_id, book_id) DO UPDATE SET\n            read_status = EXCLUDED.read_status,\n            rating = EXCLUDED.rating,\n            personal_notes = EXCLUDED.personal_notes,\n            reading_notes = EXCLUDED.reading_notes,\n            date_started = EXCLUDED.date_started,\n            date_finished = EXCLUDED.date_finished\n        "@,
    ]
}
/// The values of a new book, in column order.
pub open spec fn book_args(p: CreateBookDto, library_id: u128) -> Seq<SqlArg> {
    seq![
        SqlArg::Uuid(library_id),
        opt_arg_text(p.isbn_13),
        opt_arg_text(p.isbn_10),
        opt_arg_text(p.open_library_id),
        opt_arg_text(p.oclc_number),
        SqlArg::Text(p.title@),
        opt_arg_text(p.subtitle),
        opt_arg_text(p.original_title),
        SqlArg::TextArray(texts_view(p.authors@)),
        opt_arg_text_array(p.translators),
        opt_arg_text_array(p.illustrators),
        opt_arg_text(p.publisher),
        opt_arg_date(p.publish_date),
        opt_arg_date(p.original_publish_date),
        opt_arg_text(p.edition),
        opt_arg_text(p.edition_number),
        opt_arg_text(p.printing_number),
        opt_arg_text(p.original_edition),
        opt_arg_bool(p.is_first_edition),
        opt_arg_text(p.collection_name),
        opt_arg_i32(p.volume_in_collection),
        opt_arg_text(p.series_name),
        opt_arg_i32(p.volume_in_series),
        opt_arg_text(p.book_format),
        opt_arg_i32(p.page_count),
        opt_arg_text(p.dimensions),
        opt_arg_text(p.weight),
        opt_arg_text(p.language),
        opt_arg_text(p.original_language),
        opt_arg_text_array(p.subjects),
        opt_arg_text_array(p.genres),
        opt_arg_text(p.target_audience),
        opt_arg_text(p.description),
        opt_arg_text(p.table_of_contents),
        opt_arg_text(p.cover_url),
        opt_arg_date(p.purchase_date),
        opt_arg_numeric(p.purchase_price),
        opt_arg_text(p.store_or_vendor),
        opt_arg_text(p.acquisition_type),
        opt_arg_text(p.location_property),
        opt_arg_text(p.location_room),
        opt_arg_text(p.location_bookcase),
        opt_arg_text(p.location_shelf),
        opt_arg_i32(p.location_position),
        opt_arg_text(p.condition_state),
        opt_arg_bool(p.is_loaned),
        opt_arg_text(p.loaned_to),
        opt_arg_timestamptz(p.loan_date),
        opt_arg_timestamptz(p.expected_return_date),
    ]
}

pub open spec fn interaction_args(user_id: u128, book_id: u128, it: BookInteraction) -> Seq<SqlArg> {
    seq![
        SqlArg::Uuid(user_id),
        SqlArg::Uuid(book_id),
        SqlArg::Text(status_or_unread(it.read_status)),
        opt_arg_i32(it.rating),
        opt_arg_text(it.personal_notes),
        opt_arg_text(it.reading_notes),
        opt_arg_date(it.date_started),
        opt_arg_date(it.date_finished),
    ]
}

/// Every value of the book can be bound.
pub open spec fn book_values_bindable(p: CreateBookDto) -> bool {
    (p.isbn_13 matches Some(x) ==> bindable(SqlArg::Text(x@)))
    && (p.isbn_10 matches Some(x) ==> bindable(SqlArg::Text(x@)))
    && (p.open_library_id matches Some(x) ==> bindable(SqlArg::Text(x@)))
    && (p.oclc_number matches Some(x) ==> bindable(SqlArg::Text(x@)))
    && bindable(SqlArg::Text(p.title@))
    && (p.subtitle matches Some(x) ==> bindable(SqlArg::Text(x@)))
    && (p.original_title matches Some(x) ==> bindable(SqlArg::Text(x@)))
    && bindable(SqlArg::TextArray(texts_view(p.authors@)))
    && (p.translators matches Some(x) ==> bindable(SqlArg::TextArray(texts_view(x@))))
    && (p.illustrators matches Some(x) ==> bindable(SqlArg::TextArray(texts_view(x@))))
    && (p.publisher matches Some(x) ==> bindable(SqlArg::Text(x@)))
    && (p.publish_date matches Some(x) ==> valid_date(x))
    && (p.original_publish_date matches Some(x) ==> valid_date(x))
    && (p.edition matches Some(x) ==> bindable(SqlArg::Text(x@)))
    && (p.edition_number matches Some(x) ==> bindable(SqlArg::Text(x@)))
    && (p.printing_number matches Some(x) ==> bindable(SqlArg::Text(x@)))
    && (p.original_edition matches Some(x) ==> bindable(SqlArg::Text(x@)))
    && (p.collection_name matches Some(x) ==> bindable(SqlArg::Text(x@)))
    && (p.series_name matches Some(x) ==> bindable(SqlArg::Text(x@)))
    && (p.book_format matches Some(x) ==> bindable(SqlArg::Text(x@)))
    && (p.dimensions matches Some(x) ==> bindable(SqlArg::Text(x@)))
    && (p.weight matches Some(x) ==> bindable(SqlArg::Text(x@)))
    && (p.language matches Some(x) ==> bindable(SqlArg::Text(x@)))
    && (p.original_language matches Some(x) ==> bindable(SqlArg::Text(x@)))
    && (p.subjects matches Some(x) ==> bindable(SqlArg::TextArray(texts_view(x@))))
    && (p.genres matches Some(x) ==> bindable(SqlArg::TextArray(texts_view(x@))))
    && (p.target_audience matches Some(x) ==> bindable(SqlArg::Text(x@)))
    && (p.description matches Some(x) ==> bindable(SqlArg::Text(x@)))
    && (p.table_of_contents matches Some(x) ==> bindable(SqlArg::Text(x@)))
    && (p.cover_url matches Some(x) ==> bindable(SqlArg::Text(x@)))
    && (p.purchase_date matches Some(x) ==> valid_date(x))
    && (p.purchase_price matches Some(x) ==> bindable(SqlArg::Numeric(x.mantissa, x.scale)))
    && (p.store_or_vendor matches Some(x) ==> bindable(SqlArg::Text(x@)))
    && (p.acquisition_type matches Some(x) ==> bindable(SqlArg::Text(x@)))
    && (p.location_property matches Some(x) ==> bindable(SqlArg::Text(x@)))
    && (p.location_room matches Some(x) ==> bindable(SqlArg::Text(x@)))
    && (p.location_bookcase matches Some(x) ==> bindable(SqlArg::Text(x@)))
    && (p.location_shelf matches Some(x) ==> bindable(SqlArg::Text(x@)))
    && (p.condition_state matches Some(x) ==> bindable(SqlArg::Text(x@)))
    && (p.loaned_to matches Some(x) ==> bindable(SqlArg::Text(x@)))
    && (p.loan_date matches Some(x) ==> valid_wall_clock(x))
    && (p.expected_return_date matches Some(x) ==> valid_wall_clock(x))
}

pub open spec fn interaction_bindable(it: BookInteraction) -> bool {
    &&& it.read_status matches Some(x) ==> bindable(SqlArg::Text(x@))
    &&& it.personal_notes matches Some(x) ==> bindable(SqlArg::Text(x@))
    &&& it.reading_notes matches Some(x) ==> bindable(SqlArg::Text(x@))
    &&& it.date_started matches Some(x) ==> valid_date(x)
    &&& it.date_finished matches Some(x) ==> valid_date(x)
}

fn bind_uuid(
    qb: &mut SqlBuilder,
    v: u128,
    sep: &str,
    Ghost(st0): Ghost<Stmt>,
    Ghost(segs): Ghost<Seq<Seq<char>>>,
    Ghost(args): Ghost<Seq<SqlArg>>,
)
    requires
        open_builder(*old(qb)),
        segs.len() == args.len(),
        stmt_of(*old(qb)) == after_pieces(st0, interleave(segs, args)),
        true,
    ensures
        open_builder(*final(qb)),
        stmt_of(*final(qb)) == after_pieces(st0, interleave(segs.push(sep@), args.push(SqlArg::Uuid(v)))),
{
    let ghost a = SqlArg::Uuid(v);
    let ghost st1 = stmt_of(*qb);
    push_bind_uuid(qb, v);
    push_sql(qb, sep);
    proof {
        lemma_interleave_step(st0, segs, args, sep@, a, st1);
    }
}
fn bind_text(
    qb: &mut SqlBuilder,
    v: String,
    sep: &str,
    Ghost(st0): Ghost<Stmt>,
    Ghost(segs): Ghost<Seq<Seq<char>>>,
    Ghost(args): Ghost<Seq<SqlArg>>,
)
    requires
        open_builder(*old(qb)),
        segs.len() == args.len(),
        stmt_of(*old(qb)) == after_pieces(st0, interleave(segs, args)),
        bindable(SqlArg::Text(v@)),
    ensures
        open_builder(*final(qb)),
        stmt_of(*final(qb)) == after_pieces(st0, interleave(segs.push(sep@), args.push(SqlArg::Text(v@)))),
{
    let ghost a = SqlArg::Text(v@);
    let ghost st1 = stmt_of(*qb);
    push_bind_text(qb, v);
    push_sql(qb, sep);
    proof {
        lemma_interleave_step(st0, segs, args, sep@, a, st1);
    }
}
fn bind_text_array(
    qb: &mut SqlBuilder,
    v: Vec<String>,
    sep: &str,
    Ghost(st0): Ghost<Stmt>,
    Ghost(segs): Ghost<Seq<Seq<char>>>,
    Ghost(args): Ghost<Seq<SqlArg>>,
)
    requires
        open_builder(*old(qb)),
        segs.len() == args.len(),
        stmt_of(*old(qb)) == after_pieces(st0, interleave(segs, args)),
        bindable(SqlArg::TextArray(texts_view(v@))),
    ensures
        open_builder(*final(qb)),
        stmt_of(*final(qb)) == after_pieces(st0, interleave(segs.push(sep@), args.push(SqlArg::TextArray(texts_view(v@))))),
{
    let ghost a = SqlArg::TextArray(texts_view(v@));
    let ghost st1 = stmt_of(*qb);
    push_bind_text_array(qb, v);
    push_sql(qb, sep);
    proof {
        lemma_interleave_step(st0, segs, args, sep@, a, st1);
    }
}
fn bind_opt_text(
    qb: &mut SqlBuilder,
    v: Option<String>,
    sep: &str,
    Ghost(st0): Ghost<Stmt>,
    Ghost(segs): Ghost<Seq<Seq<char>>>,
    Ghost(args): Ghost<Seq<SqlArg>>,
)
    requires
        open_builder(*old(qb)),
        segs.len() == args.len(),
        stmt_of(*old(qb)) == after_pieces(st0, interleave(segs, args)),
        v matches Some(x) ==> bindable(SqlArg::Text(x@)),
    ensures
        open_builder(*final(qb)),
        stmt_of(*final(qb)) == after_pieces(st0, interleave(segs.push(sep@), args.push(opt_arg_text(v)))),
{
    let ghost a = opt_arg_text(v);
    let ghost st1 = stmt_of(*qb);
    push_bind_opt_text(qb, v);
    push_sql(qb, sep);
    proof {
        lemma_interleave_step(st0, segs, args, sep@, a, st1);
    }
}
fn bind_opt_text_array(
    qb: &mut SqlBuilder,
    v: Option<Vec<String>>,
    sep: &str,
    Ghost(st0): Ghost<Stmt>,
    Ghost(segs): Ghost<Seq<Seq<char>>>,
    Ghost(args): Ghost<Seq<SqlArg>>,
)
    requires
        open_builder(*old(qb)),
        segs.len() == args.len(),
        stmt_of(*old(qb)) == after_pieces(st0, interleave(segs, args)),
        v matches Some(x) ==> bindable(SqlArg::TextArray(texts_view(x@))),
    ensures
        open_builder(*final(qb)),
        stmt_of(*final(qb)) == after_pieces(st0, interleave(segs.push(sep@), args.push(opt_arg_text_array(v)))),
{
    let ghost a = opt_arg_text_array(v);
    let ghost st1 = stmt_of(*qb);
    push_bind_opt_text_array(qb, v);
    push_sql(qb, sep);
    proof {
        lemma_interleave_step(st0, segs, args, sep@, a, st1);
    }
}
fn bind_opt_i32(
    qb: &mut SqlBuilder,
    v: Option<i32>,
    sep: &str,
    Ghost(st0): Ghost<Stmt>,
    Ghost(segs): Ghost<Seq<Seq<char>>>,
    Ghost(args): Ghost<Seq<SqlArg>>,
)
    requires
        open_builder(*old(qb)),
        segs.len() == args.len(),
        stmt_of(*old(qb)) == after_pieces(st0, interleave(segs, args)),
        true,
    ensures
        open_builder(*final(qb)),
        stmt_of(*final(qb)) == after_pieces(st0, interleave(segs.push(sep@), args.push(opt_arg_i32(v)))),
{
    let ghost a = opt_arg_i32(v);
    let ghost st1 = stmt_of(*qb);
    push_bind_opt_i32(qb, v);
    push_sql(qb, sep);
    proof {
        lemma_interleave_step(st0, segs, args, sep@, a, st1);
    }
}
fn bind_opt_bool(
    qb: &mut SqlBuilder,
    v: Option<bool>,
    sep: &str,
    Ghost(st0): Ghost<Stmt>,
    Ghost(segs): Ghost<Seq<Seq<char>>>,
    Ghost(args): Ghost<Seq<SqlArg>>,
)
    requires
        open_builder(*old(qb)),
        segs.len() == args.len(),
        stmt_of(*old(qb)) == after_pieces(st0, interleave(segs, args)),
        true,
    ensures
        open_builder(*final(qb)),
        stmt_of(*final(qb)) == after_pieces(st0, interleave(segs.push(sep@), args.push(opt_arg_bool(v)))),
{
    let ghost a = opt_arg_bool(v);
    let ghost st1 = stmt_of(*qb);
    push_bind_opt_bool(qb, v);
    push_sql(qb, sep);
    proof {
        lemma_interleave_step(st0, segs, args, sep@, a, st1);
    }
}
fn bind_opt_date(
    qb: &mut SqlBuilder,
    v: Option<CalendarDate>,
    sep: &str,
    Ghost(st0): Ghost<Stmt>,
    Ghost(segs): Ghost<Seq<Seq<char>>>,
    Ghost(args): Ghost<Seq<SqlArg>>,
)
    requires
        open_builder(*old(qb)),
        segs.len() == args.len(),
        stmt_of(*old(qb)) == after_pieces(st0, interleave(segs, args)),
        v matches Some(x) ==> valid_date(x),
    ensures
        open_builder(*final(qb)),
        stmt_of(*final(qb)) == after_pieces(st0, interleave(segs.push(sep@), args.push(opt_arg_date(v)))),
{
    let ghost a = opt_arg_date(v);
    let ghost st1 = stmt_of(*qb);
    push_bind_opt_date(qb, v);
    push_sql(qb, sep);
    proof {
        lemma_interleave_step(st0, segs, args, sep@, a, st1);
    }
}
fn bind_opt_numeric(
    qb: &mut SqlBuilder,
    v: Option<DecimalValue>,
    sep: &str,
    Ghost(st0): Ghost<Stmt>,
    Ghost(segs): Ghost<Seq<Seq<char>>>,
    Ghost(args): Ghost<Seq<SqlArg>>,
)
    requires
        open_builder(*old(qb)),
        segs.len() == args.len(),
        stmt_of(*old(qb)) == after_pieces(st0, interleave(segs, args)),
        v matches Some(x) ==> bindable(SqlArg::Numeric(x.mantissa, x.scale)),
    ensures
        open_builder(*final(qb)),
        stmt_of(*final(qb)) == after_pieces(st0, interleave(segs.push(sep@), args.push(opt_arg_numeric(v)))),
{
    let ghost a = opt_arg_numeric(v);
    let ghost st1 = stmt_of(*qb);
    push_bind_opt_numeric(qb, v);
    push_sql(qb, sep);
    proof {
        lemma_interleave_step(st0, segs, args, sep@, a, st1);
    }
}
fn bind_opt_timestamptz(
    qb: &mut SqlBuilder,
    v: Option<WallClock>,
    sep: &str,
    Ghost(st0): Ghost<Stmt>,
    Ghost(segs): Ghost<Seq<Seq<char>>>,
    Ghost(args): Ghost<Seq<SqlArg>>,
)
    requires
        open_builder(*old(qb)),
        segs.len() == args.len(),
        stmt_of(*old(qb)) == after_pieces(st0, interleave(segs, args)),
        v matches Some(x) ==> valid_wall_clock(x),
    ensures
        open_builder(*final(qb)),
        stmt_of(*final(qb)) == after_pieces(st0, interleave(segs.push(sep@), args.push(opt_arg_timestamptz(v)))),
{
    let ghost a = opt_arg_timestamptz(v);
    let ghost st1 = stmt_of(*qb);
    push_bind_opt_timestamptz(qb, v);
    push_sql(qb, sep);
    proof {
        lemma_interleave_step(st0, segs, args, sep@, a, st1);
    }
}
fn bind_book_columns_0(
    qb: &mut SqlBuilder,
    library_id: u128,
    isbn_13: Option<String>,
    isbn_10: Option<String>,
    open_library_id: Option<String>,
    oclc_number: Option<String>,
    title: String,
    subtitle: Option<String>,
    sep0: &str,
    sep1: &str,
    sep2: &str,
    sep3: &str,
    sep4: &str,
    sep5: &str,
    sep6: &str,
    Ghost(st0): Ghost<Stmt>,
    Ghost(segs): Ghost<Seq<Seq<char>>>,
    Ghost(args): Ghost<Seq<SqlArg>>,
)
    requires
        open_builder(*old(qb)),
        segs.len() == args.len(),
        stmt_of(*old(qb)) == after_pieces(st0, interleave(segs, args)),
        (isbn_13 matches Some(x) ==> bindable(SqlArg::Text(x@))),
        (isbn_10 matches Some(x) ==> bindable(SqlArg::Text(x@))),
        (open_library_id matches Some(x) ==> bindable(SqlArg::Text(x@))),
        (oclc_number matches Some(x) ==> bindable(SqlArg::Text(x@))),
        bindable(SqlArg::Text(title@)),
        (subtitle matches Some(x) ==> bindable(SqlArg::Text(x@))),
    ensures
        open_builder(*final(qb)),
        stmt_of(*final(qb)) == after_pieces(st0, interleave(segs.push(sep0@).push(sep1@).push(sep2@).push(sep3@).push(sep4@).push(sep5@).push(sep6@), args.push(SqlArg::Uuid(library_id)).push(opt_arg_text(isbn_13)).push(opt_arg_text(isbn_10)).push(opt_arg_text(open_library_id)).push(opt_arg_text(oclc_number)).push(SqlArg::Text(title@)).push(opt_arg_text(subtitle)))),
{
    let ghost s0 = segs;
    let ghost a0 = args;
    bind_uuid(qb, library_id, sep0, Ghost(st0), Ghost(s0), Ghost(a0));
    let ghost s1 = s0.push(sep0@);
    let ghost a1 = a0.push(SqlArg::Uuid(library_id));
    bind_opt_text(qb, isbn_13, sep1, Ghost(st0), Ghost(s1), Ghost(a1));
    let ghost s2 = s1.push(sep1@);
    let ghost a2 = a1.push(opt_arg_text(isbn_13));
    bind_opt_text(qb, isbn_10, sep2, Ghost(st0), Ghost(s2), Ghost(a2));
    let ghost s3 = s2.push(sep2@);
    let ghost a3 = a2.push(opt_arg_text(isbn_10));
    bind_opt_text(qb, open_library_id, sep3, Ghost(st0), Ghost(s3), Ghost(a3));
    let ghost s4 = s3.push(sep3@);
    let ghost a4 = a3.push(opt_arg_text(open_library_id));
    bind_opt_text(qb, oclc_number, sep4, Ghost(st0), Ghost(s4), Ghost(a4));
    let ghost s5 = s4.push(sep4@);
    let ghost a5 = a4.push(opt_arg_text(oclc_number));
    bind_text(qb, title, sep5, Ghost(st0), Ghost(s5), Ghost(a5));
    let ghost s6 = s5.push(sep5@);
    let ghost a6 = a5.push(SqlArg::Text(title@));
    bind_opt_text(qb, subtitle, sep6, Ghost(st0), Ghost(s6), Ghost(a6));
    let ghost s7 = s6.push(sep6@);
    let ghost a7 = a6.push(opt_arg_text(subtitle));
}

fn bind_book_columns_1(
    qb: &mut SqlBuilder,
    original_title: Option<String>,
    authors: Vec<String>,
    translators: Option<Vec<String>>,
    illustrators: Option<Vec<String>>,
    publisher: Option<String>,
    publish_date: Option<CalendarDate>,
    original_publish_date: Option<CalendarDate>,
    sep0: &str,
    sep1: &str,
    sep2: &str,
    sep3: &str,
    sep4: &str,
    sep5: &str,
    sep6: &str,
    Ghost(st0): Ghost<Stmt>,
    Ghost(segs): Ghost<Seq<Seq<char>>>,
    Ghost(args): Ghost<Seq<SqlArg>>,
)
    requires
        open_builder(*old(qb)),
        segs.len() == args.len(),
        stmt_of(*old(qb)) == after_pieces(st0, interleave(segs, args)),
        (original_title matches Some(x) ==> bindable(SqlArg::Text(x@))),
        bindable(SqlArg::TextArray(texts_view(authors@))),
        (translators matches Some(x) ==> bindable(SqlArg::TextArray(texts_view(x@)))),
        (illustrators matches Some(x) ==> bindable(SqlArg::TextArray(texts_view(x@)))),
        (publisher matches Some(x) ==> bindable(SqlArg::Text(x@))),
        (publish_date matches Some(x) ==> valid_date(x)),
        (original_publish_date matches Some(x) ==> valid_date(x)),
    ensures
        open_builder(*final(qb)),
        stmt_of(*final(qb)) == after_pieces(st0, interleave(segs.push(sep0@).push(sep1@).push(sep2@).push(sep3@).push(sep4@).push(sep5@).push(sep6@), args.push(opt_arg_text(original_title)).push(SqlArg::TextArray(texts_view(authors@))).push(opt_arg_text_array(translators)).push(opt_arg_text_array(illustrators)).push(opt_arg_text(publisher)).push(opt_arg_date(publish_date)).push(opt_arg_date(original_publish_date)))),
{
    let ghost s0 = segs;
    let ghost a0 = args;
    bind_opt_text(qb, original_title, sep0, Ghost(st0), Ghost(s0), Ghost(a0));
    let ghost s1 = s0.push(sep0@);
    let ghost a1 = a0.push(opt_arg_text(original_title));
    bind_text_array(qb, authors, sep1, Ghost(st0), Ghost(s1), Ghost(a1));
    let ghost s2 = s1.push(sep1@);
    let ghost a2 = a1.push(SqlArg::TextArray(texts_view(authors@)));
    bind_opt_text_array(qb, translators, sep2, Ghost(st0), Ghost(s2), Ghost(a2));
    let ghost s3 = s2.push(sep2@);
    let ghost a3 = a2.push(opt_arg_text_array(translators));
    bind_opt_text_array(qb, illustrators, sep3, Ghost(st0), Ghost(s3), Ghost(a3));
    let ghost s4 = s3.push(sep3@);
    let ghost a4 = a3.push(opt_arg_text_array(illustrators));
    bind_opt_text(qb, publisher, sep4, Ghost(st0), Ghost(s4), Ghost(a4));
    let ghost s5 = s4.push(sep4@);
    let ghost a5 = a4.push(opt_arg_text(publisher));
    bind_opt_date(qb, publish_date, sep5, Ghost(st0), Ghost(s5), Ghost(a5));
    let ghost s6 = s5.push(sep5@);
    let ghost a6 = a5.push(opt_arg_date(publish_date));
    bind_opt_date(qb, original_publish_date, sep6, Ghost(st0), Ghost(s6), Ghost(a6));
    let ghost s7 = s6.push(sep6@);
    let ghost a7 = a6.push(opt_arg_date(original_publish_date));
}

fn bind_book_columns_2(
    qb: &mut SqlBuilder,
    edition: Option<String>,
    edition_number: Option<String>,
    printing_number: Option<String>,
    original_edition: Option<String>,
    is_first_edition: Option<bool>,
    collection_name: Option<String>,
    volume_in_collection: Option<i32>,
    sep0: &str,
    sep1: &str,
    sep2: &str,
    sep3: &str,
    sep4: &str,
    sep5: &str,
    sep6: &str,
    Ghost(st0): Ghost<Stmt>,
    Ghost(segs): Ghost<Seq<Seq<char>>>,
    Ghost(args): Ghost<Seq<SqlArg>>,
)
    requires
        open_builder(*old(qb)),
        segs.len() == args.len(),
        stmt_of(*old(qb)) == after_pieces(st0, interleave(segs, args)),
        (edition matches Some(x) ==> bindable(SqlArg::Text(x@))),
        (edition_number matches Some(x) ==> bindable(SqlArg::Text(x@))),
        (printing_number matches Some(x) ==> bindable(SqlArg::Text(x@))),
        (original_edition matches Some(x) ==> bindable(SqlArg::Text(x@))),
        (collection_name matches Some(x) ==> bindable(SqlArg::Text(x@))),
    ensures
        open_builder(*final(qb)),
        stmt_of(*final(qb)) == after_pieces(st0, interleave(segs.push(sep0@).push(sep1@).push(sep2@).push(sep3@).push(sep4@).push(sep5@).push(sep6@), args.push(opt_arg_text(edition)).push(opt_arg_text(edition_number)).push(opt_arg_text(printing_number)).push(opt_arg_text(original_edition)).push(opt_arg_bool(is_first_edition)).push(opt_arg_text(collection_name)).push(opt_arg_i32(volume_in_collection)))),
{
    let ghost s0 = segs;
    let ghost a0 = args;
    bind_opt_text(qb, edition, sep0, Ghost(st0), Ghost(s0), Ghost(a0));
    let ghost s1 = s0.push(sep0@);
    let ghost a1 = a0.push(opt_arg_text(edition));
    bind_opt_text(qb, edition_number, sep1, Ghost(st0), Ghost(s1), Ghost(a1));
    let ghost s2 = s1.push(sep1@);
    let ghost a2 = a1.push(opt_arg_text(edition_number));
    bind_opt_text(qb, printing_number, sep2, Ghost(st0), Ghost(s2), Ghost(a2));
    let ghost s3 = s2.push(sep2@);
    let ghost a3 = a2.push(opt_arg_text(printing_number));
    bind_opt_text(qb, original_edition, sep3, Ghost(st0), Ghost(s3), Ghost(a3));
    let ghost s4 = s3.push(sep3@);
    let ghost a4 = a3.push(opt_arg_text(original_edition));
    bind_opt_bool(qb, is_first_edition, sep4, Ghost(st0), Ghost(s4), Ghost(a4));
    let ghost s5 = s4.push(sep4@);
    let ghost a5 = a4.push(opt_arg_bool(is_first_edition));
    bind_opt_text(qb, collection_name, sep5, Ghost(st0), Ghost(s5), Ghost(a5));
    let ghost s6 = s5.push(sep5@);
    let ghost a6 = a5.push(opt_arg_text(collection_name));
    bind_opt_i32(qb, volume_in_collection, sep6, Ghost(st0), Ghost(s6), Ghost(a6));
    let ghost s7 = s6.push(sep6@);
    let ghost a7 = a6.push(opt_arg_i32(volume_in_collection));
}

fn bind_book_columns_3(
    qb: &mut SqlBuilder,
    series_name: Option<String>,
    volume_in_series: Option<i32>,
    book_format: Option<String>,
    page_count: Option<i32>,
    dimensions: Option<String>,
    weight: Option<String>,
    language: Option<String>,
    sep0: &str,
    sep1: &str,
    sep2: &str,
    sep3: &str,
    sep4: &str,
    sep5: &str,
    sep6: &str,
    Ghost(st0): Ghost<Stmt>,
    Ghost(segs): Ghost<Seq<Seq<char>>>,
    Ghost(args): Ghost<Seq<SqlArg>>,
)
    requires
        open_builder(*old(qb)),
        segs.len() == args.len(),
        stmt_of(*old(qb)) == after_pieces(st0, interleave(segs, args)),
        (series_name matches Some(x) ==> bindable(SqlArg::Text(x@))),
        (book_format matches Some(x) ==> bindable(SqlArg::Text(x@))),
        (dimensions matches Some(x) ==> bindable(SqlArg::Text(x@))),
        (weight matches Some(x) ==> bindable(SqlArg::Text(x@))),
        (language matches Some(x) ==> bindable(SqlArg::Text(x@))),
    ensures
        open_builder(*final(qb)),
        stmt_of(*final(qb)) == after_pieces(st0, interleave(segs.push(sep0@).push(sep1@).push(sep2@).push(sep3@).push(sep4@).push(sep5@).push(sep6@), args.push(opt_arg_text(series_name)).push(opt_arg_i32(volume_in_series)).push(opt_arg_text(book_format)).push(opt_arg_i32(page_count)).push(opt_arg_text(dimensions)).push(opt_arg_text(weight)).push(opt_arg_text(language)))),
{
    let ghost s0 = segs;
    let ghost a0 = args;
    bind_opt_text(qb, series_name, sep0, Ghost(st0), Ghost(s0), Ghost(a0));
    let ghost s1 = s0.push(sep0@);
    let ghost a1 = a0.push(opt_arg_text(series_name));
    bind_opt_i32(qb, volume_in_series, sep1, Ghost(st0), Ghost(s1), Ghost(a1));
    let ghost s2 = s1.push(sep1@);
    let ghost a2 = a1.push(opt_arg_i32(volume_in_series));
    bind_opt_text(qb, book_format, sep2, Ghost(st0), Ghost(s2), Ghost(a2));
    let ghost s3 = s2.push(sep2@);
    let ghost a3 = a2.push(opt_arg_text(book_format));
    bind_opt_i32(qb, page_count, sep3, Ghost(st0), Ghost(s3), Ghost(a3));
    let ghost s4 = s3.push(sep3@);
    let ghost a4 = a3.push(opt_arg_i32(page_count));
    bind_opt_text(qb, dimensions, sep4, Ghost(st0), Ghost(s4), Ghost(a4));
    let ghost s5 = s4.push(sep4@);
    let ghost a5 = a4.push(opt_arg_text(dimensions));
    bind_opt_text(qb, weight, sep5, Ghost(st0), Ghost(s5), Ghost(a5));
    let ghost s6 = s5.push(sep5@);
    let ghost a6 = a5.push(opt_arg_text(weight));
    bind_opt_text(qb, language, sep6, Ghost(st0), Ghost(s6), Ghost(a6));
    let ghost s7 = s6.push(sep6@);
    let ghost a7 = a6.push(opt_arg_text(language));
}

fn bind_book_columns_4(
    qb: &mut SqlBuilder,
    original_language: Option<String>,
    subjects: Option<Vec<String>>,
    genres: Option<Vec<String>>,
    target_audience: Option<String>,
    description: Option<String>,
    table_of_contents: Option<String>,
    cover_url: Option<String>,
    sep0: &str,
    sep1: &str,
    sep2: &str,
    sep3: &str,
    sep4: &str,
    sep5: &str,
    sep6: &str,
    Ghost(st0): Ghost<Stmt>,
    Ghost(segs): Ghost<Seq<Seq<char>>>,
    Ghost(args): Ghost<Seq<SqlArg>>,
)
    requires
        open_builder(*old(qb)),
        segs.len() == args.len(),
        stmt_of(*old(qb)) == after_pieces(st0, interleave(segs, args)),
        (original_language matches Some(x) ==> bindable(SqlArg::Text(x@))),
        (subjects matches Some(x) ==> bindable(SqlArg::TextArray(texts_view(x@)))),
        (genres matches Some(x) ==> bindable(SqlArg::TextArray(texts_view(x@)))),
        (target_audience matches Some(x) ==> bindable(SqlArg::Text(x@))),
        (description matches Some(x) ==> bindable(SqlArg::Text(x@))),
        (table_of_contents matches Some(x) ==> bindable(SqlArg::Text(x@))),
        (cover_url matches Some(x) ==> bindable(SqlArg::Text(x@))),
    ensures
        open_builder(*final(qb)),
        stmt_of(*final(qb)) == after_pieces(st0, interleave(segs.push(sep0@).push(sep1@).push(sep2@).push(sep3@).push(sep4@).push(sep5@).push(sep6@), args.push(opt_arg_text(original_language)).push(opt_arg_text_array(subjects)).push(opt_arg_text_array(genres)).push(opt_arg_text(target_audience)).push(opt_arg_text(description)).push(opt_arg_text(table_of_contents)).push(opt_arg_text(cover_url)))),
{
    let ghost s0 = segs;
    let ghost a0 = args;
    bind_opt_text(qb, original_language, sep0, Ghost(st0), Ghost(s0), Ghost(a0));
    let ghost s1 = s0.push(sep0@);
    let ghost a1 = a0.push(opt_arg_text(original_language));
    bind_opt_text_array(qb, subjects, sep1, Ghost(st0), Ghost(s1), Ghost(a1));
    let ghost s2 = s1.push(sep1@);
    let ghost a2 = a1.push(opt_arg_text_array(subjects));
    bind_opt_text_array(qb, genres, sep2, Ghost(st0), Ghost(s2), Ghost(a2));
    let ghost s3 = s2.push(sep2@);
    let ghost a3 = a2.push(opt_arg_text_array(genres));
    bind_opt_text(qb, target_audience, sep3, Ghost(st0), Ghost(s3), Ghost(a3));
    let ghost s4 = s3.push(sep3@);
    let ghost a4 = a3.push(opt_arg_text(target_audience));
    bind_opt_text(qb, description, sep4, Ghost(st0), Ghost(s4), Ghost(a4));
    let ghost s5 = s4.push(sep4@);
    let ghost a5 = a4.push(opt_arg_text(description));
    bind_opt_text(qb, table_of_contents, sep5, Ghost(st0), Ghost(s5), Ghost(a5));
    let ghost s6 = s5.push(sep5@);
    let ghost a6 = a5.push(opt_arg_text(table_of_contents));
    bind_opt_text(qb, cover_url, sep6, Ghost(st0), Ghost(s6), Ghost(a6));
    let ghost s7 = s6.push(sep6@);
    let ghost a7 = a6.push(opt_arg_text(cover_url));
}

fn bind_book_columns_5(
    qb: &mut SqlBuilder,
    purchase_date: Option<CalendarDate>,
    purchase_price: Option<DecimalValue>,
    store_or_vendor: Option<String>,
    acquisition_type: Option<String>,
    location_property: Option<String>,
    location_room: Option<String>,
    location_bookcase: Option<String>,
    sep0: &str,
    sep1: &str,
    sep2: &str,
    sep3: &str,
    sep4: &str,
    sep5: &str,
    sep6: &str,
    Ghost(st0): Ghost<Stmt>,
    Ghost(segs): Ghost<Seq<Seq<char>>>,
    Ghost(args): Ghost<Seq<SqlArg>>,
)
    requires
        open_builder(*old(qb)),
        segs.len() == args.len(),
        stmt_of(*old(qb)) == after_pieces(st0, interleave(segs, args)),
        (purchase_date matches Some(x) ==> valid_date(x)),
        (purchase_price matches Some(x) ==> bindable(SqlArg::Numeric(x.mantissa, x.scale))),
        (store_or_vendor matches Some(x) ==> bindable(SqlArg::Text(x@))),
        (acquisition_type matches Some(x) ==> bindable(SqlArg::Text(x@))),
        (location_property matches Some(x) ==> bindable(SqlArg::Text(x@))),
        (location_room matches Some(x) ==> bindable(SqlArg::Text(x@))),
        (location_bookcase matches Some(x) ==> bindable(SqlArg::Text(x@))),
    ensures
        open_builder(*final(qb)),
        stmt_of(*final(qb)) == after_pieces(st0, interleave(segs.push(sep0@).push(sep1@).push(sep2@).push(sep3@).push(sep4@).push(sep5@).push(sep6@), args.push(opt_arg_date(purchase_date)).push(opt_arg_numeric(purchase_price)).push(opt_arg_text(store_or_vendor)).push(opt_arg_text(acquisition_type)).push(opt_arg_text(location_property)).push(opt_arg_text(location_room)).push(opt_arg_text(location_bookcase)))),
{
    let ghost s0 = segs;
    let ghost a0 = args;
    bind_opt_date(qb, purchase_date, sep0, Ghost(st0), Ghost(s0), Ghost(a0));
    let ghost s1 = s0.push(sep0@);
    let ghost a1 = a0.push(opt_arg_date(purchase_date));
    bind_opt_numeric(qb, purchase_price, sep1, Ghost(st0), Ghost(s1), Ghost(a1));
    let ghost s2 = s1.push(sep1@);
    let ghost a2 = a1.push(opt_arg_numeric(purchase_price));
    bind_opt_text(qb, store_or_vendor, sep2, Ghost(st0), Ghost(s2), Ghost(a2));
    let ghost s3 = s2.push(sep2@);
    let ghost a3 = a2.push(opt_arg_text(store_or_vendor));
    bind_opt_text(qb, acquisition_type, sep3, Ghost(st0), Ghost(s3), Ghost(a3));
    let ghost s4 = s3.push(sep3@);
    let ghost a4 = a3.push(opt_arg_text(acquisition_type));
    bind_opt_text(qb, location_property, sep4, Ghost(st0), Ghost(s4), Ghost(a4));
    let ghost s5 = s4.push(sep4@);
    let ghost a5 = a4.push(opt_arg_text(location_property));
    bind_opt_text(qb, location_room, sep5, Ghost(st0), Ghost(s5), Ghost(a5));
    let ghost s6 = s5.push(sep5@);
    let ghost a6 = a5.push(opt_arg_text(location_room));
    bind_opt_text(qb, location_bookcase, sep6, Ghost(st0), Ghost(s6), Ghost(a6));
    let ghost s7 = s6.push(sep6@);
    let ghost a7 = a6.push(opt_arg_text(location_bookcase));
}

fn bind_book_columns_6(
    qb: &mut SqlBuilder,
    location_shelf: Option<String>,
    location_position: Option<i32>,
    condition_state: Option<String>,
    is_loaned: Option<bool>,
    loaned_to: Option<String>,
    loan_date: Option<WallClock>,
    expected_return_date: Option<WallClock>,
    sep0: &str,
    sep1: &str,
    sep2: &str,
    sep3: &str,
    sep4: &str,
    sep5: &str,
    sep6: &str,
    Ghost(st0): Ghost<Stmt>,
    Ghost(segs): Ghost<Seq<Seq<char>>>,
    Ghost(args): Ghost<Seq<SqlArg>>,
)
    requires
        open_builder(*old(qb)),
        segs.len() == args.len(),
        stmt_of(*old(qb)) == after_pieces(st0, interleave(segs, args)),
        (location_shelf matches Some(x) ==> bindable(SqlArg::Text(x@))),
        (condition_state matches Some(x) ==> bindable(SqlArg::Text(x@))),
        (loaned_to matches Some(x) ==> bindable(SqlArg::Text(x@))),
        (loan_date matches Some(x) ==> valid_wall_clock(x)),
        (expected_return_date matches Some(x) ==> valid_wall_clock(x)),
    ensures
        open_builder(*final(qb)),
        stmt_of(*final(qb)) == after_pieces(st0, interleave(segs.push(sep0@).push(sep1@).push(sep2@).push(sep3@).push(sep4@).push(sep5@).push(sep6@), args.push(opt_arg_text(location_shelf)).push(opt_arg_i32(location_position)).push(opt_arg_text(condition_state)).push(opt_arg_bool(is_loaned)).push(opt_arg_text(loaned_to)).push(opt_arg_timestamptz(loan_date)).push(opt_arg_timestamptz(expected_return_date)))),
{
    let ghost s0 = segs;
    let ghost a0 = args;
    bind_opt_text(qb, location_shelf, sep0, Ghost(st0), Ghost(s0), Ghost(a0));
    let ghost s1 = s0.push(sep0@);
    let ghost a1 = a0.push(opt_arg_text(location_shelf));
    bind_opt_i32(qb, location_position, sep1, Ghost(st0), Ghost(s1), Ghost(a1));
    let ghost s2 = s1.push(sep1@);
    let ghost a2 = a1.push(opt_arg_i32(location_position));
    bind_opt_text(qb, condition_state, sep2, Ghost(st0), Ghost(s2), Ghost(a2));
    let ghost s3 = s2.push(sep2@);
    let ghost a3 = a2.push(opt_arg_text(condition_state));
    bind_opt_bool(qb, is_loaned, sep3, Ghost(st0), Ghost(s3), Ghost(a3));
    let ghost s4 = s3.push(sep3@);
    let ghost a4 = a3.push(opt_arg_bool(is_loaned));
    bind_opt_text(qb, loaned_to, sep4, Ghost(st0), Ghost(s4), Ghost(a4));
    let ghost s5 = s4.push(sep4@);
    let ghost a5 = a4.push(opt_arg_text(loaned_to));
    bind_opt_timestamptz(qb, loan_date, sep5, Ghost(st0), Ghost(s5), Ghost(a5));
    let ghost s6 = s5.push(sep5@);
    let ghost a6 = a5.push(opt_arg_timestamptz(loan_date));
    bind_opt_timestamptz(qb, expected_return_date, sep6, Ghost(st0), Ghost(s6), Ghost(a6));
    let ghost s7 = s6.push(sep6@);
    let ghost a7 = a6.push(opt_arg_timestamptz(expected_return_date));
}

/// The insertion of a new book into the library `library_id`, and the reading data
/// of the request, which is stored once the book has its id.
#[verifier::rlimit(100)]
pub fn insert_book_statement(payload: CreateBookDto, library_id: u128) -> (r: (SqlBuilder, BookInteraction))
    requires
        book_values_bindable(payload),
    ensures
        open_builder(r.0),
        stmt_of(r.0) == after_pieces(
            start(INSERT_BOOK_HEAD@),
            interleave(insert_book_segments(), book_args(payload, library_id)),
        ),
        r.1 == interaction_of(payload),
{
    let ghost p = payload;
    let mut qb = new_builder(INSERT_BOOK_HEAD);
    let ghost st0 = stmt_of(qb);
    let ghost s0: Seq<Seq<char>> = Seq::empty();
    let ghost a0: Seq<SqlArg> = Seq::empty();
    assert(after_pieces(st0, interleave(s0, a0)) == st0);
    bind_book_columns_0(&mut qb, library_id, payload.isbn_13, payload.isbn_10, payload.open_library_id, payload.oclc_number, payload.title, payload.subtitle, ", ", ", ", ", ", ", ", ", ", ", ", ", ", Ghost(st0), Ghost(s0), Ghost(a0));
    let ghost s1 = s0.push(", "@).push(", "@).push(", "@).push(", "@).push(", "@).push(", "@).push(", "@);
    let ghost a1 = a0.push(SqlArg::Uuid(library_id)).push(opt_arg_text(p.isbn_13)).push(opt_arg_text(p.isbn_10)).push(opt_arg_text(p.open_library_id)).push(opt_arg_text(p.oclc_number)).push(SqlArg::Text(p.title@)).push(opt_arg_text(p.subtitle));
    bind_book_columns_1(&mut qb, payload.original_title, payload.authors, payload.translators, payload.illustrators, payload.publisher, payload.publish_date, payload.original_publish_date, ", ", ", ", ", ", ", ", ", ", ", ", ", ", Ghost(st0), Ghost(s1), Ghost(a1));
    let ghost s2 = s1.push(", "@).push(", "@).push(", "@).push(", "@).push(", "@).push(", "@).push(", "@);
    let ghost a2 = a1.push(opt_arg_text(p.original_title)).push(SqlArg::TextArray(texts_view(p.authors@))).push(opt_arg_text_array(p.translators)).push(opt_arg_text_array(p.illustrators)).push(opt_arg_text(p.publisher)).push(opt_arg_date(p.publish_date)).push(opt_arg_date(p.original_publish_date));
    bind_book_columns_2(&mut qb, payload.edition, payload.edition_number, payload.printing_number, payload.original_edition, payload.is_first_edition, payload.collection_name, payload.volume_in_collection, ", ", ", ", ", ", ", ", ",\n            ", ", ", ", ", Ghost(st0), Ghost(s2), Ghost(a2));
    let ghost s3 = s2.push(", "@).push(", "@).push(", "@).push(", "@).push(",\n            "@).push(", "@).push(", "@);
    let ghost a3 = a2.push(opt_arg_text(p.edition)).push(opt_arg_text(p.edition_number)).push(opt_arg_text(p.printing_number)).push(opt_arg_text(p.original_edition)).push(opt_arg_bool(p.is_first_edition)).push(opt_arg_text(p.collection_name)).push(opt_arg_i32(p.volume_in_collection));
    bind_book_columns_3(&mut qb, payload.series_name, payload.volume_in_series, payload.book_format, payload.page_count, payload.dimensions, payload.weight, payload.language, ", ", ", ", ", ", ", ", ", ", ", ", ", ", Ghost(st0), Ghost(s3), Ghost(a3));
    let ghost s4 = s3.push(", "@).push(", "@).push(", "@).push(", "@).push(", "@).push(", "@).push(", "@);
    let ghost a4 = a3.push(opt_arg_text(p.series_name)).push(opt_arg_i32(p.volume_in_series)).push(opt_arg_text(p.book_format)).push(opt_arg_i32(p.page_count)).push(opt_arg_text(p.dimensions)).push(opt_arg_text(p.weight)).push(opt_arg_text(p.language));
    bind_book_columns_4(&mut qb, payload.original_language, payload.subjects, payload.genres, payload.target_audience, payload.description, payload.table_of_contents, payload.cover_url, ", ", ", ", ", ", ", ", ", ", ", ", ", ", Ghost(st0), Ghost(s4), Ghost(a4));
    let ghost s5 = s4.push(", "@).push(", "@).push(", "@).push(", "@).push(", "@).push(", "@).push(", "@);
    let ghost a5 = a4.push(opt_arg_text(p.original_language)).push(opt_arg_text_array(p.subjects)).push(opt_arg_text_array(p.genres)).push(opt_arg_text(p.target_audience)).push(opt_arg_text(p.description)).push(opt_arg_text(p.table_of_contents)).push(opt_arg_text(p.cover_url));
    bind_book_columns_5(&mut qb, payload.purchase_date, payload.purchase_price, payload.store_or_vendor, payload.acquisition_type, payload.location_property, payload.location_room, payload.location_bookcase, ",\n            ", ", ", ", ", ", ", ", ", ", ", ", ", Ghost(st0), Ghost(s5), Ghost(a5));
    let ghost s6 = s5.push(",\n            "@).push(", "@).push(", "@).push(", "@).push(", "@).push(", "@).push(", "@);
    let ghost a6 = a5.push(opt_arg_date(p.purchase_date)).push(opt_arg_numeric(p.purchase_price)).push(opt_arg_text(p.store_or_vendor)).push(opt_arg_text(p.acquisition_type)).push(opt_arg_text(p.location_property)).push(opt_arg_text(p.location_room)).push(opt_arg_text(p.location_bookcase));
    bind_book_columns_6(&mut qb, payload.location_shelf, payload.location_position, payload.condition_state, payload.is_loaned, payload.loaned_to, payload.loan_date, payload.expected_return_date, ", ", ", ", ", ", ", ", ", ", ", ", "\n        )\n        RETURNING id\n        ", Ghost(st0), Ghost(s6), Ghost(a6));
    let ghost s7 = s6.push(", "@).push(", "@).push(", "@).push(", "@).push(", "@).push(", "@).push("\n        )\n        RETURNING id\n        "@);
    let ghost a7 = a6.push(opt_arg_text(p.location_shelf)).push(opt_arg_i32(p.location_position)).push(opt_arg_text(p.condition_state)).push(opt_arg_bool(p.is_loaned)).push(opt_arg_text(p.loaned_to)).push(opt_arg_timestamptz(p.loan_date)).push(opt_arg_timestamptz(p.expected_return_date));
    assert(s7 =~= insert_book_segments());
    assert(a7 =~= book_args(p, library_id));
    let it = BookInteraction {
        read_status: payload.read_status,
        rating: payload.rating,
        personal_notes: payload.personal_notes,
        reading_notes: payload.reading_notes,
        date_started: payload.date_started,
        date_finished: payload.date_finished,
    };
    (qb, it)
}

/// The replacement of every field of the book `book_id`, and the reading data of
/// the request.
#[verifier::rlimit(100)]
pub fn update_book_statement(payload: CreateBookDto, library_id: u128, book_id: u128) -> (r: (
    SqlBuilder,
    BookInteraction,
))
    requires
        book_values_bindable(payload),
    ensures
        open_builder(r.0),
        stmt_of(r.0) == after_pieces(
            start(UPDATE_BOOK_HEAD@),
            interleave(update_book_segments(), book_args(payload, library_id).push(SqlArg::Uuid(book_id))),
        ),
        r.1 == interaction_of(payload),
{
    let ghost p = payload;
    let mut qb = new_builder(UPDATE_BOOK_HEAD);
    let ghost st0 = stmt_of(qb);
    let ghost s0: Seq<Seq<char>> = Seq::empty();
    let ghost a0: Seq<SqlArg> = Seq::empty();
    assert(after_pieces(st0, interleave(s0, a0)) == st0);
    bind_book_columns_0(&mut qb, library_id, payload.isbn_13, payload.isbn_10, payload.open_library_id, payload.oclc_number, payload.title, payload.subtitle, ", isbn_13 = ", ", isbn_10 = ", ", open_library_id = ", ", oclc_number = ", ", title = ", ",\n            subtitle = ", ", original_title = ", Ghost(st0), Ghost(s0), Ghost(a0));
    let ghost s1 = s0.push(", isbn_13 = "@).push(", isbn_10 = "@).push(", open_library_id = "@).push(", oclc_number = "@).push(", title = "@).push(",\n            subtitle = "@).push(", original_title = "@);
    let ghost a1 = a0.push(SqlArg::Uuid(library_id)).push(opt_arg_text(p.isbn_13)).push(opt_arg_text(p.isbn_10)).push(opt_arg_text(p.open_library_id)).push(opt_arg_text(p.oclc_number)).push(SqlArg::Text(p.title@)).push(opt_arg_text(p.subtitle));
    bind_book_columns_1(&mut qb, payload.original_title, payload.authors, payload.translators, payload.illustrators, payload.publisher, payload.publish_date, payload.original_publish_date, ", authors = ", ", translators = ", ", illustrators = ", ",\n            publisher = ", ", publish_date = ", ", original_publish_date = ", ", edition = ", Ghost(st0), Ghost(s1), Ghost(a1));
    let ghost s2 = s1.push(", authors = "@).push(", translators = "@).push(", illustrators = "@).push(",\n            publisher = "@).push(", publish_date = "@).push(", original_publish_date = "@).push(", edition = "@);
    let ghost a2 = a1.push(opt_arg_text(p.original_title)).push(SqlArg::TextArray(texts_view(p.authors@))).push(opt_arg_text_array(p.translators)).push(opt_arg_text_array(p.illustrators)).push(opt_arg_text(p.publisher)).push(opt_arg_date(p.publish_date)).push(opt_arg_date(p.original_publish_date));
    bind_book_columns_2(&mut qb, payload.edition, payload.edition_number, payload.printing_number, payload.original_edition, payload.is_first_edition, payload.collection_name, payload.volume_in_collection, ", edition_number = ", ",\n            printing_number = ", ", original_edition = ", ", is_first_edition = ", ", collection_name = ", ",\n            volume_in_collection = ", ", series_name = ", Ghost(st0), Ghost(s2), Ghost(a2));
    let ghost s3 = s2.push(", edition_number = "@).push(",\n            printing_number = "@).push(", original_edition = "@).push(", is_first_edition = "@).push(", collection_name = "@).push(",\n            volume_in_collection = "@).push(", series_name = "@);
    let ghost a3 = a2.push(opt_arg_text(p.edition)).push(opt_arg_text(p.edition_number)).push(opt_arg_text(p.printing_number)).push(opt_arg_text(p.original_edition)).push(opt_arg_bool(p.is_first_edition)).push(opt_arg_text(p.collection_name)).push(opt_arg_i32(p.volume_in_collection));
    bind_book_columns_3(&mut qb, payload.series_name, payload.volume_in_series, payload.book_format, payload.page_count, payload.dimensions, payload.weight, payload.language, ", volume_in_series = ", ", book_format = ", ",\n            page_count = ", ", dimensions = ", ", weight = ", ", language = ", ", original_language = ", Ghost(st0), Ghost(s3), Ghost(a3));
    let ghost s4 = s3.push(", volume_in_series = "@).push(", book_format = "@).push(",\n            page_count = "@).push(", dimensions = "@).push(", weight = "@).push(", language = "@).push(", original_language = "@);
    let ghost a4 = a3.push(opt_arg_text(p.series_name)).push(opt_arg_i32(p.volume_in_series)).push(opt_arg_text(p.book_format)).push(opt_arg_i32(p.page_count)).push(opt_arg_text(p.dimensions)).push(opt_arg_text(p.weight)).push(opt_arg_text(p.language));
    bind_book_columns_4(&mut qb, payload.original_language, payload.subjects, payload.genres, payload.target_audience, payload.description, payload.table_of_contents, payload.cover_url, ",\n            subjects = ", ", genres = ", ", target_audience = ", ", description = ", ", table_of_contents = ", ",\n            cover_url = ", ", purchase_date = ", Ghost(st0), Ghost(s4), Ghost(a4));
    let ghost s5 = s4.push(",\n            subjects = "@).push(", genres = "@).push(", target_audience = "@).push(", description = "@).push(", table_of_contents = "@).push(",\n            cover_url = "@).push(", purchase_date = "@);
    let ghost a5 = a4.push(opt_arg_text(p.original_language)).push(opt_arg_text_array(p.subjects)).push(opt_arg_text_array(p.genres)).push(opt_arg_text(p.target_audience)).push(opt_arg_text(p.description)).push(opt_arg_text(p.table_of_contents)).push(opt_arg_text(p.cover_url));
    bind_book_columns_5(&mut qb, payload.purchase_date, payload.purchase_price, payload.store_or_vendor, payload.acquisition_type, payload.location_property, payload.location_room, payload.location_bookcase, ", purchase_price = ", ", store_or_vendor = ", ",\n            acquisition_type = ", ", location_property = ", ", location_room = ", ", location_bookcase = ", ",\n            location_shelf = ", Ghost(st0), Ghost(s5), Ghost(a5));
    let ghost s6 = s5.push(", purchase_price = "@).push(", store_or_vendor = "@).push(",\n            acquisition_type = "@).push(", location_property = "@).push(", location_room = "@).push(", location_bookcase = "@).push(",\n            location_shelf = "@);
    let ghost a6 = a5.push(opt_arg_date(p.purchase_date)).push(opt_arg_numeric(p.purchase_price)).push(opt_arg_text(p.store_or_vendor)).push(opt_arg_text(p.acquisition_type)).push(opt_arg_text(p.location_property)).push(opt_arg_text(p.location_room)).push(opt_arg_text(p.location_bookcase));
    bind_book_columns_6(&mut qb, payload.location_shelf, payload.location_position, payload.condition_state, payload.is_loaned, payload.loaned_to, payload.loan_date, payload.expected_return_date, ", location_position = ", ", condition_state = ", ", is_loaned = ", ",\n            loaned_to = ", ", loan_date = ", ", expected_return_date = ", "\n        WHERE id = ", Ghost(st0), Ghost(s6), Ghost(a6));
    let ghost s7 = s6.push(", location_position = "@).push(", condition_state = "@).push(", is_loaned = "@).push(",\n            loaned_to = "@).push(", loan_date = "@).push(", expected_return_date = "@).push("\n        WHERE id = "@);
    let ghost a7 = a6.push(opt_arg_text(p.location_shelf)).push(opt_arg_i32(p.location_position)).push(opt_arg_text(p.condition_state)).push(opt_arg_bool(p.is_loaned)).push(opt_arg_text(p.loaned_to)).push(opt_arg_timestamptz(p.loan_date)).push(opt_arg_timestamptz(p.expected_return_date));
    bind_uuid(&mut qb, book_id, "\n        ", Ghost(st0), Ghost(s7), Ghost(a7));
    let ghost s8 = s7.push("\n        "@);
    let ghost a8 = a7.push(SqlArg::Uuid(book_id));
    assert(s8 =~= update_book_segments());
    assert(a8 =~= book_args(p, library_id).push(SqlArg::Uuid(book_id)));
    let it = BookInteraction {
        read_status: payload.read_status,
        rating: payload.rating,
        personal_notes: payload.personal_notes,
        reading_notes: payload.reading_notes,
        date_started: payload.date_started,
        date_finished: payload.date_finished,
    };
    (qb, it)
}

/// The insertion of the requesting user's reading data of a new book.
pub fn insert_interaction_statement(user_id: u128, book_id: u128, it: BookInteraction) -> (r: SqlBuilder)
    requires
        interaction_bindable(it),
    ensures
        open_builder(r),
        stmt_of(r) == after_pieces(
            start(INSERT_INTERACTION_HEAD@),
            interleave(insert_interaction_segments(), interaction_args(user_id, book_id, it)),
        ),
{
    let ghost g = it;
    let status = match it.read_status {
        Some(s) => s,
        None => String::from_str("unread"),
    };
    proof {
        reveal_strlit("unread");
        crate::text::lemma_utf8_len_bounds(status@);
    }
    let mut qb = new_builder(INSERT_INTERACTION_HEAD);
    let ghost st0 = stmt_of(qb);
    let ghost s0: Seq<Seq<char>> = Seq::empty();
    let ghost a0: Seq<SqlArg> = Seq::empty();
    assert(after_pieces(st0, interleave(s0, a0)) == st0);
    bind_uuid(&mut qb, user_id, ", ", Ghost(st0), Ghost(s0), Ghost(a0));
    let ghost s1 = s0.push(", "@);
    let ghost a1 = a0.push(SqlArg::Uuid(user_id));
    bind_uuid(&mut qb, book_id, ", ", Ghost(st0), Ghost(s1), Ghost(a1));
    let ghost s2 = s1.push(", "@);
    let ghost a2 = a1.push(SqlArg::Uuid(book_id));
    bind_text(&mut qb, status, ", ", Ghost(st0), Ghost(s2), Ghost(a2));
    let ghost s3 = s2.push(", "@);
    let ghost a3 = a2.push(SqlArg::Text(status_or_unread(g.read_status)));
    bind_opt_i32(&mut qb, it.rating, ", ", Ghost(st0), Ghost(s3), Ghost(a3));
    let ghost s4 = s3.push(", "@);
    let ghost a4 = a3.push(opt_arg_i32(g.rating));
    bind_opt_text(&mut qb, it.personal_notes, ", ", Ghost(st0), Ghost(s4), Ghost(a4));
    let ghost s5 = s4.push(", "@);
    let ghost a5 = a4.push(opt_arg_text(g.personal_notes));
    bind_opt_text(&mut qb, it.reading_notes, ", ", Ghost(st0), Ghost(s5), Ghost(a5));
    let ghost s6 = s5.push(", "@);
    let ghost a6 = a5.push(opt_arg_text(g.reading_notes));
    bind_opt_date(&mut qb, it.date_started, ", ", Ghost(st0), Ghost(s6), Ghost(a6));
    let ghost s7 = s6.push(", "@);
    let ghost a7 = a6.push(opt_arg_date(g.date_started));
    bind_opt_date(&mut qb, it.date_finished, ")\n        ", Ghost(st0), Ghost(s7), Ghost(a7));
    let ghost s8 = s7.push(")\n        "@);
    let ghost a8 = a7.push(opt_arg_date(g.date_finished));
    assert(s8 =~= insert_interaction_segments());
    assert(a8 =~= interaction_args(user_id, book_id, g));
    qb
}

/// The insertion, or replacement, of the requesting user's reading data of a book.
pub fn upsert_interaction_statement(user_id: u128, book_id: u128, it: BookInteraction) -> (r: SqlBuilder)
    requires
        interaction_bindable(it),
    ensures
        open_builder(r),
        stmt_of(r) == after_pieces(
            start(UPSERT_INTERACTION_HEAD@),
            interleave(upsert_interaction_segments(), interaction_args(user_id, book_id, it)),
        ),
{
    let ghost g = it;
    let status = match it.read_status {
        Some(s) => s,
        None => String::from_str("unread"),
    };
    proof {
        reveal_strlit("unread");
        crate::text::lemma_utf8_len_bounds(status@);
    }
    let mut qb = new_builder(UPSERT_INTERACTION_HEAD);
    let ghost st0 = stmt_of(qb);
    let ghost s0: Seq<Seq<char>> = Seq::empty();
    let ghost a0: Seq<SqlArg> = Seq::empty();
    assert(after_pieces(st0, interleave(s0, a0)) == st0);
    bind_uuid(&mut qb, user_id, ", ", Ghost(st0), Ghost(s0), Ghost(a0));
    let ghost s1 = s0.push(", "@);
    let ghost a1 = a0.push(SqlArg::Uuid(user_id));
    bind_uuid(&mut qb, book_id, ", ", Ghost(st0), Ghost(s1), Ghost(a1));
    let ghost s2 = s1.push(", "@);
    let ghost a2 = a1.push(SqlArg::Uuid(book_id));
    bind_text(&mut qb, status, ", ", Ghost(st0), Ghost(s2), Ghost(a2));
    let ghost s3 = s2.push(", "@);
    let ghost a3 = a2.push(SqlArg::Text(status_or_unread(g.read_status)));
    bind_opt_i32(&mut qb, it.rating, ", ", Ghost(st0), Ghost(s3), Ghost(a3));
    let ghost s4 = s3.push(", "@);
    let ghost a4 = a3.push(opt_arg_i32(g.rating));
    bind_opt_text(&mut qb, it.personal_notes, ", ", Ghost(st0), Ghost(s4), Ghost(a4));
    let ghost s5 = s4.push(", "@);
    let ghost a5 = a4.push(opt_arg_text(g.personal_notes));
    bind_opt_text(&mut qb, it.reading_notes, ", ", Ghost(st0), Ghost(s5), Ghost(a5));
    let ghost s6 = s5.push(", "@);
    let ghost a6 = a5.push(opt_arg_text(g.reading_notes));
    bind_opt_date(&mut qb, it.date_started, ", ", Ghost(st0), Ghost(s6), Ghost(a6));
    let ghost s7 = s6.push(", "@);
    let ghost a7 = a6.push(opt_arg_date(g.date_started));
    bind_opt_date(&mut qb, it.date_finished, ")\n        ON CONFLICT (user_id, book_id) DO UPDATE SET\n            read_status = EXCLUDED.read_status,\n            rating = EXCLUDED.rating,\n            personal_notes = EXCLUDED.personal_notes,\n            reading_notes = EXCLUDED.reading_notes,\n            date_started = EXCLUDED.date_started,\n            date_finished = EXCLUDED.date_finished\n        ", Ghost(st0), Ghost(s7), Ghost(a7));
    let ghost s8 = s7.push(")\n        ON CONFLICT (user_id, book_id) DO UPDATE SET\n            read_status = EXCLUDED.read_status,\n            rating = EXCLUDED.rating,\n            personal_notes = EXCLUDED.personal_notes,\n            reading_notes = EXCLUDED.reading_notes,\n            date_started = EXCLUDED.date_started,\n            date_finished = EXCLUDED.date_finished\n        "@);
    let ghost a8 = a7.push(opt_arg_date(g.date_finished));
    assert(s8 =~= upsert_interaction_segments());
    assert(a8 =~= interaction_args(user_id, book_id, g));
    qb
}

} // verus!
