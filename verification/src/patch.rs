//! Partial updates of a book: the `UPDATE` statements that set exactly the fields
//! a request carries.
use vstd::prelude::*;
use vstd::string::*;
use crate::model::{DecimalValue, UpdateBookPartialDto};
use crate::query::{lemma_unfold_pieces, start};
use crate::sql::{
    after_piece, after_pieces, bindable, lemma_after_pieces_concat, new_builder, open_builder,
    push_bind_bool, push_bind_date, push_bind_i32, push_bind_numeric, push_bind_text,
    push_bind_text_array, push_bind_timestamptz, push_bind_uuid, push_sql, stmt_of, texts_view,
    Piece, SqlArg, SqlBuilder, Stmt,
};
use crate::time::{valid_date, valid_wall_clock, CalendarDate, WallClock};

verus! {

/// A column and the argument it is set to.
pub type Assignment = (Seq<char>, SqlArg);

pub open spec fn assign(col: Seq<char>, a: Option<SqlArg>) -> Seq<Assignment> {
    match a {
        Some(x) => seq![(col, x)],
        None => seq![],
    }
}

pub open spec fn uuid_arg(v: Option<u128>) -> Option<SqlArg> {
    match v {
        Some(x) => Some(SqlArg::Uuid(x)),
        None => None,
    }
}

pub open spec fn text_arg(v: Option<String>) -> Option<SqlArg> {
    match v {
        Some(x) => Some(SqlArg::Text(x@)),
        None => None,
    }
}

pub open spec fn texts_arg(v: Option<Vec<String>>) -> Option<SqlArg> {
    match v {
        Some(x) => Some(SqlArg::TextArray(texts_view(x@))),
        None => None,
    }
}

pub open spec fn date_arg(v: Option<CalendarDate>) -> Option<SqlArg> {
    match v {
        Some(x) => Some(SqlArg::Date(x)),
        None => None,
    }
}

pub open spec fn bool_arg(v: Option<bool>) -> Option<SqlArg> {
    match v {
        Some(x) => Some(SqlArg::Bool(x)),
        None => None,
    }
}

pub open spec fn i32_arg(v: Option<i32>) -> Option<SqlArg> {
    match v {
        Some(x) => Some(SqlArg::Int4(x)),
        None => None,
    }
}

pub open spec fn numeric_arg(v: Option<DecimalValue>) -> Option<SqlArg> {
    match v {
        Some(x) => Some(SqlArg::Numeric(x.mantissa, x.scale)),
        None => None,
    }
}

/// A `DateTime<Utc>` field, by its UTC wall clock.
pub open spec fn instant_arg(v: Option<WallClock>) -> Option<SqlArg> {
    match v {
        Some(x) => Some(SqlArg::TimestampTz(x)),
        None => None,
    }
}

pub open spec fn opt_bindable(a: Option<SqlArg>) -> bool {
    a matches Some(x) ==> bindable(x)
}

/// `col1 = $1, col2 = $2, ...`
pub open spec fn assignments_sql(list: Seq<Assignment>) -> Seq<Piece>
    decreases list.len(),
{
    if list.len() == 0 {
        seq![]
    } else {
        assignments_sql(list.drop_last()) + (if list.len() > 1 {
            seq![Piece::Sql(", "@)]
        } else {
            seq![]
        }) + seq![Piece::Sql(list.last().0 + " = "@), Piece::Bind(list.last().1)]
    }
}

/// `column = value` assignments of the book fields present, in column order.
pub open spec fn book_assignments(p: UpdateBookPartialDto) -> Seq<Assignment> {
    Seq::empty() + assign("library_id"@, uuid_arg(p.library_id)) + assign("title"@, text_arg(p.title)) + assign("subtitle"@, text_arg(p.subtitle)) + assign("original_title"@, text_arg(p.original_title)) + assign("authors"@, texts_arg(p.authors)) + assign("translators"@, texts_arg(p.translators)) + assign("illustrators"@, texts_arg(p.illustrators)) + assign("publisher"@, text_arg(p.publisher)) + assign("publish_date"@, date_arg(p.publish_date)) + assign("original_publish_date"@, date_arg(p.original_publish_date)) + assign("edition"@, text_arg(p.edition)) + assign("edition_number"@, text_arg(p.edition_number)) + assign("printing_number"@, text_arg(p.printing_number)) + assign("original_edition"@, text_arg(p.original_edition)) + assign("is_first_edition"@, bool_arg(p.is_first_edition)) + assign("collection_name"@, text_arg(p.collection_name)) + assign("volume_in_collection"@, i32_arg(p.volume_in_collection)) + assign("series_name"@, text_arg(p.series_name)) + assign("volume_in_series"@, i32_arg(p.volume_in_series)) + assign("book_format"@, text_arg(p.book_format)) + assign("page_count"@, i32_arg(p.page_count)) + assign("dimensions"@, text_arg(p.dimensions)) + assign("weight"@, text_arg(p.weight)) + assign("language"@, text_arg(p.language)) + assign("original_language"@, text_arg(p.original_language)) + assign("subjects"@, texts_arg(p.subjects)) + assign("genres"@, texts_arg(p.genres)) + assign("target_audience"@, text_arg(p.target_audience)) + assign("description"@, text_arg(p.description)) + assign("table_of_contents"@, text_arg(p.table_of_contents)) + assign("cover_url"@, text_arg(p.cover_url)) + assign("purchase_date"@, date_arg(p.purchase_date)) + assign("purchase_price"@, numeric_arg(p.purchase_price)) + assign("store_or_vendor"@, text_arg(p.store_or_vendor)) + assign("acquisition_type"@, text_arg(p.acquisition_type)) + assign("location_property"@, text_arg(p.location_property)) + assign("location_room"@, text_arg(p.location_room)) + assign("location_bookcase"@, text_arg(p.location_bookcase)) + assign("location_shelf"@, text_arg(p.location_shelf)) + assign("location_position"@, i32_arg(p.location_position)) + assign("condition_state"@, text_arg(p.condition_state)) + assign("is_loaned"@, bool_arg(p.is_loaned)) + assign("loaned_to"@, text_arg(p.loaned_to)) + assign("loan_date"@, instant_arg(p.loan_date)) + assign("expected_return_date"@, instant_arg(p.expected_return_date))
}

/// The same for the requesting user's reading data.
pub open spec fn interaction_assignments(p: UpdateBookPartialDto) -> Seq<Assignment> {
    Seq::empty() + assign("read_status"@, text_arg(p.read_status)) + assign("rating"@, i32_arg(p.rating)) + assign("personal_notes"@, text_arg(p.personal_notes)) + assign("reading_notes"@, text_arg(p.reading_notes)) + assign("date_started"@, date_arg(p.date_started)) + assign("date_finished"@, date_arg(p.date_finished))
}

pub open spec fn book_fields_bindable(p: UpdateBookPartialDto) -> bool {
    opt_bindable(uuid_arg(p.library_id))
    && opt_bindable(text_arg(p.title))
    && opt_bindable(text_arg(p.subtitle))
    && opt_bindable(text_arg(p.original_title))
    && opt_bindable(texts_arg(p.authors))
    && opt_bindable(texts_arg(p.translators))
    && opt_bindable(texts_arg(p.illustrators))
    && opt_bindable(text_arg(p.publisher))
    && opt_bindable(date_arg(p.publish_date))
    && opt_bindable(date_arg(p.original_publish_date))
    && opt_bindable(text_arg(p.edition))
    && opt_bindable(text_arg(p.edition_number))
    && opt_bindable(text_arg(p.printing_number))
    && opt_bindable(text_arg(p.original_edition))
    && opt_bindable(bool_arg(p.is_first_edition))
    && opt_bindable(text_arg(p.collection_name))
    && opt_bindable(i32_arg(p.volume_in_collection))
    && opt_bindable(text_arg(p.series_name))
    && opt_bindable(i32_arg(p.volume_in_series))
    && opt_bindable(text_arg(p.book_format))
    && opt_bindable(i32_arg(p.page_count))
    && opt_bindable(text_arg(p.dimensions))
    && opt_bindable(text_arg(p.weight))
    && opt_bindable(text_arg(p.language))
    && opt_bindable(text_arg(p.original_language))
    && opt_bindable(texts_arg(p.subjects))
    && opt_bindable(texts_arg(p.genres))
    && opt_bindable(text_arg(p.target_audience))
    && opt_bindable(text_arg(p.description))
    && opt_bindable(text_arg(p.table_of_contents))
    && opt_bindable(text_arg(p.cover_url))
    && opt_bindable(date_arg(p.purchase_date))
    && opt_bindable(numeric_arg(p.purchase_price))
    && opt_bindable(text_arg(p.store_or_vendor))
    && opt_bindable(text_arg(p.acquisition_type))
    && opt_bindable(text_arg(p.location_property))
    && opt_bindable(text_arg(p.location_room))
    && opt_bindable(text_arg(p.location_bookcase))
    && opt_bindable(text_arg(p.location_shelf))
    && opt_bindable(i32_arg(p.location_position))
    && opt_bindable(text_arg(p.condition_state))
    && opt_bindable(bool_arg(p.is_loaned))
    && opt_bindable(text_arg(p.loaned_to))
    && opt_bindable(instant_arg(p.loan_date))
    && opt_bindable(instant_arg(p.expected_return_date))
}

pub open spec fn interaction_fields_bindable(p: UpdateBookPartialDto) -> bool {
    opt_bindable(text_arg(p.read_status))
    && opt_bindable(i32_arg(p.rating))
    && opt_bindable(text_arg(p.personal_notes))
    && opt_bindable(text_arg(p.reading_notes))
    && opt_bindable(date_arg(p.date_started))
    && opt_bindable(date_arg(p.date_finished))
}

pub open spec fn book_update_pieces(p: UpdateBookPartialDto, book_id: u128) -> Seq<Piece> {
    assignments_sql(book_assignments(p)) + seq![
        Piece::Sql(", updated_at = NOW() WHERE id = "@),
        Piece::Bind(SqlArg::Uuid(book_id)),
    ]
}

pub open spec fn interaction_update_pieces(p: UpdateBookPartialDto, book_id: u128, user_id: u128) -> Seq<
    Piece,
> {
    assignments_sql(interaction_assignments(p)) + seq![
        Piece::Sql(" WHERE user_id = "@),
        Piece::Bind(SqlArg::Uuid(user_id)),
        Piece::Sql(" AND book_id = "@),
        Piece::Bind(SqlArg::Uuid(book_id)),
    ]
}

proof fn lemma_assign_effect(st0: Stmt, done: Seq<Assignment>, col: Seq<char>, a: SqlArg)
    ensures
        after_pieces(st0, assignments_sql(done.push((col, a)))) == after_piece(
            after_piece(
                if done.len() > 0 {
                    after_piece(after_pieces(st0, assignments_sql(done)), Piece::Sql(", "@))
                } else {
                    after_pieces(st0, assignments_sql(done))
                },
                Piece::Sql(col + " = "@),
            ),
            Piece::Bind(a),
        ),
{
    let l = done.push((col, a));
    assert(l.drop_last() =~= done);
    let sep: Seq<Piece> = if done.len() > 0 {
        seq![Piece::Sql(", "@)]
    } else {
        seq![]
    };
    let tail = seq![Piece::Sql(col + " = "@), Piece::Bind(a)];
    let base = after_pieces(st0, assignments_sql(done));
    assert(assignments_sql(l) == assignments_sql(done) + sep + tail);
    lemma_after_pieces_concat(st0, assignments_sql(done) + sep, tail);
    lemma_after_pieces_concat(st0, assignments_sql(done), sep);
    let mid = after_pieces(base, sep);
    lemma_unfold_pieces(mid, tail, 1);
    lemma_unfold_pieces(mid, tail, 2);
    if done.len() > 0 {
        lemma_unfold_pieces(base, sep, 1);
    } else {
        assert(after_pieces(base, sep) == base);
    }
}

fn assign_uuid(
    qb: &mut SqlBuilder,
    has: bool,
    col: &str,
    v: Option<u128>,
    Ghost(st0): Ghost<Stmt>,
    Ghost(done): Ghost<Seq<Assignment>>,
) -> (r: bool)
    requires
        open_builder(*old(qb)),
        stmt_of(*old(qb)) == after_pieces(st0, assignments_sql(done)),
        has == (done.len() > 0),
        opt_bindable(uuid_arg(v)),
    ensures
        open_builder(*final(qb)),
        stmt_of(*final(qb)) == after_pieces(st0, assignments_sql(done + assign(col@, uuid_arg(v)))),
        r == ((done + assign(col@, uuid_arg(v))).len() > 0),
{
    match v {
        Some(x) => {
            let ghost a = uuid_arg(v).unwrap();
            proof {
                lemma_assign_effect(st0, done, col@, a);
                assert(done + assign(col@, uuid_arg(v)) =~= done.push((col@, a)));
            }
            if has {
                push_sql(qb, ", ");
            }
            let mut c = String::from_str(col);
            c.append(" = ");
            push_sql(qb, c.as_str());
            push_bind_uuid(qb, x);
            true
        },
        None => {
            assert(done + assign(col@, uuid_arg(v)) =~= done);
            has
        },
    }
}

fn assign_text(
    qb: &mut SqlBuilder,
    has: bool,
    col: &str,
    v: Option<String>,
    Ghost(st0): Ghost<Stmt>,
    Ghost(done): Ghost<Seq<Assignment>>,
) -> (r: bool)
    requires
        open_builder(*old(qb)),
        stmt_of(*old(qb)) == after_pieces(st0, assignments_sql(done)),
        has == (done.len() > 0),
        opt_bindable(text_arg(v)),
    ensures
        open_builder(*final(qb)),
        stmt_of(*final(qb)) == after_pieces(st0, assignments_sql(done + assign(col@, text_arg(v)))),
        r == ((done + assign(col@, text_arg(v))).len() > 0),
{
    match v {
        Some(x) => {
            let ghost a = text_arg(v).unwrap();
            proof {
                lemma_assign_effect(st0, done, col@, a);
                assert(done + assign(col@, text_arg(v)) =~= done.push((col@, a)));
            }
            if has {
                push_sql(qb, ", ");
            }
            let mut c = String::from_str(col);
            c.append(" = ");
            push_sql(qb, c.as_str());
            push_bind_text(qb, x);
            true
        },
        None => {
            assert(done + assign(col@, text_arg(v)) =~= done);
            has
        },
    }
}

fn assign_texts(
    qb: &mut SqlBuilder,
    has: bool,
    col: &str,
    v: Option<Vec<String>>,
    Ghost(st0): Ghost<Stmt>,
    Ghost(done): Ghost<Seq<Assignment>>,
) -> (r: bool)
    requires
        open_builder(*old(qb)),
        stmt_of(*old(qb)) == after_pieces(st0, assignments_sql(done)),
        has == (done.len() > 0),
        opt_bindable(texts_arg(v)),
    ensures
        open_builder(*final(qb)),
        stmt_of(*final(qb)) == after_pieces(st0, assignments_sql(done + assign(col@, texts_arg(v)))),
        r == ((done + assign(col@, texts_arg(v))).len() > 0),
{
    match v {
        Some(x) => {
            let ghost a = texts_arg(v).unwrap();
            proof {
                lemma_assign_effect(st0, done, col@, a);
                assert(done + assign(col@, texts_arg(v)) =~= done.push((col@, a)));
            }
            if has {
                push_sql(qb, ", ");
            }
            let mut c = String::from_str(col);
            c.append(" = ");
            push_sql(qb, c.as_str());
            push_bind_text_array(qb, x);
            true
        },
        None => {
            assert(done + assign(col@, texts_arg(v)) =~= done);
            has
        },
    }
}

fn assign_date(
    qb: &mut SqlBuilder,
    has: bool,
    col: &str,
    v: Option<CalendarDate>,
    Ghost(st0): Ghost<Stmt>,
    Ghost(done): Ghost<Seq<Assignment>>,
) -> (r: bool)
    requires
        open_builder(*old(qb)),
        stmt_of(*old(qb)) == after_pieces(st0, assignments_sql(done)),
        has == (done.len() > 0),
        opt_bindable(date_arg(v)),
    ensures
        open_builder(*final(qb)),
        stmt_of(*final(qb)) == after_pieces(st0, assignments_sql(done + assign(col@, date_arg(v)))),
        r == ((done + assign(col@, date_arg(v))).len() > 0),
{
    match v {
        Some(x) => {
            let ghost a = date_arg(v).unwrap();
            proof {
                lemma_assign_effect(st0, done, col@, a);
                assert(done + assign(col@, date_arg(v)) =~= done.push((col@, a)));
            }
            if has {
                push_sql(qb, ", ");
            }
            let mut c = String::from_str(col);
            c.append(" = ");
            push_sql(qb, c.as_str());
            push_bind_date(qb, x);
            true
        },
        None => {
            assert(done + assign(col@, date_arg(v)) =~= done);
            has
        },
    }
}

fn assign_bool(
    qb: &mut SqlBuilder,
    has: bool,
    col: &str,
    v: Option<bool>,
    Ghost(st0): Ghost<Stmt>,
    Ghost(done): Ghost<Seq<Assignment>>,
) -> (r: bool)
    requires
        open_builder(*old(qb)),
        stmt_of(*old(qb)) == after_pieces(st0, assignments_sql(done)),
        has == (done.len() > 0),
        opt_bindable(bool_arg(v)),
    ensures
        open_builder(*final(qb)),
        stmt_of(*final(qb)) == after_pieces(st0, assignments_sql(done + assign(col@, bool_arg(v)))),
        r == ((done + assign(col@, bool_arg(v))).len() > 0),
{
    match v {
        Some(x) => {
            let ghost a = bool_arg(v).unwrap();
            proof {
                lemma_assign_effect(st0, done, col@, a);
                assert(done + assign(col@, bool_arg(v)) =~= done.push((col@, a)));
            }
            if has {
                push_sql(qb, ", ");
            }
            let mut c = String::from_str(col);
            c.append(" = ");
            push_sql(qb, c.as_str());
            push_bind_bool(qb, x);
            true
        },
        None => {
            assert(done + assign(col@, bool_arg(v)) =~= done);
            has
        },
    }
}

fn assign_i32(
    qb: &mut SqlBuilder,
    has: bool,
    col: &str,
    v: Option<i32>,
    Ghost(st0): Ghost<Stmt>,
    Ghost(done): Ghost<Seq<Assignment>>,
) -> (r: bool)
    requires
        open_builder(*old(qb)),
        stmt_of(*old(qb)) == after_pieces(st0, assignments_sql(done)),
        has == (done.len() > 0),
        opt_bindable(i32_arg(v)),
    ensures
        open_builder(*final(qb)),
        stmt_of(*final(qb)) == after_pieces(st0, assignments_sql(done + assign(col@, i32_arg(v)))),
        r == ((done + assign(col@, i32_arg(v))).len() > 0),
{
    match v {
        Some(x) => {
            let ghost a = i32_arg(v).unwrap();
            proof {
                lemma_assign_effect(st0, done, col@, a);
                assert(done + assign(col@, i32_arg(v)) =~= done.push((col@, a)));
            }
            if has {
                push_sql(qb, ", ");
            }
            let mut c = String::from_str(col);
            c.append(" = ");
            push_sql(qb, c.as_str());
            push_bind_i32(qb, x);
            true
        },
        None => {
            assert(done + assign(col@, i32_arg(v)) =~= done);
            has
        },
    }
}

fn assign_numeric(
    qb: &mut SqlBuilder,
    has: bool,
    col: &str,
    v: Option<DecimalValue>,
    Ghost(st0): Ghost<Stmt>,
    Ghost(done): Ghost<Seq<Assignment>>,
) -> (r: bool)
    requires
        open_builder(*old(qb)),
        stmt_of(*old(qb)) == after_pieces(st0, assignments_sql(done)),
        has == (done.len() > 0),
        opt_bindable(numeric_arg(v)),
    ensures
        open_builder(*final(qb)),
        stmt_of(*final(qb)) == after_pieces(st0, assignments_sql(done + assign(col@, numeric_arg(v)))),
        r == ((done + assign(col@, numeric_arg(v))).len() > 0),
{
    match v {
        Some(x) => {
            let ghost a = numeric_arg(v).unwrap();
            proof {
                lemma_assign_effect(st0, done, col@, a);
                assert(done + assign(col@, numeric_arg(v)) =~= done.push((col@, a)));
            }
            if has {
                push_sql(qb, ", ");
            }
            let mut c = String::from_str(col);
            c.append(" = ");
            push_sql(qb, c.as_str());
            push_bind_numeric(qb, x);
            true
        },
        None => {
            assert(done + assign(col@, numeric_arg(v)) =~= done);
            has
        },
    }
}

fn assign_instant(
    qb: &mut SqlBuilder,
    has: bool,
    col: &str,
    v: Option<WallClock>,
    Ghost(st0): Ghost<Stmt>,
    Ghost(done): Ghost<Seq<Assignment>>,
) -> (r: bool)
    requires
        open_builder(*old(qb)),
        stmt_of(*old(qb)) == after_pieces(st0, assignments_sql(done)),
        has == (done.len() > 0),
        opt_bindable(instant_arg(v)),
    ensures
        open_builder(*final(qb)),
        stmt_of(*final(qb)) == after_pieces(st0, assignments_sql(done + assign(col@, instant_arg(v)))),
        r == ((done + assign(col@, instant_arg(v))).len() > 0),
{
    match v {
        Some(x) => {
            let ghost a = instant_arg(v).unwrap();
            proof {
                lemma_assign_effect(st0, done, col@, a);
                assert(done + assign(col@, instant_arg(v)) =~= done.push((col@, a)));
            }
            if has {
                push_sql(qb, ", ");
            }
            let mut c = String::from_str(col);
            c.append(" = ");
            push_sql(qb, c.as_str());
            push_bind_timestamptz(qb, x);
            true
        },
        None => {
            assert(done + assign(col@, instant_arg(v)) =~= done);
            has
        },
    }
}

/// The statements of a partial update: one for the book's own fields (and its
/// `updated_at`), one for the requesting user's reading data. Each is `None` when the
/// request sets none of its fields.
pub fn patch_book_statements(payload: UpdateBookPartialDto, book_id: u128, user_id: u128) -> (r: (
    Option<SqlBuilder>,
    Option<SqlBuilder>,
))
    requires
        book_fields_bindable(payload),
        interaction_fields_bindable(payload),
    ensures
        r.0 is Some == (book_assignments(payload).len() > 0),
        r.0 matches Some(qb) ==> open_builder(qb) && stmt_of(qb) == after_pieces(
            start("UPDATE books SET "@),
            book_update_pieces(payload, book_id),
        ),
        r.1 is Some == (interaction_assignments(payload).len() > 0),
        r.1 matches Some(qb) ==> open_builder(qb) && stmt_of(qb) == after_pieces(
            start("UPDATE user_book_interactions SET "@),
            interaction_update_pieces(payload, book_id, user_id),
        ),
{
    let ghost p = payload;
    let mut qb = new_builder("UPDATE books SET ");
    let ghost st0 = stmt_of(qb);
    let mut has = false;
    assert(after_pieces(st0, assignments_sql(Seq::<Assignment>::empty())) == st0);
    let ghost d0: Seq<Assignment> = Seq::empty();
    has = assign_uuid(&mut qb, has, "library_id", payload.library_id, Ghost(st0), Ghost(d0));
    let ghost d1 = d0 + assign("library_id"@, uuid_arg(p.library_id));
    has = assign_text(&mut qb, has, "title", payload.title, Ghost(st0), Ghost(d1));
    let ghost d2 = d1 + assign("title"@, text_arg(p.title));
    has = assign_text(&mut qb, has, "subtitle", payload.subtitle, Ghost(st0), Ghost(d2));
    let ghost d3 = d2 + assign("subtitle"@, text_arg(p.subtitle));
    has = assign_text(&mut qb, has, "original_title", payload.original_title, Ghost(st0), Ghost(d3));
    let ghost d4 = d3 + assign("original_title"@, text_arg(p.original_title));
    has = assign_texts(&mut qb, has, "authors", payload.authors, Ghost(st0), Ghost(d4));
    let ghost d5 = d4 + assign("authors"@, texts_arg(p.authors));
    has = assign_texts(&mut qb, has, "translators", payload.translators, Ghost(st0), Ghost(d5));
    let ghost d6 = d5 + assign("translators"@, texts_arg(p.translators));
    has = assign_texts(&mut qb, has, "illustrators", payload.illustrators, Ghost(st0), Ghost(d6));
    let ghost d7 = d6 + assign("illustrators"@, texts_arg(p.illustrators));
    has = assign_text(&mut qb, has, "publisher", payload.publisher, Ghost(st0), Ghost(d7));
    let ghost d8 = d7 + assign("publisher"@, text_arg(p.publisher));
    has = assign_date(&mut qb, has, "publish_date", payload.publish_date, Ghost(st0), Ghost(d8));
    let ghost d9 = d8 + assign("publish_date"@, date_arg(p.publish_date));
    has = assign_date(&mut qb, has, "original_publish_date", payload.original_publish_date, Ghost(st0), Ghost(d9));
    let ghost d10 = d9 + assign("original_publish_date"@, date_arg(p.original_publish_date));
    has = assign_text(&mut qb, has, "edition", payload.edition, Ghost(st0), Ghost(d10));
    let ghost d11 = d10 + assign("edition"@, text_arg(p.edition));
    has = assign_text(&mut qb, has, "edition_number", payload.edition_number, Ghost(st0), Ghost(d11));
    let ghost d12 = d11 + assign("edition_number"@, text_arg(p.edition_number));
    has = assign_text(&mut qb, has, "printing_number", payload.printing_number, Ghost(st0), Ghost(d12));
    let ghost d13 = d12 + assign("printing_number"@, text_arg(p.printing_number));
    has = assign_text(&mut qb, has, "original_edition", payload.original_edition, Ghost(st0), Ghost(d13));
    let ghost d14 = d13 + assign("original_edition"@, text_arg(p.original_edition));
    has = assign_bool(&mut qb, has, "is_first_edition", payload.is_first_edition, Ghost(st0), Ghost(d14));
    let ghost d15 = d14 + assign("is_first_edition"@, bool_arg(p.is_first_edition));
    has = assign_text(&mut qb, has, "collection_name", payload.collection_name, Ghost(st0), Ghost(d15));
    let ghost d16 = d15 + assign("collection_name"@, text_arg(p.collection_name));
    has = assign_i32(&mut qb, has, "volume_in_collection", payload.volume_in_collection, Ghost(st0), Ghost(d16));
    let ghost d17 = d16 + assign("volume_in_collection"@, i32_arg(p.volume_in_collection));
    has = assign_text(&mut qb, has, "series_name", payload.series_name, Ghost(st0), Ghost(d17));
    let ghost d18 = d17 + assign("series_name"@, text_arg(p.series_name));
    has = assign_i32(&mut qb, has, "volume_in_series", payload.volume_in_series, Ghost(st0), Ghost(d18));
    let ghost d19 = d18 + assign("volume_in_series"@, i32_arg(p.volume_in_series));
    has = assign_text(&mut qb, has, "book_format", payload.book_format, Ghost(st0), Ghost(d19));
    let ghost d20 = d19 + assign("book_format"@, text_arg(p.book_format));
    has = assign_i32(&mut qb, has, "page_count", payload.page_count, Ghost(st0), Ghost(d20));
    let ghost d21 = d20 + assign("page_count"@, i32_arg(p.page_count));
    has = assign_text(&mut qb, has, "dimensions", payload.dimensions, Ghost(st0), Ghost(d21));
    let ghost d22 = d21 + assign("dimensions"@, text_arg(p.dimensions));
    has = assign_text(&mut qb, has, "weight", payload.weight, Ghost(st0), Ghost(d22));
    let ghost d23 = d22 + assign("weight"@, text_arg(p.weight));
    has = assign_text(&mut qb, has, "language", payload.language, Ghost(st0), Ghost(d23));
    let ghost d24 = d23 + assign("language"@, text_arg(p.language));
    has = assign_text(&mut qb, has, "original_language", payload.original_language, Ghost(st0), Ghost(d24));
    let ghost d25 = d24 + assign("original_language"@, text_arg(p.original_language));
    has = assign_texts(&mut qb, has, "subjects", payload.subjects, Ghost(st0), Ghost(d25));
    let ghost d26 = d25 + assign("subjects"@, texts_arg(p.subjects));
    has = assign_texts(&mut qb, has, "genres", payload.genres, Ghost(st0), Ghost(d26));
    let ghost d27 = d26 + assign("genres"@, texts_arg(p.genres));
    has = assign_text(&mut qb, has, "target_audience", payload.target_audience, Ghost(st0), Ghost(d27));
    let ghost d28 = d27 + assign("target_audience"@, text_arg(p.target_audience));
    has = assign_text(&mut qb, has, "description", payload.description, Ghost(st0), Ghost(d28));
    let ghost d29 = d28 + assign("description"@, text_arg(p.description));
    has = assign_text(&mut qb, has, "table_of_contents", payload.table_of_contents, Ghost(st0), Ghost(d29));
    let ghost d30 = d29 + assign("table_of_contents"@, text_arg(p.table_of_contents));
    has = assign_text(&mut qb, has, "cover_url", payload.cover_url, Ghost(st0), Ghost(d30));
    let ghost d31 = d30 + assign("cover_url"@, text_arg(p.cover_url));
    has = assign_date(&mut qb, has, "purchase_date", payload.purchase_date, Ghost(st0), Ghost(d31));
    let ghost d32 = d31 + assign("purchase_date"@, date_arg(p.purchase_date));
    has = assign_numeric(&mut qb, has, "purchase_price", payload.purchase_price, Ghost(st0), Ghost(d32));
    let ghost d33 = d32 + assign("purchase_price"@, numeric_arg(p.purchase_price));
    has = assign_text(&mut qb, has, "store_or_vendor", payload.store_or_vendor, Ghost(st0), Ghost(d33));
    let ghost d34 = d33 + assign("store_or_vendor"@, text_arg(p.store_or_vendor));
    has = assign_text(&mut qb, has, "acquisition_type", payload.acquisition_type, Ghost(st0), Ghost(d34));
    let ghost d35 = d34 + assign("acquisition_type"@, text_arg(p.acquisition_type));
    has = assign_text(&mut qb, has, "location_property", payload.location_property, Ghost(st0), Ghost(d35));
    let ghost d36 = d35 + assign("location_property"@, text_arg(p.location_property));
    has = assign_text(&mut qb, has, "location_room", payload.location_room, Ghost(st0), Ghost(d36));
    let ghost d37 = d36 + assign("location_room"@, text_arg(p.location_room));
    has = assign_text(&mut qb, has, "location_bookcase", payload.location_bookcase, Ghost(st0), Ghost(d37));
    let ghost d38 = d37 + assign("location_bookcase"@, text_arg(p.location_bookcase));
    has = assign_text(&mut qb, has, "location_shelf", payload.location_shelf, Ghost(st0), Ghost(d38));
    let ghost d39 = d38 + assign("location_shelf"@, text_arg(p.location_shelf));
    has = assign_i32(&mut qb, has, "location_position", payload.location_position, Ghost(st0), Ghost(d39));
    let ghost d40 = d39 + assign("location_position"@, i32_arg(p.location_position));
    has = assign_text(&mut qb, has, "condition_state", payload.condition_state, Ghost(st0), Ghost(d40));
    let ghost d41 = d40 + assign("condition_state"@, text_arg(p.condition_state));
    has = assign_bool(&mut qb, has, "is_loaned", payload.is_loaned, Ghost(st0), Ghost(d41));
    let ghost d42 = d41 + assign("is_loaned"@, bool_arg(p.is_loaned));
    has = assign_text(&mut qb, has, "loaned_to", payload.loaned_to, Ghost(st0), Ghost(d42));
    let ghost d43 = d42 + assign("loaned_to"@, text_arg(p.loaned_to));
    has = assign_instant(&mut qb, has, "loan_date", payload.loan_date, Ghost(st0), Ghost(d43));
    let ghost d44 = d43 + assign("loan_date"@, instant_arg(p.loan_date));
    has = assign_instant(&mut qb, has, "expected_return_date", payload.expected_return_date, Ghost(st0), Ghost(d44));
    let ghost d45 = d44 + assign("expected_return_date"@, instant_arg(p.expected_return_date));
    assert(d45 =~= book_assignments(p));
    let book_statement = if has {
        let ghost s1 = stmt_of(qb);
        push_sql(&mut qb, ", updated_at = NOW() WHERE id = ");
        push_bind_uuid(&mut qb, book_id);
        proof {
            let tail = seq![
                Piece::Sql(", updated_at = NOW() WHERE id = "@),
                Piece::Bind(SqlArg::Uuid(book_id)),
            ];
            lemma_unfold_pieces(s1, tail, 1);
            lemma_unfold_pieces(s1, tail, 2);
            lemma_after_pieces_concat(st0, assignments_sql(book_assignments(p)), tail);
        }
        Some(qb)
    } else {
        None
    };
    let mut qb = new_builder("UPDATE user_book_interactions SET ");
    let ghost st0 = stmt_of(qb);
    let mut has = false;
    assert(after_pieces(st0, assignments_sql(Seq::<Assignment>::empty())) == st0);
    let ghost d0: Seq<Assignment> = Seq::empty();
    has = assign_text(&mut qb, has, "read_status", payload.read_status, Ghost(st0), Ghost(d0));
    let ghost d1 = d0 + assign("read_status"@, text_arg(p.read_status));
    has = assign_i32(&mut qb, has, "rating", payload.rating, Ghost(st0), Ghost(d1));
    let ghost d2 = d1 + assign("rating"@, i32_arg(p.rating));
    has = assign_text(&mut qb, has, "personal_notes", payload.personal_notes, Ghost(st0), Ghost(d2));
    let ghost d3 = d2 + assign("personal_notes"@, text_arg(p.personal_notes));
    has = assign_text(&mut qb, has, "reading_notes", payload.reading_notes, Ghost(st0), Ghost(d3));
    let ghost d4 = d3 + assign("reading_notes"@, text_arg(p.reading_notes));
    has = assign_date(&mut qb, has, "date_started", payload.date_started, Ghost(st0), Ghost(d4));
    let ghost d5 = d4 + assign("date_started"@, date_arg(p.date_started));
    has = assign_date(&mut qb, has, "date_finished", payload.date_finished, Ghost(st0), Ghost(d5));
    let ghost d6 = d5 + assign("date_finished"@, date_arg(p.date_finished));
    assert(d6 =~= interaction_assignments(p));
    let interaction_statement = if has {
        let ghost s1 = stmt_of(qb);
        push_sql(&mut qb, " WHERE user_id = ");
        push_bind_uuid(&mut qb, user_id);
        push_sql(&mut qb, " AND book_id = ");
        push_bind_uuid(&mut qb, book_id);
        proof {
            let tail = seq![
                Piece::Sql(" WHERE user_id = "@),
                Piece::Bind(SqlArg::Uuid(user_id)),
                Piece::Sql(" AND book_id = "@),
                Piece::Bind(SqlArg::Uuid(book_id)),
            ];
            lemma_unfold_pieces(s1, tail, 1);
            lemma_unfold_pieces(s1, tail, 2);
            lemma_unfold_pieces(s1, tail, 3);
            lemma_unfold_pieces(s1, tail, 4);
            lemma_after_pieces_concat(st0, assignments_sql(interaction_assignments(p)), tail);
        }
        Some(qb)
    } else {
        None
    };
    (book_statement, interaction_statement)
}

/// What a profile update changes: the user name, the password hash, or both, of the
/// user `user_id`.
pub open spec fn profile_update_pieces(
    username: Option<Seq<char>>,
    password_hash: Option<Seq<char>>,
    user_id: u128,
) -> Seq<Piece> {
    (match username {
        Some(u) => seq![Piece::Sql("username = "@), Piece::Bind(SqlArg::Text(u))],
        None => seq![],
    }) + (match password_hash {
        Some(h) => (if username is Some {
            seq![Piece::Sql(", "@)]
        } else {
            seq![]
        }) + seq![Piece::Sql("password_hash = "@), Piece::Bind(SqlArg::Text(h))],
        None => seq![],
    }) + seq![Piece::Sql(" WHERE id = "@), Piece::Bind(SqlArg::Uuid(user_id))]
}

/// The statement of a profile update; `None` when it changes nothing (the answer is
/// then `204 No Content`). `password_hash` is the hash of the new password, if any.
pub fn update_profile_statement(
    username: Option<String>,
    password_hash: Option<String>,
    user_id: u128,
) -> (r: Option<SqlBuilder>)
    requires
        username matches Some(u) ==> bindable(SqlArg::Text(u@)),
        password_hash matches Some(h) ==> bindable(SqlArg::Text(h@)),
    ensures
        r is None <==> (username is None && password_hash is None),
        r matches Some(qb) ==> open_builder(qb) && stmt_of(qb) == after_pieces(
            start("UPDATE users SET "@),
            profile_update_pieces(
                crate::model::opt_string_view(username),
                crate::model::opt_string_view(password_hash),
                user_id,
            ),
        ),
{
    if username.is_none() && password_hash.is_none() {
        return None;
    }
    let ghost un = crate::model::opt_string_view(username);
    let ghost ph = crate::model::opt_string_view(password_hash);
    let has_name = username.is_some();
    let mut qb = new_builder("UPDATE users SET ");
    let ghost st0 = stmt_of(qb);
    let ghost p1: Seq<Piece> = match un {
        Some(u) => seq![Piece::Sql("username = "@), Piece::Bind(SqlArg::Text(u))],
        None => seq![],
    };
    if let Some(name) = username {
        push_sql(&mut qb, "username = ");
        push_bind_text(&mut qb, name);
        proof {
            lemma_unfold_pieces(st0, p1, 1);
            lemma_unfold_pieces(st0, p1, 2);
        }
    }
    assert(stmt_of(qb) == after_pieces(st0, p1));
    let ghost st1 = stmt_of(qb);
    let ghost p2: Seq<Piece> = match ph {
        Some(h) => (if un is Some {
            seq![Piece::Sql(", "@)]
        } else {
            seq![]
        }) + seq![Piece::Sql("password_hash = "@), Piece::Bind(SqlArg::Text(h))],
        None => seq![],
    };
    if let Some(hash) = password_hash {
        let ghost hv = hash@;
        if has_name {
            push_sql(&mut qb, ", ");
            push_sql(&mut qb, "password_hash = ");
            push_bind_text(&mut qb, hash);
            proof {
                assert(p2 =~= seq![
                    Piece::Sql(", "@),
                    Piece::Sql("password_hash = "@),
                    Piece::Bind(SqlArg::Text(hv)),
                ]);
                lemma_unfold_pieces(st1, p2, 1);
                lemma_unfold_pieces(st1, p2, 2);
                lemma_unfold_pieces(st1, p2, 3);
            }
        } else {
            push_sql(&mut qb, "password_hash = ");
            push_bind_text(&mut qb, hash);
            proof {
                assert(p2 =~= seq![Piece::Sql("password_hash = "@), Piece::Bind(SqlArg::Text(hv))]);
                lemma_unfold_pieces(st1, p2, 1);
                lemma_unfold_pieces(st1, p2, 2);
            }
        }
    }
    assert(stmt_of(qb) == after_pieces(st1, p2));
    let ghost st2 = stmt_of(qb);
    let ghost p3 = seq![Piece::Sql(" WHERE id = "@), Piece::Bind(SqlArg::Uuid(user_id))];
    push_sql(&mut qb, " WHERE id = ");
    push_bind_uuid(&mut qb, user_id);
    proof {
        lemma_unfold_pieces(st2, p3, 1);
        lemma_unfold_pieces(st2, p3, 2);
        lemma_after_pieces_concat(st0, p1, p2);
        lemma_after_pieces_concat(st0, p1 + p2, p3);
    }
    Some(qb)
}


// ------------------------------------------------------------------
// Laws of partial updates
// ------------------------------------------------------------------

/// The reading-data field a column of `user_book_interactions` holds, if the request
/// gives it.
pub open spec fn reading_field(p: UpdateBookPartialDto, col: Seq<char>) -> Option<SqlArg> {
    if col == "read_status"@ {
        text_arg(p.read_status)
    } else if col == "rating"@ {
        i32_arg(p.rating)
    } else if col == "personal_notes"@ {
        text_arg(p.personal_notes)
    } else if col == "reading_notes"@ {
        text_arg(p.reading_notes)
    } else if col == "date_started"@ {
        date_arg(p.date_started)
    } else if col == "date_finished"@ {
        date_arg(p.date_finished)
    } else {
        None
    }
}

/// Every assignment sets its column to the request's value for that column.
pub open spec fn assigns_own_fields(p: UpdateBookPartialDto, list: Seq<Assignment>) -> bool {
    forall|i: int| 0 <= i < list.len() ==> reading_field(p, #[trigger] list[i].0) == Some(list[i].1)
}

proof fn lemma_assigns_concat(p: UpdateBookPartialDto, a: Seq<Assignment>, b: Seq<Assignment>)
    requires
        assigns_own_fields(p, a),
        assigns_own_fields(p, b),
    ensures
        assigns_own_fields(p, a + b),
{
    assert forall|i: int| 0 <= i < (a + b).len() implies reading_field(p, #[trigger] (a + b)[i].0)
        == Some((a + b)[i].1) by {
        if i >= a.len() {
            assert((a + b)[i] == b[i - a.len()]);
        }
    }
}

proof fn lemma_assign_own(p: UpdateBookPartialDto, col: Seq<char>, a: Option<SqlArg>)
    requires
        reading_field(p, col) == a,
    ensures
        assigns_own_fields(p, assign(col, a)),
{
}

/// A partial update of reading data sets each given column to the request's value
/// for that very column, and every given field is set: the assignments are those of
/// the fields present, each with its own value.
pub proof fn law_patch_reading_fields(p: UpdateBookPartialDto)
    ensures
        assigns_own_fields(p, interaction_assignments(p)),
        forall|c: Seq<char>|
            #![trigger reading_field(p, c)]
            reading_field(p, c) is Some ==> interaction_assignments(p).contains(
                (c, reading_field(p, c)->0),
            ),
{
    reveal_strlit("read_status");
    assert("read_status"@.len() == 11);
    assert("read_status"@[0] == 'r');
    assert("read_status"@[1] == 'e');
    assert("read_status"@[2] == 'a');
    assert("read_status"@[3] == 'd');
    assert("read_status"@[4] == '_');
    assert("read_status"@[5] == 's');
    assert("read_status"@[6] == 't');
    assert("read_status"@[7] == 'a');
    assert("read_status"@[8] == 't');
    assert("read_status"@[9] == 'u');
    assert("read_status"@[10] == 's');
    reveal_strlit("rating");
    assert("rating"@.len() == 6);
    assert("rating"@[0] == 'r');
    assert("rating"@[1] == 'a');
    assert("rating"@[2] == 't');
    assert("rating"@[3] == 'i');
    assert("rating"@[4] == 'n');
    assert("rating"@[5] == 'g');
    reveal_strlit("personal_notes");
    assert("personal_notes"@.len() == 14);
    assert("personal_notes"@[0] == 'p');
    assert("personal_notes"@[1] == 'e');
    assert("personal_notes"@[2] == 'r');
    assert("personal_notes"@[3] == 's');
    assert("personal_notes"@[4] == 'o');
    assert("personal_notes"@[5] == 'n');
    assert("personal_notes"@[6] == 'a');
    assert("personal_notes"@[7] == 'l');
    assert("personal_notes"@[8] == '_');
    assert("personal_notes"@[9] == 'n');
    assert("personal_notes"@[10] == 'o');
    assert("personal_notes"@[11] == 't');
    assert("personal_notes"@[12] == 'e');
    assert("personal_notes"@[13] == 's');
    reveal_strlit("reading_notes");
    assert("reading_notes"@.len() == 13);
    assert("reading_notes"@[0] == 'r');
    assert("reading_notes"@[1] == 'e');
    assert("reading_notes"@[2] == 'a');
    assert("reading_notes"@[3] == 'd');
    assert("reading_notes"@[4] == 'i');
    assert("reading_notes"@[5] == 'n');
    assert("reading_notes"@[6] == 'g');
    assert("reading_notes"@[7] == '_');
    assert("reading_notes"@[8] == 'n');
    assert("reading_notes"@[9] == 'o');
    assert("reading_notes"@[10] == 't');
    assert("reading_notes"@[11] == 'e');
    assert("reading_notes"@[12] == 's');
    reveal_strlit("date_started");
    assert("date_started"@.len() == 12);
    assert("date_started"@[0] == 'd');
    assert("date_started"@[1] == 'a');
    assert("date_started"@[2] == 't');
    assert("date_started"@[3] == 'e');
    assert("date_started"@[4] == '_');
    assert("date_started"@[5] == 's');
    assert("date_started"@[6] == 't');
    assert("date_started"@[7] == 'a');
    assert("date_started"@[8] == 'r');
    assert("date_started"@[9] == 't');
    assert("date_started"@[10] == 'e');
    assert("date_started"@[11] == 'd');
    reveal_strlit("date_finished");
    assert("date_finished"@.len() == 13);
    assert("date_finished"@[0] == 'd');
    assert("date_finished"@[1] == 'a');
    assert("date_finished"@[2] == 't');
    assert("date_finished"@[3] == 'e');
    assert("date_finished"@[4] == '_');
    assert("date_finished"@[5] == 'f');
    assert("date_finished"@[6] == 'i');
    assert("date_finished"@[7] == 'n');
    assert("date_finished"@[8] == 'i');
    assert("date_finished"@[9] == 's');
    assert("date_finished"@[10] == 'h');
    assert("date_finished"@[11] == 'e');
    assert("date_finished"@[12] == 'd');
    let e = Seq::<Assignment>::empty();
    let a1 = assign("read_status"@, text_arg(p.read_status));
    let a2 = assign("rating"@, i32_arg(p.rating));
    let a3 = assign("personal_notes"@, text_arg(p.personal_notes));
    let a4 = assign("reading_notes"@, text_arg(p.reading_notes));
    let a5 = assign("date_started"@, date_arg(p.date_started));
    let a6 = assign("date_finished"@, date_arg(p.date_finished));
    lemma_assign_own(p, "read_status"@, text_arg(p.read_status));
    lemma_assign_own(p, "rating"@, i32_arg(p.rating));
    lemma_assign_own(p, "personal_notes"@, text_arg(p.personal_notes));
    lemma_assign_own(p, "reading_notes"@, text_arg(p.reading_notes));
    lemma_assign_own(p, "date_started"@, date_arg(p.date_started));
    lemma_assign_own(p, "date_finished"@, date_arg(p.date_finished));
    lemma_assigns_concat(p, e, a1);
    lemma_assigns_concat(p, e + a1, a2);
    lemma_assigns_concat(p, e + a1 + a2, a3);
    lemma_assigns_concat(p, e + a1 + a2 + a3, a4);
    lemma_assigns_concat(p, e + a1 + a2 + a3 + a4, a5);
    lemma_assigns_concat(p, e + a1 + a2 + a3 + a4 + a5, a6);
    let all = interaction_assignments(p);
    assert(all == e + a1 + a2 + a3 + a4 + a5 + a6);
    assert forall|c: Seq<char>|
        #![trigger reading_field(p, c)]
        reading_field(p, c) is Some implies all.contains((c, reading_field(p, c)->0)) by {
        let x = (c, reading_field(p, c)->0);
        let k = if c == "read_status"@ {
            0
        } else if c == "rating"@ {
            a1.len() as int
        } else if c == "personal_notes"@ {
            (a1.len() + a2.len()) as int
        } else if c == "reading_notes"@ {
            (a1.len() + a2.len() + a3.len()) as int
        } else if c == "date_started"@ {
            (a1.len() + a2.len() + a3.len() + a4.len()) as int
        } else {
            (a1.len() + a2.len() + a3.len() + a4.len() + a5.len()) as int
        };
        assert(all[k] == x);
    }
}

/// A partial update reaches the patched book and the requesting user alone: the
/// book's update ends with ` WHERE id = ` and the book's id; the reading-data update
/// ends with ` WHERE user_id = ` and the user's id, then ` AND book_id = ` and the
/// book's id.
pub proof fn law_patch_targets(p: UpdateBookPartialDto, book_id: u128, user_id: u128)
    ensures
        book_update_pieces(p, book_id).len() >= 2,
        book_update_pieces(p, book_id).last() == Piece::Bind(SqlArg::Uuid(book_id)),
        book_update_pieces(p, book_id)[book_update_pieces(p, book_id).len() - 2] == Piece::Sql(
            ", updated_at = NOW() WHERE id = "@,
        ),
        interaction_update_pieces(p, book_id, user_id).len() >= 4,
        interaction_update_pieces(p, book_id, user_id)[interaction_update_pieces(p, book_id, user_id).len()
            - 4] == Piece::Sql(" WHERE user_id = "@),
        interaction_update_pieces(p, book_id, user_id)[interaction_update_pieces(p, book_id, user_id).len()
            - 3] == Piece::Bind(SqlArg::Uuid(user_id)),
        interaction_update_pieces(p, book_id, user_id)[interaction_update_pieces(p, book_id, user_id).len()
            - 2] == Piece::Sql(" AND book_id = "@),
        interaction_update_pieces(p, book_id, user_id).last() == Piece::Bind(SqlArg::Uuid(book_id)),
{
}


/// A profile update changes only the requesting user's row: it ends with ` WHERE id = `
/// and the user's id, binds the new name right after `username = ` and the new hash
/// right after `password_hash = `.
pub proof fn law_profile_update_targets(username: Option<Seq<char>>, hash: Option<Seq<char>>, user_id: u128)
    ensures
        profile_update_pieces(username, hash, user_id).len() >= 2,
        profile_update_pieces(username, hash, user_id).last() == Piece::Bind(SqlArg::Uuid(user_id)),
        profile_update_pieces(username, hash, user_id)[profile_update_pieces(username, hash, user_id).len()
            - 2] == Piece::Sql(" WHERE id = "@),
        username matches Some(u) ==> profile_update_pieces(username, hash, user_id)[0] == Piece::Sql(
            "username = "@,
        ) && profile_update_pieces(username, hash, user_id)[1] == Piece::Bind(SqlArg::Text(u)),
        hash matches Some(h) ==> {
            let ps = profile_update_pieces(username, hash, user_id);
            let i = if username is Some { 3int } else { 0int };
            ps[i] == Piece::Sql("password_hash = "@) && ps[i + 1] == Piece::Bind(SqlArg::Text(h))
        },
{
}

} // verus!
