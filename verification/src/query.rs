//! The dynamic query engine: filter trees and suffix operators turned into SQL
//! with bound arguments, sorting, paging, and the listing statements.
use vstd::prelude::*;
use crate::model::{AutocompleteQuery, BookFilterQuery, QueryAST};
use crate::sql::{
    after_piece, after_pieces, bindable, lemma_after_pieces_concat, new_builder, open_builder,
    push_bind_date, push_bind_i32, push_bind_i64, push_bind_uuid_array, push_bind_text, push_bind_timestamp,
    push_bind_uuid, push_sql, stmt_of, Piece, SqlArg, SqlBuilder, Stmt,
};
use crate::text::{
    ends_with, ends_with_exec, lemma_utf8_len_concat, parse_i32, parsed_i32, str_eq, utf8_len,
    utf8_width,
};
use vstd::string::*;
use crate::time::{parse_iso_date, parse_rfc3339, parsed_iso_date, parsed_rfc3339};

verus! {

// ------------------------------------------------------------------
// Columns
// ------------------------------------------------------------------

/// Columns of the per-user interaction table (qualified with `ubi.`).
pub open spec fn ubi_column(f: Seq<char>) -> bool {
    ||| f == "read_status"@
    ||| f == "rating"@
    ||| f == "personal_notes"@
    ||| f == "reading_notes"@
    ||| f == "date_started"@
    ||| f == "date_finished"@
}

/// Columns matched as free text.
pub open spec fn text_column(f: Seq<char>) -> bool {
    ||| f == "title"@
    ||| f == "subtitle"@
    ||| f == "original_title"@
    ||| f == "publisher"@
    ||| f == "collection_name"@
    ||| f == "series_name"@
    ||| f == "description"@
    ||| f == "table_of_contents"@
    ||| f == "personal_notes"@
    ||| f == "reading_notes"@
    ||| f == "location_property"@
    ||| f == "location_room"@
    ||| f == "location_bookcase"@
    ||| f == "location_shelf"@
    ||| f == "loaned_to"@
    ||| f == "dimensions"@
    ||| f == "weight"@
}

/// Columns holding codes and identifiers, matched as text too.
pub open spec fn exact_string_column(f: Seq<char>) -> bool {
    ||| f == "read_status"@
    ||| f == "book_format"@
    ||| f == "condition_state"@
    ||| f == "target_audience"@
    ||| f == "language"@
    ||| f == "original_language"@
    ||| f == "store_or_vendor"@
    ||| f == "acquisition_type"@
    ||| f == "isbn_13"@
    ||| f == "isbn_10"@
    ||| f == "oclc_number"@
    ||| f == "open_library_id"@
    ||| f == "edition"@
    ||| f == "edition_number"@
    ||| f == "printing_number"@
    ||| f == "original_edition"@
}

pub open spec fn numeric_column(f: Seq<char>) -> bool {
    ||| f == "catalog_number"@
    ||| f == "page_count"@
    ||| f == "edition_number"@
    ||| f == "rating"@
    ||| f == "volume_in_collection"@
    ||| f == "volume_in_series"@
    ||| f == "purchase_price"@
    ||| f == "location_position"@
}

pub open spec fn date_column(f: Seq<char>) -> bool {
    ||| f == "publish_date"@
    ||| f == "original_publish_date"@
    ||| f == "purchase_date"@
    ||| f == "date_started"@
    ||| f == "date_finished"@
    ||| f == "loan_date"@
    ||| f == "expected_return_date"@
    ||| f == "created_at"@
    ||| f == "updated_at"@
}

pub open spec fn boolean_column(f: Seq<char>) -> bool {
    f == "is_first_edition"@ || f == "is_loaned"@
}

/// The column as it stands in the statement: `ubi.<f>` or `b.<f>`.
pub open spec fn qualified(f: Seq<char>) -> Seq<char> {
    (if ubi_column(f) {
        "ubi"@
    } else {
        "b"@
    }) + seq!['.'] + f
}

// ------------------------------------------------------------------
// What a condition becomes
// ------------------------------------------------------------------

pub open spec fn surrounded(v: Seq<char>) -> Seq<char> {
    seq!['%'] + v + seq!['%']
}

pub open spec fn prefix_pattern(v: Seq<char>) -> Seq<char> {
    v + seq!['%']
}

pub open spec fn suffix_pattern(v: Seq<char>) -> Seq<char> {
    seq!['%'] + v
}

/// `<column> <op> $n` with a text argument.
pub open spec fn text_match(column: Seq<char>, op: Seq<char>, pattern: Seq<char>) -> Seq<Piece> {
    seq![Piece::Sql(" "@ + column + op), Piece::Bind(SqlArg::Text(pattern))]
}

/// The comparison a suffix operator selects for numbers and dates; equality otherwise.
pub open spec fn comparison(op: Seq<char>) -> Seq<char> {
    if op == "_gt"@ {
        " > "@
    } else if op == "_gte"@ {
        " >= "@
    } else if op == "_lt"@ {
        " < "@
    } else if op == "_lte"@ {
        " <= "@
    } else {
        " = "@
    }
}

/// A condition that holds of no row.
pub open spec fn never() -> Seq<Piece> {
    seq![Piece::Sql(" 1=0 "@)]
}

pub open spec fn text_condition(column: Seq<char>, op: Seq<char>, v: Seq<char>) -> Seq<Piece> {
    if op == "_contains_case"@ {
        text_match(column, " LIKE "@, surrounded(v))
    } else if op == "_starts"@ {
        text_match(column, " ILIKE "@, prefix_pattern(v))
    } else if op == "_starts_case"@ {
        text_match(column, " LIKE "@, prefix_pattern(v))
    } else if op == "_ends"@ {
        text_match(column, " ILIKE "@, suffix_pattern(v))
    } else if op == "_ends_case"@ {
        text_match(column, " LIKE "@, suffix_pattern(v))
    } else if op == "_exact"@ {
        text_match(column, " = "@, v)
    } else if op == "_empty"@ {
        if v == "true"@ {
            seq![Piece::Sql(" ("@ + column + " IS NULL OR "@ + column + " = '') "@)]
        } else {
            seq![Piece::Sql(" ("@ + column + " IS NOT NULL AND "@ + column + " != '') "@)]
        }
    } else {
        // `_contains`, and any other operator
        text_match(column, " ILIKE "@, surrounded(v))
    }
}

pub open spec fn numeric_condition(column: Seq<char>, op: Seq<char>, v: Seq<char>) -> Seq<Piece> {
    match parsed_i32(v) {
        Some(n) => seq![Piece::Sql(" "@ + column + comparison(op)), Piece::Bind(SqlArg::Int4(n))],
        None => never(),
    }
}

/// A date column compares with a `YYYY-MM-DD` date, or else with the UTC wall clock
/// of an RFC 3339 instant.
pub open spec fn date_condition(column: Seq<char>, op: Seq<char>, v: Seq<char>) -> Seq<Piece> {
    match parsed_iso_date(v) {
        Some(d) => seq![Piece::Sql(" "@ + column + comparison(op)), Piece::Bind(SqlArg::Date(d))],
        None => match parsed_rfc3339(v) {
            Some(z) => seq![
                Piece::Sql(" "@ + column + comparison(op)),
                Piece::Bind(SqlArg::Timestamp(parsed_rfc3339(v)->0.utc)),
            ],
            None => never(),
        },
    }
}

pub open spec fn boolean_condition(column: Seq<char>, v: Seq<char>) -> Seq<Piece> {
    if v == "true"@ {
        seq![Piece::Sql(" "@ + column + " = TRUE "@)]
    } else if v == "false"@ {
        seq![Piece::Sql(" "@ + column + " = FALSE "@)]
    } else {
        never()
    }
}

/// `_empty` on a column that holds no text: `true` keeps the rows without a value,
/// anything else the rows with one.
pub open spec fn null_condition(column: Seq<char>, v: Seq<char>) -> Seq<Piece> {
    if v == "true"@ {
        seq![Piece::Sql(" ("@ + column + " IS NULL) "@)]
    } else {
        seq![Piece::Sql(" ("@ + column + " IS NOT NULL) "@)]
    }
}

/// What one condition of a filter tree appends to the statement.
pub open spec fn condition_pieces(field: Seq<char>, op: Seq<char>, v: Seq<char>) -> Seq<Piece> {
    if field == "search"@ {
        seq![
            Piece::Sql(" (b.title ILIKE "@),
            Piece::Bind(SqlArg::Text(surrounded(v))),
            Piece::Sql(" OR b.original_title ILIKE "@),
            Piece::Bind(SqlArg::Text(surrounded(v))),
            Piece::Sql(") "@),
        ]
    } else if field == "author"@ || field == "authors"@ {
        seq![
            Piece::Sql(" array_to_string(b.authors, ', ') ILIKE "@),
            Piece::Bind(SqlArg::Text(surrounded(v))),
        ]
    } else if text_column(field) || exact_string_column(field) {
        text_condition(qualified(field), op, v)
    } else if (numeric_column(field) || date_column(field) || boolean_column(field)) && op
        == "_empty"@ {
        null_condition(qualified(field), v)
    } else if numeric_column(field) {
        numeric_condition(qualified(field), op, v)
    } else if date_column(field) {
        date_condition(qualified(field), op, v)
    } else if boolean_column(field) {
        boolean_condition(qualified(field), v)
    } else {
        // an unknown column does not restrict the rows
        seq![Piece::Sql(" 1=1 "@)]
    }
}

/// The text a bound argument carries, empty for any other piece.
pub open spec fn bound_text(p: Piece) -> Seq<char> {
    match p {
        Piece::Bind(SqlArg::Text(t)) => t,
        _ => seq![],
    }
}

/// How a text column is matched: `_starts` binds the value followed by one `%` (the
/// column must begin with the value), `_ends` one `%` followed by the value (it must
/// end with it), `_contains` and any unknown operator the value between two `%`,
/// `_exact` the value itself; the plain forms ignore case (`ILIKE`), the `_case` forms
/// do not (`LIKE`), `_exact` compares with `=`. Each appends one comparison of the
/// column and binds one text.
pub proof fn law_text_column_patterns(field: Seq<char>, op: Seq<char>, v: Seq<char>)
    requires
        text_column(field) || exact_string_column(field),
        op != "_empty"@,
    ensures
        condition_pieces(field, op, v).len() == 2,
        condition_pieces(field, op, v)[1] is Bind,
        condition_pieces(field, op, v)[1]->Bind_0 is Text,
        (op == "_starts"@ || op == "_starts_case"@) ==> bound_text(condition_pieces(field, op, v)[1])
            == v + seq!['%'],
        (op == "_ends"@ || op == "_ends_case"@) ==> bound_text(condition_pieces(field, op, v)[1])
            == seq!['%'] + v,
        (op == "_contains"@ || op == "_contains_case"@) ==> bound_text(
            condition_pieces(field, op, v)[1],
        ) == seq!['%'] + v + seq!['%'],
        op == "_exact"@ ==> bound_text(condition_pieces(field, op, v)[1]) == v,
        condition_pieces(field, op, v)[0] == Piece::Sql(
            seq![' '] + qualified(field) + (if op == "_exact"@ {
                " = "@
            } else if op == "_starts_case"@ || op == "_ends_case"@ || op == "_contains_case"@ {
                " LIKE "@
            } else {
                " ILIKE "@
            }),
        ),
{
    let ps = condition_pieces(field, op, v);
    lemma_text_column_not_special(field);
    assert(ps == text_condition(qualified(field), op, v));
    lemma_text_condition_shape(qualified(field), op, v);
}

proof fn lemma_text_column_not_special(field: Seq<char>)
    requires
        text_column(field) || exact_string_column(field),
    ensures
        field != "search"@,
        field != "author"@,
        field != "authors"@,
{
    reveal_strlit("search");
    assert("search"@.len() == 6);
    reveal_strlit("author");
    assert("author"@.len() == 6);
    reveal_strlit("authors");
    assert("authors"@.len() == 7);
    reveal_strlit("title");
    assert("title"@.len() == 5);
    reveal_strlit("subtitle");
    assert("subtitle"@.len() == 8);
    reveal_strlit("original_title");
    assert("original_title"@.len() == 14);
    reveal_strlit("publisher");
    assert("publisher"@.len() == 9);
    reveal_strlit("collection_name");
    assert("collection_name"@.len() == 15);
    reveal_strlit("series_name");
    assert("series_name"@.len() == 11);
    reveal_strlit("description");
    assert("description"@.len() == 11);
    reveal_strlit("table_of_contents");
    assert("table_of_contents"@.len() == 17);
    reveal_strlit("personal_notes");
    assert("personal_notes"@.len() == 14);
    reveal_strlit("reading_notes");
    assert("reading_notes"@.len() == 13);
    reveal_strlit("location_property");
    assert("location_property"@.len() == 17);
    reveal_strlit("location_room");
    assert("location_room"@.len() == 13);
    reveal_strlit("location_bookcase");
    assert("location_bookcase"@.len() == 17);
    reveal_strlit("location_shelf");
    assert("location_shelf"@.len() == 14);
    reveal_strlit("loaned_to");
    assert("loaned_to"@.len() == 9);
    reveal_strlit("dimensions");
    assert("dimensions"@.len() == 10);
    reveal_strlit("weight");
    assert("weight"@.len() == 6);
    reveal_strlit("read_status");
    assert("read_status"@.len() == 11);
    reveal_strlit("book_format");
    assert("book_format"@.len() == 11);
    reveal_strlit("condition_state");
    assert("condition_state"@.len() == 15);
    reveal_strlit("target_audience");
    assert("target_audience"@.len() == 15);
    reveal_strlit("language");
    assert("language"@.len() == 8);
    reveal_strlit("original_language");
    assert("original_language"@.len() == 17);
    reveal_strlit("store_or_vendor");
    assert("store_or_vendor"@.len() == 15);
    reveal_strlit("acquisition_type");
    assert("acquisition_type"@.len() == 16);
    reveal_strlit("isbn_13");
    assert("isbn_13"@.len() == 7);
    reveal_strlit("isbn_10");
    assert("isbn_10"@.len() == 7);
    reveal_strlit("oclc_number");
    assert("oclc_number"@.len() == 11);
    reveal_strlit("open_library_id");
    assert("open_library_id"@.len() == 15);
    reveal_strlit("edition");
    assert("edition"@.len() == 7);
    reveal_strlit("edition_number");
    assert("edition_number"@.len() == 14);
    reveal_strlit("printing_number");
    assert("printing_number"@.len() == 15);
    reveal_strlit("original_edition");
    assert("original_edition"@.len() == 16);
    assert("search"@[0] == 's');
    assert("author"@[0] == 'a');
    assert("authors"@[0] == 'a');
    assert("weight"@[0] == 'w');
    assert("isbn_13"@[0] == 'i');
    assert("isbn_10"@[0] == 'i');
    assert("edition"@[0] == 'e');
    assert(field != "search"@);
    assert(field != "author"@);
    assert(field != "authors"@);
}

proof fn lemma_text_condition_shape(column: Seq<char>, op: Seq<char>, v: Seq<char>)
    requires
        op != "_empty"@,
    ensures
        text_condition(column, op, v).len() == 2,
        text_condition(column, op, v)[1] is Bind,
        text_condition(column, op, v)[1]->Bind_0 is Text,
        (op == "_starts"@ || op == "_starts_case"@) ==> bound_text(text_condition(column, op, v)[1])
            == v + seq!['%'],
        (op == "_ends"@ || op == "_ends_case"@) ==> bound_text(text_condition(column, op, v)[1])
            == seq!['%'] + v,
        (op == "_contains"@ || op == "_contains_case"@) ==> bound_text(
            text_condition(column, op, v)[1],
        ) == seq!['%'] + v + seq!['%'],
        op == "_exact"@ ==> bound_text(text_condition(column, op, v)[1]) == v,
        text_condition(column, op, v)[0] == Piece::Sql(
            seq![' '] + column + (if op == "_exact"@ {
                " = "@
            } else if op == "_starts_case"@ || op == "_ends_case"@ || op == "_contains_case"@ {
                " LIKE "@
            } else {
                " ILIKE "@
            }),
        ),
{
    reveal_strlit("_starts");
    assert("_starts"@.len() == 7);
    reveal_strlit("_starts_case");
    assert("_starts_case"@.len() == 12);
    reveal_strlit("_ends");
    assert("_ends"@.len() == 5);
    reveal_strlit("_ends_case");
    assert("_ends_case"@.len() == 10);
    reveal_strlit("_contains");
    assert("_contains"@.len() == 9);
    reveal_strlit("_contains_case");
    assert("_contains_case"@.len() == 14);
    reveal_strlit("_exact");
    assert("_exact"@.len() == 6);
    reveal_strlit("_empty");
    assert("_empty"@.len() == 6);
    assert("_exact"@[1] == 'e' && "_empty"@[1] == 'e' && "_exact"@[2] == 'x' && "_empty"@[2] == 'm');
    reveal_strlit(" ");
    assert(" "@ + column =~= seq![' '] + column);
}

/// The comparison a numeric or date filter makes with its value: `_gt` is `>`,
/// `_gte` `>=`, `_lt` `<`, `_lte` `<=` and any other operator `=`.
pub open spec fn comparison_meant(op: Seq<char>) -> Seq<char> {
    if op == "_gt"@ {
        " > "@
    } else if op == "_gte"@ {
        " >= "@
    } else if op == "_lt"@ {
        " < "@
    } else if op == "_lte"@ {
        " <= "@
    } else {
        " = "@
    }
}

/// A number filter on a numeric column compares the column, with the operator's
/// comparison, to the value read as an `i32`; a value that is no `i32` keeps no row.
pub proof fn law_numeric_comparisons(field: Seq<char>, op: Seq<char>, v: Seq<char>)
    requires
        numeric_column(field),
        !text_column(field),
        !exact_string_column(field),
        op != "_empty"@,
    ensures
        parsed_i32(v) matches Some(n) ==> condition_pieces(field, op, v) == seq![
            Piece::Sql(seq![' '] + qualified(field) + comparison_meant(op)),
            Piece::Bind(SqlArg::Int4(n)),
        ],
        parsed_i32(v) is None ==> condition_pieces(field, op, v) == seq![Piece::Sql(" 1=0 "@)],
{
    lemma_not_special_column(field);
    reveal_strlit(" ");
    assert(" "@ + qualified(field) =~= seq![' '] + qualified(field));
    lemma_comparison_meant(op);
}

/// A date filter compares the column, with the operator's comparison, to the value
/// read as a `YYYY-MM-DD` date, or else as an RFC 3339 instant (by its UTC wall
/// clock); any other value keeps no row.
pub proof fn law_date_comparisons(field: Seq<char>, op: Seq<char>, v: Seq<char>)
    requires
        date_column(field),
        !text_column(field),
        !exact_string_column(field),
        !numeric_column(field),
        op != "_empty"@,
    ensures
        parsed_iso_date(v) matches Some(d) ==> condition_pieces(field, op, v) == seq![
            Piece::Sql(seq![' '] + qualified(field) + comparison_meant(op)),
            Piece::Bind(SqlArg::Date(d)),
        ],
        (parsed_iso_date(v) is None && parsed_rfc3339(v) is Some) ==> condition_pieces(field, op, v)
            == seq![
            Piece::Sql(seq![' '] + qualified(field) + comparison_meant(op)),
            Piece::Bind(SqlArg::Timestamp(parsed_rfc3339(v)->0.utc)),
        ],
        parsed_iso_date(v) is None && parsed_rfc3339(v) is None ==> condition_pieces(field, op, v)
            == seq![Piece::Sql(" 1=0 "@)],
{
    lemma_not_special_column(field);
    reveal_strlit(" ");
    assert(" "@ + qualified(field) =~= seq![' '] + qualified(field));
    lemma_comparison_meant(op);
}

proof fn lemma_comparison_meant(op: Seq<char>)
    requires
        op != "_empty"@,
    ensures
        comparison(op) == comparison_meant(op),
{
    reveal_strlit("_gt");
    assert("_gt"@.len() == 3);
    reveal_strlit("_gte");
    assert("_gte"@.len() == 4);
    reveal_strlit("_lt");
    assert("_lt"@.len() == 3);
    reveal_strlit("_lte");
    assert("_lte"@.len() == 4);
    reveal_strlit("_empty");
    assert("_empty"@.len() == 6);
}

proof fn lemma_not_special_column(field: Seq<char>)
    requires
        numeric_column(field) || date_column(field),
    ensures
        field != "search"@,
        field != "author"@,
        field != "authors"@,
{
    reveal_strlit("search");
    assert("search"@.len() == 6);
    reveal_strlit("author");
    assert("author"@.len() == 6);
    reveal_strlit("authors");
    assert("authors"@.len() == 7);
    reveal_strlit("catalog_number");
    assert("catalog_number"@.len() == 14);
    reveal_strlit("page_count");
    assert("page_count"@.len() == 10);
    reveal_strlit("edition_number");
    assert("edition_number"@.len() == 14);
    reveal_strlit("rating");
    assert("rating"@.len() == 6);
    reveal_strlit("volume_in_collection");
    assert("volume_in_collection"@.len() == 20);
    reveal_strlit("volume_in_series");
    assert("volume_in_series"@.len() == 16);
    reveal_strlit("purchase_price");
    assert("purchase_price"@.len() == 14);
    reveal_strlit("location_position");
    assert("location_position"@.len() == 17);
    reveal_strlit("publish_date");
    assert("publish_date"@.len() == 12);
    reveal_strlit("original_publish_date");
    assert("original_publish_date"@.len() == 21);
    reveal_strlit("purchase_date");
    assert("purchase_date"@.len() == 13);
    reveal_strlit("date_started");
    assert("date_started"@.len() == 12);
    reveal_strlit("date_finished");
    assert("date_finished"@.len() == 13);
    reveal_strlit("loan_date");
    assert("loan_date"@.len() == 9);
    reveal_strlit("expected_return_date");
    assert("expected_return_date"@.len() == 20);
    reveal_strlit("created_at");
    assert("created_at"@.len() == 10);
    reveal_strlit("updated_at");
    assert("updated_at"@.len() == 10);
    assert("search"@[0] == 's');
    assert("author"@[0] == 'a');
    assert("authors"@[0] == 'a');
    assert("rating"@[0] == 'r');
    assert(field != "search"@);
    assert(field != "author"@);
    assert(field != "authors"@);
}

/// A filter value short enough to be bound inside a `%...%` pattern.
pub open spec fn value_bindable(v: Seq<char>) -> bool {
    utf8_len(v) + 2 <= i32::MAX
}

// ------------------------------------------------------------------
// Lemmas
// ------------------------------------------------------------------

pub proof fn lemma_after_push(st: Stmt, ps: Seq<Piece>, p: Piece)
    ensures
        after_pieces(st, ps.push(p)) == after_piece(after_pieces(st, ps), p),
{
    assert(ps.push(p).drop_last() =~= ps);
}

proof fn lemma_patterns_bindable(v: Seq<char>)
    requires
        value_bindable(v),
    ensures
        bindable(SqlArg::Text(surrounded(v))),
        bindable(SqlArg::Text(prefix_pattern(v))),
        bindable(SqlArg::Text(suffix_pattern(v))),
        bindable(SqlArg::Text(v)),
{
    lemma_utf8_len_concat(seq!['%'], v);
    lemma_utf8_len_concat(seq!['%'] + v, seq!['%']);
    lemma_utf8_len_concat(v, seq!['%']);
    assert(seq!['%'].drop_last() =~= Seq::<char>::empty());
    assert(utf8_len(Seq::<char>::empty()) == 0);
    assert(('%' as u32) < 0x80);
    assert(utf8_width('%') == 1);
    assert(utf8_len(seq!['%']) == 1);
}

// ------------------------------------------------------------------
// Column tests
// ------------------------------------------------------------------

fn is_ubi_column(f: &str) -> (r: bool)
    ensures
        r == ubi_column(f@),
{
    str_eq(f, "read_status") || str_eq(f, "rating") || str_eq(f, "personal_notes") || str_eq(
        f,
        "reading_notes",
    ) || str_eq(f, "date_started") || str_eq(f, "date_finished")
}

fn is_text_column(f: &str) -> (r: bool)
    ensures
        r == text_column(f@),
{
    str_eq(f, "title") || str_eq(f, "subtitle") || str_eq(f, "original_title") || str_eq(
        f,
        "publisher",
    ) || str_eq(f, "collection_name") || str_eq(f, "series_name") || str_eq(f, "description")
        || str_eq(f, "table_of_contents") || str_eq(f, "personal_notes") || str_eq(
        f,
        "reading_notes",
    ) || str_eq(f, "location_property") || str_eq(f, "location_room") || str_eq(
        f,
        "location_bookcase",
    ) || str_eq(f, "location_shelf") || str_eq(f, "loaned_to") || str_eq(f, "dimensions")
        || str_eq(f, "weight")
}

fn is_exact_string_column(f: &str) -> (r: bool)
    ensures
        r == exact_string_column(f@),
{
    str_eq(f, "read_status") || str_eq(f, "book_format") || str_eq(f, "condition_state")
        || str_eq(f, "target_audience") || str_eq(f, "language") || str_eq(f, "original_language")
        || str_eq(f, "store_or_vendor") || str_eq(f, "acquisition_type") || str_eq(f, "isbn_13")
        || str_eq(f, "isbn_10") || str_eq(f, "oclc_number") || str_eq(f, "open_library_id")
        || str_eq(f, "edition") || str_eq(f, "edition_number") || str_eq(f, "printing_number")
        || str_eq(f, "original_edition")
}

fn is_numeric_column(f: &str) -> (r: bool)
    ensures
        r == numeric_column(f@),
{
    str_eq(f, "catalog_number") || str_eq(f, "page_count") || str_eq(f, "edition_number")
        || str_eq(f, "rating") || str_eq(f, "volume_in_collection") || str_eq(
        f,
        "volume_in_series",
    ) || str_eq(f, "purchase_price") || str_eq(f, "location_position")
}

fn is_date_column(f: &str) -> (r: bool)
    ensures
        r == date_column(f@),
{
    str_eq(f, "publish_date") || str_eq(f, "original_publish_date") || str_eq(f, "purchase_date")
        || str_eq(f, "date_started") || str_eq(f, "date_finished") || str_eq(f, "loan_date")
        || str_eq(f, "expected_return_date") || str_eq(f, "created_at") || str_eq(f, "updated_at")
}

fn is_boolean_column(f: &str) -> (r: bool)
    ensures
        r == boolean_column(f@),
{
    str_eq(f, "is_first_edition") || str_eq(f, "is_loaned")
}

fn qualify(f: &str) -> (r: String)
    ensures
        r@ == qualified(f@),
{
    let mut r = if is_ubi_column(f) {
        String::from_str("ubi")
    } else {
        String::from_str("b")
    };
    r.push('.');
    r.append(f);
    r
}

/// `" " + a + b`
fn spaced(a: &str, b: &str) -> (r: String)
    ensures
        r@ == " "@ + a@ + b@,
{
    let mut r = String::from_str(" ");
    r.append(a);
    r.append(b);
    r
}

fn comparison_exec(op: &str) -> (r: &'static str)
    ensures
        r@ == comparison(op@),
{
    if str_eq(op, "_gt") {
        " > "
    } else if str_eq(op, "_gte") {
        " >= "
    } else if str_eq(op, "_lt") {
        " < "
    } else if str_eq(op, "_lte") {
        " <= "
    } else {
        " = "
    }
}

fn surround(v: &str) -> (r: String)
    ensures
        r@ == surrounded(v@),
{
    let mut r = String::new();
    r.push('%');
    r.append(v);
    r.push('%');
    r
}

// ------------------------------------------------------------------
// Conditions
// ------------------------------------------------------------------

/// Appends `<column><op>` and binds a text pattern.
fn emit_text_match(qb: &mut SqlBuilder, column: &str, op: &str, pattern: String)
    requires
        open_builder(*old(qb)),
        bindable(SqlArg::Text(pattern@)),
    ensures
        open_builder(*final(qb)),
        stmt_of(*final(qb)) == after_pieces(stmt_of(*old(qb)), text_match(column@, op@, pattern@)),
{
    let ghost st0 = stmt_of(*qb);
    let t = spaced(column, op);
    push_sql(qb, t.as_str());
    let ghost p = pattern@;
    push_bind_text(qb, pattern);
    proof {
        let ps = text_match(column@, op@, p);
        lemma_after_push(st0, seq![ps[0]], ps[1]);
        lemma_after_push(st0, Seq::<Piece>::empty(), ps[0]);
        assert(seq![ps[0]] =~= Seq::<Piece>::empty().push(ps[0]));
        assert(ps =~= seq![ps[0]].push(ps[1]));
    }
}

/// Appends one piece of literal SQL.
fn emit_sql(qb: &mut SqlBuilder, t: &str)
    requires
        open_builder(*old(qb)),
    ensures
        open_builder(*final(qb)),
        stmt_of(*final(qb)) == after_pieces(stmt_of(*old(qb)), seq![Piece::Sql(t@)]),
{
    let ghost st0 = stmt_of(*qb);
    push_sql(qb, t);
    proof {
        lemma_after_push(st0, Seq::<Piece>::empty(), Piece::Sql(t@));
        assert(seq![Piece::Sql(t@)] =~= Seq::<Piece>::empty().push(Piece::Sql(t@)));
    }
}

fn emit_text_condition(qb: &mut SqlBuilder, column: &str, op: &str, v: &str)
    requires
        open_builder(*old(qb)),
        value_bindable(v@),
    ensures
        open_builder(*final(qb)),
        stmt_of(*final(qb)) == after_pieces(stmt_of(*old(qb)), text_condition(column@, op@, v@)),
{
    proof {
        lemma_patterns_bindable(v@);
    }
    if str_eq(op, "_contains_case") {
        emit_text_match(qb, column, " LIKE ", surround(v));
    } else if str_eq(op, "_starts") {
        let mut p = String::from_str(v);
        p.push('%');
        assert(p@ =~= prefix_pattern(v@));
        emit_text_match(qb, column, " ILIKE ", p);
    } else if str_eq(op, "_starts_case") {
        let mut p = String::from_str(v);
        p.push('%');
        assert(p@ =~= prefix_pattern(v@));
        emit_text_match(qb, column, " LIKE ", p);
    } else if str_eq(op, "_ends") {
        let mut p = String::new();
        p.push('%');
        p.append(v);
        assert(p@ =~= suffix_pattern(v@));
        emit_text_match(qb, column, " ILIKE ", p);
    } else if str_eq(op, "_ends_case") {
        let mut p = String::new();
        p.push('%');
        p.append(v);
        assert(p@ =~= suffix_pattern(v@));
        emit_text_match(qb, column, " LIKE ", p);
    } else if str_eq(op, "_exact") {
        emit_text_match(qb, column, " = ", String::from_str(v));
    } else if str_eq(op, "_empty") {
        let mut t = String::from_str(" (");
        t.append(column);
        if str_eq(v, "true") {
            t.append(" IS NULL OR ");
            t.append(column);
            t.append(" = '') ");
        } else {
            t.append(" IS NOT NULL AND ");
            t.append(column);
            t.append(" != '') ");
        }
        emit_sql(qb, t.as_str());
    } else {
        emit_text_match(qb, column, " ILIKE ", surround(v));
    }
}

/// Appends `<column><cmp>` and binds the argument `a`, which `bind` puts in place.
fn emit_numeric_condition(qb: &mut SqlBuilder, column: &str, op: &str, v: &str)
    requires
        open_builder(*old(qb)),
    ensures
        open_builder(*final(qb)),
        stmt_of(*final(qb)) == after_pieces(
            stmt_of(*old(qb)),
            numeric_condition(column@, op@, v@),
        ),
{
    let ghost st0 = stmt_of(*qb);
    match parse_i32(v) {
        Some(n) => {
            let t = spaced(column, comparison_exec(op));
            push_sql(qb, t.as_str());
            push_bind_i32(qb, n);
            proof {
                let ps = numeric_condition(column@, op@, v@);
                lemma_after_push(st0, seq![ps[0]], ps[1]);
                lemma_after_push(st0, Seq::<Piece>::empty(), ps[0]);
                assert(seq![ps[0]] =~= Seq::<Piece>::empty().push(ps[0]));
                assert(ps =~= seq![ps[0]].push(ps[1]));
            }
        },
        None => {
            emit_sql(qb, " 1=0 ");
        },
    }
}

fn emit_date_condition(qb: &mut SqlBuilder, column: &str, op: &str, v: &str)
    requires
        open_builder(*old(qb)),
    ensures
        open_builder(*final(qb)),
        stmt_of(*final(qb)) == after_pieces(stmt_of(*old(qb)), date_condition(column@, op@, v@)),
{
    let ghost st0 = stmt_of(*qb);
    let ghost ps = date_condition(column@, op@, v@);
    if let Some(d) = parse_iso_date(v) {
        let t = spaced(column, comparison_exec(op));
        push_sql(qb, t.as_str());
        push_bind_date(qb, d);
        proof {
            lemma_after_push(st0, seq![ps[0]], ps[1]);
            lemma_after_push(st0, Seq::<Piece>::empty(), ps[0]);
            assert(seq![ps[0]] =~= Seq::<Piece>::empty().push(ps[0]));
            assert(ps =~= seq![ps[0]].push(ps[1]));
        }
    } else if let Some(z) = parse_rfc3339(v) {
        let t = spaced(column, comparison_exec(op));
        push_sql(qb, t.as_str());
        push_bind_timestamp(qb, z.utc);
        proof {
            lemma_after_push(st0, seq![ps[0]], ps[1]);
            lemma_after_push(st0, Seq::<Piece>::empty(), ps[0]);
            assert(seq![ps[0]] =~= Seq::<Piece>::empty().push(ps[0]));
            assert(ps =~= seq![ps[0]].push(ps[1]));
        }
    } else {
        emit_sql(qb, " 1=0 ");
    }
}

/// Appends the SQL of one filter condition: `field` names a column and `operator`
/// a suffix (`_contains`, `_starts`, `_gt`, `_empty`, ...); `value` is bound, never
/// spliced into the text.
pub fn apply_condition(field: &str, operator: &str, value: &str, query: &mut SqlBuilder)
    requires
        open_builder(*old(query)),
        value_bindable(value@),
    ensures
        open_builder(*final(query)),
        stmt_of(*final(query)) == after_pieces(
            stmt_of(*old(query)),
            condition_pieces(field@, operator@, value@),
        ),
{
    let ghost st0 = stmt_of(*query);
    proof {
        lemma_patterns_bindable(value@);
    }
    if str_eq(field, "search") {
        let ghost ps = condition_pieces(field@, operator@, value@);
        push_sql(query, " (b.title ILIKE ");
        push_bind_text(query, surround(value));
        push_sql(query, " OR b.original_title ILIKE ");
        push_bind_text(query, surround(value));
        push_sql(query, ") ");
        proof {
            lemma_after_push(st0, ps.take(4), ps[4]);
            lemma_after_push(st0, ps.take(3), ps[3]);
            lemma_after_push(st0, ps.take(2), ps[2]);
            lemma_after_push(st0, ps.take(1), ps[1]);
            lemma_after_push(st0, ps.take(0), ps[0]);
            assert(ps.take(0).push(ps[0]) =~= ps.take(1));
            assert(ps.take(1).push(ps[1]) =~= ps.take(2));
            assert(ps.take(2).push(ps[2]) =~= ps.take(3));
            assert(ps.take(3).push(ps[3]) =~= ps.take(4));
            assert(ps.take(4).push(ps[4]) =~= ps);
            assert(ps.take(0) =~= Seq::<Piece>::empty());
        }
        return ;
    }
    if str_eq(field, "author") || str_eq(field, "authors") {
        emit_text_match(query, "", "array_to_string(b.authors, ', ') ILIKE ", surround(value));
        proof {
            assert(" "@ + ""@ + "array_to_string(b.authors, ', ') ILIKE "@ =~= " array_to_string(b.authors, ', ') ILIKE "@) by {
                reveal_strlit(" ");
                reveal_strlit("");
                reveal_strlit("array_to_string(b.authors, ', ') ILIKE ");
                reveal_strlit(" array_to_string(b.authors, ', ') ILIKE ");
            }
        }
        return ;
    }
    let full_field = qualify(field);
    if is_text_column(field) || is_exact_string_column(field) {
        emit_text_condition(query, full_field.as_str(), operator, value);
    } else if (is_numeric_column(field) || is_date_column(field) || is_boolean_column(field))
        && str_eq(operator, "_empty") {
        let mut t = String::from_str(" (");
        t.append(full_field.as_str());
        if str_eq(value, "true") {
            t.append(" IS NULL) ");
        } else {
            t.append(" IS NOT NULL) ");
        }
        emit_sql(query, t.as_str());
    } else if is_numeric_column(field) {
        emit_numeric_condition(query, full_field.as_str(), operator, value);
    } else if is_date_column(field) {
        emit_date_condition(query, full_field.as_str(), operator, value);
    } else if is_boolean_column(field) {
        if str_eq(value, "true") {
            let t = spaced(full_field.as_str(), " = TRUE ");
            emit_sql(query, t.as_str());
        } else if str_eq(value, "false") {
            let t = spaced(full_field.as_str(), " = FALSE ");
            emit_sql(query, t.as_str());
        } else {
            emit_sql(query, " 1=0 ");
        }
    } else {
        emit_sql(query, " 1=1 ");
    }
}


// ------------------------------------------------------------------
// Laws of conditions
// ------------------------------------------------------------------

/// The literal SQL of the pieces, each bound argument reduced to its placeholder.
pub open spec fn text_shape(ps: Seq<Piece>) -> Seq<Option<Seq<char>>> {
    ps.map_values(
        |p: Piece|
            match p {
                Piece::Sql(t) => Some(t),
                Piece::Bind(_) => None,
            },
    )
}

/// Two filter values of one kind: both or neither are `true`, `false`, an `i32`, a
/// `YYYY-MM-DD` date, an RFC 3339 instant.
pub open spec fn same_value_kind(v1: Seq<char>, v2: Seq<char>) -> bool {
    &&& (v1 == "true"@) == (v2 == "true"@)
    &&& (v1 == "false"@) == (v2 == "false"@)
    &&& (parsed_i32(v1) is Some) == (parsed_i32(v2) is Some)
    &&& (parsed_iso_date(v1) is Some) == (parsed_iso_date(v2) is Some)
    &&& (parsed_rfc3339(v1) is Some) == (parsed_rfc3339(v2) is Some)
}

/// Pieces with the same literal SQL give the same statement text.
pub proof fn lemma_same_shape_same_text(st: Stmt, ps1: Seq<Piece>, ps2: Seq<Piece>)
    requires
        text_shape(ps1) == text_shape(ps2),
    ensures
        after_pieces(st, ps1).sql == after_pieces(st, ps2).sql,
        after_pieces(st, ps1).args.len() == after_pieces(st, ps2).args.len(),
    decreases ps1.len(),
{
    assert(ps1.len() == text_shape(ps1).len());
    assert(ps2.len() == text_shape(ps2).len());
    if ps1.len() > 0 {
        assert(text_shape(ps1.drop_last()) =~= text_shape(ps1).drop_last());
        assert(text_shape(ps2.drop_last()) =~= text_shape(ps2).drop_last());
        lemma_same_shape_same_text(st, ps1.drop_last(), ps2.drop_last());
        assert(text_shape(ps1)[ps1.len() - 1] == text_shape(ps2)[ps2.len() - 1]);
    }
}

/// A filter value never reaches the statement text: two conditions on the same
/// column with the same operator, whose values are of the same kind, append the same
/// SQL text; the value itself only ever travels as a bound argument.
pub proof fn law_filter_value_is_only_bound(
    st: Stmt,
    field: Seq<char>,
    op: Seq<char>,
    v1: Seq<char>,
    v2: Seq<char>,
)
    requires
        same_value_kind(v1, v2),
    ensures
        after_pieces(st, condition_pieces(field, op, v1)).sql == after_pieces(
            st,
            condition_pieces(field, op, v2),
        ).sql,
{
    lemma_condition_shape(field, op, v1, v2);
    lemma_same_shape_same_text(st, condition_pieces(field, op, v1), condition_pieces(field, op, v2));
}

proof fn lemma_condition_shape(field: Seq<char>, op: Seq<char>, v1: Seq<char>, v2: Seq<char>)
    requires
        same_value_kind(v1, v2),
    ensures
        text_shape(condition_pieces(field, op, v1)) == text_shape(condition_pieces(field, op, v2)),
{
    assert(text_shape(condition_pieces(field, op, v1)) =~= text_shape(condition_pieces(field, op, v2)));
}

proof fn lemma_text_shape_concat(p1: Seq<Piece>, p2: Seq<Piece>)
    ensures
        text_shape(p1 + p2) == text_shape(p1) + text_shape(p2),
{
    assert(text_shape(p1 + p2) =~= text_shape(p1) + text_shape(p2));
}

// ------------------------------------------------------------------
// Filter trees
// ------------------------------------------------------------------

/// What a filter tree appends: a condition as above; AND and OR groups as their
/// members in parentheses, joined by ` AND ` or ` OR `; NOT as `NOT (...)`.
pub open spec fn ast_pieces(ast: QueryAST) -> Seq<Piece>
    decreases ast, 0nat,
{
    match ast {
        QueryAST::Condition { field, operator, value } => condition_pieces(
            field@,
            operator@,
            value@,
        ),
        QueryAST::And { nodes } => seq![Piece::Sql("("@)] + list_pieces(nodes@, " AND "@)
            + seq![Piece::Sql(")"@)],
        QueryAST::Or { nodes } => seq![Piece::Sql("("@)] + list_pieces(nodes@, " OR "@) + seq![
            Piece::Sql(")"@),
        ],
        QueryAST::Not { node } => seq![Piece::Sql("NOT ("@)] + ast_pieces(*node) + seq![
            Piece::Sql(")"@),
        ],
    }
}

/// The members of a group, `sep` between consecutive members.
pub open spec fn list_pieces(nodes: Seq<QueryAST>, sep: Seq<char>) -> Seq<Piece>
    decreases nodes, 1nat,
{
    if nodes.len() == 0 {
        seq![]
    } else if nodes.len() == 1 {
        ast_pieces(nodes[0])
    } else {
        list_pieces(nodes.subrange(0, nodes.len() - 1), sep) + seq![Piece::Sql(sep)] + ast_pieces(
            nodes[nodes.len() - 1],
        )
    }
}

/// Every value of the tree can be bound.
pub open spec fn ast_bindable(ast: QueryAST) -> bool
    decreases ast,
{
    match ast {
        QueryAST::Condition { value, .. } => value_bindable(value@),
        QueryAST::And { nodes } => forall|i: int|
            0 <= i < nodes@.len() ==> ast_bindable(#[trigger] nodes@[i]),
        QueryAST::Or { nodes } => forall|i: int|
            0 <= i < nodes@.len() ==> ast_bindable(#[trigger] nodes@[i]),
        QueryAST::Not { node } => ast_bindable(*node),
    }
}

fn emit_group(nodes: &Vec<QueryAST>, sep: &str, query: &mut SqlBuilder)
    requires
        open_builder(*old(query)),
        forall|i: int| 0 <= i < nodes@.len() ==> ast_bindable(#[trigger] nodes@[i]),
    ensures
        open_builder(*final(query)),
        stmt_of(*final(query)) == after_pieces(
            stmt_of(*old(query)),
            seq![Piece::Sql("("@)] + list_pieces(nodes@, sep@) + seq![Piece::Sql(")"@)],
        ),
    decreases nodes@,
{
    let ghost st0 = stmt_of(*query);
    emit_sql(query, "(");
    let ghost open_paren = seq![Piece::Sql("("@)];
    let n = nodes.len();
    let mut i: usize = 0;
    while i < n
        invariant
            n == nodes@.len(),
            i <= n,
            open_builder(*query),
            forall|k: int| 0 <= k < nodes@.len() ==> ast_bindable(#[trigger] nodes@[k]),
            stmt_of(*query) == after_pieces(
                st0,
                open_paren + list_pieces(nodes@.subrange(0, i as int), sep@),
            ),
        decreases n - i,
    {
        let ghost before = stmt_of(*query);
        let ghost prefix = nodes@.subrange(0, i as int);
        let ghost next = nodes@.subrange(0, i + 1);
        assert(next.subrange(0, next.len() - 1) =~= prefix);
        assert(next[next.len() - 1] == nodes@[i as int]);
        if i > 0 {
            emit_sql(query, sep);
        }
        let ghost mid = stmt_of(*query);
        build_query_recursive(&nodes[i], query);
        proof {
            if i == 0 {
                assert(list_pieces(next, sep@) == ast_pieces(nodes@[0]));
                assert(prefix =~= Seq::<QueryAST>::empty());
                assert(list_pieces(prefix, sep@) == Seq::<Piece>::empty());
                assert(open_paren + list_pieces(prefix, sep@) =~= open_paren);
                lemma_after_pieces_concat(st0, open_paren, ast_pieces(nodes@[0]));
                assert(open_paren + list_pieces(next, sep@) =~= open_paren + ast_pieces(
                    nodes@[0],
                ));
            } else {
                let lp = list_pieces(prefix, sep@);
                assert(list_pieces(next, sep@) == lp + seq![Piece::Sql(sep@)] + ast_pieces(
                    nodes@[i as int],
                ));
                lemma_after_pieces_concat(st0, open_paren + lp, seq![Piece::Sql(sep@)]);
                lemma_after_pieces_concat(
                    st0,
                    open_paren + lp + seq![Piece::Sql(sep@)],
                    ast_pieces(nodes@[i as int]),
                );
                assert(open_paren + list_pieces(next, sep@) =~= open_paren + lp + seq![
                    Piece::Sql(sep@),
                ] + ast_pieces(nodes@[i as int]));
            }
        }
        i = i + 1;
    }
    let ghost body = open_paren + list_pieces(nodes@, sep@);
    assert(nodes@.subrange(0, n as int) =~= nodes@);
    let ghost st1 = stmt_of(*query);
    emit_sql(query, ")");
    proof {
        lemma_after_pieces_concat(st0, body, seq![Piece::Sql(")"@)]);
    }
}

/// Appends the SQL of a filter tree.
pub fn build_query_recursive(ast: &QueryAST, query: &mut SqlBuilder)
    requires
        open_builder(*old(query)),
        ast_bindable(*ast),
    ensures
        open_builder(*final(query)),
        stmt_of(*final(query)) == after_pieces(stmt_of(*old(query)), ast_pieces(*ast)),
    decreases *ast,
{
    match ast {
        QueryAST::Condition { field, operator, value } => {
            apply_condition(field.as_str(), operator.as_str(), value.as_str(), query);
        },
        QueryAST::And { nodes } => {
            emit_group(nodes, " AND ", query);
        },
        QueryAST::Or { nodes } => {
            emit_group(nodes, " OR ", query);
        },
        QueryAST::Not { node } => {
            let ghost st0 = stmt_of(*query);
            let ghost open_not = seq![Piece::Sql("NOT ("@)];
            emit_sql(query, "NOT (");
            build_query_recursive(node, query);
            proof {
                lemma_after_pieces_concat(st0, open_not, ast_pieces(**node));
            }
            let ghost st1 = stmt_of(*query);
            emit_sql(query, ")");
            proof {
                lemma_after_pieces_concat(
                    st0,
                    open_not + ast_pieces(**node),
                    seq![Piece::Sql(")"@)],
                );
            }
        },
    }
}

// ------------------------------------------------------------------
// Filters and sorting
// ------------------------------------------------------------------

/// What a listing's filter appends: ` AND (<tree>)`, or nothing without a filter.
pub open spec fn filter_pieces(filter: Option<QueryAST>) -> Seq<Piece> {
    match filter {
        Some(ast) => seq![Piece::Sql(" AND ("@)] + ast_pieces(ast) + seq![Piece::Sql(")"@)],
        None => seq![],
    }
}

pub open spec fn deref_filter(filter: Option<&QueryAST>) -> Option<QueryAST> {
    match filter {
        Some(a) => Some(*a),
        None => None,
    }
}

pub open spec fn filter_bindable(filter: Option<QueryAST>) -> bool {
    filter matches Some(ast) ==> ast_bindable(ast)
}

/// Appends the filter of a listing. `filter` is the listing's `query` parameter as
/// parsed from its JSON text: `None` when the parameter is absent or does not parse.
pub fn apply_filters(filter: Option<&QueryAST>, query: &mut SqlBuilder)
    requires
        open_builder(*old(query)),
        filter_bindable(deref_filter(filter)),
    ensures
        open_builder(*final(query)),
        stmt_of(*final(query)) == after_pieces(stmt_of(*old(query)), filter_pieces(deref_filter(filter))),
{
    match filter {
        Some(ast) => {
            let ghost st0 = stmt_of(*query);
            let ghost head = seq![Piece::Sql(" AND ("@)];
            emit_sql(query, " AND (");
            build_query_recursive(ast, query);
            proof {
                lemma_after_pieces_concat(st0, head, ast_pieces(*ast));
            }
            emit_sql(query, ")");
            proof {
                lemma_after_pieces_concat(st0, head + ast_pieces(*ast), seq![Piece::Sql(")"@)]);
            }
        },
        None => {
            assert(after_pieces(stmt_of(*query), Seq::<Piece>::empty()) == stmt_of(*query));
        },
    }
}

/// Two filter trees alike but for their values: the same combinations of the same
/// conditions (column and operator), each pair of values of one kind.
pub open spec fn same_tree_shape(a: QueryAST, b: QueryAST) -> bool
    decreases a, 0nat,
{
    match a {
        QueryAST::Condition { field, operator, value } => match b {
            QueryAST::Condition { field: f2, operator: o2, value: v2 } => field@ == f2@
                && operator@ == o2@ && same_value_kind(value@, v2@),
            _ => false,
        },
        QueryAST::And { nodes } => match b {
            QueryAST::And { nodes: n2 } => same_list_shape(nodes@, n2@),
            _ => false,
        },
        QueryAST::Or { nodes } => match b {
            QueryAST::Or { nodes: n2 } => same_list_shape(nodes@, n2@),
            _ => false,
        },
        QueryAST::Not { node } => match b {
            QueryAST::Not { node: m } => same_tree_shape(*node, *m),
            _ => false,
        },
    }
}

pub open spec fn same_list_shape(xs: Seq<QueryAST>, ys: Seq<QueryAST>) -> bool
    decreases xs, 1nat,
{
    if xs.len() == 0 {
        ys.len() == 0
    } else {
        &&& ys.len() == xs.len()
        &&& same_list_shape(xs.subrange(0, xs.len() - 1), ys.subrange(0, ys.len() - 1))
        &&& same_tree_shape(xs[xs.len() - 1], ys[ys.len() - 1])
    }
}

proof fn lemma_tree_shape(a: QueryAST, b: QueryAST)
    requires
        same_tree_shape(a, b),
    ensures
        text_shape(ast_pieces(a)) == text_shape(ast_pieces(b)),
    decreases a, 0nat,
{
    match a {
        QueryAST::Condition { field, operator, value } => match b {
            QueryAST::Condition { field: f2, operator: o2, value: v2 } => {
                lemma_condition_shape(field@, operator@, value@, v2@);
            },
            _ => {},
        },
        QueryAST::And { nodes } => match b {
            QueryAST::And { nodes: n2 } => {
                lemma_group_shape(nodes@, n2@, " AND "@);
            },
            _ => {},
        },
        QueryAST::Or { nodes } => match b {
            QueryAST::Or { nodes: n2 } => {
                lemma_group_shape(nodes@, n2@, " OR "@);
            },
            _ => {},
        },
        QueryAST::Not { node } => match b {
            QueryAST::Not { node: m } => {
                lemma_tree_shape(*node, *m);
                let open_not = seq![Piece::Sql("NOT ("@)];
                let close = seq![Piece::Sql(")"@)];
                lemma_text_shape_concat(open_not, ast_pieces(*node));
                lemma_text_shape_concat(open_not + ast_pieces(*node), close);
                lemma_text_shape_concat(open_not, ast_pieces(*m));
                lemma_text_shape_concat(open_not + ast_pieces(*m), close);
            },
            _ => {},
        },
    }
}

proof fn lemma_group_shape(xs: Seq<QueryAST>, ys: Seq<QueryAST>, sep: Seq<char>)
    requires
        same_list_shape(xs, ys),
    ensures
        text_shape(seq![Piece::Sql("("@)] + list_pieces(xs, sep) + seq![Piece::Sql(")"@)])
            == text_shape(seq![Piece::Sql("("@)] + list_pieces(ys, sep) + seq![Piece::Sql(")"@)]),
    decreases xs, 2nat,
{
    let open_paren = seq![Piece::Sql("("@)];
    let close = seq![Piece::Sql(")"@)];
    lemma_list_shape(xs, ys, sep);
    lemma_text_shape_concat(open_paren, list_pieces(xs, sep));
    lemma_text_shape_concat(open_paren + list_pieces(xs, sep), close);
    lemma_text_shape_concat(open_paren, list_pieces(ys, sep));
    lemma_text_shape_concat(open_paren + list_pieces(ys, sep), close);
}

proof fn lemma_list_shape(xs: Seq<QueryAST>, ys: Seq<QueryAST>, sep: Seq<char>)
    requires
        same_list_shape(xs, ys),
    ensures
        text_shape(list_pieces(xs, sep)) == text_shape(list_pieces(ys, sep)),
    decreases xs, 1nat,
{
    if xs.len() == 1 {
        assert(xs.subrange(0, 0) =~= Seq::<QueryAST>::empty());
        lemma_tree_shape(xs[0], ys[0]);
    } else if xs.len() > 1 {
        let xi = xs.subrange(0, xs.len() - 1);
        let yi = ys.subrange(0, ys.len() - 1);
        let last_x = xs[xs.len() - 1];
        let last_y = ys[ys.len() - 1];
        lemma_list_shape(xi, yi, sep);
        lemma_tree_shape(last_x, last_y);
        let s = seq![Piece::Sql(sep)];
        lemma_text_shape_concat(list_pieces(xi, sep), s);
        lemma_text_shape_concat(list_pieces(xi, sep) + s, ast_pieces(last_x));
        lemma_text_shape_concat(list_pieces(yi, sep), s);
        lemma_text_shape_concat(list_pieces(yi, sep) + s, ast_pieces(last_y));
    }
}

/// The values of a filter never reach the statement text: two filters alike but for
/// their values (see `same_tree_shape`) append the same SQL text to a listing.
pub proof fn law_filter_tree_values_only_bound(st: Stmt, a: QueryAST, b: QueryAST)
    requires
        same_tree_shape(a, b),
    ensures
        after_pieces(st, filter_pieces(Some(a))).sql == after_pieces(st, filter_pieces(Some(b))).sql,
{
    lemma_tree_shape(a, b);
    let head = seq![Piece::Sql(" AND ("@)];
    let close = seq![Piece::Sql(")"@)];
    lemma_text_shape_concat(head, ast_pieces(a));
    lemma_text_shape_concat(head + ast_pieces(a), close);
    lemma_text_shape_concat(head, ast_pieces(b));
    lemma_text_shape_concat(head + ast_pieces(b), close);
    lemma_same_shape_same_text(st, filter_pieces(Some(a)), filter_pieces(Some(b)));
}

// ------------------------------------------------------------------
// Suffix filters of the query string
// ------------------------------------------------------------------

/// `name` is a column name followed by `op`.
pub open spec fn has_suffix(name: Seq<char>, op: Seq<char>) -> bool {
    name.len() > op.len() && ends_with(name, op)
}

/// The suffix operator a query-string parameter ends with, if any.
pub open spec fn suffix_operator(name: Seq<char>) -> Option<Seq<char>> {
    if has_suffix(name, "_contains_case"@) {
        Some("_contains_case"@)
    } else if has_suffix(name, "_contains"@) {
        Some("_contains"@)
    } else if has_suffix(name, "_starts_case"@) {
        Some("_starts_case"@)
    } else if has_suffix(name, "_starts"@) {
        Some("_starts"@)
    } else if has_suffix(name, "_ends_case"@) {
        Some("_ends_case"@)
    } else if has_suffix(name, "_ends"@) {
        Some("_ends"@)
    } else if has_suffix(name, "_exact"@) {
        Some("_exact"@)
    } else if has_suffix(name, "_gte"@) {
        Some("_gte"@)
    } else if has_suffix(name, "_gt"@) {
        Some("_gt"@)
    } else if has_suffix(name, "_lte"@) {
        Some("_lte"@)
    } else if has_suffix(name, "_lt"@) {
        Some("_lt"@)
    } else if has_suffix(name, "_empty"@) {
        Some("_empty"@)
    } else {
        None
    }
}

/// What one `<column><suffix>=<value>` parameter appends: ` AND ` and the condition of
/// the column, the suffix and the value; nothing for a parameter without a suffix.
pub open spec fn suffix_condition(name: Seq<char>, v: Seq<char>) -> Seq<Piece> {
    match suffix_operator(name) {
        Some(op) => seq![Piece::Sql(" AND "@)] + condition_pieces(
            name.take(name.len() - op.len()),
            op,
            v,
        ),
        None => seq![],
    }
}

/// What the suffix filters append, one after the other.
pub open spec fn suffix_pieces(fs: Seq<(String, String)>) -> Seq<Piece>
    decreases fs.len(),
{
    if fs.len() == 0 {
        seq![]
    } else {
        suffix_pieces(fs.drop_last()) + suffix_condition(fs.last().0@, fs.last().1@)
    }
}

pub open spec fn suffix_bindable(fs: Seq<(String, String)>) -> bool {
    forall|i: int| 0 <= i < fs.len() ==> value_bindable(#[trigger] fs[i].1@)
}

fn has_suffix_exec(name: &str, op: &str) -> (r: bool)
    ensures
        r == has_suffix(name@, op@),
{
    name.unicode_len() > op.unicode_len() && ends_with_exec(name, op)
}

fn suffix_operator_exec(name: &str) -> (r: Option<&'static str>)
    ensures
        r matches Some(op) ==> suffix_operator(name@) == Some(op@),
        r is None ==> suffix_operator(name@) is None,
{
    if has_suffix_exec(name, "_contains_case") {
        Some("_contains_case")
    } else if has_suffix_exec(name, "_contains") {
        Some("_contains")
    } else if has_suffix_exec(name, "_starts_case") {
        Some("_starts_case")
    } else if has_suffix_exec(name, "_starts") {
        Some("_starts")
    } else if has_suffix_exec(name, "_ends_case") {
        Some("_ends_case")
    } else if has_suffix_exec(name, "_ends") {
        Some("_ends")
    } else if has_suffix_exec(name, "_exact") {
        Some("_exact")
    } else if has_suffix_exec(name, "_gte") {
        Some("_gte")
    } else if has_suffix_exec(name, "_gt") {
        Some("_gt")
    } else if has_suffix_exec(name, "_lte") {
        Some("_lte")
    } else if has_suffix_exec(name, "_lt") {
        Some("_lt")
    } else if has_suffix_exec(name, "_empty") {
        Some("_empty")
    } else {
        None
    }
}

/// Appends the condition of one suffix filter (see `suffix_condition`).
pub fn apply_suffix_filter(name: &str, value: &str, query: &mut SqlBuilder)
    requires
        open_builder(*old(query)),
        value_bindable(value@),
    ensures
        open_builder(*final(query)),
        stmt_of(*final(query)) == after_pieces(stmt_of(*old(query)), suffix_condition(name@, value@)),
{
    let ghost st0 = stmt_of(*query);
    match suffix_operator_exec(name) {
        Some(op) => {
            let n = name.unicode_len();
            let m = op.unicode_len();
            let field = name.substring_char(0, n - m);
            assert(field@ =~= name@.take(name@.len() - op@.len()));
            let ghost head = seq![Piece::Sql(" AND "@)];
            emit_sql(query, " AND ");
            apply_condition(field, op, value, query);
            proof {
                lemma_after_pieces_concat(st0, head, condition_pieces(field@, op@, value@));
            }
        },
        None => {
            assert(after_pieces(st0, Seq::<Piece>::empty()) == st0);
        },
    }
}

/// Appends the suffix filters of a listing, in order.
pub fn apply_suffix_filters(filters: &Vec<(String, String)>, query: &mut SqlBuilder)
    requires
        open_builder(*old(query)),
        suffix_bindable(filters@),
    ensures
        open_builder(*final(query)),
        stmt_of(*final(query)) == after_pieces(stmt_of(*old(query)), suffix_pieces(filters@)),
{
    let ghost st0 = stmt_of(*query);
    let n = filters.len();
    let mut i: usize = 0;
    assert(filters@.take(0) =~= Seq::<(String, String)>::empty());
    while i < n
        invariant
            n == filters@.len(),
            i <= n,
            suffix_bindable(filters@),
            open_builder(*query),
            stmt_of(*query) == after_pieces(st0, suffix_pieces(filters@.take(i as int))),
        decreases n - i,
    {
        let ghost before = suffix_pieces(filters@.take(i as int));
        assert(filters@.take(i + 1).drop_last() =~= filters@.take(i as int));
        assert(filters@.take(i + 1).last() == filters@[i as int]);
        assert(value_bindable(filters@[i as int].1@));
        apply_suffix_filter(filters[i].0.as_str(), filters[i].1.as_str(), query);
        proof {
            lemma_after_pieces_concat(
                st0,
                before,
                suffix_condition(filters@[i as int].0@, filters@[i as int].1@),
            );
        }
        i = i + 1;
    }
    assert(filters@.take(n as int) =~= filters@);
}

/// Columns a listing can be sorted by.
pub open spec fn sortable_column(c: Seq<char>) -> bool {
    ||| c == "catalog_number"@ ||| c == "title"@ ||| c == "page_count"@ ||| c == "rating"@
    ||| c == "publish_date"@ ||| c == "created_at"@ ||| c == "updated_at"@
    ||| c == "purchase_price"@ ||| c == "authors"@ ||| c == "publisher"@ ||| c == "isbn_13"@
    ||| c == "location_room"@ ||| c == "location_bookcase"@ ||| c == "subtitle"@
    ||| c == "original_title"@ ||| c == "translators"@ ||| c == "illustrators"@
    ||| c == "original_publish_date"@ ||| c == "isbn_10"@ ||| c == "oclc_number"@
    ||| c == "open_library_id"@ ||| c == "edition"@ ||| c == "edition_number"@
    ||| c == "printing_number"@ ||| c == "original_edition"@ ||| c == "is_first_edition"@
    ||| c == "collection_name"@ ||| c == "volume_in_collection"@ ||| c == "series_name"@
    ||| c == "volume_in_series"@ ||| c == "book_format"@ ||| c == "dimensions"@
    ||| c == "weight"@ ||| c == "language"@ ||| c == "original_language"@ ||| c == "subjects"@
    ||| c == "genres"@ ||| c == "target_audience"@ ||| c == "purchase_date"@
    ||| c == "store_or_vendor"@ ||| c == "acquisition_type"@ ||| c == "location_property"@
    ||| c == "location_shelf"@ ||| c == "location_position"@ ||| c == "condition_state"@
    ||| c == "read_status"@ ||| c == "date_started"@ ||| c == "date_finished"@
    ||| c == "is_loaned"@ ||| c == "loaned_to"@ ||| c == "loan_date"@
    ||| c == "expected_return_date"@ ||| c == "description"@ ||| c == "table_of_contents"@
    ||| c == "personal_notes"@ ||| c == "reading_notes"@
}

pub open spec fn opt_view(o: Option<String>) -> Option<Seq<char>> {
    match o {
        Some(s) => Some(s@),
        None => None,
    }
}

/// The column a listing is sorted by: the requested one if it may be sorted by,
/// `created_at` otherwise.
pub open spec fn sort_column(sort_by: Option<Seq<char>>) -> Seq<char> {
    match sort_by {
        Some(c) => if sortable_column(c) {
            c
        } else {
            "created_at"@
        },
        None => "created_at"@,
    }
}

/// Ascending only when `asc` is asked for; descending otherwise.
pub open spec fn sort_direction(sort_order: Option<Seq<char>>) -> Seq<char> {
    if sort_order == Some("asc"@) {
        "ASC"@
    } else {
        "DESC"@
    }
}

pub open spec fn sorting_clause(sort_by: Option<Seq<char>>, sort_order: Option<Seq<char>>) -> Seq<
    char,
> {
    let col = sort_column(sort_by);
    " ORDER BY "@ + (if ubi_column(col) {
        "ubi"@
    } else {
        "b"@
    }) + "."@ + col + " "@ + sort_direction(sort_order) + " NULLS LAST, b.id ASC "@
}

fn is_sortable_column(c: &str) -> (r: bool)
    ensures
        r == sortable_column(c@),
{
    str_eq(c, "catalog_number") || str_eq(c, "title") || str_eq(c, "page_count") || str_eq(
        c,
        "rating",
    ) || str_eq(c, "publish_date") || str_eq(c, "created_at") || str_eq(c, "updated_at")
        || str_eq(c, "purchase_price") || str_eq(c, "authors") || str_eq(c, "publisher")
        || str_eq(c, "isbn_13") || str_eq(c, "location_room") || str_eq(c, "location_bookcase")
        || str_eq(c, "subtitle") || str_eq(c, "original_title") || str_eq(c, "translators")
        || str_eq(c, "illustrators") || str_eq(c, "original_publish_date") || str_eq(
        c,
        "isbn_10",
    ) || str_eq(c, "oclc_number") || str_eq(c, "open_library_id") || str_eq(c, "edition")
        || str_eq(c, "edition_number") || str_eq(c, "printing_number") || str_eq(
        c,
        "original_edition",
    ) || str_eq(c, "is_first_edition") || str_eq(c, "collection_name") || str_eq(
        c,
        "volume_in_collection",
    ) || str_eq(c, "series_name") || str_eq(c, "volume_in_series") || str_eq(c, "book_format")
        || str_eq(c, "dimensions") || str_eq(c, "weight") || str_eq(c, "language") || str_eq(
        c,
        "original_language",
    ) || str_eq(c, "subjects") || str_eq(c, "genres") || str_eq(c, "target_audience") || str_eq(
        c,
        "purchase_date",
    ) || str_eq(c, "store_or_vendor") || str_eq(c, "acquisition_type") || str_eq(
        c,
        "location_property",
    ) || str_eq(c, "location_shelf") || str_eq(c, "location_position") || str_eq(
        c,
        "condition_state",
    ) || str_eq(c, "read_status") || str_eq(c, "date_started") || str_eq(c, "date_finished")
        || str_eq(c, "is_loaned") || str_eq(c, "loaned_to") || str_eq(c, "loan_date") || str_eq(
        c,
        "expected_return_date",
    ) || str_eq(c, "description") || str_eq(c, "table_of_contents") || str_eq(
        c,
        "personal_notes",
    ) || str_eq(c, "reading_notes")
}

/// Appends the ordering of a listing: by the chosen column (the requesting user's
/// reading data for its columns), missing values last, ties broken by book id.
pub fn apply_sorting(query_params: &BookFilterQuery, query: &mut SqlBuilder)
    requires
        open_builder(*old(query)),
    ensures
        open_builder(*final(query)),
        stmt_of(*final(query)) == after_pieces(
            stmt_of(*old(query)),
            seq![
                Piece::Sql(
                    sorting_clause(opt_view(query_params.sort_by), opt_view(query_params.sort_order)),
                ),
            ],
        ),
{
    let col: &str = match &query_params.sort_by {
        Some(c) => if is_sortable_column(c.as_str()) {
            c.as_str()
        } else {
            "created_at"
        },
        None => "created_at",
    };
    let ascending = match &query_params.sort_order {
        Some(o) => str_eq(o.as_str(), "asc"),
        None => false,
    };
    let mut t = String::from_str(" ORDER BY ");
    if is_ubi_column(col) {
        t.append("ubi");
    } else {
        t.append("b");
    }
    t.append(".");
    t.append(col);
    t.append(" ");
    if ascending {
        t.append("ASC");
    } else {
        t.append("DESC");
    }
    t.append(" NULLS LAST, b.id ASC ");
    emit_sql(query, t.as_str());
}

// ------------------------------------------------------------------
// Listing statements
// ------------------------------------------------------------------

/// Selects books with the requesting user's reading data.
pub const SELECT_BOOKS: &'static str = "SELECT b.*, ubi.read_status, ubi.rating, ubi.personal_notes, ubi.reading_notes, ubi.date_started, ubi.date_finished FROM books b LEFT JOIN user_book_interactions ubi ON b.id = ubi.book_id AND ubi.user_id = ";

/// Counts the same rows.
pub const COUNT_BOOKS: &'static str = "SELECT COUNT(*) FROM books b LEFT JOIN user_book_interactions ubi ON b.id = ubi.book_id AND ubi.user_id = ";

/// Restricts the rows to the libraries the user owns or is a member of.
pub const VISIBLE_LIBRARIES: &'static str = " WHERE b.library_id IN (SELECT l.id FROM libraries l LEFT JOIN library_members lm ON l.id = lm.library_id WHERE l.owner_id = ";

pub open spec fn start(init: Seq<char>) -> Stmt {
    Stmt { sql: init, args: Seq::empty() }
}

/// Completes the join on the user and keeps the books of libraries the user can see.
pub open spec fn visibility_pieces(user_id: u128) -> Seq<Piece> {
    seq![
        Piece::Bind(SqlArg::Uuid(user_id)),
        Piece::Sql(VISIBLE_LIBRARIES@),
        Piece::Bind(SqlArg::Uuid(user_id)),
        Piece::Sql(" OR lm.user_id = "@),
        Piece::Bind(SqlArg::Uuid(user_id)),
        Piece::Sql(") "@),
    ]
}

pub open spec fn library_pieces(library_id: Option<u128>) -> Seq<Piece> {
    match library_id {
        Some(id) => seq![Piece::Sql(" AND b.library_id = "@), Piece::Bind(SqlArg::Uuid(id))],
        None => seq![],
    }
}

/// What restricts the rows of a listing (shared by the page and its count): the
/// libraries the user sees, the chosen library, the filter tree and the suffix filters.
pub open spec fn listing_pieces(p: BookFilterQuery, filter: Option<QueryAST>, user_id: u128) -> Seq<
    Piece,
> {
    visibility_pieces(user_id) + library_pieces(p.library_id) + filter_pieces(filter) + suffix_pieces(
        p.suffix_filters@,
    )
}

/// A page holds between 1 and 100000 books.
pub open spec fn clamped_limit(l: i64) -> i64 {
    if l < 1 {
        1
    } else if l > 100000 {
        100000
    } else {
        l
    }
}

pub open spec fn paging_pieces(p: BookFilterQuery) -> Seq<Piece> {
    (match p.limit {
        Some(l) => seq![Piece::Sql(" LIMIT "@), Piece::Bind(SqlArg::Int8(clamped_limit(l)))],
        None => seq![],
    }) + (match p.offset {
        Some(o) => seq![
            Piece::Sql(" OFFSET "@),
            Piece::Bind(SqlArg::Int8(if o < 0 {
                0
            } else {
                o
            })),
        ],
        None => seq![],
    })
}

pub open spec fn page_pieces(p: BookFilterQuery, filter: Option<QueryAST>, user_id: u128) -> Seq<
    Piece,
> {
    listing_pieces(p, filter, user_id) + seq![
        Piece::Sql(sorting_clause(opt_view(p.sort_by), opt_view(p.sort_order))),
    ] + paging_pieces(p)
}


/// A listing is always sorted by a column it may be sorted by, whatever was asked.
pub proof fn law_sort_column_allowed(sort_by: Option<Seq<char>>)
    ensures
        sortable_column(sort_column(sort_by)),
{
}

/// A page holds between 1 and 100000 books, and exactly the requested number when
/// that lies in the range; an offset is never negative.
pub proof fn law_page_bounds(limit: i64, offset: i64)
    ensures
        1 <= clamped_limit(limit) <= 100000,
        1 <= limit <= 100000 ==> clamped_limit(limit) == limit,
        (if offset < 0 { 0 } else { offset }) >= 0,
{
}

// ------------------------------------------------------------------
// Laws of listings
// ------------------------------------------------------------------

/// The rows that `LIMIT limit OFFSET offset` keeps of the sorted rows of a listing.
pub open spec fn paged<A>(rows: Seq<A>, limit: int, offset: int) -> Seq<A> {
    let start = if offset < rows.len() {
        offset
    } else {
        rows.len() as int
    };
    let end = if offset + limit < rows.len() {
        offset + limit
    } else {
        rows.len() as int
    };
    rows.subrange(start, end)
}

/// The first `n` pages of `limit` rows, one after the other.
pub open spec fn first_pages<A>(rows: Seq<A>, limit: int, n: nat) -> Seq<A>
    decreases n,
{
    if n == 0 {
        seq![]
    } else {
        first_pages(rows, limit, (n - 1) as nat) + paged(rows, limit, (n - 1) * limit)
    }
}

/// Consecutive pages partition a listing: the first `n` pages of `limit` rows are the
/// first `n * limit` rows in order, and, once they reach its end, the whole listing.
pub proof fn law_pages_partition_listing<A>(rows: Seq<A>, limit: int, n: nat)
    requires
        limit >= 1,
    ensures
        first_pages(rows, limit, n) == rows.take(
            if n * limit < rows.len() {
                n * limit
            } else {
                rows.len() as int
            },
        ),
        n * limit >= rows.len() ==> first_pages(rows, limit, n) == rows,
    decreases n,
{
    assert(n * limit >= 0) by (nonlinear_arith)
        requires
            limit >= 1,
    ;
    if n == 0 {
        assert(n * limit == 0) by (nonlinear_arith)
            requires
                n == 0,
        ;
        assert(rows.take(0) =~= Seq::<A>::empty());
    } else {
        let m = (n - 1) as nat;
        law_pages_partition_listing(rows, limit, m);
        assert(m * limit + limit == n * limit) by (nonlinear_arith)
            requires
                m == n - 1,
        ;
        assert(m * limit >= 0) by (nonlinear_arith)
            requires
                limit >= 1,
        ;
        let before = if m * limit < rows.len() {
            m * limit
        } else {
            rows.len() as int
        };
        let after = if n * limit < rows.len() {
            n * limit
        } else {
            rows.len() as int
        };
        assert(first_pages(rows, limit, n) == first_pages(rows, limit, m) + paged(
            rows,
            limit,
            m * limit,
        ));
        assert(rows.take(before) + paged(rows, limit, m * limit) =~= rows.take(after));
        assert(first_pages(rows, limit, n) == rows.take(after));
    }
    if n * limit >= rows.len() {
        assert(rows.take(rows.len() as int) =~= rows);
    }
}

/// The pages of one listing differ only in their paging: requests alike but for
/// `limit` and `offset` restrict and sort the rows alike, sort them totally (the book
/// id breaks every tie), and a page of `limit` rows from row `offset` binds exactly
/// these two numbers when they lie in range; their counts are one statement.
pub proof fn law_pages_share_listing(
    p: BookFilterQuery,
    q: BookFilterQuery,
    filter: Option<QueryAST>,
    user_id: u128,
)
    requires
        p.sort_by == q.sort_by,
        p.sort_order == q.sort_order,
        p.library_id == q.library_id,
        p.suffix_filters@ == q.suffix_filters@,
    ensures
        page_pieces(p, filter, user_id) == listing_pieces(q, filter, user_id) + seq![
            Piece::Sql(sorting_clause(opt_view(q.sort_by), opt_view(q.sort_order))),
        ] + paging_pieces(p),
        listing_pieces(p, filter, user_id) == listing_pieces(q, filter, user_id),
        ends_with(
            sorting_clause(opt_view(q.sort_by), opt_view(q.sort_order)),
            " NULLS LAST, b.id ASC "@,
        ),
        (p.limit matches Some(l) && 1 <= l <= 100000) ==> (p.offset matches Some(o) && o >= 0)
            ==> paging_pieces(p) == seq![
            Piece::Sql(" LIMIT "@),
            Piece::Bind(SqlArg::Int8(p.limit->0)),
            Piece::Sql(" OFFSET "@),
            Piece::Bind(SqlArg::Int8(p.offset->0)),
        ],
{
    let c = sorting_clause(opt_view(q.sort_by), opt_view(q.sort_order));
    let tail = " NULLS LAST, b.id ASC "@;
    assert(c.skip(c.len() - tail.len()) =~= tail);
    if p.limit is Some && p.offset is Some {
        assert(paging_pieces(p) =~= seq![
            Piece::Sql(" LIMIT "@),
            Piece::Bind(SqlArg::Int8(clamped_limit(p.limit->0))),
            Piece::Sql(" OFFSET "@),
            Piece::Bind(SqlArg::Int8(if p.offset->0 < 0 { 0 } else { p.offset->0 })),
        ]);
    }
}

/// An export without chosen ids is the unpaged listing: for a request that names no
/// library and no page, its statement is the listing's page statement.
pub proof fn law_export_is_unpaged_listing(p: BookFilterQuery, filter: Option<QueryAST>, user_id: u128)
    requires
        p.library_id is None,
        p.limit is None,
        p.offset is None,
    ensures
        page_pieces(p, filter, user_id) == visibility_pieces(user_id) + selection_pieces(
            filter,
            p.suffix_filters@,
            None,
        ) + seq![Piece::Sql(sorting_clause(opt_view(p.sort_by), opt_view(p.sort_order)))],
{
    assert(library_pieces(p.library_id) =~= Seq::<Piece>::empty());
    assert(paging_pieces(p) =~= Seq::<Piece>::empty());
    assert(page_pieces(p, filter, user_id) =~= visibility_pieces(user_id) + selection_pieces(
        filter,
        p.suffix_filters@,
        None,
    ) + seq![Piece::Sql(sorting_clause(opt_view(p.sort_by), opt_view(p.sort_order)))]);
}

fn emit_visibility(query: &mut SqlBuilder, user_id: u128)
    requires
        open_builder(*old(query)),
    ensures
        open_builder(*final(query)),
        stmt_of(*final(query)) == after_pieces(stmt_of(*old(query)), visibility_pieces(user_id)),
{
    let ghost st0 = stmt_of(*query);
    let ghost ps = visibility_pieces(user_id);
    push_bind_uuid(query, user_id);
    push_sql(query, VISIBLE_LIBRARIES);
    push_bind_uuid(query, user_id);
    push_sql(query, " OR lm.user_id = ");
    push_bind_uuid(query, user_id);
    push_sql(query, ") ");
    proof {
        lemma_unfold_pieces(st0, ps, 1);
        lemma_unfold_pieces(st0, ps, 2);
        lemma_unfold_pieces(st0, ps, 3);
        lemma_unfold_pieces(st0, ps, 4);
        lemma_unfold_pieces(st0, ps, 5);
        lemma_unfold_pieces(st0, ps, 6);
    }
}

/// `after_pieces` over the first `k` pieces, one piece at a time.
pub proof fn lemma_unfold_pieces(st: Stmt, ps: Seq<Piece>, k: int)
    requires
        0 <= k <= ps.len(),
    ensures
        after_pieces(st, ps.take(k)) == (if k == 0 {
            st
        } else {
            after_piece(after_pieces(st, ps.take(k - 1)), ps[k - 1])
        }),
        k == ps.len() ==> ps.take(k) == ps,
    decreases k,
{
    if k > 0 {
        assert(ps.take(k).drop_last() =~= ps.take(k - 1));
        lemma_unfold_pieces(st, ps, k - 1);
    } else {
        assert(ps.take(0) =~= Seq::<Piece>::empty());
    }
    if k == ps.len() {
        assert(ps.take(k) =~= ps);
    }
}

fn emit_library(query: &mut SqlBuilder, library_id: Option<u128>)
    requires
        open_builder(*old(query)),
    ensures
        open_builder(*final(query)),
        stmt_of(*final(query)) == after_pieces(stmt_of(*old(query)), library_pieces(library_id)),
{
    let ghost st0 = stmt_of(*query);
    let ghost ps = library_pieces(library_id);
    if let Some(lib_id) = library_id {
        push_sql(query, " AND b.library_id = ");
        push_bind_uuid(query, lib_id);
        proof {
            lemma_unfold_pieces(st0, ps, 1);
            lemma_unfold_pieces(st0, ps, 2);
        }
    } else {
        assert(after_pieces(st0, ps) == st0);
    }
}

fn emit_paging(query: &mut SqlBuilder, p: &BookFilterQuery)
    requires
        open_builder(*old(query)),
    ensures
        open_builder(*final(query)),
        stmt_of(*final(query)) == after_pieces(stmt_of(*old(query)), paging_pieces(*p)),
{
    let ghost st0 = stmt_of(*query);
    let ghost lp: Seq<Piece> = match p.limit {
        Some(l) => seq![Piece::Sql(" LIMIT "@), Piece::Bind(SqlArg::Int8(clamped_limit(l)))],
        None => seq![],
    };
    if let Some(limit) = p.limit {
        let clamped: i64 = if limit < 1 {
            1
        } else if limit > 100000 {
            100000
        } else {
            limit
        };
        push_sql(query, " LIMIT ");
        push_bind_i64(query, clamped);
        proof {
            lemma_unfold_pieces(st0, lp, 1);
            lemma_unfold_pieces(st0, lp, 2);
        }
    }
    assert(stmt_of(*query) == after_pieces(st0, lp));
    let ghost st1 = stmt_of(*query);
    let ghost op: Seq<Piece> = match p.offset {
        Some(o) => seq![
            Piece::Sql(" OFFSET "@),
            Piece::Bind(SqlArg::Int8(if o < 0 {
                0
            } else {
                o
            })),
        ],
        None => seq![],
    };
    if let Some(offset) = p.offset {
        let o: i64 = if offset < 0 {
            0
        } else {
            offset
        };
        push_sql(query, " OFFSET ");
        push_bind_i64(query, o);
        proof {
            lemma_unfold_pieces(st1, op, 1);
            lemma_unfold_pieces(st1, op, 2);
        }
    }
    assert(stmt_of(*query) == after_pieces(st1, op));
    proof {
        lemma_after_pieces_concat(st0, lp, op);
    }
}

/// The two statements of a book listing: the requested page of books, and the count
/// of all books the listing matches. Both restrict the rows alike; only the page is
/// sorted and paged. `filter` is the parsed `query` parameter (see `apply_filters`);
/// the `<column><suffix>` parameters add their conditions (see `suffix_condition`).
pub fn fetch_books_queries(
    query_params: &BookFilterQuery,
    filter: Option<&QueryAST>,
    user_id: u128,
) -> (r: (SqlBuilder, SqlBuilder))
    requires
        filter_bindable(deref_filter(filter)),
        suffix_bindable(query_params.suffix_filters@),
    ensures
        open_builder(r.0),
        open_builder(r.1),
        stmt_of(r.0) == after_pieces(
            start(SELECT_BOOKS@),
            page_pieces(*query_params, deref_filter(filter), user_id),
        ),
        stmt_of(r.1) == after_pieces(
            start(COUNT_BOOKS@),
            listing_pieces(*query_params, deref_filter(filter), user_id),
        ),
{
    let ghost f = deref_filter(filter);
    let ghost vis = visibility_pieces(user_id);
    let ghost lib = library_pieces(query_params.library_id);
    let ghost fil = filter_pieces(f);
    let ghost suf = suffix_pieces(query_params.suffix_filters@);
    let ghost sort = seq![
        Piece::Sql(sorting_clause(opt_view(query_params.sort_by), opt_view(query_params.sort_order))),
    ];
    let ghost pag = paging_pieces(*query_params);

    let mut query = new_builder(SELECT_BOOKS);
    let ghost s0 = stmt_of(query);
    emit_visibility(&mut query, user_id);
    let mut count_query = new_builder(COUNT_BOOKS);
    let ghost c0 = stmt_of(count_query);
    emit_visibility(&mut count_query, user_id);
    emit_library(&mut query, query_params.library_id);
    emit_library(&mut count_query, query_params.library_id);
    apply_filters(filter, &mut query);
    apply_filters(filter, &mut count_query);
    apply_suffix_filters(&query_params.suffix_filters, &mut query);
    apply_suffix_filters(&query_params.suffix_filters, &mut count_query);
    apply_sorting(query_params, &mut query);
    emit_paging(&mut query, query_params);
    proof {
        lemma_after_pieces_concat(s0, vis, lib);
        lemma_after_pieces_concat(s0, vis + lib, fil);
        lemma_after_pieces_concat(s0, vis + lib + fil, suf);
        lemma_after_pieces_concat(s0, vis + lib + fil + suf, sort);
        lemma_after_pieces_concat(s0, vis + lib + fil + suf + sort, pag);
        lemma_after_pieces_concat(c0, vis, lib);
        lemma_after_pieces_concat(c0, vis + lib, fil);
        lemma_after_pieces_concat(c0, vis + lib + fil, suf);
    }
    (query, count_query)
}

/// What an export keeps of the books: the chosen ids, or, without a choice, the
/// listing filter and suffix filters.
pub open spec fn selection_pieces(
    filter: Option<QueryAST>,
    suffix_filters: Seq<(String, String)>,
    specific_ids: Option<Seq<u128>>,
) -> Seq<Piece> {
    match specific_ids {
        Some(ids) => if ids.len() > 0 {
            seq![
                Piece::Sql(" AND b.id = ANY("@),
                Piece::Bind(SqlArg::UuidArray(ids)),
                Piece::Sql(") "@),
            ]
        } else {
            seq![Piece::Sql(" AND 1=0 "@)]
        },
        None => filter_pieces(filter) + suffix_pieces(suffix_filters),
    }
}

pub open spec fn opt_ids(ids: Option<Vec<u128>>) -> Option<Seq<u128>> {
    match ids {
        Some(v) => Some(v@),
        None => None,
    }
}

/// The statement of an export: the visible books, restricted to `specific_ids` when
/// given (none at all when that list is empty), else by the listing filter and suffix
/// filters, and sorted as a listing.
pub fn fetch_all_for_export_query(
    query_params: &BookFilterQuery,
    filter: Option<&QueryAST>,
    specific_ids: Option<Vec<u128>>,
    user_id: u128,
) -> (r: SqlBuilder)
    requires
        filter_bindable(deref_filter(filter)),
        specific_ids matches Some(ids) ==> bindable(SqlArg::UuidArray(ids@)),
        suffix_bindable(query_params.suffix_filters@),
    ensures
        open_builder(r),
        stmt_of(r) == after_pieces(
            start(SELECT_BOOKS@),
            visibility_pieces(user_id) + selection_pieces(
                deref_filter(filter),
                query_params.suffix_filters@,
                opt_ids(specific_ids),
            ) + seq![
                Piece::Sql(
                    sorting_clause(opt_view(query_params.sort_by), opt_view(query_params.sort_order)),
                ),
            ],
        ),
{
    let ghost vis = visibility_pieces(user_id);
    let ghost sel = selection_pieces(
        deref_filter(filter),
        query_params.suffix_filters@,
        opt_ids(specific_ids),
    );
    let ghost sort = seq![
        Piece::Sql(sorting_clause(opt_view(query_params.sort_by), opt_view(query_params.sort_order))),
    ];
    let mut query = new_builder(SELECT_BOOKS);
    let ghost s0 = stmt_of(query);
    emit_visibility(&mut query, user_id);
    let ghost s1 = stmt_of(query);
    match specific_ids {
        Some(ids) => {
            if ids.len() > 0 {
                let ghost idv = ids@;
                push_sql(&mut query, " AND b.id = ANY(");
                push_bind_uuid_array(&mut query, ids);
                push_sql(&mut query, ") ");
                proof {
                    lemma_unfold_pieces(s1, sel, 1);
                    lemma_unfold_pieces(s1, sel, 2);
                    lemma_unfold_pieces(s1, sel, 3);
                }
            } else {
                emit_sql(&mut query, " AND 1=0 ");
            }
        },
        None => {
            apply_filters(filter, &mut query);
            apply_suffix_filters(&query_params.suffix_filters, &mut query);
            proof {
                lemma_after_pieces_concat(
                    s1,
                    filter_pieces(deref_filter(filter)),
                    suffix_pieces(query_params.suffix_filters@),
                );
            }
        },
    }
    apply_sorting(query_params, &mut query);
    proof {
        lemma_after_pieces_concat(s0, vis, sel);
        lemma_after_pieces_concat(s0, vis + sel, sort);
    }
    query
}

// ------------------------------------------------------------------
// Autocompletion
// ------------------------------------------------------------------

/// Text columns whose distinct values are suggested.
pub open spec fn scalar_suggestion_field(f: Seq<char>) -> bool {
    ||| f == "publisher"@ ||| f == "collection_name"@ ||| f == "series_name"@
    ||| f == "language"@ ||| f == "original_language"@ ||| f == "book_format"@
    ||| f == "store_or_vendor"@ ||| f == "acquisition_type"@ ||| f == "title"@
    ||| f == "subtitle"@ ||| f == "original_title"@ ||| f == "condition_state"@
    ||| f == "location_property"@ ||| f == "location_room"@ ||| f == "location_bookcase"@
    ||| f == "location_shelf"@ ||| f == "location_position"@
}

/// Array columns whose distinct items are suggested.
pub open spec fn array_suggestion_field(f: Seq<char>) -> bool {
    ||| f == "authors"@ ||| f == "translators"@ ||| f == "illustrators"@
    ||| f == "subjects"@ ||| f == "genres"@
}

pub const SUGGESTION_SCOPE: &'static str = " FROM books WHERE library_id IN (SELECT l.id FROM libraries l LEFT JOIN library_members lm ON l.id = lm.library_id WHERE l.owner_id = ";

/// The most frequent values of a text column that contain `q` (case-insensitively)
/// in the user's libraries, at most `limit` of them, in alphabetical order.
pub open spec fn scalar_suggestion_pieces(f: Seq<char>, q: Seq<char>, limit: i64, user_id: u128) -> Seq<
    Piece,
> {
    seq![
        Piece::Sql("SELECT field_val FROM (SELECT "@ + f + " as field_val, count("@ + f + ") as c"@
            + SUGGESTION_SCOPE@),
        Piece::Bind(SqlArg::Uuid(user_id)),
        Piece::Sql(" OR lm.user_id = "@),
        Piece::Bind(SqlArg::Uuid(user_id)),
        Piece::Sql(") AND "@ + f + " IS NOT NULL AND "@ + f + " != '' AND "@ + f + " ILIKE "@),
        Piece::Bind(SqlArg::Text(surrounded(q))),
        Piece::Sql(" GROUP BY "@ + f + " ORDER BY c DESC LIMIT "@),
        Piece::Bind(SqlArg::Int8(limit)),
        Piece::Sql(") sub ORDER BY field_val ASC"@),
    ]
}

/// The same for the items of an array column.
pub open spec fn array_suggestion_pieces(f: Seq<char>, q: Seq<char>, limit: i64, user_id: u128) -> Seq<
    Piece,
> {
    seq![
        Piece::Sql(
            "SELECT unnest_val FROM (SELECT unnest_val, count(unnest_val) as c FROM (SELECT unnest("@
                + f + ") as unnest_val"@ + SUGGESTION_SCOPE@,
        ),
        Piece::Bind(SqlArg::Uuid(user_id)),
        Piece::Sql(" OR lm.user_id = "@),
        Piece::Bind(SqlArg::Uuid(user_id)),
        Piece::Sql(")) as unnested WHERE unnest_val ILIKE "@),
        Piece::Bind(SqlArg::Text(surrounded(q))),
        Piece::Sql(" GROUP BY unnest_val ORDER BY c DESC LIMIT "@),
        Piece::Bind(SqlArg::Int8(limit)),
        Piece::Sql(") sub ORDER BY unnest_val ASC"@),
    ]
}

pub open spec fn suggestion_limit(limit: Option<i64>) -> i64 {
    match limit {
        Some(l) => l,
        None => 10,
    }
}

pub open spec fn suggestion_pieces(f: Seq<char>, q: Seq<char>, limit: Option<i64>, user_id: u128) -> Option<
    Seq<Piece>,
> {
    if scalar_suggestion_field(f) {
        Some(scalar_suggestion_pieces(f, q, suggestion_limit(limit), user_id))
    } else if array_suggestion_field(f) {
        Some(array_suggestion_pieces(f, q, suggestion_limit(limit), user_id))
    } else {
        None
    }
}

/// A suggestion statement binds, in order, the requesting user's id twice (the
/// libraries they see), the text searched for between two `%` (found anywhere in the
/// value), and the number of suggestions: the one asked for, 10 by default.
pub proof fn law_suggestions_bind(f: Seq<char>, q: Seq<char>, limit: Option<i64>, user_id: u128)
    ensures
        suggestion_pieces(f, q, limit, user_id) matches Some(ps) ==> {
            &&& ps.len() == 9
            &&& ps[1] == Piece::Bind(SqlArg::Uuid(user_id))
            &&& ps[3] == Piece::Bind(SqlArg::Uuid(user_id))
            &&& ps[5] == Piece::Bind(SqlArg::Text(seq!['%'] + q + seq!['%']))
            &&& ps[7] == Piece::Bind(
                SqlArg::Int8(
                    match limit {
                        Some(l) => l,
                        None => 10,
                    },
                ),
            )
        },
{
}

/// Appends a suggestion statement: its texts around the user's id (bound twice), the
/// pattern and the limit.
fn emit_suggestion_statement(
    qb: &mut SqlBuilder,
    t0: &str,
    user_id: u128,
    t4: &str,
    pattern: String,
    t6: &str,
    limit: i64,
    t8: &str,
)
    requires
        open_builder(*old(qb)),
        bindable(SqlArg::Text(pattern@)),
    ensures
        open_builder(*final(qb)),
        stmt_of(*final(qb)) == after_pieces(
            stmt_of(*old(qb)),
            seq![
                Piece::Sql(t0@),
                Piece::Bind(SqlArg::Uuid(user_id)),
                Piece::Sql(" OR lm.user_id = "@),
                Piece::Bind(SqlArg::Uuid(user_id)),
                Piece::Sql(t4@),
                Piece::Bind(SqlArg::Text(pattern@)),
                Piece::Sql(t6@),
                Piece::Bind(SqlArg::Int8(limit)),
                Piece::Sql(t8@),
            ],
        ),
{
    let ghost st0 = stmt_of(*qb);
    let ghost ps = seq![
        Piece::Sql(t0@),
        Piece::Bind(SqlArg::Uuid(user_id)),
        Piece::Sql(" OR lm.user_id = "@),
        Piece::Bind(SqlArg::Uuid(user_id)),
        Piece::Sql(t4@),
        Piece::Bind(SqlArg::Text(pattern@)),
        Piece::Sql(t6@),
        Piece::Bind(SqlArg::Int8(limit)),
        Piece::Sql(t8@),
    ];
    push_sql(qb, t0);
    push_bind_uuid(qb, user_id);
    push_sql(qb, " OR lm.user_id = ");
    push_bind_uuid(qb, user_id);
    push_sql(qb, t4);
    push_bind_text(qb, pattern);
    push_sql(qb, t6);
    push_bind_i64(qb, limit);
    push_sql(qb, t8);
    proof {
        lemma_unfold_pieces(st0, ps, 1);
        lemma_unfold_pieces(st0, ps, 2);
        lemma_unfold_pieces(st0, ps, 3);
        lemma_unfold_pieces(st0, ps, 4);
        lemma_unfold_pieces(st0, ps, 5);
        lemma_unfold_pieces(st0, ps, 6);
        lemma_unfold_pieces(st0, ps, 7);
        lemma_unfold_pieces(st0, ps, 8);
        lemma_unfold_pieces(st0, ps, 9);
    }
}

/// The statement that suggests values for `query.field` matching `query.q`; `None`
/// for a field that has no suggestions (the answer is then an empty list).
pub fn autocomplete_query(query: &AutocompleteQuery, user_id: u128) -> (r: Option<SqlBuilder>)
    requires
        value_bindable(query.q@),
    ensures
        r is Some == suggestion_pieces(query.field@, query.q@, query.limit, user_id) is Some,
        r matches Some(qb) ==> open_builder(qb) && stmt_of(qb) == after_pieces(
            start(""@),
            suggestion_pieces(query.field@, query.q@, query.limit, user_id).unwrap(),
        ),
{
    let field = query.field.as_str();
    let limit_val: i64 = match query.limit {
        Some(l) => l,
        None => 10,
    };
    proof {
        lemma_patterns_bindable(query.q@);
    }
    let scalar = str_eq(field, "publisher") || str_eq(field, "collection_name") || str_eq(
        field,
        "series_name",
    ) || str_eq(field, "language") || str_eq(field, "original_language") || str_eq(
        field,
        "book_format",
    ) || str_eq(field, "store_or_vendor") || str_eq(field, "acquisition_type") || str_eq(
        field,
        "title",
    ) || str_eq(field, "subtitle") || str_eq(field, "original_title") || str_eq(
        field,
        "condition_state",
    ) || str_eq(field, "location_property") || str_eq(field, "location_room") || str_eq(
        field,
        "location_bookcase",
    ) || str_eq(field, "location_shelf") || str_eq(field, "location_position");
    let array = str_eq(field, "authors") || str_eq(field, "translators") || str_eq(
        field,
        "illustrators",
    ) || str_eq(field, "subjects") || str_eq(field, "genres");
    if scalar {
        let mut t0 = String::from_str("SELECT field_val FROM (SELECT ");
        t0.append(field);
        t0.append(" as field_val, count(");
        t0.append(field);
        t0.append(") as c");
        t0.append(SUGGESTION_SCOPE);
        let mut t4 = String::from_str(") AND ");
        t4.append(field);
        t4.append(" IS NOT NULL AND ");
        t4.append(field);
        t4.append(" != '' AND ");
        t4.append(field);
        t4.append(" ILIKE ");
        let mut t6 = String::from_str(" GROUP BY ");
        t6.append(field);
        t6.append(" ORDER BY c DESC LIMIT ");
        let mut qb = new_builder("");
        emit_suggestion_statement(
            &mut qb,
            t0.as_str(),
            user_id,
            t4.as_str(),
            surround(query.q.as_str()),
            t6.as_str(),
            limit_val,
            ") sub ORDER BY field_val ASC",
        );
        Some(qb)
    } else if array {
        let mut t0 = String::from_str(
            "SELECT unnest_val FROM (SELECT unnest_val, count(unnest_val) as c FROM (SELECT unnest(",
        );
        t0.append(field);
        t0.append(") as unnest_val");
        t0.append(SUGGESTION_SCOPE);
        let mut qb = new_builder("");
        emit_suggestion_statement(
            &mut qb,
            t0.as_str(),
            user_id,
            ")) as unnested WHERE unnest_val ILIKE ",
            surround(query.q.as_str()),
            " GROUP BY unnest_val ORDER BY c DESC LIMIT ",
            limit_val,
            ") sub ORDER BY unnest_val ASC",
        );
        Some(qb)
    } else {
        None
    }
}

} // verus!
