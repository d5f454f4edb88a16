//! Which column each value of a new or replaced book goes to: the column lists of
//! the fixed statements, and the request's value for each column.
use vstd::prelude::*;
use vstd::string::*;
use crate::books::{
    book_args, interaction_args, status_or_unread, update_book_segments, BookInteraction,
    INSERT_BOOK_HEAD, INSERT_INTERACTION_HEAD, UPDATE_BOOK_HEAD, UPSERT_INTERACTION_HEAD,
};
use crate::model::CreateBookDto;
use crate::text::{ends_with, occurs_at};
use crate::sql::{opt_arg_bool, opt_arg_date, opt_arg_i32, opt_arg_numeric, opt_arg_text, opt_arg_text_array, opt_arg_timestamptz, texts_view, SqlArg};

verus! {

/// The columns of a book, in the order the insertion lists them.
pub open spec fn book_columns() -> Seq<Seq<char>> {
    seq![
        "library_id"@, "isbn_13"@, "isbn_10"@, "open_library_id"@, "oclc_number"@, "title"@, "subtitle"@, "original_title"@, "authors"@, "translators"@, "illustrators"@, "publisher"@, "publish_date"@, "original_publish_date"@, "edition"@, "edition_number"@, "printing_number"@, "original_edition"@, "is_first_edition"@, "collection_name"@, "volume_in_collection"@, "series_name"@, "volume_in_series"@, "book_format"@, "page_count"@, "dimensions"@, "weight"@, "language"@, "original_language"@, "subjects"@, "genres"@, "target_audience"@, "description"@, "table_of_contents"@, "cover_url"@, "purchase_date"@, "purchase_price"@, "store_or_vendor"@, "acquisition_type"@, "location_property"@, "location_room"@, "location_bookcase"@, "location_shelf"@, "location_position"@, "condition_state"@, "is_loaned"@, "loaned_to"@, "loan_date"@, "expected_return_date"@,
    ]
}

/// The value a request gives the book column `name` (the library for `library_id`).
pub open spec fn book_field(p: CreateBookDto, name: Seq<char>, library_id: u128) -> SqlArg {
    if name == "library_id"@ {
        SqlArg::Uuid(library_id)
    } else if name == "isbn_13"@ {
        opt_arg_text(p.isbn_13)
    } else if name == "isbn_10"@ {
        opt_arg_text(p.isbn_10)
    } else if name == "open_library_id"@ {
        opt_arg_text(p.open_library_id)
    } else if name == "oclc_number"@ {
        opt_arg_text(p.oclc_number)
    } else if name == "title"@ {
        SqlArg::Text(p.title@)
    } else if name == "subtitle"@ {
        opt_arg_text(p.subtitle)
    } else if name == "original_title"@ {
        opt_arg_text(p.original_title)
    } else if name == "authors"@ {
        SqlArg::TextArray(texts_view(p.authors@))
    } else if name == "translators"@ {
        opt_arg_text_array(p.translators)
    } else if name == "illustrators"@ {
        opt_arg_text_array(p.illustrators)
    } else if name == "publisher"@ {
        opt_arg_text(p.publisher)
    } else if name == "publish_date"@ {
        opt_arg_date(p.publish_date)
    } else if name == "original_publish_date"@ {
        opt_arg_date(p.original_publish_date)
    } else if name == "edition"@ {
        opt_arg_text(p.edition)
    } else if name == "edition_number"@ {
        opt_arg_text(p.edition_number)
    } else if name == "printing_number"@ {
        opt_arg_text(p.printing_number)
    } else if name == "original_edition"@ {
        opt_arg_text(p.original_edition)
    } else if name == "is_first_edition"@ {
        opt_arg_bool(p.is_first_edition)
    } else if name == "collection_name"@ {
        opt_arg_text(p.collection_name)
    } else if name == "volume_in_collection"@ {
        opt_arg_i32(p.volume_in_collection)
    } else if name == "series_name"@ {
        opt_arg_text(p.series_name)
    } else if name == "volume_in_series"@ {
        opt_arg_i32(p.volume_in_series)
    } else if name == "book_format"@ {
        opt_arg_text(p.book_format)
    } else if name == "page_count"@ {
        opt_arg_i32(p.page_count)
    } else if name == "dimensions"@ {
        opt_arg_text(p.dimensions)
    } else if name == "weight"@ {
        opt_arg_text(p.weight)
    } else if name == "language"@ {
        opt_arg_text(p.language)
    } else if name == "original_language"@ {
        opt_arg_text(p.original_language)
    } else if name == "subjects"@ {
        opt_arg_text_array(p.subjects)
    } else if name == "genres"@ {
        opt_arg_text_array(p.genres)
    } else if name == "target_audience"@ {
        opt_arg_text(p.target_audience)
    } else if name == "description"@ {
        opt_arg_text(p.description)
    } else if name == "table_of_contents"@ {
        opt_arg_text(p.table_of_contents)
    } else if name == "cover_url"@ {
        opt_arg_text(p.cover_url)
    } else if name == "purchase_date"@ {
        opt_arg_date(p.purchase_date)
    } else if name == "purchase_price"@ {
        opt_arg_numeric(p.purchase_price)
    } else if name == "store_or_vendor"@ {
        opt_arg_text(p.store_or_vendor)
    } else if name == "acquisition_type"@ {
        opt_arg_text(p.acquisition_type)
    } else if name == "location_property"@ {
        opt_arg_text(p.location_property)
    } else if name == "location_room"@ {
        opt_arg_text(p.location_room)
    } else if name == "location_bookcase"@ {
        opt_arg_text(p.location_bookcase)
    } else if name == "location_shelf"@ {
        opt_arg_text(p.location_shelf)
    } else if name == "location_position"@ {
        opt_arg_i32(p.location_position)
    } else if name == "condition_state"@ {
        opt_arg_text(p.condition_state)
    } else if name == "is_loaned"@ {
        opt_arg_bool(p.is_loaned)
    } else if name == "loaned_to"@ {
        opt_arg_text(p.loaned_to)
    } else if name == "loan_date"@ {
        opt_arg_timestamptz(p.loan_date)
    } else if name == "expected_return_date"@ {
        opt_arg_timestamptz(p.expected_return_date)
    } else {
        SqlArg::Null(crate::sql::SqlType::Text)
    }
}

/// Each value of a new book goes to its own column: the `k`-th argument bound by the
/// insertion (and by the replacement, before the book's id) is the request's value for
/// the `k`-th column the insertion lists.
#[verifier::rlimit(100)]
pub proof fn law_book_values_in_their_columns(p: CreateBookDto, library_id: u128)
    ensures
        book_args(p, library_id).len() == book_columns().len(),
        forall|k: int|
            0 <= k < book_columns().len() ==> #[trigger] book_args(p, library_id)[k] == book_field(
                p,
                book_columns()[k],
                library_id,
            ),
{
    reveal_strlit("library_id");
    assert("library_id"@.len() == 10);
    reveal_strlit("isbn_13");
    assert("isbn_13"@.len() == 7);
    reveal_strlit("isbn_10");
    assert("isbn_10"@.len() == 7);
    reveal_strlit("open_library_id");
    assert("open_library_id"@.len() == 15);
    reveal_strlit("oclc_number");
    assert("oclc_number"@.len() == 11);
    reveal_strlit("title");
    assert("title"@.len() == 5);
    reveal_strlit("subtitle");
    assert("subtitle"@.len() == 8);
    reveal_strlit("original_title");
    assert("original_title"@.len() == 14);
    reveal_strlit("authors");
    assert("authors"@.len() == 7);
    reveal_strlit("translators");
    assert("translators"@.len() == 11);
    reveal_strlit("illustrators");
    assert("illustrators"@.len() == 12);
    reveal_strlit("publisher");
    assert("publisher"@.len() == 9);
    reveal_strlit("publish_date");
    assert("publish_date"@.len() == 12);
    reveal_strlit("original_publish_date");
    assert("original_publish_date"@.len() == 21);
    reveal_strlit("edition");
    assert("edition"@.len() == 7);
    reveal_strlit("edition_number");
    assert("edition_number"@.len() == 14);
    reveal_strlit("printing_number");
    assert("printing_number"@.len() == 15);
    reveal_strlit("original_edition");
    assert("original_edition"@.len() == 16);
    reveal_strlit("is_first_edition");
    assert("is_first_edition"@.len() == 16);
    reveal_strlit("collection_name");
    assert("collection_name"@.len() == 15);
    reveal_strlit("volume_in_collection");
    assert("volume_in_collection"@.len() == 20);
    reveal_strlit("series_name");
    assert("series_name"@.len() == 11);
    reveal_strlit("volume_in_series");
    assert("volume_in_series"@.len() == 16);
    reveal_strlit("book_format");
    assert("book_format"@.len() == 11);
    reveal_strlit("page_count");
    assert("page_count"@.len() == 10);
    reveal_strlit("dimensions");
    assert("dimensions"@.len() == 10);
    reveal_strlit("weight");
    assert("weight"@.len() == 6);
    reveal_strlit("language");
    assert("language"@.len() == 8);
    reveal_strlit("original_language");
    assert("original_language"@.len() == 17);
    reveal_strlit("subjects");
    assert("subjects"@.len() == 8);
    reveal_strlit("genres");
    assert("genres"@.len() == 6);
    reveal_strlit("target_audience");
    assert("target_audience"@.len() == 15);
    reveal_strlit("description");
    assert("description"@.len() == 11);
    reveal_strlit("table_of_contents");
    assert("table_of_contents"@.len() == 17);
    reveal_strlit("cover_url");
    assert("cover_url"@.len() == 9);
    reveal_strlit("purchase_date");
    assert("purchase_date"@.len() == 13);
    reveal_strlit("purchase_price");
    assert("purchase_price"@.len() == 14);
    reveal_strlit("store_or_vendor");
    assert("store_or_vendor"@.len() == 15);
    reveal_strlit("acquisition_type");
    assert("acquisition_type"@.len() == 16);
    reveal_strlit("location_property");
    assert("location_property"@.len() == 17);
    reveal_strlit("location_room");
    assert("location_room"@.len() == 13);
    reveal_strlit("location_bookcase");
    assert("location_bookcase"@.len() == 17);
    reveal_strlit("location_shelf");
    assert("location_shelf"@.len() == 14);
    reveal_strlit("location_position");
    assert("location_position"@.len() == 17);
    reveal_strlit("condition_state");
    assert("condition_state"@.len() == 15);
    reveal_strlit("is_loaned");
    assert("is_loaned"@.len() == 9);
    reveal_strlit("loaned_to");
    assert("loaned_to"@.len() == 9);
    reveal_strlit("loan_date");
    assert("loan_date"@.len() == 9);
    reveal_strlit("expected_return_date");
    assert("expected_return_date"@.len() == 20);
    assert("acquisition_type"@[0] == 'a');
    assert("authors"@[0] == 'a');
    assert("book_format"@[0] == 'b');
    assert("collection_name"@[0] == 'c');
    assert("collection_name"@[2] == 'l');
    assert("condition_state"@[0] == 'c');
    assert("condition_state"@[2] == 'n');
    assert("cover_url"@[0] == 'c');
    assert("description"@[0] == 'd');
    assert("dimensions"@[0] == 'd');
    assert("edition"@[0] == 'e');
    assert("edition_number"@[0] == 'e');
    assert("expected_return_date"@[0] == 'e');
    assert("genres"@[0] == 'g');
    assert("illustrators"@[0] == 'i');
    assert("is_first_edition"@[0] == 'i');
    assert("is_loaned"@[0] == 'i');
    assert("isbn_10"@[0] == 'i');
    assert("isbn_10"@[6] == '0');
    assert("isbn_13"@[0] == 'i');
    assert("isbn_13"@[6] == '3');
    assert("language"@[0] == 'l');
    assert("library_id"@[0] == 'l');
    assert("loan_date"@[0] == 'l');
    assert("loan_date"@[4] == '_');
    assert("loaned_to"@[0] == 'l');
    assert("loaned_to"@[4] == 'e');
    assert("location_bookcase"@[0] == 'l');
    assert("location_bookcase"@[9] == 'b');
    assert("location_position"@[0] == 'l');
    assert("location_position"@[9] == 'p');
    assert("location_position"@[10] == 'o');
    assert("location_property"@[0] == 'l');
    assert("location_property"@[9] == 'p');
    assert("location_property"@[10] == 'r');
    assert("location_room"@[0] == 'l');
    assert("location_shelf"@[0] == 'l');
    assert("oclc_number"@[0] == 'o');
    assert("open_library_id"@[0] == 'o');
    assert("original_edition"@[0] == 'o');
    assert("original_language"@[0] == 'o');
    assert("original_title"@[0] == 'o');
    assert("page_count"@[0] == 'p');
    assert("printing_number"@[0] == 'p');
    assert("publish_date"@[0] == 'p');
    assert("publisher"@[0] == 'p');
    assert("purchase_date"@[0] == 'p');
    assert("purchase_price"@[0] == 'p');
    assert("series_name"@[0] == 's');
    assert("store_or_vendor"@[0] == 's');
    assert("subjects"@[0] == 's');
    assert("subjects"@[3] == 'j');
    assert("subtitle"@[0] == 's');
    assert("subtitle"@[3] == 't');
    assert("table_of_contents"@[0] == 't');
    assert("target_audience"@[0] == 't');
    assert("translators"@[0] == 't');
    assert("volume_in_collection"@[0] == 'v');
    assert("volume_in_series"@[0] == 'v');
    assert("weight"@[0] == 'w');
    assert forall|k: int|
        0 <= k < book_columns().len() implies #[trigger] book_args(p, library_id)[k] == book_field(
            p,
            book_columns()[k],
            library_id,
        ) by {
        if k == 0 {
            assert(book_columns()[0] == "library_id"@);
        }
        if k == 1 {
            assert(book_columns()[1] == "isbn_13"@);
        }
        if k == 2 {
            assert(book_columns()[2] == "isbn_10"@);
        }
        if k == 3 {
            assert(book_columns()[3] == "open_library_id"@);
        }
        if k == 4 {
            assert(book_columns()[4] == "oclc_number"@);
        }
        if k == 5 {
            assert(book_columns()[5] == "title"@);
        }
        if k == 6 {
            assert(book_columns()[6] == "subtitle"@);
        }
        if k == 7 {
            assert(book_columns()[7] == "original_title"@);
        }
        if k == 8 {
            assert(book_columns()[8] == "authors"@);
        }
        if k == 9 {
            assert(book_columns()[9] == "translators"@);
        }
        if k == 10 {
            assert(book_columns()[10] == "illustrators"@);
        }
        if k == 11 {
            assert(book_columns()[11] == "publisher"@);
        }
        if k == 12 {
            assert(book_columns()[12] == "publish_date"@);
        }
        if k == 13 {
            assert(book_columns()[13] == "original_publish_date"@);
        }
        if k == 14 {
            assert(book_columns()[14] == "edition"@);
        }
        if k == 15 {
            assert(book_columns()[15] == "edition_number"@);
        }
        if k == 16 {
            assert(book_columns()[16] == "printing_number"@);
        }
        if k == 17 {
            assert(book_columns()[17] == "original_edition"@);
        }
        if k == 18 {
            assert(book_columns()[18] == "is_first_edition"@);
        }
        if k == 19 {
            assert(book_columns()[19] == "collection_name"@);
        }
        if k == 20 {
            assert(book_columns()[20] == "volume_in_collection"@);
        }
        if k == 21 {
            assert(book_columns()[21] == "series_name"@);
        }
        if k == 22 {
            assert(book_columns()[22] == "volume_in_series"@);
        }
        if k == 23 {
            assert(book_columns()[23] == "book_format"@);
        }
        if k == 24 {
            assert(book_columns()[24] == "page_count"@);
        }
        if k == 25 {
            assert(book_columns()[25] == "dimensions"@);
        }
        if k == 26 {
            assert(book_columns()[26] == "weight"@);
        }
        if k == 27 {
            assert(book_columns()[27] == "language"@);
        }
        if k == 28 {
            assert(book_columns()[28] == "original_language"@);
        }
        if k == 29 {
            assert(book_columns()[29] == "subjects"@);
        }
        if k == 30 {
            assert(book_columns()[30] == "genres"@);
        }
        if k == 31 {
            assert(book_columns()[31] == "target_audience"@);
        }
        if k == 32 {
            assert(book_columns()[32] == "description"@);
        }
        if k == 33 {
            assert(book_columns()[33] == "table_of_contents"@);
        }
        if k == 34 {
            assert(book_columns()[34] == "cover_url"@);
        }
        if k == 35 {
            assert(book_columns()[35] == "purchase_date"@);
        }
        if k == 36 {
            assert(book_columns()[36] == "purchase_price"@);
        }
        if k == 37 {
            assert(book_columns()[37] == "store_or_vendor"@);
        }
        if k == 38 {
            assert(book_columns()[38] == "acquisition_type"@);
        }
        if k == 39 {
            assert(book_columns()[39] == "location_property"@);
        }
        if k == 40 {
            assert(book_columns()[40] == "location_room"@);
        }
        if k == 41 {
            assert(book_columns()[41] == "location_bookcase"@);
        }
        if k == 42 {
            assert(book_columns()[42] == "location_shelf"@);
        }
        if k == 43 {
            assert(book_columns()[43] == "location_position"@);
        }
        if k == 44 {
            assert(book_columns()[44] == "condition_state"@);
        }
        if k == 45 {
            assert(book_columns()[45] == "is_loaned"@);
        }
        if k == 46 {
            assert(book_columns()[46] == "loaned_to"@);
        }
        if k == 47 {
            assert(book_columns()[47] == "loan_date"@);
        }
        if k == 48 {
            assert(book_columns()[48] == "expected_return_date"@);
        }
    }
}

/// The length of the separator at `i` of a column list: a comma and a line break
/// with its indentation, or a comma and a space; 0 when there is none.
pub open spec fn list_separator_len(text: Seq<char>, i: int) -> int {
    if occurs_at(text, ",\n            "@, i) {
        14
    } else if occurs_at(text, ", "@, i) {
        2
    } else {
        0
    }
}

/// `text` lists `cols` from `pos` on: each name, then a separator before the next.
pub open spec fn lists_columns_at(text: Seq<char>, pos: int, cols: Seq<Seq<char>>) -> bool
    decreases cols.len(),
{
    if cols.len() == 0 {
        true
    } else if cols.len() == 1 {
        occurs_at(text, cols[0], pos)
    } else {
        &&& occurs_at(text, cols[0], pos)
        &&& list_separator_len(text, pos + cols[0].len()) > 0
        &&& lists_columns_at(
            text,
            pos + cols[0].len() + list_separator_len(text, pos + cols[0].len()),
            cols.skip(1),
        )
    }
}

/// The insertion's SQL names the book's columns in the order of `book_columns`: its
/// column list, after `INSERT INTO books (`, is exactly these names, one after the
/// other, separated by commas, and closed before `VALUES`.
#[verifier::rlimit(100)]
pub proof fn law_insertion_lists_the_columns()
    ensures
        occurs_at(INSERT_BOOK_HEAD@, "INSERT INTO books ("@, 9),
        lists_columns_at(INSERT_BOOK_HEAD@, 41, book_columns()),
        occurs_at(INSERT_BOOK_HEAD@, "\n        ) VALUES ("@, 838),
{
    let h = INSERT_BOOK_HEAD@;
    let cols = book_columns();
    reveal_strlit("\n        INSERT INTO books (\n            library_id, isbn_13, isbn_10, open_library_id, oclc_number, title, subtitle, original_title,\n            authors, translators, illustrators, publisher, publish_date, original_publish_date,\n            edition, edition_number, printing_number, original_edition, is_first_edition, collection_name,\n            volume_in_collection, series_name, volume_in_series, book_format, page_count,\n            dimensions, weight, language, original_language, subjects, genres, target_audience,\n            description, table_of_contents, cover_url, purchase_date, purchase_price,\n            store_or_vendor, acquisition_type, location_property, location_room, location_bookcase,\n            location_shelf, location_position, condition_state, is_loaned, loaned_to,\n            loan_date, expected_return_date\n        ) VALUES (\n            ");
    reveal_strlit("INSERT INTO books (");
    reveal_strlit("\n        ) VALUES (");
    reveal_strlit(",\n            ");
    reveal_strlit(", ");
    assert(h.len() == 870);
    assert(h.subrange(9, 28) =~= "INSERT INTO books ("@);
    assert(h.subrange(838, 857) =~= "\n        ) VALUES ("@);
    reveal_strlit("library_id");
    assert(cols[0] == "library_id"@);
    assert(h.subrange(41, 51) =~= "library_id"@);
    assert(h.subrange(51, 53) =~= ", "@);
    assert(h[52] == ' ');
    assert(",\n            "@[1] == '\n');
    assert(list_separator_len(h, 51) == 2);
    reveal_strlit("isbn_13");
    assert(cols[1] == "isbn_13"@);
    assert(h.subrange(53, 60) =~= "isbn_13"@);
    assert(h.subrange(60, 62) =~= ", "@);
    assert(h[61] == ' ');
    assert(",\n            "@[1] == '\n');
    assert(list_separator_len(h, 60) == 2);
    reveal_strlit("isbn_10");
    assert(cols[2] == "isbn_10"@);
    assert(h.subrange(62, 69) =~= "isbn_10"@);
    assert(h.subrange(69, 71) =~= ", "@);
    assert(h[70] == ' ');
    assert(",\n            "@[1] == '\n');
    assert(list_separator_len(h, 69) == 2);
    reveal_strlit("open_library_id");
    assert(cols[3] == "open_library_id"@);
    assert(h.subrange(71, 86) =~= "open_library_id"@);
    assert(h.subrange(86, 88) =~= ", "@);
    assert(h[87] == ' ');
    assert(",\n            "@[1] == '\n');
    assert(list_separator_len(h, 86) == 2);
    reveal_strlit("oclc_number");
    assert(cols[4] == "oclc_number"@);
    assert(h.subrange(88, 99) =~= "oclc_number"@);
    assert(h.subrange(99, 101) =~= ", "@);
    assert(h[100] == ' ');
    assert(",\n            "@[1] == '\n');
    assert(list_separator_len(h, 99) == 2);
    reveal_strlit("title");
    assert(cols[5] == "title"@);
    assert(h.subrange(101, 106) =~= "title"@);
    assert(h.subrange(106, 108) =~= ", "@);
    assert(h[107] == ' ');
    assert(",\n            "@[1] == '\n');
    assert(list_separator_len(h, 106) == 2);
    reveal_strlit("subtitle");
    assert(cols[6] == "subtitle"@);
    assert(h.subrange(108, 116) =~= "subtitle"@);
    assert(h.subrange(116, 118) =~= ", "@);
    assert(h[117] == ' ');
    assert(",\n            "@[1] == '\n');
    assert(list_separator_len(h, 116) == 2);
    reveal_strlit("original_title");
    assert(cols[7] == "original_title"@);
    assert(h.subrange(118, 132) =~= "original_title"@);
    assert(h.subrange(132, 146) =~= ",\n            "@);
    assert(list_separator_len(h, 132) == 14);
    reveal_strlit("authors");
    assert(cols[8] == "authors"@);
    assert(h.subrange(146, 153) =~= "authors"@);
    assert(h.subrange(153, 155) =~= ", "@);
    assert(h[154] == ' ');
    assert(",\n            "@[1] == '\n');
    assert(list_separator_len(h, 153) == 2);
    reveal_strlit("translators");
    assert(cols[9] == "translators"@);
    assert(h.subrange(155, 166) =~= "translators"@);
    assert(h.subrange(166, 168) =~= ", "@);
    assert(h[167] == ' ');
    assert(",\n            "@[1] == '\n');
    assert(list_separator_len(h, 166) == 2);
    reveal_strlit("illustrators");
    assert(cols[10] == "illustrators"@);
    assert(h.subrange(168, 180) =~= "illustrators"@);
    assert(h.subrange(180, 182) =~= ", "@);
    assert(h[181] == ' ');
    assert(",\n            "@[1] == '\n');
    assert(list_separator_len(h, 180) == 2);
    reveal_strlit("publisher");
    assert(cols[11] == "publisher"@);
    assert(h.subrange(182, 191) =~= "publisher"@);
    assert(h.subrange(191, 193) =~= ", "@);
    assert(h[192] == ' ');
    assert(",\n            "@[1] == '\n');
    assert(list_separator_len(h, 191) == 2);
    reveal_strlit("publish_date");
    assert(cols[12] == "publish_date"@);
    assert(h.subrange(193, 205) =~= "publish_date"@);
    assert(h.subrange(205, 207) =~= ", "@);
    assert(h[206] == ' ');
    assert(",\n            "@[1] == '\n');
    assert(list_separator_len(h, 205) == 2);
    reveal_strlit("original_publish_date");
    assert(cols[13] == "original_publish_date"@);
    assert(h.subrange(207, 228) =~= "original_publish_date"@);
    assert(h.subrange(228, 242) =~= ",\n            "@);
    assert(list_separator_len(h, 228) == 14);
    reveal_strlit("edition");
    assert(cols[14] == "edition"@);
    assert(h.subrange(242, 249) =~= "edition"@);
    assert(h.subrange(249, 251) =~= ", "@);
    assert(h[250] == ' ');
    assert(",\n            "@[1] == '\n');
    assert(list_separator_len(h, 249) == 2);
    reveal_strlit("edition_number");
    assert(cols[15] == "edition_number"@);
    assert(h.subrange(251, 265) =~= "edition_number"@);
    assert(h.subrange(265, 267) =~= ", "@);
    assert(h[266] == ' ');
    assert(",\n            "@[1] == '\n');
    assert(list_separator_len(h, 265) == 2);
    reveal_strlit("printing_number");
    assert(cols[16] == "printing_number"@);
    assert(h.subrange(267, 282) =~= "printing_number"@);
    assert(h.subrange(282, 284) =~= ", "@);
    assert(h[283] == ' ');
    assert(",\n            "@[1] == '\n');
    assert(list_separator_len(h, 282) == 2);
    reveal_strlit("original_edition");
    assert(cols[17] == "original_edition"@);
    assert(h.subrange(284, 300) =~= "original_edition"@);
    assert(h.subrange(300, 302) =~= ", "@);
    assert(h[301] == ' ');
    assert(",\n            "@[1] == '\n');
    assert(list_separator_len(h, 300) == 2);
    reveal_strlit("is_first_edition");
    assert(cols[18] == "is_first_edition"@);
    assert(h.subrange(302, 318) =~= "is_first_edition"@);
    assert(h.subrange(318, 320) =~= ", "@);
    assert(h[319] == ' ');
    assert(",\n            "@[1] == '\n');
    assert(list_separator_len(h, 318) == 2);
    reveal_strlit("collection_name");
    assert(cols[19] == "collection_name"@);
    assert(h.subrange(320, 335) =~= "collection_name"@);
    assert(h.subrange(335, 349) =~= ",\n            "@);
    assert(list_separator_len(h, 335) == 14);
    reveal_strlit("volume_in_collection");
    assert(cols[20] == "volume_in_collection"@);
    assert(h.subrange(349, 369) =~= "volume_in_collection"@);
    assert(h.subrange(369, 371) =~= ", "@);
    assert(h[370] == ' ');
    assert(",\n            "@[1] == '\n');
    assert(list_separator_len(h, 369) == 2);
    reveal_strlit("series_name");
    assert(cols[21] == "series_name"@);
    assert(h.subrange(371, 382) =~= "series_name"@);
    assert(h.subrange(382, 384) =~= ", "@);
    assert(h[383] == ' ');
    assert(",\n            "@[1] == '\n');
    assert(list_separator_len(h, 382) == 2);
    reveal_strlit("volume_in_series");
    assert(cols[22] == "volume_in_series"@);
    assert(h.subrange(384, 400) =~= "volume_in_series"@);
    assert(h.subrange(400, 402) =~= ", "@);
    assert(h[401] == ' ');
    assert(",\n            "@[1] == '\n');
    assert(list_separator_len(h, 400) == 2);
    reveal_strlit("book_format");
    assert(cols[23] == "book_format"@);
    assert(h.subrange(402, 413) =~= "book_format"@);
    assert(h.subrange(413, 415) =~= ", "@);
    assert(h[414] == ' ');
    assert(",\n            "@[1] == '\n');
    assert(list_separator_len(h, 413) == 2);
    reveal_strlit("page_count");
    assert(cols[24] == "page_count"@);
    assert(h.subrange(415, 425) =~= "page_count"@);
    assert(h.subrange(425, 439) =~= ",\n            "@);
    assert(list_separator_len(h, 425) == 14);
    reveal_strlit("dimensions");
    assert(cols[25] == "dimensions"@);
    assert(h.subrange(439, 449) =~= "dimensions"@);
    assert(h.subrange(449, 451) =~= ", "@);
    assert(h[450] == ' ');
    assert(",\n            "@[1] == '\n');
    assert(list_separator_len(h, 449) == 2);
    reveal_strlit("weight");
    assert(cols[26] == "weight"@);
    assert(h.subrange(451, 457) =~= "weight"@);
    assert(h.subrange(457, 459) =~= ", "@);
    assert(h[458] == ' ');
    assert(",\n            "@[1] == '\n');
    assert(list_separator_len(h, 457) == 2);
    reveal_strlit("language");
    assert(cols[27] == "language"@);
    assert(h.subrange(459, 467) =~= "language"@);
    assert(h.subrange(467, 469) =~= ", "@);
    assert(h[468] == ' ');
    assert(",\n            "@[1] == '\n');
    assert(list_separator_len(h, 467) == 2);
    reveal_strlit("original_language");
    assert(cols[28] == "original_language"@);
    assert(h.subrange(469, 486) =~= "original_language"@);
    assert(h.subrange(486, 488) =~= ", "@);
    assert(h[487] == ' ');
    assert(",\n            "@[1] == '\n');
    assert(list_separator_len(h, 486) == 2);
    reveal_strlit("subjects");
    assert(cols[29] == "subjects"@);
    assert(h.subrange(488, 496) =~= "subjects"@);
    assert(h.subrange(496, 498) =~= ", "@);
    assert(h[497] == ' ');
    assert(",\n            "@[1] == '\n');
    assert(list_separator_len(h, 496) == 2);
    reveal_strlit("genres");
    assert(cols[30] == "genres"@);
    assert(h.subrange(498, 504) =~= "genres"@);
    assert(h.subrange(504, 506) =~= ", "@);
    assert(h[505] == ' ');
    assert(",\n            "@[1] == '\n');
    assert(list_separator_len(h, 504) == 2);
    reveal_strlit("target_audience");
    assert(cols[31] == "target_audience"@);
    assert(h.subrange(506, 521) =~= "target_audience"@);
    assert(h.subrange(521, 535) =~= ",\n            "@);
    assert(list_separator_len(h, 521) == 14);
    reveal_strlit("description");
    assert(cols[32] == "description"@);
    assert(h.subrange(535, 546) =~= "description"@);
    assert(h.subrange(546, 548) =~= ", "@);
    assert(h[547] == ' ');
    assert(",\n            "@[1] == '\n');
    assert(list_separator_len(h, 546) == 2);
    reveal_strlit("table_of_contents");
    assert(cols[33] == "table_of_contents"@);
    assert(h.subrange(548, 565) =~= "table_of_contents"@);
    assert(h.subrange(565, 567) =~= ", "@);
    assert(h[566] == ' ');
    assert(",\n            "@[1] == '\n');
    assert(list_separator_len(h, 565) == 2);
    reveal_strlit("cover_url");
    assert(cols[34] == "cover_url"@);
    assert(h.subrange(567, 576) =~= "cover_url"@);
    assert(h.subrange(576, 578) =~= ", "@);
    assert(h[577] == ' ');
    assert(",\n            "@[1] == '\n');
    assert(list_separator_len(h, 576) == 2);
    reveal_strlit("purchase_date");
    assert(cols[35] == "purchase_date"@);
    assert(h.subrange(578, 591) =~= "purchase_date"@);
    assert(h.subrange(591, 593) =~= ", "@);
    assert(h[592] == ' ');
    assert(",\n            "@[1] == '\n');
    assert(list_separator_len(h, 591) == 2);
    reveal_strlit("purchase_price");
    assert(cols[36] == "purchase_price"@);
    assert(h.subrange(593, 607) =~= "purchase_price"@);
    assert(h.subrange(607, 621) =~= ",\n            "@);
    assert(list_separator_len(h, 607) == 14);
    reveal_strlit("store_or_vendor");
    assert(cols[37] == "store_or_vendor"@);
    assert(h.subrange(621, 636) =~= "store_or_vendor"@);
    assert(h.subrange(636, 638) =~= ", "@);
    assert(h[637] == ' ');
    assert(",\n            "@[1] == '\n');
    assert(list_separator_len(h, 636) == 2);
    reveal_strlit("acquisition_type");
    assert(cols[38] == "acquisition_type"@);
    assert(h.subrange(638, 654) =~= "acquisition_type"@);
    assert(h.subrange(654, 656) =~= ", "@);
    assert(h[655] == ' ');
    assert(",\n            "@[1] == '\n');
    assert(list_separator_len(h, 654) == 2);
    reveal_strlit("location_property");
    assert(cols[39] == "location_property"@);
    assert(h.subrange(656, 673) =~= "location_property"@);
    assert(h.subrange(673, 675) =~= ", "@);
    assert(h[674] == ' ');
    assert(",\n            "@[1] == '\n');
    assert(list_separator_len(h, 673) == 2);
    reveal_strlit("location_room");
    assert(cols[40] == "location_room"@);
    assert(h.subrange(675, 688) =~= "location_room"@);
    assert(h.subrange(688, 690) =~= ", "@);
    assert(h[689] == ' ');
    assert(",\n            "@[1] == '\n');
    assert(list_separator_len(h, 688) == 2);
    reveal_strlit("location_bookcase");
    assert(cols[41] == "location_bookcase"@);
    assert(h.subrange(690, 707) =~= "location_bookcase"@);
    assert(h.subrange(707, 721) =~= ",\n            "@);
    assert(list_separator_len(h, 707) == 14);
    reveal_strlit("location_shelf");
    assert(cols[42] == "location_shelf"@);
    assert(h.subrange(721, 735) =~= "location_shelf"@);
    assert(h.subrange(735, 737) =~= ", "@);
    assert(h[736] == ' ');
    assert(",\n            "@[1] == '\n');
    assert(list_separator_len(h, 735) == 2);
    reveal_strlit("location_position");
    assert(cols[43] == "location_position"@);
    assert(h.subrange(737, 754) =~= "location_position"@);
    assert(h.subrange(754, 756) =~= ", "@);
    assert(h[755] == ' ');
    assert(",\n            "@[1] == '\n');
    assert(list_separator_len(h, 754) == 2);
    reveal_strlit("condition_state");
    assert(cols[44] == "condition_state"@);
    assert(h.subrange(756, 771) =~= "condition_state"@);
    assert(h.subrange(771, 773) =~= ", "@);
    assert(h[772] == ' ');
    assert(",\n            "@[1] == '\n');
    assert(list_separator_len(h, 771) == 2);
    reveal_strlit("is_loaned");
    assert(cols[45] == "is_loaned"@);
    assert(h.subrange(773, 782) =~= "is_loaned"@);
    assert(h.subrange(782, 784) =~= ", "@);
    assert(h[783] == ' ');
    assert(",\n            "@[1] == '\n');
    assert(list_separator_len(h, 782) == 2);
    reveal_strlit("loaned_to");
    assert(cols[46] == "loaned_to"@);
    assert(h.subrange(784, 793) =~= "loaned_to"@);
    assert(h.subrange(793, 807) =~= ",\n            "@);
    assert(list_separator_len(h, 793) == 14);
    reveal_strlit("loan_date");
    assert(cols[47] == "loan_date"@);
    assert(h.subrange(807, 816) =~= "loan_date"@);
    assert(h.subrange(816, 818) =~= ", "@);
    assert(h[817] == ' ');
    assert(",\n            "@[1] == '\n');
    assert(list_separator_len(h, 816) == 2);
    reveal_strlit("expected_return_date");
    assert(cols[48] == "expected_return_date"@);
    assert(h.subrange(818, 838) =~= "expected_return_date"@);
    assert(cols.skip(48)[0] == cols[48]);
    assert(lists_columns_at(h, 818, cols.skip(48)));
    assert(cols.skip(47)[0] == cols[47]);
    assert(cols.skip(47).skip(1) =~= cols.skip(48));
    assert(lists_columns_at(h, 807, cols.skip(47)));
    assert(cols.skip(46)[0] == cols[46]);
    assert(cols.skip(46).skip(1) =~= cols.skip(47));
    assert(lists_columns_at(h, 784, cols.skip(46)));
    assert(cols.skip(45)[0] == cols[45]);
    assert(cols.skip(45).skip(1) =~= cols.skip(46));
    assert(lists_columns_at(h, 773, cols.skip(45)));
    assert(cols.skip(44)[0] == cols[44]);
    assert(cols.skip(44).skip(1) =~= cols.skip(45));
    assert(lists_columns_at(h, 756, cols.skip(44)));
    assert(cols.skip(43)[0] == cols[43]);
    assert(cols.skip(43).skip(1) =~= cols.skip(44));
    assert(lists_columns_at(h, 737, cols.skip(43)));
    assert(cols.skip(42)[0] == cols[42]);
    assert(cols.skip(42).skip(1) =~= cols.skip(43));
    assert(lists_columns_at(h, 721, cols.skip(42)));
    assert(cols.skip(41)[0] == cols[41]);
    assert(cols.skip(41).skip(1) =~= cols.skip(42));
    assert(lists_columns_at(h, 690, cols.skip(41)));
    assert(cols.skip(40)[0] == cols[40]);
    assert(cols.skip(40).skip(1) =~= cols.skip(41));
    assert(lists_columns_at(h, 675, cols.skip(40)));
    assert(cols.skip(39)[0] == cols[39]);
    assert(cols.skip(39).skip(1) =~= cols.skip(40));
    assert(lists_columns_at(h, 656, cols.skip(39)));
    assert(cols.skip(38)[0] == cols[38]);
    assert(cols.skip(38).skip(1) =~= cols.skip(39));
    assert(lists_columns_at(h, 638, cols.skip(38)));
    assert(cols.skip(37)[0] == cols[37]);
    assert(cols.skip(37).skip(1) =~= cols.skip(38));
    assert(lists_columns_at(h, 621, cols.skip(37)));
    assert(cols.skip(36)[0] == cols[36]);
    assert(cols.skip(36).skip(1) =~= cols.skip(37));
    assert(lists_columns_at(h, 593, cols.skip(36)));
    assert(cols.skip(35)[0] == cols[35]);
    assert(cols.skip(35).skip(1) =~= cols.skip(36));
    assert(lists_columns_at(h, 578, cols.skip(35)));
    assert(cols.skip(34)[0] == cols[34]);
    assert(cols.skip(34).skip(1) =~= cols.skip(35));
    assert(lists_columns_at(h, 567, cols.skip(34)));
    assert(cols.skip(33)[0] == cols[33]);
    assert(cols.skip(33).skip(1) =~= cols.skip(34));
    assert(lists_columns_at(h, 548, cols.skip(33)));
    assert(cols.skip(32)[0] == cols[32]);
    assert(cols.skip(32).skip(1) =~= cols.skip(33));
    assert(lists_columns_at(h, 535, cols.skip(32)));
    assert(cols.skip(31)[0] == cols[31]);
    assert(cols.skip(31).skip(1) =~= cols.skip(32));
    assert(lists_columns_at(h, 506, cols.skip(31)));
    assert(cols.skip(30)[0] == cols[30]);
    assert(cols.skip(30).skip(1) =~= cols.skip(31));
    assert(lists_columns_at(h, 498, cols.skip(30)));
    assert(cols.skip(29)[0] == cols[29]);
    assert(cols.skip(29).skip(1) =~= cols.skip(30));
    assert(lists_columns_at(h, 488, cols.skip(29)));
    assert(cols.skip(28)[0] == cols[28]);
    assert(cols.skip(28).skip(1) =~= cols.skip(29));
    assert(lists_columns_at(h, 469, cols.skip(28)));
    assert(cols.skip(27)[0] == cols[27]);
    assert(cols.skip(27).skip(1) =~= cols.skip(28));
    assert(lists_columns_at(h, 459, cols.skip(27)));
    assert(cols.skip(26)[0] == cols[26]);
    assert(cols.skip(26).skip(1) =~= cols.skip(27));
    assert(lists_columns_at(h, 451, cols.skip(26)));
    assert(cols.skip(25)[0] == cols[25]);
    assert(cols.skip(25).skip(1) =~= cols.skip(26));
    assert(lists_columns_at(h, 439, cols.skip(25)));
    assert(cols.skip(24)[0] == cols[24]);
    assert(cols.skip(24).skip(1) =~= cols.skip(25));
    assert(lists_columns_at(h, 415, cols.skip(24)));
    assert(cols.skip(23)[0] == cols[23]);
    assert(cols.skip(23).skip(1) =~= cols.skip(24));
    assert(lists_columns_at(h, 402, cols.skip(23)));
    assert(cols.skip(22)[0] == cols[22]);
    assert(cols.skip(22).skip(1) =~= cols.skip(23));
    assert(lists_columns_at(h, 384, cols.skip(22)));
    assert(cols.skip(21)[0] == cols[21]);
    assert(cols.skip(21).skip(1) =~= cols.skip(22));
    assert(lists_columns_at(h, 371, cols.skip(21)));
    assert(cols.skip(20)[0] == cols[20]);
    assert(cols.skip(20).skip(1) =~= cols.skip(21));
    assert(lists_columns_at(h, 349, cols.skip(20)));
    assert(cols.skip(19)[0] == cols[19]);
    assert(cols.skip(19).skip(1) =~= cols.skip(20));
    assert(lists_columns_at(h, 320, cols.skip(19)));
    assert(cols.skip(18)[0] == cols[18]);
    assert(cols.skip(18).skip(1) =~= cols.skip(19));
    assert(lists_columns_at(h, 302, cols.skip(18)));
    assert(cols.skip(17)[0] == cols[17]);
    assert(cols.skip(17).skip(1) =~= cols.skip(18));
    assert(lists_columns_at(h, 284, cols.skip(17)));
    assert(cols.skip(16)[0] == cols[16]);
    assert(cols.skip(16).skip(1) =~= cols.skip(17));
    assert(lists_columns_at(h, 267, cols.skip(16)));
    assert(cols.skip(15)[0] == cols[15]);
    assert(cols.skip(15).skip(1) =~= cols.skip(16));
    assert(lists_columns_at(h, 251, cols.skip(15)));
    assert(cols.skip(14)[0] == cols[14]);
    assert(cols.skip(14).skip(1) =~= cols.skip(15));
    assert(lists_columns_at(h, 242, cols.skip(14)));
    assert(cols.skip(13)[0] == cols[13]);
    assert(cols.skip(13).skip(1) =~= cols.skip(14));
    assert(lists_columns_at(h, 207, cols.skip(13)));
    assert(cols.skip(12)[0] == cols[12]);
    assert(cols.skip(12).skip(1) =~= cols.skip(13));
    assert(lists_columns_at(h, 193, cols.skip(12)));
    assert(cols.skip(11)[0] == cols[11]);
    assert(cols.skip(11).skip(1) =~= cols.skip(12));
    assert(lists_columns_at(h, 182, cols.skip(11)));
    assert(cols.skip(10)[0] == cols[10]);
    assert(cols.skip(10).skip(1) =~= cols.skip(11));
    assert(lists_columns_at(h, 168, cols.skip(10)));
    assert(cols.skip(9)[0] == cols[9]);
    assert(cols.skip(9).skip(1) =~= cols.skip(10));
    assert(lists_columns_at(h, 155, cols.skip(9)));
    assert(cols.skip(8)[0] == cols[8]);
    assert(cols.skip(8).skip(1) =~= cols.skip(9));
    assert(lists_columns_at(h, 146, cols.skip(8)));
    assert(cols.skip(7)[0] == cols[7]);
    assert(cols.skip(7).skip(1) =~= cols.skip(8));
    assert(lists_columns_at(h, 118, cols.skip(7)));
    assert(cols.skip(6)[0] == cols[6]);
    assert(cols.skip(6).skip(1) =~= cols.skip(7));
    assert(lists_columns_at(h, 108, cols.skip(6)));
    assert(cols.skip(5)[0] == cols[5]);
    assert(cols.skip(5).skip(1) =~= cols.skip(6));
    assert(lists_columns_at(h, 101, cols.skip(5)));
    assert(cols.skip(4)[0] == cols[4]);
    assert(cols.skip(4).skip(1) =~= cols.skip(5));
    assert(lists_columns_at(h, 88, cols.skip(4)));
    assert(cols.skip(3)[0] == cols[3]);
    assert(cols.skip(3).skip(1) =~= cols.skip(4));
    assert(lists_columns_at(h, 71, cols.skip(3)));
    assert(cols.skip(2)[0] == cols[2]);
    assert(cols.skip(2).skip(1) =~= cols.skip(3));
    assert(lists_columns_at(h, 62, cols.skip(2)));
    assert(cols.skip(1)[0] == cols[1]);
    assert(cols.skip(1).skip(1) =~= cols.skip(2));
    assert(lists_columns_at(h, 53, cols.skip(1)));
    assert(cols.skip(0)[0] == cols[0]);
    assert(cols.skip(0).skip(1) =~= cols.skip(1));
    assert(lists_columns_at(h, 41, cols.skip(0)));
    assert(cols.skip(0) =~= cols);
}

/// The replacement's SQL sets each column to the value bound in its place: before the
/// `k`-th placeholder stands `<k-th column> = `, and before the last one ` WHERE id = `.
#[verifier::rlimit(100)]
pub proof fn law_replacement_names_each_column()
    ensures
        ends_with(UPDATE_BOOK_HEAD@, book_columns()[0] + " = "@),
        forall|k: int|
            1 <= k < book_columns().len() ==> ends_with(
                #[trigger] update_book_segments()[k - 1],
                book_columns()[k] + " = "@,
            ),
        ends_with(update_book_segments()[48], " WHERE id = "@),
{
    let cols = book_columns();
    let segs = update_book_segments();
    reveal_strlit(" = ");
    reveal_strlit(" WHERE id = ");
    reveal_strlit("\n        UPDATE books SET\n            library_id = ");
    reveal_strlit("library_id");
    assert(cols[0] == "library_id"@);
    let t0 = cols[0] + " = "@;
    assert(UPDATE_BOOK_HEAD@.skip(UPDATE_BOOK_HEAD@.len() - t0.len()) =~= t0);
    reveal_strlit(", isbn_13 = ");
    reveal_strlit("isbn_13");
    assert(cols[1] == "isbn_13"@);
    assert(segs[0] == ", isbn_13 = "@);
    assert(segs[0].skip(segs[0].len() - (cols[1] + " = "@).len()) =~= cols[1] + " = "@);
    reveal_strlit(", isbn_10 = ");
    reveal_strlit("isbn_10");
    assert(cols[2] == "isbn_10"@);
    assert(segs[1] == ", isbn_10 = "@);
    assert(segs[1].skip(segs[1].len() - (cols[2] + " = "@).len()) =~= cols[2] + " = "@);
    reveal_strlit(", open_library_id = ");
    reveal_strlit("open_library_id");
    assert(cols[3] == "open_library_id"@);
    assert(segs[2] == ", open_library_id = "@);
    assert(segs[2].skip(segs[2].len() - (cols[3] + " = "@).len()) =~= cols[3] + " = "@);
    reveal_strlit(", oclc_number = ");
    reveal_strlit("oclc_number");
    assert(cols[4] == "oclc_number"@);
    assert(segs[3] == ", oclc_number = "@);
    assert(segs[3].skip(segs[3].len() - (cols[4] + " = "@).len()) =~= cols[4] + " = "@);
    reveal_strlit(", title = ");
    reveal_strlit("title");
    assert(cols[5] == "title"@);
    assert(segs[4] == ", title = "@);
    assert(segs[4].skip(segs[4].len() - (cols[5] + " = "@).len()) =~= cols[5] + " = "@);
    reveal_strlit(",\n            subtitle = ");
    reveal_strlit("subtitle");
    assert(cols[6] == "subtitle"@);
    assert(segs[5] == ",\n            subtitle = "@);
    assert(segs[5].skip(segs[5].len() - (cols[6] + " = "@).len()) =~= cols[6] + " = "@);
    reveal_strlit(", original_title = ");
    reveal_strlit("original_title");
    assert(cols[7] == "original_title"@);
    assert(segs[6] == ", original_title = "@);
    assert(segs[6].skip(segs[6].len() - (cols[7] + " = "@).len()) =~= cols[7] + " = "@);
    reveal_strlit(", authors = ");
    reveal_strlit("authors");
    assert(cols[8] == "authors"@);
    assert(segs[7] == ", authors = "@);
    assert(segs[7].skip(segs[7].len() - (cols[8] + " = "@).len()) =~= cols[8] + " = "@);
    reveal_strlit(", translators = ");
    reveal_strlit("translators");
    assert(cols[9] == "translators"@);
    assert(segs[8] == ", translators = "@);
    assert(segs[8].skip(segs[8].len() - (cols[9] + " = "@).len()) =~= cols[9] + " = "@);
    reveal_strlit(", illustrators = ");
    reveal_strlit("illustrators");
    assert(cols[10] == "illustrators"@);
    assert(segs[9] == ", illustrators = "@);
    assert(segs[9].skip(segs[9].len() - (cols[10] + " = "@).len()) =~= cols[10] + " = "@);
    reveal_strlit(",\n            publisher = ");
    reveal_strlit("publisher");
    assert(cols[11] == "publisher"@);
    assert(segs[10] == ",\n            publisher = "@);
    assert(segs[10].skip(segs[10].len() - (cols[11] + " = "@).len()) =~= cols[11] + " = "@);
    reveal_strlit(", publish_date = ");
    reveal_strlit("publish_date");
    assert(cols[12] == "publish_date"@);
    assert(segs[11] == ", publish_date = "@);
    assert(segs[11].skip(segs[11].len() - (cols[12] + " = "@).len()) =~= cols[12] + " = "@);
    reveal_strlit(", original_publish_date = ");
    reveal_strlit("original_publish_date");
    assert(cols[13] == "original_publish_date"@);
    assert(segs[12] == ", original_publish_date = "@);
    assert(segs[12].skip(segs[12].len() - (cols[13] + " = "@).len()) =~= cols[13] + " = "@);
    reveal_strlit(", edition = ");
    reveal_strlit("edition");
    assert(cols[14] == "edition"@);
    assert(segs[13] == ", edition = "@);
    assert(segs[13].skip(segs[13].len() - (cols[14] + " = "@).len()) =~= cols[14] + " = "@);
    reveal_strlit(", edition_number = ");
    reveal_strlit("edition_number");
    assert(cols[15] == "edition_number"@);
    assert(segs[14] == ", edition_number = "@);
    assert(segs[14].skip(segs[14].len() - (cols[15] + " = "@).len()) =~= cols[15] + " = "@);
    reveal_strlit(",\n            printing_number = ");
    reveal_strlit("printing_number");
    assert(cols[16] == "printing_number"@);
    assert(segs[15] == ",\n            printing_number = "@);
    assert(segs[15].skip(segs[15].len() - (cols[16] + " = "@).len()) =~= cols[16] + " = "@);
    reveal_strlit(", original_edition = ");
    reveal_strlit("original_edition");
    assert(cols[17] == "original_edition"@);
    assert(segs[16] == ", original_edition = "@);
    assert(segs[16].skip(segs[16].len() - (cols[17] + " = "@).len()) =~= cols[17] + " = "@);
    reveal_strlit(", is_first_edition = ");
    reveal_strlit("is_first_edition");
    assert(cols[18] == "is_first_edition"@);
    assert(segs[17] == ", is_first_edition = "@);
    assert(segs[17].skip(segs[17].len() - (cols[18] + " = "@).len()) =~= cols[18] + " = "@);
    reveal_strlit(", collection_name = ");
    reveal_strlit("collection_name");
    assert(cols[19] == "collection_name"@);
    assert(segs[18] == ", collection_name = "@);
    assert(segs[18].skip(segs[18].len() - (cols[19] + " = "@).len()) =~= cols[19] + " = "@);
    reveal_strlit(",\n            volume_in_collection = ");
    reveal_strlit("volume_in_collection");
    assert(cols[20] == "volume_in_collection"@);
    assert(segs[19] == ",\n            volume_in_collection = "@);
    assert(segs[19].skip(segs[19].len() - (cols[20] + " = "@).len()) =~= cols[20] + " = "@);
    reveal_strlit(", series_name = ");
    reveal_strlit("series_name");
    assert(cols[21] == "series_name"@);
    assert(segs[20] == ", series_name = "@);
    assert(segs[20].skip(segs[20].len() - (cols[21] + " = "@).len()) =~= cols[21] + " = "@);
    reveal_strlit(", volume_in_series = ");
    reveal_strlit("volume_in_series");
    assert(cols[22] == "volume_in_series"@);
    assert(segs[21] == ", volume_in_series = "@);
    assert(segs[21].skip(segs[21].len() - (cols[22] + " = "@).len()) =~= cols[22] + " = "@);
    reveal_strlit(", book_format = ");
    reveal_strlit("book_format");
    assert(cols[23] == "book_format"@);
    assert(segs[22] == ", book_format = "@);
    assert(segs[22].skip(segs[22].len() - (cols[23] + " = "@).len()) =~= cols[23] + " = "@);
    reveal_strlit(",\n            page_count = ");
    reveal_strlit("page_count");
    assert(cols[24] == "page_count"@);
    assert(segs[23] == ",\n            page_count = "@);
    assert(segs[23].skip(segs[23].len() - (cols[24] + " = "@).len()) =~= cols[24] + " = "@);
    reveal_strlit(", dimensions = ");
    reveal_strlit("dimensions");
    assert(cols[25] == "dimensions"@);
    assert(segs[24] == ", dimensions = "@);
    assert(segs[24].skip(segs[24].len() - (cols[25] + " = "@).len()) =~= cols[25] + " = "@);
    reveal_strlit(", weight = ");
    reveal_strlit("weight");
    assert(cols[26] == "weight"@);
    assert(segs[25] == ", weight = "@);
    assert(segs[25].skip(segs[25].len() - (cols[26] + " = "@).len()) =~= cols[26] + " = "@);
    reveal_strlit(", language = ");
    reveal_strlit("language");
    assert(cols[27] == "language"@);
    assert(segs[26] == ", language = "@);
    assert(segs[26].skip(segs[26].len() - (cols[27] + " = "@).len()) =~= cols[27] + " = "@);
    reveal_strlit(", original_language = ");
    reveal_strlit("original_language");
    assert(cols[28] == "original_language"@);
    assert(segs[27] == ", original_language = "@);
    assert(segs[27].skip(segs[27].len() - (cols[28] + " = "@).len()) =~= cols[28] + " = "@);
    reveal_strlit(",\n            subjects = ");
    reveal_strlit("subjects");
    assert(cols[29] == "subjects"@);
    assert(segs[28] == ",\n            subjects = "@);
    assert(segs[28].skip(segs[28].len() - (cols[29] + " = "@).len()) =~= cols[29] + " = "@);
    reveal_strlit(", genres = ");
    reveal_strlit("genres");
    assert(cols[30] == "genres"@);
    assert(segs[29] == ", genres = "@);
    assert(segs[29].skip(segs[29].len() - (cols[30] + " = "@).len()) =~= cols[30] + " = "@);
    reveal_strlit(", target_audience = ");
    reveal_strlit("target_audience");
    assert(cols[31] == "target_audience"@);
    assert(segs[30] == ", target_audience = "@);
    assert(segs[30].skip(segs[30].len() - (cols[31] + " = "@).len()) =~= cols[31] + " = "@);
    reveal_strlit(", description = ");
    reveal_strlit("description");
    assert(cols[32] == "description"@);
    assert(segs[31] == ", description = "@);
    assert(segs[31].skip(segs[31].len() - (cols[32] + " = "@).len()) =~= cols[32] + " = "@);
    reveal_strlit(", table_of_contents = ");
    reveal_strlit("table_of_contents");
    assert(cols[33] == "table_of_contents"@);
    assert(segs[32] == ", table_of_contents = "@);
    assert(segs[32].skip(segs[32].len() - (cols[33] + " = "@).len()) =~= cols[33] + " = "@);
    reveal_strlit(",\n            cover_url = ");
    reveal_strlit("cover_url");
    assert(cols[34] == "cover_url"@);
    assert(segs[33] == ",\n            cover_url = "@);
    assert(segs[33].skip(segs[33].len() - (cols[34] + " = "@).len()) =~= cols[34] + " = "@);
    reveal_strlit(", purchase_date = ");
    reveal_strlit("purchase_date");
    assert(cols[35] == "purchase_date"@);
    assert(segs[34] == ", purchase_date = "@);
    assert(segs[34].skip(segs[34].len() - (cols[35] + " = "@).len()) =~= cols[35] + " = "@);
    reveal_strlit(", purchase_price = ");
    reveal_strlit("purchase_price");
    assert(cols[36] == "purchase_price"@);
    assert(segs[35] == ", purchase_price = "@);
    assert(segs[35].skip(segs[35].len() - (cols[36] + " = "@).len()) =~= cols[36] + " = "@);
    reveal_strlit(", store_or_vendor = ");
    reveal_strlit("store_or_vendor");
    assert(cols[37] == "store_or_vendor"@);
    assert(segs[36] == ", store_or_vendor = "@);
    assert(segs[36].skip(segs[36].len() - (cols[37] + " = "@).len()) =~= cols[37] + " = "@);
    reveal_strlit(",\n            acquisition_type = ");
    reveal_strlit("acquisition_type");
    assert(cols[38] == "acquisition_type"@);
    assert(segs[37] == ",\n            acquisition_type = "@);
    assert(segs[37].skip(segs[37].len() - (cols[38] + " = "@).len()) =~= cols[38] + " = "@);
    reveal_strlit(", location_property = ");
    reveal_strlit("location_property");
    assert(cols[39] == "location_property"@);
    assert(segs[38] == ", location_property = "@);
    assert(segs[38].skip(segs[38].len() - (cols[39] + " = "@).len()) =~= cols[39] + " = "@);
    reveal_strlit(", location_room = ");
    reveal_strlit("location_room");
    assert(cols[40] == "location_room"@);
    assert(segs[39] == ", location_room = "@);
    assert(segs[39].skip(segs[39].len() - (cols[40] + " = "@).len()) =~= cols[40] + " = "@);
    reveal_strlit(", location_bookcase = ");
    reveal_strlit("location_bookcase");
    assert(cols[41] == "location_bookcase"@);
    assert(segs[40] == ", location_bookcase = "@);
    assert(segs[40].skip(segs[40].len() - (cols[41] + " = "@).len()) =~= cols[41] + " = "@);
    reveal_strlit(",\n            location_shelf = ");
    reveal_strlit("location_shelf");
    assert(cols[42] == "location_shelf"@);
    assert(segs[41] == ",\n            location_shelf = "@);
    assert(segs[41].skip(segs[41].len() - (cols[42] + " = "@).len()) =~= cols[42] + " = "@);
    reveal_strlit(", location_position = ");
    reveal_strlit("location_position");
    assert(cols[43] == "location_position"@);
    assert(segs[42] == ", location_position = "@);
    assert(segs[42].skip(segs[42].len() - (cols[43] + " = "@).len()) =~= cols[43] + " = "@);
    reveal_strlit(", condition_state = ");
    reveal_strlit("condition_state");
    assert(cols[44] == "condition_state"@);
    assert(segs[43] == ", condition_state = "@);
    assert(segs[43].skip(segs[43].len() - (cols[44] + " = "@).len()) =~= cols[44] + " = "@);
    reveal_strlit(", is_loaned = ");
    reveal_strlit("is_loaned");
    assert(cols[45] == "is_loaned"@);
    assert(segs[44] == ", is_loaned = "@);
    assert(segs[44].skip(segs[44].len() - (cols[45] + " = "@).len()) =~= cols[45] + " = "@);
    reveal_strlit(",\n            loaned_to = ");
    reveal_strlit("loaned_to");
    assert(cols[46] == "loaned_to"@);
    assert(segs[45] == ",\n            loaned_to = "@);
    assert(segs[45].skip(segs[45].len() - (cols[46] + " = "@).len()) =~= cols[46] + " = "@);
    reveal_strlit(", loan_date = ");
    reveal_strlit("loan_date");
    assert(cols[47] == "loan_date"@);
    assert(segs[46] == ", loan_date = "@);
    assert(segs[46].skip(segs[46].len() - (cols[47] + " = "@).len()) =~= cols[47] + " = "@);
    reveal_strlit(", expected_return_date = ");
    reveal_strlit("expected_return_date");
    assert(cols[48] == "expected_return_date"@);
    assert(segs[47] == ", expected_return_date = "@);
    assert(segs[47].skip(segs[47].len() - (cols[48] + " = "@).len()) =~= cols[48] + " = "@);
    reveal_strlit("\n        WHERE id = ");
    assert(segs[48] == "\n        WHERE id = "@);
    assert(segs[48].skip(segs[48].len() - 12) =~= " WHERE id = "@);
    assert forall|k: int| 1 <= k < cols.len() implies ends_with(#[trigger] segs[k - 1], cols[k] + " = "@) by {
        if k == 1 {
            assert(ends_with(segs[0], cols[1] + " = "@));
        }
        if k == 2 {
            assert(ends_with(segs[1], cols[2] + " = "@));
        }
        if k == 3 {
            assert(ends_with(segs[2], cols[3] + " = "@));
        }
        if k == 4 {
            assert(ends_with(segs[3], cols[4] + " = "@));
        }
        if k == 5 {
            assert(ends_with(segs[4], cols[5] + " = "@));
        }
        if k == 6 {
            assert(ends_with(segs[5], cols[6] + " = "@));
        }
        if k == 7 {
            assert(ends_with(segs[6], cols[7] + " = "@));
        }
        if k == 8 {
            assert(ends_with(segs[7], cols[8] + " = "@));
        }
        if k == 9 {
            assert(ends_with(segs[8], cols[9] + " = "@));
        }
        if k == 10 {
            assert(ends_with(segs[9], cols[10] + " = "@));
        }
        if k == 11 {
            assert(ends_with(segs[10], cols[11] + " = "@));
        }
        if k == 12 {
            assert(ends_with(segs[11], cols[12] + " = "@));
        }
        if k == 13 {
            assert(ends_with(segs[12], cols[13] + " = "@));
        }
        if k == 14 {
            assert(ends_with(segs[13], cols[14] + " = "@));
        }
        if k == 15 {
            assert(ends_with(segs[14], cols[15] + " = "@));
        }
        if k == 16 {
            assert(ends_with(segs[15], cols[16] + " = "@));
        }
        if k == 17 {
            assert(ends_with(segs[16], cols[17] + " = "@));
        }
        if k == 18 {
            assert(ends_with(segs[17], cols[18] + " = "@));
        }
        if k == 19 {
            assert(ends_with(segs[18], cols[19] + " = "@));
        }
        if k == 20 {
            assert(ends_with(segs[19], cols[20] + " = "@));
        }
        if k == 21 {
            assert(ends_with(segs[20], cols[21] + " = "@));
        }
        if k == 22 {
            assert(ends_with(segs[21], cols[22] + " = "@));
        }
        if k == 23 {
            assert(ends_with(segs[22], cols[23] + " = "@));
        }
        if k == 24 {
            assert(ends_with(segs[23], cols[24] + " = "@));
        }
        if k == 25 {
            assert(ends_with(segs[24], cols[25] + " = "@));
        }
        if k == 26 {
            assert(ends_with(segs[25], cols[26] + " = "@));
        }
        if k == 27 {
            assert(ends_with(segs[26], cols[27] + " = "@));
        }
        if k == 28 {
            assert(ends_with(segs[27], cols[28] + " = "@));
        }
        if k == 29 {
            assert(ends_with(segs[28], cols[29] + " = "@));
        }
        if k == 30 {
            assert(ends_with(segs[29], cols[30] + " = "@));
        }
        if k == 31 {
            assert(ends_with(segs[30], cols[31] + " = "@));
        }
        if k == 32 {
            assert(ends_with(segs[31], cols[32] + " = "@));
        }
        if k == 33 {
            assert(ends_with(segs[32], cols[33] + " = "@));
        }
        if k == 34 {
            assert(ends_with(segs[33], cols[34] + " = "@));
        }
        if k == 35 {
            assert(ends_with(segs[34], cols[35] + " = "@));
        }
        if k == 36 {
            assert(ends_with(segs[35], cols[36] + " = "@));
        }
        if k == 37 {
            assert(ends_with(segs[36], cols[37] + " = "@));
        }
        if k == 38 {
            assert(ends_with(segs[37], cols[38] + " = "@));
        }
        if k == 39 {
            assert(ends_with(segs[38], cols[39] + " = "@));
        }
        if k == 40 {
            assert(ends_with(segs[39], cols[40] + " = "@));
        }
        if k == 41 {
            assert(ends_with(segs[40], cols[41] + " = "@));
        }
        if k == 42 {
            assert(ends_with(segs[41], cols[42] + " = "@));
        }
        if k == 43 {
            assert(ends_with(segs[42], cols[43] + " = "@));
        }
        if k == 44 {
            assert(ends_with(segs[43], cols[44] + " = "@));
        }
        if k == 45 {
            assert(ends_with(segs[44], cols[45] + " = "@));
        }
        if k == 46 {
            assert(ends_with(segs[45], cols[46] + " = "@));
        }
        if k == 47 {
            assert(ends_with(segs[46], cols[47] + " = "@));
        }
        if k == 48 {
            assert(ends_with(segs[47], cols[48] + " = "@));
        }
    }
}


/// The columns of the requesting user's reading data, in the order the two
/// reading-data statements list them.
pub open spec fn interaction_columns() -> Seq<Seq<char>> {
    seq!["user_id"@, "book_id"@, "read_status"@, "rating"@, "personal_notes"@, "reading_notes"@, "date_started"@, "date_finished"@]
}

/// The value the reading data gives the column `name`.
pub open spec fn interaction_field(user_id: u128, book_id: u128, it: BookInteraction, name: Seq<char>) -> SqlArg {
    if name == "user_id"@ {
        SqlArg::Uuid(user_id)
    } else if name == "book_id"@ {
        SqlArg::Uuid(book_id)
    } else if name == "read_status"@ {
        SqlArg::Text(status_or_unread(it.read_status))
    } else if name == "rating"@ {
        opt_arg_i32(it.rating)
    } else if name == "personal_notes"@ {
        opt_arg_text(it.personal_notes)
    } else if name == "reading_notes"@ {
        opt_arg_text(it.reading_notes)
    } else if name == "date_started"@ {
        opt_arg_date(it.date_started)
    } else if name == "date_finished"@ {
        opt_arg_date(it.date_finished)
    } else {
        SqlArg::Null(crate::sql::SqlType::Text)
    }
}

/// Each reading-data value goes to its own column: the `k`-th argument is the value for
/// the `k`-th column both statements list (the user, the book, then the reading data),
/// and both statements list them in that order.
#[verifier::rlimit(100)]
pub proof fn law_reading_values_in_their_columns(user_id: u128, book_id: u128, it: BookInteraction)
    ensures
        interaction_args(user_id, book_id, it).len() == interaction_columns().len(),
        forall|k: int|
            0 <= k < interaction_columns().len() ==> #[trigger] interaction_args(user_id, book_id, it)[k]
                == interaction_field(user_id, book_id, it, interaction_columns()[k]),
        lists_columns_at(INSERT_INTERACTION_HEAD@, 58, interaction_columns()),
        lists_columns_at(UPSERT_INTERACTION_HEAD@, 45, interaction_columns()),
{
    let cols = interaction_columns();
    reveal_strlit("user_id");
    assert("user_id"@.len() == 7);
    reveal_strlit("book_id");
    assert("book_id"@.len() == 7);
    reveal_strlit("read_status");
    assert("read_status"@.len() == 11);
    reveal_strlit("rating");
    assert("rating"@.len() == 6);
    reveal_strlit("personal_notes");
    assert("personal_notes"@.len() == 14);
    reveal_strlit("reading_notes");
    assert("reading_notes"@.len() == 13);
    reveal_strlit("date_started");
    assert("date_started"@.len() == 12);
    reveal_strlit("date_finished");
    assert("date_finished"@.len() == 13);
    assert("book_id"@[0] == 'b');
    assert("date_finished"@[0] == 'd');
    assert("reading_notes"@[0] == 'r');
    assert("user_id"@[0] == 'u');
    assert forall|k: int|
        0 <= k < cols.len() implies #[trigger] interaction_args(user_id, book_id, it)[k]
            == interaction_field(user_id, book_id, it, cols[k]) by {
        if k == 0 {
            assert(cols[0] == "user_id"@);
        }
        if k == 1 {
            assert(cols[1] == "book_id"@);
        }
        if k == 2 {
            assert(cols[2] == "read_status"@);
        }
        if k == 3 {
            assert(cols[3] == "rating"@);
        }
        if k == 4 {
            assert(cols[4] == "personal_notes"@);
        }
        if k == 5 {
            assert(cols[5] == "reading_notes"@);
        }
        if k == 6 {
            assert(cols[6] == "date_started"@);
        }
        if k == 7 {
            assert(cols[7] == "date_finished"@);
        }
    }
    {
    let h = INSERT_INTERACTION_HEAD@;
    reveal_strlit("\n        INSERT INTO user_book_interactions (\n            user_id, book_id, read_status, rating, personal_notes, reading_notes, date_started, date_finished\n        ) VALUES (");
    reveal_strlit(", ");
    reveal_strlit(",\n            ");
    assert(",\n            "@[1] == '\n');
    assert(cols[0] == "user_id"@);
    assert(h.subrange(58, 65) =~= "user_id"@);
    assert(h.subrange(65, 67) =~= ", "@);
    assert(h[66] == ' ');
    assert(list_separator_len(h, 65) == 2);
    assert(cols[1] == "book_id"@);
    assert(h.subrange(67, 74) =~= "book_id"@);
    assert(h.subrange(74, 76) =~= ", "@);
    assert(h[75] == ' ');
    assert(list_separator_len(h, 74) == 2);
    assert(cols[2] == "read_status"@);
    assert(h.subrange(76, 87) =~= "read_status"@);
    assert(h.subrange(87, 89) =~= ", "@);
    assert(h[88] == ' ');
    assert(list_separator_len(h, 87) == 2);
    assert(cols[3] == "rating"@);
    assert(h.subrange(89, 95) =~= "rating"@);
    assert(h.subrange(95, 97) =~= ", "@);
    assert(h[96] == ' ');
    assert(list_separator_len(h, 95) == 2);
    assert(cols[4] == "personal_notes"@);
    assert(h.subrange(97, 111) =~= "personal_notes"@);
    assert(h.subrange(111, 113) =~= ", "@);
    assert(h[112] == ' ');
    assert(list_separator_len(h, 111) == 2);
    assert(cols[5] == "reading_notes"@);
    assert(h.subrange(113, 126) =~= "reading_notes"@);
    assert(h.subrange(126, 128) =~= ", "@);
    assert(h[127] == ' ');
    assert(list_separator_len(h, 126) == 2);
    assert(cols[6] == "date_started"@);
    assert(h.subrange(128, 140) =~= "date_started"@);
    assert(h.subrange(140, 142) =~= ", "@);
    assert(h[141] == ' ');
    assert(list_separator_len(h, 140) == 2);
    assert(cols[7] == "date_finished"@);
    assert(h.subrange(142, 155) =~= "date_finished"@);
    assert(cols.skip(7)[0] == cols[7]);
    assert(lists_columns_at(h, 142, cols.skip(7)));
    assert(cols.skip(6)[0] == cols[6]);
    assert(cols.skip(6).skip(1) =~= cols.skip(7));
    assert(lists_columns_at(h, 128, cols.skip(6)));
    assert(cols.skip(5)[0] == cols[5]);
    assert(cols.skip(5).skip(1) =~= cols.skip(6));
    assert(lists_columns_at(h, 113, cols.skip(5)));
    assert(cols.skip(4)[0] == cols[4]);
    assert(cols.skip(4).skip(1) =~= cols.skip(5));
    assert(lists_columns_at(h, 97, cols.skip(4)));
    assert(cols.skip(3)[0] == cols[3]);
    assert(cols.skip(3).skip(1) =~= cols.skip(4));
    assert(lists_columns_at(h, 89, cols.skip(3)));
    assert(cols.skip(2)[0] == cols[2]);
    assert(cols.skip(2).skip(1) =~= cols.skip(3));
    assert(lists_columns_at(h, 76, cols.skip(2)));
    assert(cols.skip(1)[0] == cols[1]);
    assert(cols.skip(1).skip(1) =~= cols.skip(2));
    assert(lists_columns_at(h, 67, cols.skip(1)));
    assert(cols.skip(0)[0] == cols[0]);
    assert(cols.skip(0).skip(1) =~= cols.skip(1));
    assert(lists_columns_at(h, 58, cols.skip(0)));
    assert(cols.skip(0) =~= cols);
    }
    {
    let h = UPSERT_INTERACTION_HEAD@;
    reveal_strlit("\n        INSERT INTO user_book_interactions (user_id, book_id, read_status, rating, personal_notes, reading_notes, date_started, date_finished)\n        VALUES (");
    reveal_strlit(", ");
    reveal_strlit(",\n            ");
    assert(",\n            "@[1] == '\n');
    assert(cols[0] == "user_id"@);
    assert(h.subrange(45, 52) =~= "user_id"@);
    assert(h.subrange(52, 54) =~= ", "@);
    assert(h[53] == ' ');
    assert(list_separator_len(h, 52) == 2);
    assert(cols[1] == "book_id"@);
    assert(h.subrange(54, 61) =~= "book_id"@);
    assert(h.subrange(61, 63) =~= ", "@);
    assert(h[62] == ' ');
    assert(list_separator_len(h, 61) == 2);
    assert(cols[2] == "read_status"@);
    assert(h.subrange(63, 74) =~= "read_status"@);
    assert(h.subrange(74, 76) =~= ", "@);
    assert(h[75] == ' ');
    assert(list_separator_len(h, 74) == 2);
    assert(cols[3] == "rating"@);
    assert(h.subrange(76, 82) =~= "rating"@);
    assert(h.subrange(82, 84) =~= ", "@);
    assert(h[83] == ' ');
    assert(list_separator_len(h, 82) == 2);
    assert(cols[4] == "personal_notes"@);
    assert(h.subrange(84, 98) =~= "personal_notes"@);
    assert(h.subrange(98, 100) =~= ", "@);
    assert(h[99] == ' ');
    assert(list_separator_len(h, 98) == 2);
    assert(cols[5] == "reading_notes"@);
    assert(h.subrange(100, 113) =~= "reading_notes"@);
    assert(h.subrange(113, 115) =~= ", "@);
    assert(h[114] == ' ');
    assert(list_separator_len(h, 113) == 2);
    assert(cols[6] == "date_started"@);
    assert(h.subrange(115, 127) =~= "date_started"@);
    assert(h.subrange(127, 129) =~= ", "@);
    assert(h[128] == ' ');
    assert(list_separator_len(h, 127) == 2);
    assert(cols[7] == "date_finished"@);
    assert(h.subrange(129, 142) =~= "date_finished"@);
    assert(cols.skip(7)[0] == cols[7]);
    assert(lists_columns_at(h, 129, cols.skip(7)));
    assert(cols.skip(6)[0] == cols[6]);
    assert(cols.skip(6).skip(1) =~= cols.skip(7));
    assert(lists_columns_at(h, 115, cols.skip(6)));
    assert(cols.skip(5)[0] == cols[5]);
    assert(cols.skip(5).skip(1) =~= cols.skip(6));
    assert(lists_columns_at(h, 100, cols.skip(5)));
    assert(cols.skip(4)[0] == cols[4]);
    assert(cols.skip(4).skip(1) =~= cols.skip(5));
    assert(lists_columns_at(h, 84, cols.skip(4)));
    assert(cols.skip(3)[0] == cols[3]);
    assert(cols.skip(3).skip(1) =~= cols.skip(4));
    assert(lists_columns_at(h, 76, cols.skip(3)));
    assert(cols.skip(2)[0] == cols[2]);
    assert(cols.skip(2).skip(1) =~= cols.skip(3));
    assert(lists_columns_at(h, 63, cols.skip(2)));
    assert(cols.skip(1)[0] == cols[1]);
    assert(cols.skip(1).skip(1) =~= cols.skip(2));
    assert(lists_columns_at(h, 54, cols.skip(1)));
    assert(cols.skip(0)[0] == cols[0]);
    assert(cols.skip(0).skip(1) =~= cols.skip(1));
    assert(lists_columns_at(h, 45, cols.skip(0)));
    assert(cols.skip(0) =~= cols);
    }
}

} // verus!
