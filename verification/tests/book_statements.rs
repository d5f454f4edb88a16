use home_library::books::{
    insert_book_statement, insert_interaction_statement, update_book_statement,
    upsert_interaction_statement, BookInteraction,
};
use home_library::model::CreateBookDto;
use home_library::time::CalendarDate;

const INSERT_BOOK_SQL: &str = r#"
        INSERT INTO books (
            library_id, isbn_13, isbn_10, open_library_id, oclc_number, title, subtitle, original_title,
            authors, translators, illustrators, publisher, publish_date, original_publish_date,
            edition, edition_number, printing_number, original_edition, is_first_edition, collection_name,
            volume_in_collection, series_name, volume_in_series, book_format, page_count,
            dimensions, weight, language, original_language, subjects, genres, target_audience,
            description, table_of_contents, cover_url, purchase_date, purchase_price,
            store_or_vendor, acquisition_type, location_property, location_room, location_bookcase,
            location_shelf, location_position, condition_state, is_loaned, loaned_to,
            loan_date, expected_return_date
        ) VALUES (
            $1, $2, $3, $4, $5, $6, $7, $8, $9, $10, $11, $12, $13, $14, $15, $16, $17, $18, $19,
            $20, $21, $22, $23, $24, $25, $26, $27, $28, $29, $30, $31, $32, $33, $34, $35, $36,
            $37, $38, $39, $40, $41, $42, $43, $44, $45, $46, $47, $48, $49
        )
        RETURNING id
        "#;

const INSERT_INTERACTION_SQL: &str = r#"
        INSERT INTO user_book_interactions (
            user_id, book_id, read_status, rating, personal_notes, reading_notes, date_started, date_finished
        ) VALUES ($1, $2, $3, $4, $5, $6, $7, $8)
        "#;

const UPDATE_BOOK_SQL: &str = r#"
        UPDATE books SET
            library_id = $1, isbn_13 = $2, isbn_10 = $3, open_library_id = $4, oclc_number = $5, title = $6,
            subtitle = $7, original_title = $8, authors = $9, translators = $10, illustrators = $11,
            publisher = $12, publish_date = $13, original_publish_date = $14, edition = $15, edition_number = $16,
            printing_number = $17, original_edition = $18, is_first_edition = $19, collection_name = $20,
            volume_in_collection = $21, series_name = $22, volume_in_series = $23, book_format = $24,
            page_count = $25, dimensions = $26, weight = $27, language = $28, original_language = $29,
            subjects = $30, genres = $31, target_audience = $32, description = $33, table_of_contents = $34,
            cover_url = $35, purchase_date = $36, purchase_price = $37, store_or_vendor = $38,
            acquisition_type = $39, location_property = $40, location_room = $41, location_bookcase = $42,
            location_shelf = $43, location_position = $44, condition_state = $45, is_loaned = $46,
            loaned_to = $47, loan_date = $48, expected_return_date = $49
        WHERE id = $50
        "#;

const UPSERT_INTERACTION_SQL: &str = r#"
        INSERT INTO user_book_interactions (user_id, book_id, read_status, rating, personal_notes, reading_notes, date_started, date_finished)
        VALUES ($1, $2, $3, $4, $5, $6, $7, $8)
        ON CONFLICT (user_id, book_id) DO UPDATE SET
            read_status = EXCLUDED.read_status,
            rating = EXCLUDED.rating,
            personal_notes = EXCLUDED.personal_notes,
            reading_notes = EXCLUDED.reading_notes,
            date_started = EXCLUDED.date_started,
            date_finished = EXCLUDED.date_finished
        "#;

fn dune() -> CreateBookDto {
    let mut p = CreateBookDto::default();
    p.title = "Dune".to_string();
    p.authors = vec!["Frank Herbert".to_string()];
    p.rating = Some(5);
    p.date_started = Some(CalendarDate { year: 2024, month: 1, day: 2 });
    p
}

#[test]
fn new_book_statement_is_the_fixed_insert() {
    let (qb, it) = insert_book_statement(dune(), 9);
    assert_eq!(qb.inner.sql(), INSERT_BOOK_SQL);
    assert_eq!(it.read_status, None);
    assert_eq!(it.rating, Some(5));
    assert_eq!(it.date_started, Some(CalendarDate { year: 2024, month: 1, day: 2 }));
}

#[test]
fn replacement_statement_is_the_fixed_update() {
    let mut p = dune();
    p.read_status = Some("reading".to_string());
    let (qb, it) = update_book_statement(p, 9, 10);
    assert_eq!(qb.inner.sql(), UPDATE_BOOK_SQL);
    assert_eq!(it.read_status.as_deref(), Some("reading"));
}

#[test]
fn reading_data_statements() {
    let it = BookInteraction {
        read_status: None,
        rating: None,
        personal_notes: Some("notes".to_string()),
        reading_notes: None,
        date_started: None,
        date_finished: None,
    };
    assert_eq!(insert_interaction_statement(1, 2, it).inner.sql(), INSERT_INTERACTION_SQL);
    let it = BookInteraction {
        read_status: Some("read".to_string()),
        rating: Some(3),
        personal_notes: None,
        reading_notes: None,
        date_started: None,
        date_finished: Some(CalendarDate { year: 2023, month: 12, day: 31 }),
    };
    assert_eq!(upsert_interaction_statement(1, 2, it).inner.sql(), UPSERT_INTERACTION_SQL);
}
