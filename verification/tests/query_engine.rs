use home_library::model::{AutocompleteQuery, BookFilterQuery, QueryAST};
use home_library::query::{
    apply_condition, apply_filters, apply_sorting, autocomplete_query, build_query_recursive,
    fetch_all_for_export_query, fetch_books_queries,
};
use home_library::sql::SqlBuilder;
use sqlx::{Postgres, QueryBuilder};

fn empty() -> SqlBuilder {
    SqlBuilder { inner: QueryBuilder::<Postgres>::new("") }
}

fn condition_sql(field: &str, operator: &str, value: &str) -> String {
    let mut qb = empty();
    apply_condition(field, operator, value, &mut qb);
    qb.inner.sql().to_string()
}

fn cond(field: &str, operator: &str, value: &str) -> QueryAST {
    QueryAST::Condition {
        field: field.to_string(),
        operator: operator.to_string(),
        value: value.to_string(),
    }
}

const VISIBLE: &str = " WHERE b.library_id IN (SELECT l.id FROM libraries l LEFT JOIN library_members lm ON l.id = lm.library_id WHERE l.owner_id = ";

#[test]
fn text_operators_map_to_patterns() {
    assert_eq!(condition_sql("title", "_contains", "Harry"), " b.title ILIKE $1");
    assert_eq!(condition_sql("title", "_contains_case", "Harry"), " b.title LIKE $1");
    assert_eq!(condition_sql("title", "_starts", "Harry"), " b.title ILIKE $1");
    assert_eq!(condition_sql("publisher", "_ends_case", "Press"), " b.publisher LIKE $1");
    assert_eq!(condition_sql("isbn_13", "_exact", "978"), " b.isbn_13 = $1");
    assert_eq!(condition_sql("read_status", "_exact", "read"), " ubi.read_status = $1");
    assert_eq!(condition_sql("title", "_whatever", "x"), " b.title ILIKE $1");
}

#[test]
fn empty_operator_tests_null_or_blank() {
    assert_eq!(
        condition_sql("personal_notes", "_empty", "true"),
        " (ubi.personal_notes IS NULL OR ubi.personal_notes = '') "
    );
    assert_eq!(
        condition_sql("subtitle", "_empty", "no"),
        " (b.subtitle IS NOT NULL AND b.subtitle != '') "
    );
}

#[test]
fn numeric_operators_and_unparsable_numbers() {
    assert_eq!(condition_sql("page_count", "_gte", "200"), " b.page_count >= $1");
    assert_eq!(condition_sql("page_count", "_gt", "-7"), " b.page_count > $1");
    assert_eq!(condition_sql("rating", "_lt", "+3"), " ubi.rating < $1");
    assert_eq!(condition_sql("page_count", "_lte", "10"), " b.page_count <= $1");
    assert_eq!(condition_sql("page_count", "", "10"), " b.page_count = $1");
    assert_eq!(condition_sql("page_count", "_gte", "many"), " 1=0 ");
    assert_eq!(condition_sql("page_count", "_gte", "3000000000"), " 1=0 ");
    assert_eq!(condition_sql("page_count", "_gte", "-"), " 1=0 ");
}

#[test]
fn date_conditions_accept_dates_and_instants() {
    assert_eq!(condition_sql("publish_date", "_gt", "2020-01-31"), " b.publish_date > $1");
    assert_eq!(
        condition_sql("created_at", "_lte", "2020-01-31T10:00:00+02:00"),
        " b.created_at <= $1"
    );
    assert_eq!(condition_sql("date_started", "", "2020-01-31"), " ubi.date_started = $1");
    assert_eq!(condition_sql("publish_date", "_gt", "31/01/2020"), " 1=0 ");
}

#[test]
fn boolean_search_author_and_unknown_columns() {
    assert_eq!(condition_sql("is_loaned", "", "true"), " b.is_loaned = TRUE ");
    assert_eq!(condition_sql("is_first_edition", "", "false"), " b.is_first_edition = FALSE ");
    assert_eq!(condition_sql("is_loaned", "", "yes"), " 1=0 ");
    assert_eq!(
        condition_sql("search", "", "dune"),
        " (b.title ILIKE $1 OR b.original_title ILIKE $2) "
    );
    assert_eq!(condition_sql("author", "", "Herbert"), " array_to_string(b.authors, ', ') ILIKE $1");
    assert_eq!(condition_sql("authors", "", "Herbert"), " array_to_string(b.authors, ', ') ILIKE $1");
    assert_eq!(condition_sql("password; DROP TABLE books", "_exact", "x"), " 1=1 ");
}

#[test]
fn filter_value_never_enters_the_sql_text() {
    let hostile = "x' OR '1'='1";
    assert_eq!(condition_sql("title", "_contains", hostile), condition_sql("title", "_contains", "plain"));
    assert!(!condition_sql("title", "_exact", hostile).contains("OR '1'"));
}

#[test]
fn readme_example_filter() {
    let tree = QueryAST::And {
        nodes: vec![
            cond("title", "_starts", "Harry"),
            cond("page_count", "_gte", "200"),
            cond("personal_notes", "_empty", "true"),
        ],
    };
    let mut qb = empty();
    build_query_recursive(&tree, &mut qb);
    assert_eq!(
        qb.inner.sql(),
        "( b.title ILIKE $1 AND  b.page_count >= $2 AND  (ubi.personal_notes IS NULL OR ubi.personal_notes = '') )"
    );
}

#[test]
fn or_and_not_groups() {
    let tree = QueryAST::Not {
        node: Box::new(QueryAST::Or {
            nodes: vec![cond("is_loaned", "", "true"), cond("rating", "_gt", "4")],
        }),
    };
    let mut qb = empty();
    build_query_recursive(&tree, &mut qb);
    assert_eq!(qb.inner.sql(), "NOT (( b.is_loaned = TRUE  OR  ubi.rating > $1))");
    let mut qb = empty();
    build_query_recursive(&QueryAST::And { nodes: vec![] }, &mut qb);
    assert_eq!(qb.inner.sql(), "()");
}

#[test]
fn filters_wrap_the_tree() {
    let tree = cond("title", "_contains", "a");
    let mut qb = empty();
    apply_filters(Some(&tree), &mut qb);
    assert_eq!(qb.inner.sql(), " AND ( b.title ILIKE $1)");
    let mut qb = empty();
    apply_filters(None, &mut qb);
    assert_eq!(qb.inner.sql(), "");
}

#[test]
fn sorting_defaults_and_whitelist() {
    let mut p = BookFilterQuery::default();
    let mut qb = empty();
    apply_sorting(&p, &mut qb);
    assert_eq!(qb.inner.sql(), " ORDER BY b.created_at DESC NULLS LAST, b.id ASC ");

    p.sort_by = Some("rating".to_string());
    p.sort_order = Some("asc".to_string());
    let mut qb = empty();
    apply_sorting(&p, &mut qb);
    assert_eq!(qb.inner.sql(), " ORDER BY ubi.rating ASC NULLS LAST, b.id ASC ");

    p.sort_by = Some("title; DROP TABLE books".to_string());
    p.sort_order = Some("ASC".to_string());
    let mut qb = empty();
    apply_sorting(&p, &mut qb);
    assert_eq!(qb.inner.sql(), " ORDER BY b.created_at DESC NULLS LAST, b.id ASC ");
}

#[test]
fn listing_page_and_count_share_their_filter() {
    let mut p = BookFilterQuery::default();
    p.limit = Some(0);
    p.offset = Some(-5);
    p.library_id = Some(7);
    let tree = cond("title", "_contains", "a");
    let (page, count) = fetch_books_queries(&p, Some(&tree), 42);
    let head = "SELECT b.*, ubi.read_status, ubi.rating, ubi.personal_notes, ubi.reading_notes, ubi.date_started, ubi.date_finished FROM books b LEFT JOIN user_book_interactions ubi ON b.id = ubi.book_id AND ubi.user_id = ";
    let count_head = "SELECT COUNT(*) FROM books b LEFT JOIN user_book_interactions ubi ON b.id = ubi.book_id AND ubi.user_id = ";
    let rest = format!(
        "$1{}$2 OR lm.user_id = $3)  AND b.library_id = $4 AND ( b.title ILIKE $5)",
        VISIBLE
    );
    assert_eq!(count.inner.sql(), format!("{}{}", count_head, rest));
    assert_eq!(
        page.inner.sql(),
        format!(
            "{}{} ORDER BY b.created_at DESC NULLS LAST, b.id ASC  LIMIT $6 OFFSET $7",
            head, rest
        )
    );
}

#[test]
fn listing_without_paging() {
    let p = BookFilterQuery::default();
    let (page, count) = fetch_books_queries(&p, None, 1);
    assert!(page.inner.sql().ends_with(")  ORDER BY b.created_at DESC NULLS LAST, b.id ASC "));
    assert!(count.inner.sql().ends_with("lm.user_id = $3) "));
}

#[test]
fn export_selection() {
    let p = BookFilterQuery::default();
    let q = fetch_all_for_export_query(&p, None, Some(vec![]), 1);
    assert!(q.inner.sql().ends_with(")  AND 1=0  ORDER BY b.created_at DESC NULLS LAST, b.id ASC "));
    let q = fetch_all_for_export_query(&p, None, Some(vec![5, 6]), 1);
    assert!(q.inner.sql().ends_with(")  AND b.id = ANY($4)  ORDER BY b.created_at DESC NULLS LAST, b.id ASC "));
    let tree = cond("title", "_contains", "a");
    let q = fetch_all_for_export_query(&p, Some(&tree), None, 1);
    assert!(q.inner.sql().ends_with(")  AND ( b.title ILIKE $4) ORDER BY b.created_at DESC NULLS LAST, b.id ASC "));
}

#[test]
fn autocomplete_fields() {
    let q = AutocompleteQuery { field: "publisher".to_string(), q: "pen".to_string(), limit: None };
    let s = autocomplete_query(&q, 3).expect("publisher is suggested");
    assert_eq!(
        s.inner.sql(),
        "SELECT field_val FROM (SELECT publisher as field_val, count(publisher) as c FROM books WHERE library_id IN (SELECT l.id FROM libraries l LEFT JOIN library_members lm ON l.id = lm.library_id WHERE l.owner_id = $1 OR lm.user_id = $2) AND publisher IS NOT NULL AND publisher != '' AND publisher ILIKE $3 GROUP BY publisher ORDER BY c DESC LIMIT $4) sub ORDER BY field_val ASC"
    );
    let q = AutocompleteQuery { field: "genres".to_string(), q: "sci".to_string(), limit: Some(3) };
    let s = autocomplete_query(&q, 3).expect("genres are suggested");
    assert_eq!(
        s.inner.sql(),
        "SELECT unnest_val FROM (SELECT unnest_val, count(unnest_val) as c FROM (SELECT unnest(genres) as unnest_val FROM books WHERE library_id IN (SELECT l.id FROM libraries l LEFT JOIN library_members lm ON l.id = lm.library_id WHERE l.owner_id = $1 OR lm.user_id = $2)) as unnested WHERE unnest_val ILIKE $3 GROUP BY unnest_val ORDER BY c DESC LIMIT $4) sub ORDER BY unnest_val ASC"
    );
    let q = AutocompleteQuery { field: "password_hash".to_string(), q: "a".to_string(), limit: None };
    assert!(autocomplete_query(&q, 3).is_none());
}

#[test]
fn filter_trees_differing_in_values_give_the_same_sql() {
    let tree = |title: &str, pages: &str| QueryAST::Or {
        nodes: vec![
            cond("title", "_contains", title),
            QueryAST::Not { node: Box::new(cond("page_count", "_gt", pages)) },
        ],
    };
    let mut a = empty();
    apply_filters(Some(&tree("dune", "100")), &mut a);
    let mut b = empty();
    apply_filters(Some(&tree("'); DELETE FROM books; --", "7")), &mut b);
    assert_eq!(a.inner.sql(), b.inner.sql());
    assert_eq!(a.inner.sql(), " AND (( b.title ILIKE $1 OR NOT ( b.page_count > $2)))");
}

#[test]
fn empty_operator_on_columns_without_text() {
    assert_eq!(condition_sql("rating", "_empty", "true"), " (ubi.rating IS NULL) ");
    assert_eq!(condition_sql("page_count", "_empty", "false"), " (b.page_count IS NOT NULL) ");
    assert_eq!(condition_sql("loan_date", "_empty", "true"), " (b.loan_date IS NULL) ");
    assert_eq!(condition_sql("is_loaned", "_empty", "true"), " (b.is_loaned IS NULL) ");
}

#[test]
fn sorting_by_reading_data_uses_its_table() {
    let mut p = BookFilterQuery::default();
    p.sort_by = Some("read_status".to_string());
    let mut qb = empty();
    apply_sorting(&p, &mut qb);
    assert_eq!(qb.inner.sql(), " ORDER BY ubi.read_status DESC NULLS LAST, b.id ASC ");
}

#[test]
fn readme_query_string_suffix_filters() {
    let mut p = BookFilterQuery::default();
    p.suffix_filters = vec![
        ("title_starts".to_string(), "Harry".to_string()),
        ("page_count_gte".to_string(), "200".to_string()),
        ("personal_notes_empty".to_string(), "true".to_string()),
        ("no_suffix_here".to_string(), "x".to_string()),
    ];
    let (page, count) = fetch_books_queries(&p, None, 1);
    let filters = " AND  b.title ILIKE $4 AND  b.page_count >= $5 AND  (ubi.personal_notes IS NULL OR ubi.personal_notes = '') ";
    assert!(count.inner.sql().ends_with(&format!("lm.user_id = $3) {}", filters)));
    assert!(page.inner.sql().contains(&format!("lm.user_id = $3) {} ORDER BY", filters)));
    let export = fetch_all_for_export_query(&p, None, None, 1);
    assert_eq!(export.inner.sql(), page.inner.sql());
}

#[test]
fn suffix_operators_split_from_the_column() {
    let mut p = BookFilterQuery::default();
    p.suffix_filters = vec![
        ("title_contains_case".to_string(), "a".to_string()),
        ("rating_lt".to_string(), "3".to_string()),
        ("author_contains".to_string(), "Le Guin".to_string()),
        ("_gt".to_string(), "1".to_string()),
    ];
    let (_, count) = fetch_books_queries(&p, None, 1);
    assert!(count.inner.sql().ends_with(
        "lm.user_id = $3)  AND  b.title LIKE $4 AND  ubi.rating < $5 AND  array_to_string(b.authors, ', ') ILIKE $6"
    ));
}
