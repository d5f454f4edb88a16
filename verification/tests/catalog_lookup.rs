use home_library::catalog::{
    clean_identifier_exec, google_lookup_record_exec, google_lookup_url_exec,
    google_search_results_exec, google_search_url_exec, metadata_after_google,
    openlibrary_lookup_url_exec, openlibrary_record_exec, openlibrary_search_results_exec,
    openlibrary_search_url_exec, results_after_google,
};
use home_library::json::{JsonNumber, JsonValue};

fn text(s: &str) -> JsonValue {
    JsonValue::Str(s.to_string())
}

fn number(n: u64) -> JsonValue {
    JsonValue::Number(JsonNumber::PosInt(n))
}

fn object(members: Vec<(&str, JsonValue)>) -> JsonValue {
    JsonValue::Object(members.into_iter().map(|(k, v)| (k.to_string(), v)).collect())
}

fn strings(items: &[&str]) -> Vec<String> {
    items.iter().map(|s| s.to_string()).collect()
}

fn google_answer(volume: JsonValue) -> JsonValue {
    object(vec![("items", JsonValue::Array(vec![object(vec![("volumeInfo", volume)])]))])
}

#[test]
fn identifiers_are_cleaned() {
    assert_eq!(clean_identifier_exec("978-0 13-468599-1"), "9780134685991");
    assert_eq!(clean_identifier_exec("ol123m"), "OL123M");
}

#[test]
fn lookup_urls() {
    assert_eq!(
        google_lookup_url_exec("978-0-13-468599-1", None),
        "https://www.googleapis.com/books/v1/volumes?q=isbn:9780134685991"
    );
    assert_eq!(
        google_lookup_url_exec("ol123m", Some("KEY")),
        "https://www.googleapis.com/books/v1/volumes?q=OL123M&key=KEY"
    );
    assert_eq!(
        openlibrary_lookup_url_exec("0-13-468599-x"),
        "https://openlibrary.org/api/books?bibkeys=ISBN:013468599X&format=json&jscmd=data"
    );
    assert_eq!(
        openlibrary_lookup_url_exec("ol123m"),
        "https://openlibrary.org/api/books?bibkeys=OLID:OL123M&format=json&jscmd=data"
    );
    assert_eq!(
        openlibrary_lookup_url_exec("ocLC 42"),
        "https://openlibrary.org/api/books?bibkeys=OCLC:42&format=json&jscmd=data"
    );
    assert_eq!(
        openlibrary_lookup_url_exec("12345"),
        "https://openlibrary.org/api/books?bibkeys=OCLC:12345&format=json&jscmd=data"
    );
}

#[test]
fn search_urls() {
    assert_eq!(
        google_search_url_exec("dune", None),
        "https://www.googleapis.com/books/v1/volumes?q=dune&maxResults=5"
    );
    assert_eq!(
        google_search_url_exec("dune", Some("K")),
        "https://www.googleapis.com/books/v1/volumes?q=dune&maxResults=5&key=K"
    );
    assert_eq!(openlibrary_search_url_exec("dune"), "https://openlibrary.org/search.json?q=dune&limit=5");
}

#[test]
fn google_record_of_a_lookup() {
    let volume = object(vec![
        ("authors", JsonValue::Array(vec![text("Frank Herbert")])),
        ("categories", JsonValue::Array(vec![text("Fiction")])),
        ("imageLinks", object(vec![("smallThumbnail", text("http://img/s")), ("thumbnail", text("http://img/t"))])),
        ("language", text("en")),
        ("pageCount", number(412)),
        ("publishedDate", text("1965")),
        ("publisher", text("Chilton")),
        ("subtitle", text("A novel")),
        ("title", text("Dune")),
    ]);
    let record = google_lookup_record_exec("978-0441013593", &google_answer(volume)).unwrap();
    assert_eq!(record.isbn.as_deref(), Some("978-0441013593"));
    assert_eq!(record.title.as_deref(), Some("Dune"));
    assert_eq!(record.subtitle.as_deref(), Some("A novel"));
    assert_eq!(record.authors, Some(strings(&["Frank Herbert"])));
    assert_eq!(record.publish_date.as_deref(), Some("1965"));
    assert_eq!(record.page_count, Some(412));
    assert_eq!(record.cover_url.as_deref(), Some("https://img/t"));
    assert_eq!(record.publishers, Some(strings(&["Chilton"])));
    assert_eq!(record.subjects, Some(strings(&["Fiction"])));
    assert_eq!(record.languages, Some(strings(&["en"])));
    assert_eq!(record.physical_format, None);
}

#[test]
fn google_answer_without_title_falls_back() {
    let volume = object(vec![("pageCount", number(10))]);
    let answer = google_answer(volume);
    assert!(google_lookup_record_exec("x", &answer).is_some());
    assert!(metadata_after_google("x", Some(&answer)).is_none());
    assert!(metadata_after_google("x", None).is_none());
    assert!(metadata_after_google("x", Some(&object(vec![]))).is_none());
    let titled = google_answer(object(vec![("title", text("Emma"))]));
    let kept = metadata_after_google("x", Some(&titled)).unwrap();
    assert_eq!(kept.title.as_deref(), Some("Emma"));
    assert_eq!(kept.authors, None);
}

#[test]
fn openlibrary_record_of_a_lookup() {
    let book = object(vec![
        ("authors", JsonValue::Array(vec![object(vec![("name", text("Jane Austen"))]), object(vec![])])),
        ("cover", object(vec![("large", text("https://covers/l.jpg"))])),
        (
            "languages",
            JsonValue::Array(vec![object(vec![("key", text("/languages/eng"))]), object(vec![("key", text("fre"))])]),
        ),
        ("number_of_pages", number(279)),
        ("physical_dimensions", text("20 x 13 cm")),
        ("physical_format", text("Paperback")),
        ("publish_date", text("1813")),
        ("publishers", JsonValue::Array(vec![object(vec![("name", text("Egerton"))])])),
        ("subjects", JsonValue::Array(vec![])),
        ("title", text("Pride and Prejudice")),
        ("weight", text("300 g")),
    ]);
    let answer = object(vec![("ISBN:0141439513", book)]);
    let r = openlibrary_record_exec("0141439513", &answer);
    assert_eq!(r.isbn.as_deref(), Some("0141439513"));
    assert_eq!(r.title.as_deref(), Some("Pride and Prejudice"));
    assert_eq!(r.authors, Some(strings(&["Jane Austen"])));
    assert_eq!(r.cover_url.as_deref(), Some("https://covers/l.jpg"));
    assert_eq!(r.languages, Some(strings(&["eng", "fre"])));
    assert_eq!(r.page_count, Some(279));
    assert_eq!(r.dimensions.as_deref(), Some("20 x 13 cm"));
    assert_eq!(r.physical_format.as_deref(), Some("Paperback"));
    assert_eq!(r.weight.as_deref(), Some("300 g"));
    assert_eq!(r.publishers, Some(strings(&["Egerton"])));
    assert_eq!(r.subjects, None);

    let nothing = openlibrary_record_exec("123", &object(vec![]));
    assert_eq!(nothing.isbn.as_deref(), Some("123"));
    assert_eq!(nothing.title, None);
}

#[test]
fn google_search_hits() {
    let items = JsonValue::Array(vec![
        object(vec![(
            "volumeInfo",
            object(vec![
                (
                    "industryIdentifiers",
                    JsonValue::Array(vec![
                        object(vec![("identifier", text("OCLC1")), ("type", text("OTHER"))]),
                        object(vec![("type", text("ISBN_10"))]),
                        object(vec![("identifier", text("9780441013593")), ("type", text("ISBN_13"))]),
                    ]),
                ),
                ("imageLinks", object(vec![("smallThumbnail", text("http://img/s"))])),
                ("pageCount", JsonValue::Number(JsonNumber::NegInt(-1))),
                ("title", text("Dune")),
            ]),
        )]),
        object(vec![("kind", text("no volume"))]),
        object(vec![("volumeInfo", object(vec![("title", text("Dune Messiah"))]))]),
    ]);
    let hits = google_search_results_exec(&object(vec![("items", items)]));
    assert_eq!(hits.len(), 2);
    assert_eq!(hits[0].isbn.as_deref(), Some("9780441013593"));
    assert_eq!(hits[0].cover_url.as_deref(), Some("https://img/s"));
    assert_eq!(hits[0].page_count, Some(-1));
    assert_eq!(hits[1].title.as_deref(), Some("Dune Messiah"));
    assert_eq!(hits[1].isbn, None);
    assert!(results_after_google(Some(&object(vec![]))).is_none());
    assert!(results_after_google(None).is_none());
}

#[test]
fn openlibrary_search_hits() {
    let docs = JsonValue::Array(vec![
        object(vec![
            ("author_name", JsonValue::Array(vec![text("Frank Herbert")])),
            ("cover_i", number(12345)),
            ("first_publish_year", number(1965)),
            ("isbn", JsonValue::Array(vec![text("0441013597"), text("x")])),
            ("number_of_pages_median", number(4294967297)),
            ("title", text("Dune")),
        ]),
        object(vec![]),
    ]);
    let hits = openlibrary_search_results_exec(&object(vec![("docs", docs)]));
    assert_eq!(hits.len(), 2);
    assert_eq!(hits[0].cover_url.as_deref(), Some("https://covers.openlibrary.org/b/id/12345-L.jpg"));
    assert_eq!(hits[0].publish_date.as_deref(), Some("1965"));
    assert_eq!(hits[0].isbn.as_deref(), Some("0441013597"));
    assert_eq!(hits[0].authors, Some(strings(&["Frank Herbert"])));
    assert_eq!(hits[0].page_count, Some(1));
    assert_eq!(hits[1].title, None);
    assert_eq!(hits[1].authors, None);
}
