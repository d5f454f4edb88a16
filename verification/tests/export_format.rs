use home_library::export::{
    cell_text_exec, csv_document_exec, format_date, header_label_exec, pdf_columns,
    pdf_font_size_exec, pdf_table, table_columns, xml_document_exec, CleanTableDecorator,
};
use home_library::json::{JsonNumber, JsonValue};

fn text(s: &str) -> JsonValue {
    JsonValue::Str(s.to_string())
}

fn object(members: Vec<(&str, JsonValue)>) -> JsonValue {
    JsonValue::Object(members.into_iter().map(|(k, v)| (k.to_string(), v)).collect())
}

fn strings(items: &[&str]) -> Vec<String> {
    items.iter().map(|s| s.to_string()).collect()
}

fn fmt(s: &str) -> String {
    s.to_string()
}

#[test]
fn dates_in_the_chosen_format() {
    let full = fmt("dd/mm/yyyy hh:mm:ss");
    assert_eq!(format_date("2024-03-05T10:20:30+02:00", Some(&full)), "05/03/2024 10:20:30");
    assert_eq!(format_date("2024-03-05", Some(&full)), "05/03/2024");
    assert_eq!(format_date("2024-03-05", Some(&fmt("YYYY/MM/DD"))), "2024/03/05");
    assert_eq!(format_date("2024-03-05", Some(&fmt("mm/dd/yyyy"))), "03/05/2024");
    assert_eq!(format_date("2024-03-05T23:59:00-05:00", Some(&fmt("weird"))), "2024-03-05");
    assert_eq!(format_date("2024-03-05T10:20:30+02:00", None), "2024-03-05T10:20:30+02:00");
    assert_eq!(format_date("next week", Some(&full)), "next week");
}

#[test]
fn cell_texts() {
    let f = fmt("dd/mm/yyyy");
    assert_eq!(cell_text_exec("updated_at", Some(&text("2024-03-05")), Some(&f)), "05/03/2024");
    assert_eq!(cell_text_exec("purchase_date", Some(&text("2024-03-05")), Some(&f)), "05/03/2024");
    assert_eq!(cell_text_exec("title", Some(&text("2024-03-05")), Some(&f)), "2024-03-05");
    assert_eq!(cell_text_exec("is_loaned", Some(&JsonValue::Bool(true)), None), "Yes");
    assert_eq!(cell_text_exec("is_loaned", Some(&JsonValue::Bool(false)), None), "No");
    assert_eq!(cell_text_exec("n", Some(&JsonValue::Number(JsonNumber::PosInt(300))), None), "300");
    assert_eq!(cell_text_exec("n", Some(&JsonValue::Number(JsonNumber::NegInt(-3))), None), "-3");
    assert_eq!(
        cell_text_exec("n", Some(&JsonValue::Number(JsonNumber::Float("1.5".to_string()))), None),
        "1.5"
    );
    let authors = JsonValue::Array(vec![text("A"), JsonValue::Null, text("B")]);
    assert_eq!(cell_text_exec("authors", Some(&authors), None), "A, B");
    assert_eq!(cell_text_exec("x", Some(&JsonValue::Null), None), "");
    assert_eq!(cell_text_exec("x", None, None), "");
}

#[test]
fn exported_columns_never_hold_the_cover() {
    assert_eq!(table_columns(&vec![]), strings(&["id", "title"]));
    assert_eq!(pdf_columns(&vec![]), strings(&["title"]));
    let asked = strings(&["title", "cover_url", "authors", "cover_url"]);
    assert_eq!(table_columns(&asked), strings(&["title", "authors"]));
    assert_eq!(pdf_columns(&asked), strings(&["title", "authors"]));
    assert_eq!(table_columns(&strings(&["cover_url"])), Vec::<String>::new());
}

#[test]
fn headings_use_labels_or_upper_case_names() {
    let labels = vec![("title".to_string(), "Book Title".to_string())];
    assert_eq!(header_label_exec(Some(&labels), "title"), "Book Title");
    assert_eq!(header_label_exec(Some(&labels), "page_count"), "PAGE COUNT");
    assert_eq!(header_label_exec(None, "original_publish_date"), "ORIGINAL PUBLISH DATE");
}

#[test]
fn csv_document_quotes_every_field() {
    let cols = strings(&["title", "is_loaned", "page_count", "authors", "publish_date"]);
    let row = object(vec![
        ("authors", JsonValue::Array(vec![text("A"), text("B")])),
        ("is_loaned", JsonValue::Bool(true)),
        ("page_count", JsonValue::Number(JsonNumber::PosInt(300))),
        ("publish_date", text("2024-03-05")),
        ("title", text("He said \"hi\"")),
    ]);
    let rows = vec![row];
    let f = fmt("dd/mm/yyyy");
    let doc = csv_document_exec(&cols, None, Some(&rows), Some(&f));
    assert_eq!(
        doc,
        "\u{FEFF}TITLE;IS LOANED;PAGE COUNT;AUTHORS;PUBLISH DATE\n\"He said \"\"hi\"\"\";\"Yes\";\"300\";\"A, B\";\"05/03/2024\"\n"
    );
    let only_heads = csv_document_exec(&cols, None, None, None);
    assert_eq!(only_heads, "\u{FEFF}TITLE;IS LOANED;PAGE COUNT;AUTHORS;PUBLISH DATE\n");
}

#[test]
fn csv_cells_read_back_after_collapsing_quotes() {
    let cols = strings(&["title"]);
    let original = "\"quoted\" \"\"twice\"\"";
    let rows = vec![object(vec![("title", text(original))])];
    let doc = csv_document_exec(&cols, None, Some(&rows), None);
    let line = doc.lines().nth(1).unwrap();
    assert!(line.starts_with('"') && line.ends_with('"'));
    let inner = &line[1..line.len() - 1];
    assert_eq!(inner.replace("\"\"", "\""), original);
}

#[test]
fn xml_document_escapes_markup() {
    let cols = strings(&["title", "page_count"]);
    let labels = vec![("title".to_string(), "Book Title".to_string())];
    let rows = vec![object(vec![
        ("page_count", JsonValue::Number(JsonNumber::PosInt(12))),
        ("title", text("a<b & c>")),
    ])];
    let doc = xml_document_exec(&cols, Some(&labels), Some(&rows), None);
    assert_eq!(
        doc,
        "<?xml version=\"1.0\" encoding=\"UTF-8\"?>\n<books>\n  <book>\n    <book_title>a&amp;lt;b &amp; c&amp;gt;</book_title>\n    <page_count>12</page_count>\n  </book>\n</books>\n"
    );
    let empty = xml_document_exec(&cols, None, None, None);
    assert_eq!(empty, "<?xml version=\"1.0\" encoding=\"UTF-8\"?>\n<books>\n</books>\n");
}

#[test]
fn xml_field_holds_no_angle_brackets() {
    let cols = strings(&["title"]);
    let rows = vec![object(vec![("title", text("<script>alert(1)</script>"))])];
    let doc = xml_document_exec(&cols, None, Some(&rows), None);
    let field = doc.lines().nth(3).unwrap();
    let inner = field.trim().trim_start_matches("<title>").trim_end_matches("</title>");
    assert!(!inner.contains('<') && !inner.contains('>'));
}

#[test]
fn pdf_font_shrinks_with_columns() {
    let sizes: Vec<u8> = [0usize, 5, 6, 8, 9, 12, 13, 40].iter().map(|c| pdf_font_size_exec(*c)).collect();
    assert_eq!(sizes, vec![10, 10, 9, 9, 8, 8, 7, 7]);
}

#[test]
fn pdf_table_cells() {
    let cols = strings(&["title", "is_loaned"]);
    let rows = vec![
        object(vec![("is_loaned", JsonValue::Bool(false)), ("title", text("Dune"))]),
        object(vec![("title", text("Emma"))]),
    ];
    let (heads, body) = pdf_table(&cols, None, Some(&rows), None);
    assert_eq!(heads, strings(&["TITLE", "IS LOANED"]));
    assert_eq!(body, vec![strings(&["Dune", "No"]), strings(&["Emma", ""])]);
    let (_, none) = pdf_table(&cols, None, None, None);
    assert!(none.is_empty());
}

#[test]
fn table_decorator() {
    let mut d = CleanTableDecorator::new();
    assert_eq!((d.num_columns, d.num_rows), (0, 0));
    d.set_table_size(3, 4);
    assert_eq!((d.num_columns, d.num_rows), (3, 4));
    assert_eq!(d.rule_color(0), (0, 0, 0));
    assert_eq!(d.rule_color(2), (220, 220, 220));
}

#[test]
fn utc_instants_and_leap_seconds() {
    let full = fmt("yyyy-mm-dd hh:mm:ss");
    assert_eq!(format_date("2024-03-05T07:08:09Z", Some(&full)), "2024-03-05 07:08:09");
    assert_eq!(format_date("2016-12-31T23:59:60Z", Some(&fmt("dd/mm/yyyy hh:mm:ss"))), "31/12/2016 23:59:60");
    assert_eq!(format_date("0987-01-02", Some(&fmt("mm/dd/yyyy"))), "01/02/0987");
}
