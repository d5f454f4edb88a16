//! The request and response values the service exchanges, as plain data.
//! Identifiers are the 128-bit values of their UUIDs.
use vstd::prelude::*;
use crate::time::{CalendarDate, WallClock};

verus! {

/// A decimal number `mantissa * 10^-scale` (what `rust_decimal::Decimal` holds).
#[derive(Clone, Copy, Debug)]
pub struct DecimalValue {
    pub mantissa: i128,
    pub scale: u32,
}

pub struct AuthRequest {
    pub username: String,
    pub password: String,
}

pub struct UpdateUserDto {
    pub username: Option<String>,
    pub password: Option<String>,
}

pub struct CreateLibraryDto {
    pub name: String,
    pub description: Option<String>,
}

pub struct UpdateLibraryDto {
    pub name: Option<String>,
    pub description: Option<String>,
}

pub struct ShareLibraryDto {
    pub username: String,
    /// `editor` or `viewer`.
    pub role: String,
}

/// A filter tree: conditions combined with AND, OR and NOT.
#[derive(Debug)]
pub enum QueryAST {
    Condition { field: String, operator: String, value: String },
    And { nodes: Vec<QueryAST> },
    Or { nodes: Vec<QueryAST> },
    Not { node: Box<QueryAST> },
}

/// The query string of a book listing.
#[derive(Debug, Default)]
pub struct BookFilterQuery {
    pub limit: Option<i64>,
    pub offset: Option<i64>,
    pub sort_by: Option<String>,
    pub sort_order: Option<String>,
    /// A JSON-encoded `QueryAST`.
    pub query: Option<String>,
    pub library_id: Option<u128>,
    /// The other parameters, in order: `<column><suffix>` names (`title_starts`,
    /// `page_count_gte`, `personal_notes_empty`, ...) and their values.
    pub suffix_filters: Vec<(String, String)>,
}

/// Book metadata found in an online catalogue.
#[derive(Debug)]
pub struct BookMetadataResponse {
    pub isbn: Option<String>,
    pub title: Option<String>,
    pub authors: Option<Vec<String>>,
    pub publish_date: Option<String>,
    pub page_count: Option<i32>,
    pub cover_url: Option<String>,
    pub subtitle: Option<String>,
    pub publishers: Option<Vec<String>>,
    pub physical_format: Option<String>,
    pub weight: Option<String>,
    pub dimensions: Option<String>,
    pub subjects: Option<Vec<String>>,
    pub languages: Option<Vec<String>>,
}

/// What a metadata record says, by the views of its texts.
pub struct MetadataView {
    pub isbn: Option<Seq<char>>,
    pub title: Option<Seq<char>>,
    pub authors: Option<Seq<Seq<char>>>,
    pub publish_date: Option<Seq<char>>,
    pub page_count: Option<i32>,
    pub cover_url: Option<Seq<char>>,
    pub subtitle: Option<Seq<char>>,
    pub publishers: Option<Seq<Seq<char>>>,
    pub physical_format: Option<Seq<char>>,
    pub weight: Option<Seq<char>>,
    pub dimensions: Option<Seq<char>>,
    pub subjects: Option<Seq<Seq<char>>>,
    pub languages: Option<Seq<Seq<char>>>,
}

pub open spec fn opt_string_view(v: Option<String>) -> Option<Seq<char>> {
    match v {
        Some(s) => Some(s@),
        None => None,
    }
}

/// The texts of a list, by their views.
pub open spec fn texts_of(v: Seq<String>) -> Seq<Seq<char>> {
    v.map_values(|s: String| s@)
}

pub open spec fn opt_strings_view(v: Option<Vec<String>>) -> Option<Seq<Seq<char>>> {
    match v {
        Some(list) => Some(texts_of(list@)),
        None => None,
    }
}

impl View for BookMetadataResponse {
    type V = MetadataView;

    open spec fn view(&self) -> MetadataView {
        MetadataView {
            isbn: opt_string_view(self.isbn),
            title: opt_string_view(self.title),
            authors: opt_strings_view(self.authors),
            publish_date: opt_string_view(self.publish_date),
            page_count: self.page_count,
            cover_url: opt_string_view(self.cover_url),
            subtitle: opt_string_view(self.subtitle),
            publishers: opt_strings_view(self.publishers),
            physical_format: opt_string_view(self.physical_format),
            weight: opt_string_view(self.weight),
            dimensions: opt_string_view(self.dimensions),
            subjects: opt_strings_view(self.subjects),
            languages: opt_strings_view(self.languages),
        }
    }
}

/// What an export asks for: the listing it exports (or `specific_ids`), the columns,
/// their labels, and the format of dates.
pub struct ExportRequest {
    pub filters: BookFilterQuery,
    pub columns: Vec<String>,
    pub specific_ids: Option<Vec<u128>>,
    /// Column name and label pairs; a column appears at most once.
    pub column_labels: Option<Vec<(String, String)>>,
    pub date_format: Option<String>,
}

pub struct SearchQuery {
    pub q: String,
}

pub struct AutocompleteQuery {
    pub field: String,
    pub q: String,
    pub limit: Option<i64>,
}

#[derive(Debug)]
pub struct UploadResponse {
    pub url: String,
}

/// The fields a partial update of a book sets; absent fields keep their values.
#[derive(Debug, Default)]
pub struct UpdateBookPartialDto {
    pub library_id: Option<u128>,
    pub title: Option<String>,
    pub subtitle: Option<String>,
    pub original_title: Option<String>,
    pub authors: Option<Vec<String>>,
    pub translators: Option<Vec<String>>,
    pub illustrators: Option<Vec<String>>,
    pub publisher: Option<String>,
    pub publish_date: Option<CalendarDate>,
    pub original_publish_date: Option<CalendarDate>,
    pub edition: Option<String>,
    pub edition_number: Option<String>,
    pub printing_number: Option<String>,
    pub original_edition: Option<String>,
    pub is_first_edition: Option<bool>,
    pub collection_name: Option<String>,
    pub volume_in_collection: Option<i32>,
    pub series_name: Option<String>,
    pub volume_in_series: Option<i32>,
    pub book_format: Option<String>,
    pub page_count: Option<i32>,
    pub dimensions: Option<String>,
    pub weight: Option<String>,
    pub language: Option<String>,
    pub original_language: Option<String>,
    pub subjects: Option<Vec<String>>,
    pub genres: Option<Vec<String>>,
    pub target_audience: Option<String>,
    pub description: Option<String>,
    pub table_of_contents: Option<String>,
    pub cover_url: Option<String>,
    pub purchase_date: Option<CalendarDate>,
    pub purchase_price: Option<DecimalValue>,
    pub store_or_vendor: Option<String>,
    pub acquisition_type: Option<String>,
    pub location_property: Option<String>,
    pub location_room: Option<String>,
    pub location_bookcase: Option<String>,
    pub location_shelf: Option<String>,
    pub location_position: Option<i32>,
    pub condition_state: Option<String>,
    pub is_loaned: Option<bool>,
    pub loaned_to: Option<String>,
    pub loan_date: Option<WallClock>,
    pub expected_return_date: Option<WallClock>,
    pub read_status: Option<String>,
    pub rating: Option<i32>,
    pub personal_notes: Option<String>,
    pub reading_notes: Option<String>,
    pub date_started: Option<CalendarDate>,
    pub date_finished: Option<CalendarDate>,
}

/// A whole book as a request gives it (creation or replacement).
#[derive(Debug, Default)]
pub struct CreateBookDto {
    pub library_id: Option<u128>,
    pub isbn_13: Option<String>,
    pub isbn_10: Option<String>,
    pub open_library_id: Option<String>,
    pub oclc_number: Option<String>,
    pub title: String,
    pub subtitle: Option<String>,
    pub original_title: Option<String>,
    pub authors: Vec<String>,
    pub translators: Option<Vec<String>>,
    pub illustrators: Option<Vec<String>>,
    pub publisher: Option<String>,
    pub publish_date: Option<CalendarDate>,
    pub original_publish_date: Option<CalendarDate>,
    pub edition: Option<String>,
    pub edition_number: Option<String>,
    pub printing_number: Option<String>,
    pub original_edition: Option<String>,
    pub is_first_edition: Option<bool>,
    pub collection_name: Option<String>,
    pub volume_in_collection: Option<i32>,
    pub series_name: Option<String>,
    pub volume_in_series: Option<i32>,
    pub book_format: Option<String>,
    pub page_count: Option<i32>,
    pub dimensions: Option<String>,
    pub weight: Option<String>,
    pub language: Option<String>,
    pub original_language: Option<String>,
    pub subjects: Option<Vec<String>>,
    pub genres: Option<Vec<String>>,
    pub target_audience: Option<String>,
    pub description: Option<String>,
    pub table_of_contents: Option<String>,
    pub cover_url: Option<String>,
    pub purchase_date: Option<CalendarDate>,
    pub purchase_price: Option<DecimalValue>,
    pub store_or_vendor: Option<String>,
    pub acquisition_type: Option<String>,
    pub location_property: Option<String>,
    pub location_room: Option<String>,
    pub location_bookcase: Option<String>,
    pub location_shelf: Option<String>,
    pub location_position: Option<i32>,
    pub condition_state: Option<String>,
    pub is_loaned: Option<bool>,
    pub loaned_to: Option<String>,
    pub loan_date: Option<WallClock>,
    pub expected_return_date: Option<WallClock>,
    pub read_status: Option<String>,
    pub rating: Option<i32>,
    pub personal_notes: Option<String>,
    pub reading_notes: Option<String>,
    pub date_started: Option<CalendarDate>,
    pub date_finished: Option<CalendarDate>,
}

} // verus!
