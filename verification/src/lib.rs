//! Verified core of a personal book-inventory service: the dynamic query engine,
//! the metadata extraction from book catalogues, and the export formatting.
pub mod access;
pub mod book_columns;
pub mod books;
pub mod catalog;
pub mod covers;
pub mod export;
pub mod json;
pub mod model;
pub mod patch;
pub mod query;
pub mod responses;
pub mod sql;
pub mod text;
pub mod time;
