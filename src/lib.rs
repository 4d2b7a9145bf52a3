//! A client library for a compiler-explorer service: the records it
//! exchanges, the output filters, compilation requests, the search among
//! compilers, and the text shown to the user.
pub mod filters;
pub mod job;
pub mod listing;
pub mod outside;
pub mod report;
pub mod search;
pub mod text;
pub mod types;
