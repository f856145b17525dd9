//! An ingestion gateway: it takes JSON documents over HTTP and hands each one,
//! re-serialised, to a message broker topic.
pub mod text;
pub mod settings;
pub mod client;
pub mod json;
pub mod handler;
