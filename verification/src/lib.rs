//! Text protocol of a console chat source: line classification, content
//! decoding, identifier allocation and event assembly.

pub mod account;
pub mod classify;
pub mod element;
pub mod event;
pub mod ident;
pub mod ingest;
pub mod text;
