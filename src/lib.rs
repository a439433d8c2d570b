//! Session and navigation engine of a terminal web browser: bounded history,
//! page text and link extraction, URL normalisation and suggestions, and the
//! interaction state machine.
pub mod history;
pub mod text;
pub mod html;
pub mod extractor;
pub mod urls;
pub mod error;
pub mod links;
pub mod session;
pub mod scroll;
pub mod markdown;
pub mod ui;
