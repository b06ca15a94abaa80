//! The provider configuration editor of a terminal front end: a schema-driven
//! form with modal overlays, a validation session and a save gate, as a
//! state machine over plain values.
pub mod dropdown;
pub mod export;
pub mod form;
pub mod json;
pub mod keys;
pub mod laws;
pub mod layout;
pub mod models;
pub mod pages;
pub mod providers;
pub mod readme;
pub mod schema;
pub mod scratch;
pub mod shell;
pub mod text;
pub mod validation;
