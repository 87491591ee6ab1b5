//! Game records from an online game database, made ready for display: the
//! requests that fetch them, the normalization of their sparse JSON form into
//! a `Game` with no missing fields, and the state of a search view whose
//! superseded responses are dropped.

pub mod api;
pub mod display;
pub mod game;
pub mod laws;
pub mod rating;
pub mod search;
pub mod text;
