//! A home catalogue of books: the data model, a cached catalogue that can be
//! searched, the text shown for a book, and the state machine behind the
//! catalogue's screens.

pub mod catalogue;
pub mod gui;
pub mod laws;
pub mod model;
pub mod text;
