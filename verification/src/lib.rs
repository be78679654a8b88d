//! A small library that turns a JSON array of objects into a sequence of SQL
//! `INSERT` statements against a caller-named table.
//!
//! The column list is taken from the keys of the first object, in the order
//! they occur in the input text; every record is rendered against exactly
//! that column list. Missing fields render as `NULL`, extra fields are
//! ignored, and string values are quoted with embedded quotes doubled.

pub mod convert;
pub mod json;
pub mod sql;
pub mod state;
