//! Compiles a sparse filter and sort request over the order table into the
//! `WHERE` and `ORDER BY` fragments of a query.
//!
//! Every function is verified against a specification over sequences of
//! characters. The sets of a request are `ahash` hash sets; what is taken on
//! trust of them is stated in `sets`, and nothing else is.

pub mod checked;
pub mod field;
pub mod laws;
pub mod order;
pub mod polarity;
pub mod query;
pub mod sets;
pub mod sorter;
pub mod text;
