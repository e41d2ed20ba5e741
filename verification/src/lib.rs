//! Creating Delta tables and staging their files, from plain values.
//!
//! A caller says what a table, an added file or a removed file is in strings and numbers, and the
//! library makes the Arrow batches that the Delta log wants: the protocol and metadata of a new
//! table ([`table`]), and the files of a transaction ([`file`]). What goes into each batch is
//! stated over the models in [`model`]; what is taken on trust about Arrow, the Delta kernel and
//! URLs stands in [`arrow`], [`kernel`] and [`location`]. [`laws`] holds what is true of the
//! library as a whole, [`action_laws`] what stands in each batch and when there is none, and
//! [`column_laws`] what the schemas are.
pub mod action_laws;
pub mod arrow;
pub mod column_laws;
pub mod columns;
pub mod error;
pub mod file;
pub mod json;
pub mod kernel;
pub mod laws;
pub mod location;
pub mod model;
pub mod schema;
pub mod table;
pub mod text;
