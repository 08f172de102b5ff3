//! A typed layer over the documents of a hierarchical document and database
//! service.
//!
//! The service speaks JSON. Its objects come in families, such as blocks
//! and properties: the variants of a family share a discriminator field and
//! differ in everything else. This library holds
//!
//! - the families and their variants, each with the table of its fields
//!   ([`registry`], [`block`], [`database`], [`page`], [`others`]);
//! - the codec between a variant and the document that it is written as,
//!   over JSON held as a tree ([`json`], [`field`]);
//! - builders that fill a variant in step by step;
//! - the engine that turns the pages of a collection into one run of items
//!   ([`pagination`]).
//!
//! A field is read-only where the service fills it in: such a field is read
//! from a document and never written to one. What every decoder and every
//! encoder does is stated over the mathematical value of a document, and
//! each module proves what holds between the two: what is written reads
//! back as what was sent, a document is written under the discriminator of
//! its variant and with keys of its table only, and keys that a table does
//! not know are passed over when a document is read.
//!
//! Nothing here does input or output. Text is turned into a tree, and pages
//! are fetched, by the caller.

pub mod block;
pub mod database;
pub mod error;
pub mod field;
pub mod json;
pub mod others;
pub mod page;
pub mod pagination;
pub mod registry;
pub mod text;
