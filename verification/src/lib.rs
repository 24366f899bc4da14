//! Index lifecycle and query composition for a multi-tenant search-index
//! service backed by a transactional SQL engine.
//!
//! Clients define named indexes, stream entries into them and search them by
//! text and, optionally, within a radius. The crate decides what is to be
//! done for each such request; it performs no I/O. A driver executes the
//! actions that the state machines ask for against the storage engine, and
//! feeds the outcomes back as events.
//!
//! - [`catalog`] and [`geo`] say which definitions, names and radius filters
//!   are accepted, and [`status`] how a request can fail.
//! - [`protocol`] is the vocabulary of machines and driver, [`statements`]
//!   the SQL that carries out each command, [`names`] the naming of the
//!   tables that a rebuild needs, [`storage`] the reading of the engine's
//!   errors.
//! - [`admin`], [`rebuild`] and [`query`] are the state machines of the four
//!   requests.
//! - [`model`] states what is assumed of the storage engine, and [`laws`]
//!   what is proved of the machines on that assumption: an index is replaced,
//!   defined and removed wholly or not at all, and a page keeps to the
//!   filter and the width of its index.

pub mod admin;
pub mod catalog;
pub mod geo;
pub mod laws;
pub mod model;
pub mod names;
pub mod protocol;
pub mod query;
pub mod rebuild;
pub mod statements;
pub mod status;
pub mod storage;
pub mod text;
