//! A bridge between a host that speaks in dynamic values and an embedded
//! SQLite database.
//!
//! The host opens connections, which a [`registry::ConnectionRegistry`] keeps
//! under handles, and runs statements on them through [`executor`]. Values
//! cross the bridge through [`codec`]: the host's dynamic values become the
//! engine's native values as statement parameters, and the cells of result
//! rows become dynamic values again. [`ops`] shapes requests and responses.
//!
//! No call aborts. What the engine refuses, and what cannot be encoded, comes
//! back as an [`error::BridgeError`], and in a response as the text of its
//! `error` field. Only a handle that stands for no connection is passed over
//! in silence: a statement under it changes no row and yields none.
//!
//! The calls into the engine, into the base64 coder and into the JSON number
//! type are believed, not proved: they stand in [`engine`], [`encoding`] and
//! [`double`], each with what is claimed of it.

pub mod codec;
pub mod double;
pub mod encoding;
pub mod engine;
pub mod error;
pub mod executor;
pub mod ops;
pub mod registry;
pub mod value;
