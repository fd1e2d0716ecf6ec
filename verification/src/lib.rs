//! Typed multicall queries against an rtorrent XML-RPC endpoint.
//!
//! Reading one field of one remote entity costs a round trip. The remote
//! side can instead read many fields of every entity in a collection in one
//! call, a multicall, and answer with one row of untyped values per entity.
//! This crate lets a caller declare the fields to read as an ordered list of
//! typed columns, makes the one call, and returns rows whose values are
//! proved to have the declared types in the declared order.
//!
//! The crate sends nothing itself. Every function that needs the remote side
//! takes the transport as an argument: a function from a [`Call`] to the
//! answer.

pub mod call;
pub mod decode;
pub mod download;
pub mod error;
pub mod multicall;
pub mod operation;
pub mod server;
pub mod value;

pub use call::Call;
pub use decode::{decode, decode_row, ResultSet};
pub use download::DownloadField;
pub use error::Error;
pub use multicall::{complete, MultiBuilder};
pub use operation::{EntityKind, Operation};
pub use server::{read_field, Server};
pub use value::{list_items, to_typed, to_untyped, ResultType, TypedValue, Value};
