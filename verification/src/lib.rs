//! A foreign-data adapter core for a billing provider's REST API: it turns
//! JSON responses for a chosen object type into fixed-shape rows of typed
//! cells, and drives one fetch-then-drain scan cycle per query scan.
//!
//! The network exchange itself (authenticated GET with bounded retry) is the
//! caller's concern; this crate decides what to fetch, decodes what came
//! back, and hands out the rows one at a time.

pub mod decode;
pub mod error;
pub mod fdw;
pub mod json;
pub mod options;
pub mod row;
