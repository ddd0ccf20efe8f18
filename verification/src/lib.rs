//! The logic of a query service over directories of Parquet files: the wire
//! protocol, the server and client conversations, the registration of files as
//! database views, the rendering of query results, and the head of heap dumps.

pub mod cli;
pub mod engine;
pub mod hprof;
pub mod json;
pub mod laws;
pub mod server;
pub mod text;
