//! What holds of the functions of the library on all inputs.
//!
//! Each law speaks of the arguments and the results of calls: of what a result
//! reads back as, of what it must hold, or of how the results of several calls fit
//! together.
pub mod choice;
pub mod client;
pub mod connection;
pub mod hprof;
pub mod paths;
pub mod query;
pub mod rows;
pub mod serve;
pub mod server;
pub mod table;
pub mod text;
pub mod views;
pub mod wire;
