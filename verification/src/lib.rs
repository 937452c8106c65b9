//! Verified core of an over-the-counter Solana trading service: password
//! registration and login, bearer-token admission, trade records and their
//! updates, and balance queries.
//!
//! The HTTP server, the database and the Solana RPC connection live outside
//! this crate; the functions here take what those produced as plain values and
//! decide what to store, what to answer and whether to let a request through.

pub mod error;
pub mod decimal;
pub mod models;
pub mod auth;
pub mod trades;
pub mod middleware;
pub mod solana;
