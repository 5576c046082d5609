//! Core logic of a Cardano command-line wallet: names and text helpers,
//! balances, providers and the local store, transaction-interface
//! normalisation, tx3 source generation, and the explorer: its chain state,
//! the wallets it follows, its tip follower's decisions, its keys and what
//! its panels show.

pub mod balance;
pub mod construct;
pub mod detail;
pub mod explorer;
pub mod follow;
pub mod followed;
pub mod headers;
pub mod invocation;
pub mod hexcodec;
pub mod kv;
pub mod numbers;
pub mod order;
pub mod output;
pub mod panels;
pub mod provider;
pub mod refs;
pub mod screen;
pub mod signing;
pub mod reports;
pub mod store;
pub mod tabs;
pub mod tii;
pub mod types;
pub mod utils;
pub mod wallet;
