//! Cross-consensus configuration: locations, the execution barrier, the weight trader and the
//! derivation of local accounts.
pub mod account;
pub mod assets;
pub mod barrier;
pub mod config;
pub mod dispatch;
pub mod location;
pub mod trader;
pub mod weight;
