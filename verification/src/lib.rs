//! The verified core of the storage chain: the rules of its cross-consensus (XCM) configuration,
//! its chain specifications, and the plans by which a node starts its services.
//!
//! Everything here computes. What a plan asks for (opening a database, building a network,
//! spawning a task) is carried out by the node that is linked against this library.
pub mod chain_spec;
pub mod frontier_service;
pub mod rpc;
pub mod service;
pub mod xcm_config;
