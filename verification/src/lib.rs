//! Deterministic execution-fixture generation for an Ethereum-compatible
//! test chain.
//!
//! Given a declarative description of wallets, genesis allocations and
//! transactions, the library resolves it into a fully signed, internally
//! consistent world (`resolver`), plans the provisioning of an isolated
//! single-authority node (`harness`), and drives transaction submission and
//! witness extraction over that node (`orchestrator`).

pub mod assembler;
pub mod chain;
pub mod genesis;
pub mod harness;
pub mod hexcode;
pub mod keys;
pub mod nums;
pub mod orchestrator;
pub mod refs;
pub mod resolver;
pub mod tx;
