//! State cache of an account-based ledger execution engine.
//!
//! The cache holds the accounts and the contract code that a loader put into
//! it, takes in what an execution batch made of each account, and hands back
//! an ordered list of account transitions: for each account to which the
//! batch did something that can be observed, what the account was before
//! and what it is now.
//!
//! - [`hasher`]: the hash of keys that are hashes already.
//! - [`primitives`]: addresses, hashes, words and bytecode.
//! - [`storage`]: the storage of an account.
//! - [`account`]: what is known of an account, and what an execution made
//!   of it.
//! - [`account_status`]: the stages in the life of a cached account.
//! - [`transition_account`]: the record of a transition.
//! - [`cache_account`]: a cached account and the steps of its life.
//! - [`maps`]: the two concurrent maps that hold the cache.
//! - [`cache`]: the cache, and the step that takes a batch into it.
//! - [`laws`]: what holds of every cache, every entry and every batch.
pub mod hasher;
pub mod primitives;
pub mod storage;
pub mod account;
pub mod account_status;
pub mod transition_account;
pub mod cache_account;
pub mod maps;
pub mod cache;
pub mod laws;
