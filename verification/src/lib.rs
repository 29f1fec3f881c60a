//! An append-only message ledger for a NEAR account: callers post text
//! messages, optionally with an attached deposit, and read them back by
//! sequence id or as the donated messages among the ten newest.

pub mod comment;
pub mod contract;
pub mod host;
pub mod laws;

pub use comment::{Comment, CommentView};
pub use contract::{LedgerError, SayHiContract, StorageKey};
pub use host::CallContext;
