//! Authorization of a stream of card transactions against a single account.
//!
//! An [`Authorizer`] holds at most one [`Account`]. Every operation applied to it
//! yields an [`AccountState`]: the card status, the remaining limit and the labels
//! of the rules that the operation broke.

pub mod authorizer;
pub mod errors;
pub mod instant;
pub mod laws;
pub mod models;
pub mod operations;
pub mod validations;

pub use authorizer::Authorizer;
pub use errors::OperationError;
pub use instant::Instant;
pub use models::{Account, AccountState, TX};
pub use operations::{apply_operations, AccountData, FileOperation, TxData};
pub use validations::{AccountRule, DuplicatedTx, HighFrequencySmallInterval, InsufficientLimit};
