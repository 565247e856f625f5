//! Job-status ledger: the status codec, the two atomic transition scripts,
//! the classification of store failures, an in-memory ledger that keeps the
//! store's contract, and the validation done before a job's input file is fetched.
pub mod error;
pub mod ledger;
pub mod retrieval;
pub mod status;
pub mod transition;
