//! Fixed layout of a ternary-encoded ledger transaction: fifteen contiguous
//! fields addressed in trits, trytes (3 trits) and bytes (5 trits).

pub mod layout;
pub mod offset;

pub use offset::{Field, Offset};
