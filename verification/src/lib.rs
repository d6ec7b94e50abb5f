//! Decoding of a single shielded transaction into an auditable summary of
//! value flow, as seen through one viewing key and without any spending key.
//!
//! The way through the library, for one transaction:
//!
//! - [`ruleset`] settles which consensus rule set applies at the height of
//!   the transaction, and repairs a known collision between the identifiers
//!   of two wire-compatible rule sets in the header;
//! - [`envelope`] reads the transaction under that rule set;
//! - [`decryption`] finds the outputs that the viewing key can see;
//! - [`aggregate`] turns them into records and into totals by direction, with
//!   saturating sums and a checked conversion to signed amounts;
//! - [`report`] assembles the summary.
//!
//! [`pipeline`] runs all of it from the texts a caller has. [`hexstr`] and
//! [`keys`] read those texts, [`outputs`] holds the values that pass between
//! the steps, and [`error`] says what can go wrong.
//!
//! Nothing is kept between transactions.

pub mod aggregate;
pub mod decryption;
pub mod envelope;
pub mod error;
pub mod hexstr;
pub mod keys;
pub mod outputs;
pub mod pipeline;
pub mod report;
pub mod ruleset;
