//! Verified core of the `dna_help` helpers and the goal vocabulary of the
//! Acorn projects DNA: the string forms of the UI enums, the textual
//! encoding of hashes, the choice of the latest version of an entry, and
//! the outcome of resolving a validation dependency.
pub mod action_type;
pub mod goal;
pub mod hashes;
pub mod latest;
pub mod signals;
pub mod validation;
