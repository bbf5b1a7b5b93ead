//! A two-column lookup-table chip for PLONK-style circuits.
//!
//! The chip forces every row witnessed into two designated advice columns to
//! appear as a row of a prover-loaded static table of `(x, y)` byte pairs.
//!
//! The chip itself lives in [`chip`]; [`membership`] states the decision of
//! the lookup argument and proves its laws; [`framework`] is the trusted
//! boundary to the PLONK framework.

pub mod chip;
pub mod framework;
pub mod membership;
pub mod table;
