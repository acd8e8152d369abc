//! Construction of versioned relational SQL query fragments over tables whose
//! columns and scalar kinds are only known at schema-load time.
//!
//! A [`table::Table`] describes one entity table: its columns, primary key,
//! mutability and causality-region support. From it, callers obtain
//! predicate builders (identity equality, point-in-time visibility,
//! causality-region membership), a projection plan, and a typed select list.
//! Every fragment is produced as plain data — SQL text pieces, quoted
//! identifiers and typed bind parameters — so that what is rendered is stated
//! exactly in each function's contract.

use vstd::prelude::*;

pub mod fragment;
pub mod graphql;
pub mod plan;
pub mod predicates;
pub mod qb;
pub mod scalar;
pub mod select;
pub mod table;
pub mod text;

verus! {

/// A chain block number. Rows are stamped with block numbers and queries ask
/// for the state as of one block.
pub type BlockNumber = i32;

/// Sentinel meaning "unbounded / latest block".
pub const BLOCK_NUMBER_MAX: BlockNumber = 2147483647;

/// Discriminator partitioning a table's rows so that rows written under
/// potentially-reorganized chain segments do not contaminate each other.
pub type CausalityRegion = i32;

} // verus!
