//! Lint analyses over typed expression trees.
//!
//! The host hands each analysis one node of its expression tree, with the
//! node's location, its source text where that can be recovered, and its
//! resolved type. The analysis hands back at most one diagnostic record,
//! which the host may emit.
//!
//! - [`needless_bool`]: conditionals whose branches are plain boolean
//!   literals, and equality comparisons against a boolean literal.
//! - [`transmute`]: transmutes that are useless, wrong, or better written
//!   as a cast or a reborrow.
//! - [`expr`], [`ty`]: the expression tree and the type descriptors that
//!   the analyses read.
//! - [`diagnostic`]: the lints and the records that the analyses report.
//! - [`paths`]: the absolute paths of definitions that the analyses
//!   recognise.

pub mod diagnostic;
pub mod expr;
pub mod needless_bool;
pub mod paths;
pub mod transmute;
pub mod ty;
