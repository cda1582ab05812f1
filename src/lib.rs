//! Size budgeting and generation decisions for a synthetic file-tree generator.
//!
//! The library turns a folder count and a byte budget into a folder plan,
//! decides step by step which folder or file to create next, and builds the
//! names and contents of what is written. Reading arguments, touching the
//! filesystem and printing are left to the caller.

pub mod plan;
pub mod driver;
pub mod names;
pub mod content;
pub mod args;
pub mod paths;
