//! Common types and utilities for the MT5 adapter.

pub mod constants;
pub mod enums;
pub mod parse;
pub mod testing;
