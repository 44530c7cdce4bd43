//! Constants, enumerations and URL helpers of the Shioaji adapter.

pub mod consts;
pub mod enums;
pub mod testing;
pub mod urls;
