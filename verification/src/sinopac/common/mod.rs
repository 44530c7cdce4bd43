//! Constants, enumerations and contract rules of the Sinopac adapter.

pub mod clock;
pub mod consts;
pub mod enums;
pub mod instrument;
pub mod parse;
pub mod tick_size;
