//! An order-preserving key/value container whose keys pass through a codec
//! strategy on their way to and from a wire format.

pub mod cell;
pub mod column;
pub mod field;
pub mod hash;
pub mod map;
pub mod outcome;
pub mod protocol;
pub mod strategy;

pub use map::SerdeMap;
pub use strategy::{DecodeError, Linear, SerRet, SerdeMapStrategy};
