//! The traits and modules that users of the hashers need.

pub use core::hash::Hasher as _;

pub use crate::sip128::Hasher128 as _;

pub use crate::{sip, sip128};
