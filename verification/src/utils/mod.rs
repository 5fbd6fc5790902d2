//! Small building blocks shared by the rest of the crate.

pub mod base64_utils;
pub mod clock;
pub mod random;
pub mod sha256;
pub mod text;
pub mod token;
