//! A validated email address type: every `Email` holds a string that the
//! email format rule of the `validate` crate accepts, exactly as it was given.

pub mod email;
pub mod error;
pub mod format;
pub mod utils;
