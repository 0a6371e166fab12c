//! Names and visibilities for size constants.
//!
//! Given the name and visibility of a declared type and the options that came
//! with the request, this crate decides under which name and with which
//! visibility a constant holding the type's size in memory is to be declared.

pub mod constant;
pub mod error;
pub mod expansion;
pub mod naming;
pub mod overrides;
pub mod visibility;
pub mod words;
