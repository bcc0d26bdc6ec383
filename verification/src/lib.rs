//! License text generation and SPDX header annotation.
//!
//! The crate models the catalogue of supported licenses, the questions that
//! are put to the operator for each of them, the rendering of the license text
//! and its companion notices, and the decisions taken while the results are
//! written out. Reading and writing themselves are left to the caller.

pub mod strings;
pub mod license;
pub mod template;
pub mod texts;
pub mod io;
pub mod interview;
pub mod status;
