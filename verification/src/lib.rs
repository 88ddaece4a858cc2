//! Extraction of mobile data usage statistics from a quota-tracking web page.
//!
//! The crate converts loosely structured, locale-variant markup into a
//! reliable numeric usage model.  Volumes are held as exact decimal
//! quantities (nano-gigabyte counts) and percentages as exact rationals, so
//! every derived field is pinned down by a contract rather than recomputed
//! approximately.

use vstd::prelude::*;

pub mod cli;
pub mod display;
pub mod error;
pub mod model;
pub mod num;
pub mod parser;
pub mod text;
pub mod types;
pub mod watch;

pub use error::DatapassError;
pub use types::DataUsage;

verus! {

/// Parses data usage from an HTML string: one full extraction pass, a
/// bare forwarder to `parser::parse_html` adding no behavior.
pub fn parse_data_usage(html: &str) -> (r: Result<
    crate::types::DataUsage,
    crate::error::DatapassError,
>)
    ensures
        r matches Ok(u) ==> u.wf(),
{
    crate::parser::parse_html(html)
}

} // verus!
