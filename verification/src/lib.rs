//! Core of a clipboard history manager: content snapshots, deduplicated
//! bounded storage, change detection, and read-side filtering.

mod clock;
pub mod digest;
pub mod error;
pub mod fonts;
pub mod i18n;
pub mod migrate;
pub mod theme;
pub mod monitor;
pub mod store;
pub mod strutil;
pub mod types;

pub use error::ClipManagerError;
pub use store::Database;
pub use types::{ClipboardItem, SearchFilter};

use vstd::prelude::*;

verus! {

/// The library's version string.
pub fn version() -> (r: &'static str)
    ensures
        r@ == "0.1.0"@,
{
    "0.1.0"
}

} // verus!
