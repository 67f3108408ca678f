//! A typed access layer for a pasteboard service: the shared, named, typed
//! store that applications use for copy and paste and for drag and drop.
//!
//! The layer performs no input or output of its own. A [`Pasteboard`] handle
//! turns each write into a [`Command`] and each read into a [`Query`]; whoever
//! owns the connection to the service carries them out and hands the reply
//! back. [`MemoryService`] is such an owner that keeps every pasteboard in
//! memory.

pub mod error;
pub mod laws;
pub mod memory;
pub mod model;
pub mod pasteboard;
pub mod protocol;
mod table;
pub mod text;
pub mod types;
pub mod url;

pub use error::Error;
pub use memory::MemoryService;
pub use pasteboard::Pasteboard;
pub use protocol::{Command, Query};
pub use types::{PasteboardName, PasteboardType};
pub use url::Url;
