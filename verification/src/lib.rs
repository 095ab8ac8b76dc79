//! An in-memory file-handle manager for a single write-only pseudo-file whose
//! content is handed off, as text, when a handle is closed.

pub mod buffer;
pub mod credentials;
pub mod fs;
pub mod protocol;
pub mod slab_model;
pub mod table;
pub mod text;
