//! Files as the loader keeps them in memory.
use vstd::prelude::*;

verus! {

/// A file: its path and, once read, its contents and metadata.
pub struct File {
    pub path: String,
    pub contents: Option<Vec<u8>>,
    pub metadata: Option<Vec<u8>>,
}

} // verus!
