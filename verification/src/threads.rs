//! Configuration builder for spawning a worker thread.
//!
//! Only the configuration lives here; actually spawning the worker is
//! platform work that stays with the embedding.

use vstd::prelude::*;

verus! {

/// Thread configuration: an optional name and an optional stack size.
#[derive(Debug)]
pub struct Builder {
    /// The thread's name, if one was chosen.
    pub name: Option<String>,
    /// The thread's stack size in bytes, if one was chosen.
    pub stack_size: Option<usize>,
}

impl Builder {
    /// A configuration with nothing chosen yet.
    pub fn new() -> (builder: Builder)
        ensures
            builder.name is None,
            builder.stack_size is None,
    {
        Builder { name: None, stack_size: None }
    }

    /// Names the thread.
    pub fn name(self, name: String) -> (builder: Builder)
        ensures
            builder.name == Some(name),
            builder.stack_size == self.stack_size,
    {
        Builder { name: Some(name), ..self }
    }

    /// Sets the thread's stack size in bytes.
    pub fn stack_size(self, size: usize) -> (builder: Builder)
        ensures
            builder.stack_size == Some(size),
            builder.name == self.name,
    {
        Builder { stack_size: Some(size), ..self }
    }
}

} // verus!
