use vstd::prelude::*;

verus! {

/// Where the persisted session lives.
pub struct SessionLoader {
    pub path: String,
}

/// Why persisting or reading a session failed.
#[derive(Debug, Clone, Copy, PartialEq, Eq, Structural)]
pub enum FileError {
    SerializeError,
    OpenError,
    WriteError,
    ReadError,
}

impl SessionLoader {
    /// A loader for the session file at `path`.
    pub fn new(path: String) -> (r: Self)
        ensures
            r.path == path,
    {
        SessionLoader { path }
    }
}

} // verus!
