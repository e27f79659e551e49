use vstd::prelude::*;

verus! {

/// What can go wrong while loading or caching themes.
#[derive(Debug, Clone)]
pub enum ThemeError {
    /// The themes root directory does not exist, or the home directory is unknown.
    RootNotFound(String),
    /// Reading a path failed.
    Io(String),
    /// A configuration or metadata file is malformed.
    Parse(String),
    /// A directory name is not valid text.
    InvalidDirectoryName,
    /// The shared cache could not be reached.
    CacheUnavailable,
    /// A snapshot would hold more themes than the configured maximum.
    CacheTooLarge { size: usize, max: u32 },
}

} // verus!
