pub mod dir;
pub mod hash;
pub mod locate;
pub mod paths;

pub use dir::{
    code_fetch_finish, is_remote, CacheLookup, CodeFetchOutput, DenoDir, ModuleLocation,
    SourceAction,
};
pub use hash::source_code_hash;
pub use locate::{get_cache_filename, ModuleUrl};

use vstd::prelude::*;

verus! {

/// The error taxonomy of the resolver and compile cache. Every failure is
/// reported to the caller with its kind preserved; a cache miss is not an
/// error.
#[derive(Debug, PartialEq, Eq, Clone, Copy)]
pub enum DenoError {
    /// The specifier cannot be mapped to a location (for example, a relative
    /// specifier against a containing file with no parent directory).
    ResolutionError,
    /// A local module file does not exist at its resolved path.
    NotFoundError,
    /// Network retrieval of a remote module failed.
    FetchError,
    /// A filesystem failure while reading or writing the compile cache,
    /// distinct from the expected "absent" outcome of a lookup.
    CacheIOError,
    /// The specifier denotes a reserved virtual-asset namespace that this
    /// subsystem must not resolve itself.
    ReservedLocationError,
}

} // verus!
