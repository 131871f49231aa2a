use crate::hash::{hash_key, source_code_hash};
use crate::locate::{join_mirror, parse_url, url_parts_of, ModuleUrl};
use crate::paths::{
    find_last_slash, join_relative, mirror_path, resolve_local, str_ends_with_slash,
    str_is_absolute, trim_trailing_slashes, trimmed_dir,
};
use crate::DenoError;
use vstd::prelude::*;

verus! {

/// What a module specifier refers to: a file on the local filesystem, or a
/// resource behind a URL. Every consumer matches both variants.
#[derive(Debug, PartialEq)]
pub enum ModuleLocation {
    Path(String),
    Url(ModuleUrl),
}

impl ModuleLocation {
    /// The textual form of the location: the path itself, or the URL's text.
    pub open spec fn text_spec(&self) -> Seq<char> {
        match self {
            ModuleLocation::Path(p) => p@,
            ModuleLocation::Url(u) => u.text@,
        }
    }

    /// The location as a string.
    pub fn to_string(&self) -> (r: String)
        ensures
            r@ == self.text_spec(),
    {
        match self {
            ModuleLocation::Path(p) => p.clone(),
            ModuleLocation::Url(u) => u.text.clone(),
        }
    }
}

/// A location is remote when it is a URL with the http or https scheme.
pub open spec fn is_remote_spec(module_name: &ModuleLocation) -> bool {
    match module_name {
        ModuleLocation::Url(u) => u.scheme@ == "http"@ || u.scheme@ == "https"@,
        ModuleLocation::Path(_) => false,
    }
}

/// True for locations fetched over the network: URLs whose scheme is http or
/// https. A path is never remote, whatever its name looks like.
pub fn is_remote(module_name: &ModuleLocation) -> (r: bool)
    ensures
        r == is_remote_spec(module_name),
{
    match module_name {
        ModuleLocation::Url(u) => {
            let http = String::from_str("http");
            let https = String::from_str("https");
            u.scheme == http || u.scheme == https
        },
        ModuleLocation::Path(_) => false,
    }
}

/// The reserved virtual-asset prefix. Specifiers under it are never resolved
/// to filesystem content by this subsystem.
pub open spec fn is_reserved(s: Seq<char>) -> bool {
    s.len() >= "/$asset$/"@.len() && s.take("/$asset$/"@.len() as int) == "/$asset$/"@
}

fn starts_with_reserved(s: &str) -> (r: bool)
    ensures
        r == is_reserved(s@),
{
    proof {
        reveal_strlit("/$asset$/");
    }
    let prefix = "/$asset$/";
    let plen = prefix.unicode_len();
    if s.unicode_len() < plen {
        false
    } else {
        let head = String::from_str(s.substring_char(0, plen));
        head == String::from_str(prefix)
    }
}

/// The slot of the compile cache for a (filename, source) pair: the gen
/// directory joined with the cache key and the artifact suffix.
pub open spec fn cache_path_spec(gen: Seq<char>, filename: Seq<char>, source: Seq<char>) -> Seq<
    char,
> {
    trim_trailing_slashes(gen) + seq!['/'] + hash_key(filename, source) + ".js"@
}

/// Every store and every lookup for the same (filename, source) pair targets
/// the identical cache slot: the slot is a function of the pair (and the gen
/// directory) alone. Together with the store policy of never overwriting an
/// existing slot, storing the same output twice leaves the slot unchanged.
pub proof fn lemma_cache_slot_deterministic(
    gen: Seq<char>,
    filename: Seq<char>,
    source: Seq<char>,
    slot1: Seq<char>,
    slot2: Seq<char>,
)
    requires
        slot1 == cache_path_spec(gen, filename, source),
        slot2 == cache_path_spec(gen, filename, source),
    ensures
        slot1 == slot2,
{
}

/// The directory-scoped cache and loader: the root of the layout, the
/// compiled-artifact cache under it, the mirror of remote sources under it,
/// and the reload policy fixed at initialization.
pub struct DenoDir {
    /// Root of the cache layout.
    pub root: String,
    /// Where compiled artifacts are cached, keyed by source hash.
    pub gen: String,
    /// Where remote module sources are mirrored, keyed by host and path.
    pub deps: String,
    /// When set, remote modules are re-fetched even when a mirror exists.
    pub reload: bool,
}

/// How the source text of a resolved module is obtained.
#[derive(Debug, PartialEq)]
pub enum SourceAction {
    /// Read the local module file at the path.
    ReadLocal(String),
    /// Read the remote module's local mirror at the path; no network.
    ReadMirror(String),
    /// Fetch the URL's content over the network and persist it at the mirror
    /// path.
    Download(String, String),
}

/// The outcome of reading the compile-cache slot of a module.
#[derive(Debug, PartialEq)]
pub enum CacheLookup {
    /// The slot holds previously compiled output code.
    Hit(String),
    /// The slot does not exist: a miss, not an error.
    Miss,
    /// The slot could not be read for another reason.
    Failed,
}

/// The record a resolve-and-fetch operation yields.
#[derive(Debug, PartialEq)]
pub struct CodeFetchOutput {
    pub module_name: String,
    pub filename: String,
    pub source_code: String,
    pub maybe_output_code: Option<String>,
}

impl DenoDir {
    /// Lays out the cache directories under `root`: compiled artifacts under
    /// `gen`, mirrored remote sources under `deps`. The caller chooses the
    /// root and creates both directories on disk before any operation.
    pub fn new(reload: bool, root: &str) -> (r: DenoDir)
        ensures
            r.root@ == root@,
            r.gen@ == trim_trailing_slashes(root@) + "/gen"@,
            r.deps@ == trim_trailing_slashes(root@) + "/deps"@,
            r.reload == reload,
    {
        let mut gen_dir = trimmed_dir(root);
        gen_dir.append("/gen");
        let mut deps_dir = trimmed_dir(root);
        deps_dir.append("/deps");
        DenoDir { root: String::from_str(root), gen: gen_dir, deps: deps_dir, reload }
    }

    /// The on-disk slot holding the compiled artifact for this filename and
    /// source text: a deterministic function of the two.
    pub fn cache_path(&self, filename: &str, source_code: &str) -> (r: String)
        ensures
            r@ == cache_path_spec(self.gen@, filename@, source_code@),
    {
        let key = source_code_hash(filename, source_code);
        let mut out = trimmed_dir(self.gen.as_str());
        out.append("/");
        out.append(key.as_str());
        out.append(".js");
        proof {
            reveal_strlit("/");
            assert(out@ =~= cache_path_spec(self.gen@, filename@, source_code@));
        }
        out
    }

    /// Maps a module specifier and its containing file to what the specifier
    /// refers to and the canonical local path for its bytes. A specifier that
    /// parses as a URL with scheme and host maps to the deps mirror by host
    /// and path; otherwise it is a filesystem path, resolved against the
    /// containing file's directory when relative. For a local location the
    /// path of the location and the local path are the same string.
    pub fn resolve_module(&self, module_specifier: &str, containing_file: &str) -> (r: Result<
        (ModuleLocation, String),
        DenoError,
    >)
        ensures
            match url_parts_of(module_specifier@) {
                Some(parts) => {
                    &&& r matches Ok(pair)
                    &&& pair.0 matches ModuleLocation::Url(u)
                    &&& u.text@ == parts.0
                    &&& u.scheme@ == parts.1
                    &&& u.host@ == parts.2
                    &&& u.path@ == parts.3
                    &&& pair.1@ == mirror_path(self.deps@, parts.2, parts.3)
                },
                None => match resolve_local(module_specifier@, containing_file@) {
                    Some(p) => {
                        &&& r matches Ok(pair)
                        &&& pair.0 matches ModuleLocation::Path(lp)
                        &&& lp@ == p
                        &&& pair.1@ == p
                    },
                    None => r matches Err(e) && e == DenoError::ResolutionError,
                },
            },
    {
        match parse_url(module_specifier) {
            Some(u) => {
                let filename = join_mirror(self.deps.as_str(), u.host.as_str(), u.path.as_str());
                Ok((ModuleLocation::Url(u), filename))
            },
            None => {
                if str_is_absolute(module_specifier) {
                    let p = String::from_str(module_specifier);
                    Ok((ModuleLocation::Path(p.clone()), p))
                } else if str_ends_with_slash(containing_file) {
                    let p = join_relative(containing_file, module_specifier);
                    Ok((ModuleLocation::Path(p.clone()), p))
                } else {
                    match find_last_slash(containing_file) {
                        Some(j) => {
                            let base = containing_file.substring_char(0, j);
                            let p = join_relative(base, module_specifier);
                            Ok((ModuleLocation::Path(p.clone()), p))
                        },
                        None => Err(DenoError::ResolutionError),
                    }
                }
            },
        }
    }

    /// Decides how a resolved module's source text is obtained. A URL is
    /// downloaded when the reload flag is set or no mirror exists, and read
    /// from its mirror otherwise; a path under the reserved virtual-asset
    /// prefix is rejected; any other path is read directly. For a local
    /// location the caller must pass the location's own path as `filename`.
    pub fn code_fetch_plan(
        &self,
        location: &ModuleLocation,
        filename: &str,
        mirror_exists: bool,
    ) -> (r: Result<SourceAction, DenoError>)
        requires
            location matches ModuleLocation::Path(p) ==> p@ == filename@,
        ensures
            match location {
                ModuleLocation::Url(u) => {
                    &&& (self.reload || !mirror_exists) ==> {
                        &&& r matches Ok(a)
                        &&& a matches SourceAction::Download(url, f)
                        &&& url@ == u.text@
                        &&& f@ == filename@
                    }
                    &&& (!self.reload && mirror_exists) ==> {
                        &&& r matches Ok(a)
                        &&& a matches SourceAction::ReadMirror(f)
                        &&& f@ == filename@
                    }
                },
                ModuleLocation::Path(p) => {
                    &&& is_reserved(p@) ==> {
                        &&& r matches Err(e)
                        &&& e == DenoError::ReservedLocationError
                    }
                    &&& !is_reserved(p@) ==> {
                        &&& r matches Ok(a)
                        &&& a matches SourceAction::ReadLocal(f)
                        &&& f@ == filename@
                    }
                },
            },
    {
        match location {
            ModuleLocation::Url(u) => {
                if self.reload || !mirror_exists {
                    Ok(SourceAction::Download(u.text.clone(), String::from_str(filename)))
                } else {
                    Ok(SourceAction::ReadMirror(String::from_str(filename)))
                }
            },
            ModuleLocation::Path(_p) => {
                if starts_with_reserved(filename) {
                    Err(DenoError::ReservedLocationError)
                } else {
                    Ok(SourceAction::ReadLocal(String::from_str(filename)))
                }
            },
        }
    }
}

/// Assembles the final record of a resolve-and-fetch operation from the
/// module's name, local filename, source text and the compile-cache lookup.
/// A cache miss is not an error: the output-code field is simply unset. A
/// failed cache read is a cache I/O error.
pub fn code_fetch_finish(
    module_name: String,
    filename: String,
    source_code: String,
    cache: CacheLookup,
) -> (r: Result<CodeFetchOutput, DenoError>)
    ensures
        match cache {
            CacheLookup::Hit(output_code) => {
                &&& r matches Ok(out)
                &&& out.module_name@ == module_name@
                &&& out.filename@ == filename@
                &&& out.source_code@ == source_code@
                &&& out.maybe_output_code matches Some(oc)
                &&& oc@ == output_code@
            },
            CacheLookup::Miss => {
                &&& r matches Ok(out)
                &&& out.module_name@ == module_name@
                &&& out.filename@ == filename@
                &&& out.source_code@ == source_code@
                &&& out.maybe_output_code is None
            },
            CacheLookup::Failed => r matches Err(e) && e == DenoError::CacheIOError,
        },
{
    match cache {
        CacheLookup::Hit(output_code) => Ok(
            CodeFetchOutput {
                module_name,
                filename,
                source_code,
                maybe_output_code: Some(output_code),
            },
        ),
        CacheLookup::Miss => Ok(
            CodeFetchOutput { module_name, filename, source_code, maybe_output_code: None },
        ),
        CacheLookup::Failed => Err(DenoError::CacheIOError),
    }
}

/// Maps a local filename back to the URL it mirrors: a filename under the
/// deps directory becomes an http URL of the rest; any other filename is
/// returned unchanged.
pub open spec fn src_file_to_url_spec(deps: Seq<char>, filename: Seq<char>) -> Seq<char> {
    if filename == deps {
        "http://"@
    } else if filename.len() > deps.len() && filename.take(deps.len() as int) == deps && filename[
        deps.len() as int
    ] == '/' {
        "http://"@ + filename.skip(deps.len() as int + 1)
    } else {
        filename
    }
}

impl DenoDir {
    /// The URL a filename under the deps mirror stands for, or the filename
    /// itself when it is not under the mirror.
    pub fn src_file_to_url(&self, filename: &str) -> (r: String)
        ensures
            r@ == src_file_to_url_spec(self.deps@, filename@),
    {
        let flen = filename.unicode_len();
        let dlen = self.deps.as_str().unicode_len();
        if flen == dlen && String::from_str(filename) == self.deps {
            String::from_str("http://")
        } else if flen > dlen && filename.get_char(dlen) == '/' && String::from_str(
            filename.substring_char(0, dlen),
        ) == self.deps {
            let rest = filename.substring_char(dlen + 1, flen);
            let mut out = String::from_str("http://");
            out.append(rest);
            out
        } else {
            proof {
                if filename@ == self.deps@ {
                    assert(flen == dlen);
                }
            }
            String::from_str(filename)
        }
    }
}

} // verus!
