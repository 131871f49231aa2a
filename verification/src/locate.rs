use crate::paths::{mirror_path, trim_trailing_slashes};
use vstd::prelude::*;

verus! {

/// A remote module's URL, reduced to the parts the resolver reads: the full
/// URL text, the scheme, the host (without its port), and the path.
#[derive(Debug, PartialEq)]
pub struct ModuleUrl {
    pub text: String,
    pub scheme: String,
    pub host: String,
    pub path: String,
}

/// What parsing a specifier as a URL yields: nothing when the specifier is
/// not a URL with a scheme and a host, else its text, scheme, host and path.
/// Named, not written out: the parse depends on the specifier alone.
pub uninterp spec fn url_parts_of(s: Seq<char>) -> Option<
    (Seq<char>, Seq<char>, Seq<char>, Seq<char>),
>;

/// Relies on hyper's Uri: parsing a specifier, and reading its scheme, host
/// and path, depends on the specifier alone; a parsed URL with a host has a
/// path that starts with the separator.
#[verifier::external_body]
pub(crate) fn parse_url(specifier: &str) -> (r: Option<ModuleUrl>)
    ensures
        (r is Some) == (url_parts_of(specifier@) is Some),
        r matches Some(u) ==> Some((u.text@, u.scheme@, u.host@, u.path@)) == url_parts_of(
            specifier@,
        ),
        r matches Some(u) ==> u.path@.len() > 0 && u.path@[0] == '/',
{
    match specifier.parse::<hyper::Uri>() {
        Err(_) => None,
        Ok(uri) => match (uri.scheme_part(), uri.host()) {
            (Some(scheme), Some(host)) => Some(ModuleUrl {
                text: uri.to_string(),
                scheme: scheme.as_str().to_string(),
                host: host.to_string(),
                path: uri.path().to_string(),
            }),
            _ => None,
        },
    }
}

/// The local mirror path of a remote module under `basedir`: the base without
/// trailing separators, then the URL's host, then the URL's path. Yields
/// nothing when the specifier is not a URL.
pub fn get_cache_filename(basedir: &str, url: &str) -> (r: Option<String>)
    ensures
        match url_parts_of(url@) {
            Some(parts) => r matches Some(f) && f@ == mirror_path(basedir@, parts.2, parts.3),
            None => r is None,
        },
{
    match parse_url(url) {
        Some(u) => Some(join_mirror(basedir, u.host.as_str(), u.path.as_str())),
        None => None,
    }
}

/// Joins a URL's host and path onto a mirror base directory.
pub(crate) fn join_mirror(basedir: &str, host: &str, upath: &str) -> (r: String)
    ensures
        r@ == mirror_path(basedir@, host@, upath@),
{
    let mut out = crate::paths::trimmed_dir(basedir);
    out.append("/");
    out.append(host);
    out.append(upath);
    proof {
        reveal_strlit("/");
        assert(trim_trailing_slashes(basedir@) + "/"@ + host@ + upath@ =~= mirror_path(
            basedir@,
            host@,
            upath@,
        ));
    }
    out
}

} // verus!
