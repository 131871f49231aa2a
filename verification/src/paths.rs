use vstd::prelude::*;

verus! {

// Paths are modelled as their character sequences, with `/` as the one
// separator. A specifier is absolute when it starts with a separator; joining
// a relative specifier onto a base directory drops empty and `.` segments of
// the specifier but resolves nothing else (`..` segments are kept as written).

/// A path is absolute when it starts with the separator.
pub open spec fn is_absolute(s: Seq<char>) -> bool {
    s.len() > 0 && s[0] == '/'
}

/// A containing file that ends in the separator denotes a directory.
pub open spec fn ends_with_slash(s: Seq<char>) -> bool {
    s.len() > 0 && s[s.len() - 1] == '/'
}

/// The path without its trailing separators.
pub open spec fn trim_trailing_slashes(s: Seq<char>) -> Seq<char>
    decreases s.len(),
{
    if s.len() > 0 && s[s.len() - 1] == '/' {
        trim_trailing_slashes(s.drop_last())
    } else {
        s
    }
}

/// Index of the last separator, or -1 when there is none.
pub open spec fn last_slash_idx(s: Seq<char>) -> int
    decreases s.len(),
{
    if s.len() == 0 {
        -1
    } else if s[s.len() - 1] == '/' {
        s.len() - 1
    } else {
        last_slash_idx(s.drop_last())
    }
}

/// A segment of a relative specifier survives joining unless it is empty or
/// the no-op segment `.`.
pub open spec fn keep_seg(seg: Seq<char>) -> bool {
    seg.len() > 0 && seg != seq!['.']
}

/// Appends one segment onto a path, preceded by a separator, unless the
/// segment is dropped.
pub open spec fn flush_seg(out: Seq<char>, seg: Seq<char>) -> Seq<char> {
    if keep_seg(seg) {
        out + seq!['/'] + seg
    } else {
        out
    }
}

/// Appends the kept segments of `rest` onto `out`, with `seg` the segment
/// read so far.
pub open spec fn append_segments(out: Seq<char>, seg: Seq<char>, rest: Seq<char>) -> Seq<char>
    decreases rest.len(),
{
    if rest.len() == 0 {
        flush_seg(out, seg)
    } else if rest[0] == '/' {
        append_segments(flush_seg(out, seg), Seq::empty(), rest.skip(1))
    } else {
        append_segments(out, seg.push(rest[0]), rest.skip(1))
    }
}

/// The join of a relative specifier onto a base directory: the base without
/// its trailing separators, then each kept segment of the specifier behind
/// one separator.
pub open spec fn join_path(base: Seq<char>, rel: Seq<char>) -> Seq<char> {
    append_segments(trim_trailing_slashes(base), Seq::empty(), rel)
}

/// The local mirror path of a remote module: the mirror base directory
/// without trailing separators, then the URL's host, then the URL's path
/// (which starts with the separator).
pub open spec fn mirror_path(base: Seq<char>, host: Seq<char>, upath: Seq<char>) -> Seq<char> {
    trim_trailing_slashes(base) + seq!['/'] + host + upath
}

/// Where a local specifier resolves against its containing file: an absolute
/// specifier stands as it is; a relative one joins against the containing
/// file itself when that names a directory, else against its parent
/// directory; a containing file with no parent directory resolves nothing.
pub open spec fn resolve_local(specifier: Seq<char>, containing: Seq<char>) -> Option<Seq<char>> {
    if is_absolute(specifier) {
        Option::Some(specifier)
    } else if ends_with_slash(containing) {
        Option::Some(join_path(containing, specifier))
    } else if last_slash_idx(containing) >= 0 {
        Option::Some(join_path(containing.take(last_slash_idx(containing)), specifier))
    } else {
        Option::None
    }
}

/// Resolving an absolute local specifier does not look at the containing
/// file: the result is the specifier itself under every context.
pub proof fn lemma_absolute_resolution_context_independent(
    specifier: Seq<char>,
    containing1: Seq<char>,
    containing2: Seq<char>,
)
    requires
        is_absolute(specifier),
    ensures
        resolve_local(specifier, containing1) == resolve_local(specifier, containing2),
        resolve_local(specifier, containing1) == Option::Some(specifier),
{
}

/// Resolving a relative specifier joins it against the containing file's
/// directory: the containing file itself when it ends in a separator, and
/// its parent directory otherwise.
pub proof fn lemma_relative_resolution_joins_containing_dir(
    specifier: Seq<char>,
    containing: Seq<char>,
)
    requires
        !is_absolute(specifier),
    ensures
        ends_with_slash(containing) ==> resolve_local(specifier, containing)
            == Option::Some(join_path(containing, specifier)),
        !ends_with_slash(containing) && last_slash_idx(containing) >= 0
            ==> resolve_local(specifier, containing)
                == Option::Some(join_path(containing.take(last_slash_idx(containing)), specifier)),
{
}

/// A relative specifier against a containing file that holds no separator at
/// all resolves to nothing.
pub proof fn lemma_bare_containing_file_resolves_nothing(
    specifier: Seq<char>,
    containing: Seq<char>,
)
    requires
        !is_absolute(specifier),
        !ends_with_slash(containing),
        last_slash_idx(containing) < 0,
    ensures
        resolve_local(specifier, containing) is None,
{
}

proof fn lemma_append_segments_prefix(out: Seq<char>, seg: Seq<char>, rest: Seq<char>)
    ensures
        append_segments(out, seg, rest).len() >= out.len(),
        append_segments(out, seg, rest).take(out.len() as int) == out,
    decreases rest.len(),
{
    if rest.len() == 0 {
        if keep_seg(seg) {
            assert((out + seq!['/'] + seg).take(out.len() as int) =~= out);
        } else {
            assert(out.take(out.len() as int) =~= out);
        }
    } else if rest[0] == '/' {
        let flushed = flush_seg(out, seg);
        let joined = append_segments(flushed, Seq::empty(), rest.skip(1));
        lemma_append_segments_prefix(flushed, Seq::empty(), rest.skip(1));
        if keep_seg(seg) {
            assert(flushed.take(out.len() as int) =~= out);
        }
        assert(joined.take(out.len() as int) =~= joined.take(flushed.len() as int).take(
            out.len() as int,
        ));
    } else {
        lemma_append_segments_prefix(out, seg.push(rest[0]), rest.skip(1));
    }
}

/// Plain joining never rewrites the base: the base directory (without its
/// trailing separators) is textually a prefix of the joined path, whatever
/// the specifier holds.
pub proof fn lemma_join_keeps_base_prefix(base: Seq<char>, rel: Seq<char>)
    ensures
        join_path(base, rel).len() >= trim_trailing_slashes(base).len(),
        join_path(base, rel).take(trim_trailing_slashes(base).len() as int)
            == trim_trailing_slashes(base),
{
    lemma_append_segments_prefix(trim_trailing_slashes(base), Seq::empty(), rel);
}

proof fn lemma_trim_take(s: Seq<char>, n: int)
    requires
        0 <= n <= s.len(),
        forall|i: int| n <= i < s.len() ==> s[i] == '/',
        n > 0 ==> s[n - 1] != '/',
    ensures
        trim_trailing_slashes(s) == s.take(n),
    decreases s.len(),
{
    if s.len() == n {
        assert(s.take(n) =~= s);
    } else {
        lemma_trim_take(s.drop_last(), n);
        assert(s.drop_last().take(n) =~= s.take(n));
    }
}

proof fn lemma_last_slash_take(s: Seq<char>, n: int)
    requires
        0 <= n <= s.len(),
        forall|i: int| n <= i < s.len() ==> s[i] != '/',
    ensures
        last_slash_idx(s) == last_slash_idx(s.take(n)),
    decreases s.len(),
{
    if s.len() == n {
        assert(s.take(n) =~= s);
    } else {
        lemma_last_slash_take(s.drop_last(), n);
        assert(s.drop_last().take(n) =~= s.take(n));
    }
}

/// True when the path starts with the separator.
pub fn str_is_absolute(s: &str) -> (r: bool)
    ensures
        r == is_absolute(s@),
{
    if s.unicode_len() == 0 {
        false
    } else {
        s.get_char(0) == '/'
    }
}

/// True when the path ends with the separator.
pub fn str_ends_with_slash(s: &str) -> (r: bool)
    ensures
        r == ends_with_slash(s@),
{
    let n = s.unicode_len();
    if n == 0 {
        false
    } else {
        s.get_char(n - 1) == '/'
    }
}

/// The length of the path once trailing separators are dropped.
fn trimmed_len(s: &str) -> (n: usize)
    ensures
        n <= s@.len(),
        trim_trailing_slashes(s@) == s@.take(n as int),
{
    let mut n = s.unicode_len();
    while n > 0 && s.get_char(n - 1) == '/'
        invariant
            n <= s@.len(),
            forall|i: int| n <= i < s@.len() ==> s@[i] == '/',
        decreases n,
    {
        n = n - 1;
    }
    proof {
        lemma_trim_take(s@, n as int);
    }
    n
}

/// The path without its trailing separators.
pub fn trimmed_dir(s: &str) -> (r: String)
    ensures
        r@ == trim_trailing_slashes(s@),
{
    let n = trimmed_len(s);
    String::from_str(s.substring_char(0, n))
}

/// Index of the last separator of the path, if it has one.
pub fn find_last_slash(s: &str) -> (r: Option<usize>)
    ensures
        match r {
            Option::Some(j) => last_slash_idx(s@) == j as int && (j as int) < s@.len(),
            Option::None => last_slash_idx(s@) == -1,
        },
{
    let mut n = s.unicode_len();
    while n > 0
        invariant
            n <= s@.len(),
            forall|i: int| n <= i < s@.len() ==> s@[i] != '/',
        decreases n,
    {
        if s.get_char(n - 1) == '/' {
            proof {
                lemma_last_slash_take(s@, n as int);
                assert(s@.take(n as int).last() == s@[n - 1]);
            }
            return Option::Some(n - 1);
        }
        n = n - 1;
    }
    proof {
        lemma_last_slash_take(s@, 0);
        assert(s@.take(0) =~= Seq::<char>::empty());
    }
    Option::None
}

fn flush_segment(out: &mut String, seg: &mut String)
    ensures
        final(out)@ == flush_seg(old(out)@, old(seg)@),
        final(seg)@ == Seq::<char>::empty(),
{
    let dot = String::from_str(".");
    let is_dot = *seg == dot;
    proof {
        reveal_strlit(".");
        assert("."@ =~= seq!['.']);
    }
    if seg.unicode_len() > 0 && !is_dot {
        out.append("/");
        out.append(seg.as_str());
        proof {
            reveal_strlit("/");
            assert("/"@ =~= seq!['/']);
        }
    }
    *seg = String::new();
}

/// Joins a relative specifier onto a base directory.
pub fn join_relative(base: &str, rel: &str) -> (r: String)
    ensures
        r@ == join_path(base@, rel@),
{
    let mut out = trimmed_dir(base);
    let mut seg = String::new();
    let n = rel.unicode_len();
    let mut i: usize = 0;
    proof {
        assert(rel@.skip(0) =~= rel@);
    }
    while i < n
        invariant
            i <= n,
            n == rel@.len(),
            append_segments(out@, seg@, rel@.skip(i as int)) == join_path(base@, rel@),
        decreases n - i,
    {
        let ghost rest = rel@.skip(i as int);
        let c = rel.get_char(i);
        proof {
            assert(rest[0] == c);
            assert(rest.skip(1) =~= rel@.skip(i + 1));
        }
        if c == '/' {
            flush_segment(&mut out, &mut seg);
        } else {
            let piece = rel.substring_char(i, i + 1);
            proof {
                assert(seg@ + piece@ =~= seg@.push(c));
            }
            seg.append(piece);
        }
        i = i + 1;
    }
    proof {
        assert(rel@.skip(n as int) =~= Seq::<char>::empty());
    }
    flush_segment(&mut out, &mut seg);
    out
}

} // verus!
