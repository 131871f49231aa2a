use vstd::prelude::*;

verus! {

/// The SHA-1 digest of the filename's bytes followed by the source text's
/// bytes, with no delimiter, as ring computes it. The digest is named, not
/// written out: it depends on the two inputs alone.
pub uninterp spec fn sha1_of(filename: Seq<char>, source: Seq<char>) -> Seq<u8>;

/// The lowercase hexadecimal character of a nibble.
pub open spec fn hex_digit(n: u8) -> char {
    if n < 10 {
        (n + 48) as char
    } else {
        (n + 87) as char
    }
}

/// The lowercase hexadecimal encoding of a byte string, two characters per
/// byte, high nibble first.
pub open spec fn hex_of(bytes: Seq<u8>) -> Seq<char>
    decreases bytes.len(),
{
    if bytes.len() == 0 {
        Seq::empty()
    } else {
        hex_of(bytes.drop_last()) + seq![
            hex_digit((bytes.last() / 16) as u8),
            hex_digit((bytes.last() % 16) as u8),
        ]
    }
}

/// The hexadecimal encoding is twice as long as what it encodes.
pub proof fn lemma_hex_len(bytes: Seq<u8>)
    ensures
        hex_of(bytes).len() == 2 * bytes.len(),
    decreases bytes.len(),
{
    if bytes.len() > 0 {
        lemma_hex_len(bytes.drop_last());
    }
}

/// The cache key of a module: the fixed-width lowercase hexadecimal encoding
/// of the digest over filename and source text.
pub open spec fn hash_key(filename: Seq<char>, source: Seq<char>) -> Seq<char> {
    hex_of(sha1_of(filename, source))
}

/// The cache key is a function of the filename and the source text alone:
/// two keys derived from the same pair are the identical key.
pub proof fn lemma_hash_deterministic(
    filename: Seq<char>,
    source: Seq<char>,
    key1: Seq<char>,
    key2: Seq<char>,
)
    requires
        key1 == hash_key(filename, source),
        key2 == hash_key(filename, source),
    ensures
        key1 == key2,
{
}

/// Relies on ring::digest with the SHA-1 algorithm: the 20-byte digest of the
/// updated bytes, a function of those bytes alone.
#[verifier::external_body]
fn sha1_digest(filename: &str, source_code: &str) -> (r: Vec<u8>)
    ensures
        r@ == sha1_of(filename@, source_code@),
        r@.len() == 20,
{
    let mut ctx = ring::digest::Context::new(&ring::digest::SHA1_FOR_LEGACY_USE_ONLY);
    ctx.update(filename.as_bytes());
    ctx.update(source_code.as_bytes());
    ctx.finish().as_ref().to_vec()
}

fn push_hex_digit(out: &mut String, n: u8)
    requires
        n < 16,
    ensures
        final(out)@ == old(out)@ + seq![hex_digit(n)],
{
    proof {
        reveal_strlit("0123456789abcdef");
    }
    let digits = "0123456789abcdef";
    let piece = digits.substring_char(n as usize, n as usize + 1);
    proof {
        assert(piece@ =~= seq![hex_digit(n)]);
    }
    out.append(piece);
}

fn bytes_to_hex(bytes: &Vec<u8>) -> (r: String)
    ensures
        r@ == hex_of(bytes@),
{
    let mut out = String::new();
    let mut i: usize = 0;
    proof {
        assert(bytes@.take(0) =~= Seq::<u8>::empty());
    }
    while i < bytes.len()
        invariant
            i <= bytes@.len(),
            out@ == hex_of(bytes@.take(i as int)),
        decreases bytes@.len() - i,
    {
        let b = bytes[i];
        push_hex_digit(&mut out, b / 16);
        push_hex_digit(&mut out, b % 16);
        proof {
            let t = bytes@.take(i + 1);
            assert(t.drop_last() =~= bytes@.take(i as int));
            assert(t.last() == bytes@[i as int]);
        }
        i = i + 1;
    }
    proof {
        assert(bytes@.take(bytes@.len() as int) =~= bytes@);
    }
    out
}

/// Derives the deterministic cache key from a filename and its source text:
/// the lowercase hexadecimal SHA-1 digest of the filename's bytes followed by
/// the source text's bytes.
pub fn source_code_hash(filename: &str, source_code: &str) -> (r: String)
    ensures
        r@ == hash_key(filename@, source_code@),
        r@.len() == 40,
{
    let digest = sha1_digest(filename, source_code);
    proof {
        lemma_hex_len(digest@);
    }
    bytes_to_hex(&digest)
}

} // verus!
