//! SHA-256 of a byte stream fed in chunks, and its lower-case hex form.
use vstd::prelude::*;

verus! {

/// Size of the chunks in which a file is read while it is hashed (1 MiB).
pub const HASH_CHUNK_BYTES: usize = 1024 * 1024;

/// A running `sha2::Sha256` hasher.  Its state is opaque: all that is known
/// of it is the sequence of bytes it has absorbed (`hasher_absorbed`).
#[verifier::external_body]
pub struct Sha256Hasher {
    inner: sha2::Sha256,
}

/// The bytes that a hasher has absorbed since it was created.
pub uninterp spec fn hasher_absorbed(h: Sha256Hasher) -> Seq<u8>;

/// The SHA-256 digest of a byte sequence (FIPS 180-4), as computed by the
/// `sha2` crate.
pub uninterp spec fn sha256(data: Seq<u8>) -> Seq<u8>;

/// Calls `<sha2::Sha256 as Digest>::new`: a fresh hasher has absorbed
/// nothing.
#[verifier::external_body]
fn hasher_new() -> (h: Sha256Hasher)
    ensures
        hasher_absorbed(h) == Seq::<u8>::empty(),
{
    Sha256Hasher { inner: <sha2::Sha256 as sha2::Digest>::new() }
}

/// Calls `<sha2::Sha256 as Digest>::update`: the hasher absorbs `data`
/// after what it held.
#[verifier::external_body]
fn hasher_update(h: &mut Sha256Hasher, data: &[u8])
    ensures
        hasher_absorbed(*final(h)) == hasher_absorbed(*old(h)) + data@,
{
    sha2::Digest::update(&mut h.inner, data)
}

/// Calls `<sha2::Sha256 as Digest>::finalize`: the result is the 32-byte
/// SHA-256 digest of everything the hasher absorbed.
#[verifier::external_body]
fn hasher_finalize(h: Sha256Hasher) -> (d: Vec<u8>)
    ensures
        d@ == sha256(hasher_absorbed(h)),
        d@.len() == 32,
{
    sha2::Digest::finalize(h.inner).to_vec()
}

/// The lower-case hexadecimal digit for a value below 16.
pub open spec fn hex_digit(n: int) -> char {
    seq!['0', '1', '2', '3', '4', '5', '6', '7', '8', '9', 'a', 'b', 'c', 'd', 'e', 'f'][n]
}

/// Lower-case hex of a byte sequence: two digits per byte, high nibble
/// first, no separators.
pub open spec fn hex_lower(data: Seq<u8>) -> Seq<char>
    decreases data.len(),
{
    if data.len() == 0 {
        Seq::empty()
    } else {
        let b = data.last();
        hex_lower(data.drop_last()) + seq![hex_digit(b as int / 16), hex_digit(b as int % 16)]
    }
}

fn hex_digit_str(n: u8) -> (s: &'static str)
    requires
        n < 16,
    ensures
        s@ == seq![hex_digit(n as int)],
{
    let digits = "0123456789abcdef";
    proof {
        reveal_strlit("0123456789abcdef");
    }
    assert(digits@ =~= seq!['0', '1', '2', '3', '4', '5', '6', '7', '8', '9', 'a', 'b', 'c', 'd', 'e', 'f']);
    let s = digits.substring_char(n as usize, n as usize + 1);
    assert(s@ =~= seq![hex_digit(n as int)]);
    s
}

/// Formats bytes as lower-case hex, the way `{:x}` formats a digest.
pub fn to_hex_lower(data: &[u8]) -> (s: String)
    ensures
        s@ == hex_lower(data@),
{
    let mut s = String::new();
    let mut i: usize = 0;
    while i < data.len()
        invariant
            i <= data@.len(),
            s@ == hex_lower(data@.take(i as int)),
        decreases data@.len() - i,
    {
        let b = data[i];
        let hi = hex_digit_str(b / 16);
        let lo = hex_digit_str(b % 16);
        s.append(hi);
        s.append(lo);
        assert(data@.take(i + 1).drop_last() =~= data@.take(i as int));
        i = i + 1;
    }
    assert(data@.take(data@.len() as int) =~= data@);
    s
}

/// SHA-256 of a stream of byte chunks.  Its view is every byte fed so far.
pub struct Sha256Stream {
    hasher: Sha256Hasher,
}

impl View for Sha256Stream {
    type V = Seq<u8>;

    closed spec fn view(&self) -> Seq<u8> {
        hasher_absorbed(self.hasher)
    }
}

impl Sha256Stream {
    /// A stream that has been fed nothing.
    pub fn new() -> (s: Self)
        ensures
            s@ == Seq::<u8>::empty(),
    {
        Sha256Stream { hasher: hasher_new() }
    }

    /// Feeds the next chunk.
    pub fn update(&mut self, chunk: &[u8])
        ensures
            final(self)@ == old(self)@ + chunk@,
    {
        hasher_update(&mut self.hasher, chunk);
    }

    /// The digest of everything fed, as 64 lower-case hex digits.
    pub fn finish_hex(self) -> (s: String)
        ensures
            s@ == hex_lower(sha256(self@)),
            s@.len() == 64,
    {
        let d = hasher_finalize(self.hasher);
        let s = to_hex_lower(d.as_slice());
        proof {
            lemma_hex_lower_len(d@);
        }
        s
    }
}

/// Hex doubles the length.
pub proof fn lemma_hex_lower_len(data: Seq<u8>)
    ensures
        hex_lower(data).len() == 2 * data.len(),
    decreases data.len(),
{
    if data.len() > 0 {
        lemma_hex_lower_len(data.drop_last());
    }
}

} // verus!
