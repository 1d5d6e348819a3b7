//! SHA-256 digests and hex rendering.
//!
//! The digest itself comes from the sha2 crate and is only named, never
//! restated; hex encoding is pinned exactly to a spec-level definition.

use vstd::prelude::*;

verus! {

/// The SHA-256 digest of a byte sequence.
pub uninterp spec fn sha256_of(bytes: Seq<u8>) -> Seq<u8>;

/// An incremental SHA-256 accumulator. The struct is opaque to the
/// verifier; `absorbed` names the bytes fed to it so far.
#[verifier::external_body]
pub struct Sha256Acc {
    inner: sha2::Sha256,
}

/// The bytes an accumulator has absorbed so far.
pub uninterp spec fn absorbed(h: Sha256Acc) -> Seq<u8>;

impl Sha256Acc {
    /// Relies on sha2's `Digest::new`: a fresh accumulator has absorbed nothing.
    #[verifier::external_body]
    pub fn new() -> (r: Sha256Acc)
        ensures
            absorbed(r) == Seq::<u8>::empty(),
    {
        Sha256Acc { inner: <sha2::Sha256 as sha2::Digest>::new() }
    }

    /// Relies on sha2's `Digest::update`: feeding a chunk appends it to the
    /// absorbed bytes.
    #[verifier::external_body]
    pub fn update(&mut self, chunk: &[u8])
        ensures
            absorbed(*final(self)) == absorbed(*old(self)) + chunk@,
    {
        sha2::Digest::update(&mut self.inner, chunk);
    }

    /// Relies on sha2's `Digest::finalize`: returns the 32-byte SHA-256
    /// digest of exactly the absorbed bytes.
    #[verifier::external_body]
    pub fn finalize(self) -> (r: Vec<u8>)
        ensures
            r@ == sha256_of(absorbed(self)),
            r@.len() == 32,
    {
        <sha2::Sha256 as sha2::Digest>::finalize(self.inner).to_vec()
    }
}

/// One-shot SHA-256 of a byte slice.
pub fn sha256_digest(data: &[u8]) -> (r: Vec<u8>)
    ensures
        r@ == sha256_of(data@),
        r@.len() == 32,
{
    let mut acc = Sha256Acc::new();
    acc.update(data);
    proof {
        assert(absorbed(acc) =~= data@);
    }
    acc.finalize()
}

/// The lower-case hex digit for a nibble value.
pub open spec fn hex_digit(n: u8) -> char {
    if n == 0 {
        '0'
    } else if n == 1 {
        '1'
    } else if n == 2 {
        '2'
    } else if n == 3 {
        '3'
    } else if n == 4 {
        '4'
    } else if n == 5 {
        '5'
    } else if n == 6 {
        '6'
    } else if n == 7 {
        '7'
    } else if n == 8 {
        '8'
    } else if n == 9 {
        '9'
    } else if n == 10 {
        'a'
    } else if n == 11 {
        'b'
    } else if n == 12 {
        'c'
    } else if n == 13 {
        'd'
    } else if n == 14 {
        'e'
    } else {
        'f'
    }
}

/// Lower-case hex rendering of a byte sequence, high nibble first.
pub open spec fn spec_hex(bytes: Seq<u8>) -> Seq<char>
    decreases bytes.len(),
{
    if bytes.len() == 0 {
        Seq::empty()
    } else {
        seq![hex_digit(bytes.first() / 16), hex_digit(bytes.first() % 16)]
            + spec_hex(bytes.drop_first())
    }
}

/// Hex rendering doubles the length.
pub proof fn lemma_spec_hex_len(bytes: Seq<u8>)
    ensures
        spec_hex(bytes).len() == 2 * bytes.len(),
    decreases bytes.len(),
{
    if bytes.len() > 0 {
        lemma_spec_hex_len(bytes.drop_first());
    }
}

/// Exec form of `hex_digit`.
fn hex_digit_char(n: u8) -> (r: char)
    requires
        n < 16,
    ensures
        r == hex_digit(n),
{
    if n == 0 {
        '0'
    } else if n == 1 {
        '1'
    } else if n == 2 {
        '2'
    } else if n == 3 {
        '3'
    } else if n == 4 {
        '4'
    } else if n == 5 {
        '5'
    } else if n == 6 {
        '6'
    } else if n == 7 {
        '7'
    } else if n == 8 {
        '8'
    } else if n == 9 {
        '9'
    } else if n == 10 {
        'a'
    } else if n == 11 {
        'b'
    } else if n == 12 {
        'c'
    } else if n == 13 {
        'd'
    } else if n == 14 {
        'e'
    } else {
        'f'
    }
}

/// Render bytes as lower-case hex, high nibble first.
pub fn hex_encode(bytes: &[u8]) -> (r: String)
    ensures
        r@ == spec_hex(bytes@),
{
    let n = bytes.len();
    let mut out = String::new();
    proof {
        assert(bytes@.skip(0) =~= bytes@);
    }
    for i in 0..n
        invariant
            n == bytes@.len(),
            spec_hex(bytes@) =~= out@ + spec_hex(bytes@.skip(i as int)),
    {
        let b = bytes[i];
        crate::strutil::push_char(&mut out, hex_digit_char(b / 16));
        crate::strutil::push_char(&mut out, hex_digit_char(b % 16));
        proof {
            assert(bytes@.skip(i as int).first() == bytes@[i as int]);
            assert(bytes@.skip(i as int).drop_first() =~= bytes@.skip(i + 1));
        }
    }
    proof {
        assert(bytes@.skip(n as int) =~= Seq::<u8>::empty());
        assert(out@ =~= spec_hex(bytes@));
    }
    out
}

} // verus!
