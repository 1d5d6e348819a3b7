//! Canonical encoding primitives.
//!
//! Record fields are laid out as length-prefixed units: a 64-bit
//! little-endian length, then each character as its 32-bit scalar value.
//! The length prefixes make decoding unambiguous, which is what the
//! injectivity lemmas here establish: equal encodings force equal values.

use vstd::prelude::*;

verus! {

/// Lengths the 64-bit prefix can carry exactly.
pub open spec fn fits_len(n: nat) -> bool {
    n < 0x10000000000000000
}

/// Little-endian bytes of a 32-bit value.
pub open spec fn le32(v: u32) -> Seq<u8> {
    seq![
        (v & 0xff) as u8,
        ((v >> 8) & 0xff) as u8,
        ((v >> 16) & 0xff) as u8,
        ((v >> 24) & 0xff) as u8,
    ]
}

/// Little-endian bytes of a 64-bit value.
pub open spec fn le64(v: u64) -> Seq<u8> {
    seq![
        (v & 0xff) as u8,
        ((v >> 8) & 0xff) as u8,
        ((v >> 16) & 0xff) as u8,
        ((v >> 24) & 0xff) as u8,
        ((v >> 32) & 0xff) as u8,
        ((v >> 40) & 0xff) as u8,
        ((v >> 48) & 0xff) as u8,
        ((v >> 56) & 0xff) as u8,
    ]
}

/// The four bytes of `le32` determine the value.
pub proof fn lemma_le32_inj(a: u32, b: u32)
    requires
        le32(a) == le32(b),
    ensures
        a == b,
{
    assert(le32(a)[0] == le32(b)[0]);
    assert(le32(a)[1] == le32(b)[1]);
    assert(le32(a)[2] == le32(b)[2]);
    assert(le32(a)[3] == le32(b)[3]);
    assert((((a & 0xff) as u8) == ((b & 0xff) as u8) && (((a >> 8) & 0xff) as u8) == (((b >> 8)
        & 0xff) as u8) && (((a >> 16) & 0xff) as u8) == (((b >> 16) & 0xff) as u8) && (((a >> 24)
        & 0xff) as u8) == (((b >> 24) & 0xff) as u8)) ==> a == b) by (bit_vector);
}

/// The eight bytes of `le64` determine the value.
pub proof fn lemma_le64_inj(a: u64, b: u64)
    requires
        le64(a) == le64(b),
    ensures
        a == b,
{
    assert(le64(a)[0] == le64(b)[0]);
    assert(le64(a)[1] == le64(b)[1]);
    assert(le64(a)[2] == le64(b)[2]);
    assert(le64(a)[3] == le64(b)[3]);
    assert(le64(a)[4] == le64(b)[4]);
    assert(le64(a)[5] == le64(b)[5]);
    assert(le64(a)[6] == le64(b)[6]);
    assert(le64(a)[7] == le64(b)[7]);
    assert((((a & 0xff) as u8) == ((b & 0xff) as u8) && (((a >> 8) & 0xff) as u8) == (((b >> 8)
        & 0xff) as u8) && (((a >> 16) & 0xff) as u8) == (((b >> 16) & 0xff) as u8) && (((a >> 24)
        & 0xff) as u8) == (((b >> 24) & 0xff) as u8) && (((a >> 32) & 0xff) as u8) == (((b >> 32)
        & 0xff) as u8) && (((a >> 40) & 0xff) as u8) == (((b >> 40) & 0xff) as u8) && (((a >> 48)
        & 0xff) as u8) == (((b >> 48) & 0xff) as u8) && (((a >> 56) & 0xff) as u8) == (((b >> 56)
        & 0xff) as u8)) ==> a == b) by (bit_vector);
}

/// Each character as its 32-bit scalar value, four bytes apiece.
pub open spec fn chars_bytes(s: Seq<char>) -> Seq<u8>
    decreases s.len(),
{
    if s.len() == 0 {
        Seq::empty()
    } else {
        le32(s.first() as u32) + chars_bytes(s.drop_first())
    }
}

/// Character bytes take four bytes per character.
pub proof fn lemma_chars_bytes_len(s: Seq<char>)
    ensures
        chars_bytes(s).len() == 4 * s.len(),
    decreases s.len(),
{
    if s.len() > 0 {
        lemma_chars_bytes_len(s.drop_first());
    }
}

/// Appending a character appends its four bytes.
pub proof fn lemma_chars_bytes_push(s: Seq<char>, c: char)
    ensures
        chars_bytes(s.push(c)) == chars_bytes(s) + le32(c as u32),
    decreases s.len(),
{
    if s.len() == 0 {
        assert(s.push(c).len() == 1);
        assert(s.push(c).first() == c);
        assert(s.push(c).drop_first() =~= Seq::<char>::empty());
        assert(chars_bytes(Seq::<char>::empty()) =~= Seq::<u8>::empty());
        assert(chars_bytes(s) =~= Seq::<u8>::empty());
        assert(chars_bytes(s.push(c)) =~= le32(c as u32) + chars_bytes(Seq::<char>::empty()));
        assert(chars_bytes(s.push(c)) =~= chars_bytes(s) + le32(c as u32));
    } else {
        assert(s.push(c).first() == s.first());
        assert(s.push(c).drop_first() =~= s.drop_first().push(c));
        lemma_chars_bytes_push(s.drop_first(), c);
        assert(chars_bytes(s.push(c)) =~= chars_bytes(s) + le32(c as u32));
    }
}

/// Split one concatenation equality at a common length.
pub proof fn lemma_concat_parts(x: Seq<u8>, xr: Seq<u8>, y: Seq<u8>, yr: Seq<u8>)
    requires
        x.len() == y.len(),
        x + xr == y + yr,
    ensures
        x == y,
        xr == yr,
{
    assert forall|i: int| 0 <= i < x.len() implies x[i] == y[i] by {
        assert((x + xr)[i] == x[i]);
        assert((y + yr)[i] == y[i]);
    }
    assert(x =~= y);
    assert((x + xr).len() == x.len() + xr.len());
    assert((y + yr).len() == y.len() + yr.len());
    assert(xr.len() == yr.len());
    assert forall|i: int| 0 <= i < xr.len() implies xr[i] == yr[i] by {
        assert((x + xr)[x.len() as int + i] == xr[i]);
        assert((y + yr)[y.len() as int + i] == yr[i]);
    }
    assert(xr =~= yr);
}

/// Equal-length strings with equal character bytes are equal.
pub proof fn lemma_chars_bytes_inj(a: Seq<char>, b: Seq<char>)
    requires
        a.len() == b.len(),
        chars_bytes(a) == chars_bytes(b),
    ensures
        a == b,
    decreases a.len(),
{
    if a.len() == 0 {
        assert(a =~= b);
    } else {
        lemma_concat_parts(
            le32(a.first() as u32),
            chars_bytes(a.drop_first()),
            le32(b.first() as u32),
            chars_bytes(b.drop_first()),
        );
        lemma_le32_inj(a.first() as u32, b.first() as u32);
        lemma_chars_bytes_inj(a.drop_first(), b.drop_first());
        assert forall|i: int| 0 <= i < a.len() implies a[i] == b[i] by {
            if i == 0 {
                assert(a.first() as u32 == b.first() as u32);
                vstd::utf8::char_u32_cast(a.first(), a.first() as u32);
                vstd::utf8::char_u32_cast(b.first(), b.first() as u32);
                assert(a.first() == b.first());
            } else {
                assert(a.drop_first()[i - 1] == b.drop_first()[i - 1]);
            }
        }
        assert(a =~= b);
    }
}

/// A length-prefixed string.
pub open spec fn enc_str(s: Seq<char>) -> Seq<u8> {
    le64(s.len() as u64) + chars_bytes(s)
}

/// A length-prefixed string followed by anything decodes unambiguously.
pub proof fn lemma_enc_str_prefix(a: Seq<char>, ra: Seq<u8>, b: Seq<char>, rb: Seq<u8>)
    requires
        fits_len(a.len()),
        fits_len(b.len()),
        enc_str(a) + ra == enc_str(b) + rb,
    ensures
        a == b,
        ra == rb,
{
    assert(enc_str(a) + ra =~= le64(a.len() as u64) + (chars_bytes(a) + ra));
    assert(enc_str(b) + rb =~= le64(b.len() as u64) + (chars_bytes(b) + rb));
    lemma_concat_parts(
        le64(a.len() as u64),
        chars_bytes(a) + ra,
        le64(b.len() as u64),
        chars_bytes(b) + rb,
    );
    lemma_le64_inj(a.len() as u64, b.len() as u64);
    assert(a.len() == b.len());
    lemma_chars_bytes_len(a);
    lemma_chars_bytes_len(b);
    lemma_concat_parts(chars_bytes(a), ra, chars_bytes(b), rb);
    lemma_chars_bytes_inj(a, b);
}

/// An optional string: a presence tag, then the string where present.
pub open spec fn enc_opt(s: Option<Seq<char>>) -> Seq<u8> {
    match s {
        None => seq![0u8],
        Some(x) => seq![1u8] + enc_str(x),
    }
}

/// A tagged optional string followed by anything decodes unambiguously.
pub proof fn lemma_enc_opt_prefix(
    a: Option<Seq<char>>,
    ra: Seq<u8>,
    b: Option<Seq<char>>,
    rb: Seq<u8>,
)
    requires
        a matches Some(x) ==> fits_len(x.len()),
        b matches Some(y) ==> fits_len(y.len()),
        enc_opt(a) + ra == enc_opt(b) + rb,
    ensures
        a == b,
        ra == rb,
{
    match (a, b) {
        (None, None) => {
            lemma_concat_parts(seq![0u8], ra, seq![0u8], rb);
        },
        (Some(x), Some(y)) => {
            assert(enc_opt(a) + ra =~= seq![1u8] + (enc_str(x) + ra));
            assert(enc_opt(b) + rb =~= seq![1u8] + (enc_str(y) + rb));
            lemma_concat_parts(seq![1u8], enc_str(x) + ra, seq![1u8], enc_str(y) + rb);
            lemma_enc_str_prefix(x, ra, y, rb);
        },
        (None, Some(y)) => {
            assert((enc_opt(a) + ra)[0] == 0u8);
            assert((enc_opt(b) + rb)[0] == 1u8);
        },
        (Some(x), None) => {
            assert((enc_opt(a) + ra)[0] == 1u8);
            assert((enc_opt(b) + rb)[0] == 0u8);
        },
    }
}

/// The entries of a string list, back to back.
pub open spec fn enc_list_items(xs: Seq<Seq<char>>) -> Seq<u8>
    decreases xs.len(),
{
    if xs.len() == 0 {
        Seq::empty()
    } else {
        enc_str(xs.first()) + enc_list_items(xs.drop_first())
    }
}

/// A string list: a count, then each entry length-prefixed.
pub open spec fn enc_list(xs: Seq<Seq<char>>) -> Seq<u8> {
    le64(xs.len() as u64) + enc_list_items(xs)
}

/// Appending an entry appends its encoding.
pub proof fn lemma_enc_list_items_push(xs: Seq<Seq<char>>, x: Seq<char>)
    ensures
        enc_list_items(xs.push(x)) == enc_list_items(xs) + enc_str(x),
    decreases xs.len(),
{
    if xs.len() == 0 {
        assert(xs.push(x).first() == x);
        assert(xs.push(x).drop_first() =~= Seq::<Seq<char>>::empty());
        assert(enc_list_items(Seq::<Seq<char>>::empty()) =~= Seq::<u8>::empty());
        assert(enc_list_items(xs) =~= Seq::<u8>::empty());
        assert(enc_list_items(xs.push(x)) =~= enc_str(x) + enc_list_items(
            Seq::<Seq<char>>::empty(),
        ));
        assert(enc_list_items(xs.push(x)) =~= enc_list_items(xs) + enc_str(x));
    } else {
        assert(xs.push(x).first() == xs.first());
        assert(xs.push(x).drop_first() =~= xs.drop_first().push(x));
        lemma_enc_list_items_push(xs.drop_first(), x);
        assert(enc_list_items(xs.push(x)) =~= enc_list_items(xs) + enc_str(x));
    }
}

/// Equal-count lists with equal entry bytes are equal, and what follows
/// them is equal too.
pub proof fn lemma_enc_list_items_prefix(
    xs: Seq<Seq<char>>,
    ra: Seq<u8>,
    ys: Seq<Seq<char>>,
    rb: Seq<u8>,
)
    requires
        xs.len() == ys.len(),
        forall|i: int| 0 <= i < xs.len() ==> fits_len(#[trigger] xs[i].len()),
        forall|i: int| 0 <= i < ys.len() ==> fits_len(#[trigger] ys[i].len()),
        enc_list_items(xs) + ra == enc_list_items(ys) + rb,
    ensures
        xs == ys,
        ra == rb,
    decreases xs.len(),
{
    if xs.len() == 0 {
        assert(xs =~= ys);
        assert(enc_list_items(xs) + ra =~= ra);
        assert(enc_list_items(ys) + rb =~= rb);
    } else {
        assert(enc_list_items(xs) + ra =~= enc_str(xs.first()) + (enc_list_items(
            xs.drop_first(),
        ) + ra));
        assert(enc_list_items(ys) + rb =~= enc_str(ys.first()) + (enc_list_items(
            ys.drop_first(),
        ) + rb));
        assert(fits_len(xs.first().len())) by {
            assert(xs[0] == xs.first());
        }
        assert(fits_len(ys.first().len())) by {
            assert(ys[0] == ys.first());
        }
        lemma_enc_str_prefix(
            xs.first(),
            enc_list_items(xs.drop_first()) + ra,
            ys.first(),
            enc_list_items(ys.drop_first()) + rb,
        );
        assert(forall|i: int|
            0 <= i < xs.drop_first().len() ==> fits_len(
                #[trigger] xs.drop_first()[i].len(),
            )) by {
            assert(forall|i: int|
                0 <= i < xs.drop_first().len() ==> xs.drop_first()[i] == #[trigger] xs[i + 1]);
        }
        assert(forall|i: int|
            0 <= i < ys.drop_first().len() ==> fits_len(
                #[trigger] ys.drop_first()[i].len(),
            )) by {
            assert(forall|i: int|
                0 <= i < ys.drop_first().len() ==> ys.drop_first()[i] == #[trigger] ys[i + 1]);
        }
        lemma_enc_list_items_prefix(xs.drop_first(), ra, ys.drop_first(), rb);
        assert forall|i: int| 0 <= i < xs.len() implies xs[i] == ys[i] by {
            if i == 0 {
                assert(xs.first() == ys.first());
            } else {
                assert(xs.drop_first()[i - 1] == ys.drop_first()[i - 1]);
            }
        }
        assert(xs =~= ys);
    }
}

/// A counted string list followed by anything decodes unambiguously.
pub proof fn lemma_enc_list_prefix(
    xs: Seq<Seq<char>>,
    ra: Seq<u8>,
    ys: Seq<Seq<char>>,
    rb: Seq<u8>,
)
    requires
        fits_len(xs.len()),
        fits_len(ys.len()),
        forall|i: int| 0 <= i < xs.len() ==> fits_len(#[trigger] xs[i].len()),
        forall|i: int| 0 <= i < ys.len() ==> fits_len(#[trigger] ys[i].len()),
        enc_list(xs) + ra == enc_list(ys) + rb,
    ensures
        xs == ys,
        ra == rb,
{
    assert(enc_list(xs) + ra =~= le64(xs.len() as u64) + (enc_list_items(xs) + ra));
    assert(enc_list(ys) + rb =~= le64(ys.len() as u64) + (enc_list_items(ys) + rb));
    lemma_concat_parts(
        le64(xs.len() as u64),
        enc_list_items(xs) + ra,
        le64(ys.len() as u64),
        enc_list_items(ys) + rb,
    );
    lemma_le64_inj(xs.len() as u64, ys.len() as u64);
    assert(xs.len() == ys.len());
    lemma_enc_list_items_prefix(xs, ra, ys, rb);
}

/// Append the little-endian bytes of a 32-bit value.
pub fn push_le32(out: &mut Vec<u8>, v: u32)
    ensures
        final(out)@ == old(out)@ + le32(v),
{
    proof {
        assert(v & 0xff < 256 && (v >> 8) & 0xff < 256 && (v >> 16) & 0xff < 256 && (v >> 24)
            & 0xff < 256) by (bit_vector);
    }
    out.push((v & 0xff) as u8);
    out.push(((v >> 8) & 0xff) as u8);
    out.push(((v >> 16) & 0xff) as u8);
    out.push(((v >> 24) & 0xff) as u8);
    proof {
        assert(out@ =~= old(out)@ + le32(v));
    }
}

/// Append the little-endian bytes of a 64-bit value.
pub fn push_le64(out: &mut Vec<u8>, v: u64)
    ensures
        final(out)@ == old(out)@ + le64(v),
{
    proof {
        assert(v & 0xff < 256 && (v >> 8) & 0xff < 256 && (v >> 16) & 0xff < 256 && (v >> 24)
            & 0xff < 256 && (v >> 32) & 0xff < 256 && (v >> 40) & 0xff < 256 && (v >> 48) & 0xff
            < 256 && (v >> 56) & 0xff < 256) by (bit_vector);
    }
    out.push((v & 0xff) as u8);
    out.push(((v >> 8) & 0xff) as u8);
    out.push(((v >> 16) & 0xff) as u8);
    out.push(((v >> 24) & 0xff) as u8);
    out.push(((v >> 32) & 0xff) as u8);
    out.push(((v >> 40) & 0xff) as u8);
    out.push(((v >> 48) & 0xff) as u8);
    out.push(((v >> 56) & 0xff) as u8);
    proof {
        assert(out@ =~= old(out)@ + le64(v));
    }
}

/// Append one length-prefixed string field.
pub fn push_str_enc(out: &mut Vec<u8>, s: &str)
    ensures
        final(out)@ == old(out)@ + enc_str(s@),
        fits_len(s@.len()),
{
    let n = s.unicode_len();
    push_le64(out, n as u64);
    proof {
        assert(s@.take(0) =~= Seq::<char>::empty());
        assert(out@ =~= old(out)@ + le64(s@.len() as u64) + chars_bytes(s@.take(0)));
    }
    for i in 0..n
        invariant
            n == s@.len(),
            out@ == old(out)@ + le64(s@.len() as u64) + chars_bytes(s@.take(i as int)),
    {
        let c = s.get_char(i);
        push_le32(out, c as u32);
        proof {
            assert(s@.take(i + 1) =~= s@.take(i as int).push(s@[i as int]));
            lemma_chars_bytes_push(s@.take(i as int), s@[i as int]);
            assert(out@ =~= old(out)@ + le64(s@.len() as u64) + chars_bytes(s@.take(i + 1)));
        }
    }
    proof {
        assert(s@.take(n as int) =~= s@);
        assert(out@ =~= old(out)@ + enc_str(s@));
    }
}

} // verus!
