//! Dossier records and their canonical serialization.
//!
//! Signatures cover the byte serialization of a record, so that encoding
//! must be deterministic: equal content always yields the same bytes, and
//! different content never collides. Both properties are proved here; the
//! second rests on the length-prefixed layout of the encoding primitives.

use vstd::prelude::*;

use vstd::seq_lib::lemma_concat_associative;

use crate::encode::{
    enc_list, enc_list_items, enc_opt, enc_str, fits_len, lemma_enc_list_items_push,
    lemma_enc_list_prefix, lemma_enc_opt_prefix, lemma_enc_str_prefix, le64, push_le64,
    push_str_enc,
};

verus! {

/// A dossier record, with the storage identifier and every content field
/// the attestation covers, as plain values.
#[derive(Debug, Clone)]
pub struct PersonRecord {
    pub id: String,
    pub name: String,
    pub surname: String,
    pub patronymic: String,
    pub birthday: String,
    pub city: String,
    pub intented_address: String,
    pub summary: String,
    pub past: String,
    pub traits_good: String,
    pub traits_bad: String,
    pub avatar: Option<String>,
    pub media: Vec<String>,
    pub author: String,
}

/// A search request over person records. The matching itself is done by
/// the external storage backend; the core only carries the query.
#[derive(Debug, Clone)]
pub struct SearchPersonRecord {
    pub search_query: String,
}

/// The mathematical content of a record.
pub struct RecordView {
    pub id: Seq<char>,
    pub name: Seq<char>,
    pub surname: Seq<char>,
    pub patronymic: Seq<char>,
    pub birthday: Seq<char>,
    pub city: Seq<char>,
    pub intented_address: Seq<char>,
    pub summary: Seq<char>,
    pub past: Seq<char>,
    pub traits_good: Seq<char>,
    pub traits_bad: Seq<char>,
    pub avatar: Option<Seq<char>>,
    pub media: Seq<Seq<char>>,
    pub author: Seq<char>,
}

impl View for PersonRecord {
    type V = RecordView;

    open spec fn view(&self) -> RecordView {
        RecordView {
            id: self.id@,
            name: self.name@,
            surname: self.surname@,
            patronymic: self.patronymic@,
            birthday: self.birthday@,
            city: self.city@,
            intented_address: self.intented_address@,
            summary: self.summary@,
            past: self.past@,
            traits_good: self.traits_good@,
            traits_bad: self.traits_bad@,
            avatar: self.avatar.deep_view(),
            media: self.media.deep_view(),
            author: self.author@,
        }
    }
}

/// Every field length fits the encoding's 64-bit length prefixes. Views
/// of in-memory records always satisfy this; `canonical_bytes` certifies
/// it for its argument.
pub open spec fn bounded(r: RecordView) -> bool {
    &&& fits_len(r.id.len())
    &&& fits_len(r.name.len())
    &&& fits_len(r.surname.len())
    &&& fits_len(r.patronymic.len())
    &&& fits_len(r.birthday.len())
    &&& fits_len(r.city.len())
    &&& fits_len(r.intented_address.len())
    &&& fits_len(r.summary.len())
    &&& fits_len(r.past.len())
    &&& fits_len(r.traits_good.len())
    &&& fits_len(r.traits_bad.len())
    &&& (r.avatar matches Some(a) ==> fits_len(a.len()))
    &&& fits_len(r.media.len())
    &&& (forall|i: int| 0 <= i < r.media.len() ==> fits_len(#[trigger] r.media[i].len()))
    &&& fits_len(r.author.len())
}

/// The canonical encoding from the record's name onward.
pub open spec fn tail_name(r: RecordView) -> Seq<u8> {
    enc_str(r.name) + tail_surname(r)
}

pub open spec fn tail_surname(r: RecordView) -> Seq<u8> {
    enc_str(r.surname) + tail_patronymic(r)
}

pub open spec fn tail_patronymic(r: RecordView) -> Seq<u8> {
    enc_str(r.patronymic) + tail_birthday(r)
}

pub open spec fn tail_birthday(r: RecordView) -> Seq<u8> {
    enc_str(r.birthday) + tail_city(r)
}

pub open spec fn tail_city(r: RecordView) -> Seq<u8> {
    enc_str(r.city) + tail_intented_address(r)
}

pub open spec fn tail_intented_address(r: RecordView) -> Seq<u8> {
    enc_str(r.intented_address) + tail_summary(r)
}

pub open spec fn tail_summary(r: RecordView) -> Seq<u8> {
    enc_str(r.summary) + tail_past(r)
}

pub open spec fn tail_past(r: RecordView) -> Seq<u8> {
    enc_str(r.past) + tail_traits_good(r)
}

pub open spec fn tail_traits_good(r: RecordView) -> Seq<u8> {
    enc_str(r.traits_good) + tail_traits_bad(r)
}

pub open spec fn tail_traits_bad(r: RecordView) -> Seq<u8> {
    enc_str(r.traits_bad) + tail_avatar(r)
}

pub open spec fn tail_avatar(r: RecordView) -> Seq<u8> {
    enc_opt(r.avatar) + tail_media(r)
}

pub open spec fn tail_media(r: RecordView) -> Seq<u8> {
    enc_list(r.media) + tail_author(r)
}

pub open spec fn tail_author(r: RecordView) -> Seq<u8> {
    enc_str(r.author)
}

/// The canonical byte serialization of a record: every field in a fixed
/// order, each length-prefixed. Equal content gives equal bytes by
/// construction; `lemma_canonical_injective` gives the converse.
pub open spec fn spec_canonical(r: RecordView) -> Seq<u8> {
    enc_str(r.id) + tail_name(r)
}

/// Two records with the same canonical bytes have the same content.
pub proof fn lemma_canonical_injective(a: RecordView, b: RecordView)
    requires
        bounded(a),
        bounded(b),
        spec_canonical(a) == spec_canonical(b),
    ensures
        a == b,
{
    lemma_enc_str_prefix(a.id, tail_name(a), b.id, tail_name(b));
    lemma_enc_str_prefix(a.name, tail_surname(a), b.name, tail_surname(b));
    lemma_enc_str_prefix(a.surname, tail_patronymic(a), b.surname, tail_patronymic(b));
    lemma_enc_str_prefix(a.patronymic, tail_birthday(a), b.patronymic, tail_birthday(b));
    lemma_enc_str_prefix(a.birthday, tail_city(a), b.birthday, tail_city(b));
    lemma_enc_str_prefix(a.city, tail_intented_address(a), b.city, tail_intented_address(b));
    lemma_enc_str_prefix(
        a.intented_address,
        tail_summary(a),
        b.intented_address,
        tail_summary(b),
    );
    lemma_enc_str_prefix(a.summary, tail_past(a), b.summary, tail_past(b));
    lemma_enc_str_prefix(a.past, tail_traits_good(a), b.past, tail_traits_good(b));
    lemma_enc_str_prefix(a.traits_good, tail_traits_bad(a), b.traits_good, tail_traits_bad(b));
    lemma_enc_str_prefix(a.traits_bad, tail_avatar(a), b.traits_bad, tail_avatar(b));
    lemma_enc_opt_prefix(a.avatar, tail_media(a), b.avatar, tail_media(b));
    lemma_enc_list_prefix(a.media, tail_author(a), b.media, tail_author(b));
    assert(enc_str(a.author) + Seq::<u8>::empty() =~= tail_author(a));
    assert(enc_str(b.author) + Seq::<u8>::empty() =~= tail_author(b));
    lemma_enc_str_prefix(a.author, Seq::empty(), b.author, Seq::empty());
}

/// Records that differ in any field have different canonical bytes:
/// editing a record after it was signed always changes what the
/// signature covered.
pub proof fn lemma_canonical_separates(a: RecordView, b: RecordView)
    requires
        bounded(a),
        bounded(b),
        a != b,
    ensures
        spec_canonical(a) != spec_canonical(b),
{
    if spec_canonical(a) == spec_canonical(b) {
        lemma_canonical_injective(a, b);
    }
}

/// The canonical bytes, written out flat in field order, starting from
/// an empty buffer.
proof fn lemma_canonical_unrolled(r: RecordView)
    ensures
        spec_canonical(r) == Seq::<u8>::empty() + enc_str(r.id) + enc_str(r.name) + enc_str(
            r.surname,
        ) + enc_str(r.patronymic) + enc_str(r.birthday) + enc_str(r.city) + enc_str(
            r.intented_address,
        ) + enc_str(r.summary) + enc_str(r.past) + enc_str(r.traits_good) + enc_str(
            r.traits_bad,
        ) + enc_opt(r.avatar) + enc_list(r.media) + enc_str(r.author),
{
    let up_to_id = Seq::<u8>::empty() + enc_str(r.id);
    assert(up_to_id =~= enc_str(r.id));
    assert(up_to_id + tail_name(r) == enc_str(r.id) + tail_name(r));
    let up_to_name = up_to_id + enc_str(r.name);
    lemma_concat_associative(up_to_id, enc_str(r.name), tail_surname(r));
    let up_to_surname = up_to_name + enc_str(r.surname);
    lemma_concat_associative(up_to_name, enc_str(r.surname), tail_patronymic(r));
    let up_to_patronymic = up_to_surname + enc_str(r.patronymic);
    lemma_concat_associative(up_to_surname, enc_str(r.patronymic), tail_birthday(r));
    let up_to_birthday = up_to_patronymic + enc_str(r.birthday);
    lemma_concat_associative(up_to_patronymic, enc_str(r.birthday), tail_city(r));
    let up_to_city = up_to_birthday + enc_str(r.city);
    lemma_concat_associative(up_to_birthday, enc_str(r.city), tail_intented_address(r));
    let up_to_address = up_to_city + enc_str(r.intented_address);
    lemma_concat_associative(up_to_city, enc_str(r.intented_address), tail_summary(r));
    let up_to_summary = up_to_address + enc_str(r.summary);
    lemma_concat_associative(up_to_address, enc_str(r.summary), tail_past(r));
    let up_to_past = up_to_summary + enc_str(r.past);
    lemma_concat_associative(up_to_summary, enc_str(r.past), tail_traits_good(r));
    let up_to_traits_good = up_to_past + enc_str(r.traits_good);
    lemma_concat_associative(up_to_past, enc_str(r.traits_good), tail_traits_bad(r));
    let up_to_traits_bad = up_to_traits_good + enc_str(r.traits_bad);
    lemma_concat_associative(up_to_traits_good, enc_str(r.traits_bad), tail_avatar(r));
    let up_to_avatar = up_to_traits_bad + enc_opt(r.avatar);
    lemma_concat_associative(up_to_traits_bad, enc_opt(r.avatar), tail_media(r));
    let up_to_media = up_to_avatar + enc_list(r.media);
    lemma_concat_associative(up_to_avatar, enc_list(r.media), tail_author(r));
    assert(up_to_media + tail_author(r) == up_to_media + enc_str(r.author));
}

/// Serialize a record to its canonical bytes.
#[verifier::rlimit(100)]
pub fn canonical_bytes(record: &PersonRecord) -> (r: Vec<u8>)
    ensures
        r@ == spec_canonical(record@),
        bounded(record@),
{
    let ghost v = record@;
    let mut out: Vec<u8> = Vec::new();
    push_str_enc(&mut out, record.id.as_str());
    push_str_enc(&mut out, record.name.as_str());
    push_str_enc(&mut out, record.surname.as_str());
    push_str_enc(&mut out, record.patronymic.as_str());
    push_str_enc(&mut out, record.birthday.as_str());
    push_str_enc(&mut out, record.city.as_str());
    push_str_enc(&mut out, record.intented_address.as_str());
    push_str_enc(&mut out, record.summary.as_str());
    push_str_enc(&mut out, record.past.as_str());
    push_str_enc(&mut out, record.traits_good.as_str());
    push_str_enc(&mut out, record.traits_bad.as_str());
    let ghost flat_strs = out@;
    match &record.avatar {
        None => {
            out.push(0u8);
            proof {
                assert(v.avatar is None);
                assert(out@ =~= flat_strs + enc_opt(v.avatar));
            }
        },
        Some(av) => {
            out.push(1u8);
            push_str_enc(&mut out, av.as_str());
            proof {
                assert(v.avatar == Some(av@));
                assert(out@ =~= flat_strs + enc_opt(v.avatar));
            }
        },
    }
    let ghost with_avatar = out@;
    let media_count = record.media.len();
    push_le64(&mut out, media_count as u64);
    let ghost after_count = out@;
    proof {
        assert(v.media.take(0) =~= Seq::<Seq<char>>::empty());
        assert(after_count + enc_list_items(v.media.take(0)) =~= after_count);
    }
    for i in 0..media_count
        invariant
            media_count == record.media.len(),
            v == record@,
            after_count == with_avatar + le64(v.media.len() as u64),
            with_avatar == flat_strs + enc_opt(v.avatar),
            out@ == after_count + enc_list_items(v.media.take(i as int)),
            forall|j: int| 0 <= j < i ==> fits_len(#[trigger] v.media[j].len()),
    {
        push_str_enc(&mut out, record.media[i].as_str());
        proof {
            assert(v.media[i as int] == record.media@[i as int]@);
            assert(v.media.take(i + 1) =~= v.media.take(i as int).push(v.media[i as int]));
            lemma_enc_list_items_push(v.media.take(i as int), v.media[i as int]);
        }
    }
    proof {
        assert(v.media.take(media_count as int) =~= v.media);
        assert(out@ =~= with_avatar + enc_list(v.media));
    }
    let ghost with_media = out@;
    push_str_enc(&mut out, record.author.as_str());
    proof {
        lemma_canonical_unrolled(v);
        assert(out@ == Seq::<u8>::empty() + enc_str(v.id) + enc_str(v.name) + enc_str(
            v.surname,
        ) + enc_str(v.patronymic) + enc_str(v.birthday) + enc_str(v.city) + enc_str(
            v.intented_address,
        ) + enc_str(v.summary) + enc_str(v.past) + enc_str(v.traits_good) + enc_str(
            v.traits_bad,
        ) + enc_opt(v.avatar) + enc_list(v.media) + enc_str(v.author));
        assert(bounded(v));
    }
    out
}

} // verus!
