//! Content-addressed object store logic.
//!
//! Uploads are hashed incrementally while the caller streams chunks in; the
//! finished object is named by the hex digest of its bytes plus an extension
//! derived from the declared media type. The store directory is modelled as
//! the list of file names it holds: names are write-once, and finalizing a
//! name that already exists is a no-op, which is what makes two concurrent
//! identical uploads safe.

use vstd::prelude::*;

use crate::digest::{absorbed, sha256_of, spec_hex, Sha256Acc};
use crate::digest::{hex_encode, lemma_spec_hex_len};
use crate::strutil::{spec_has_prefix, str_eq, str_has_prefix, str_has_suffix};

verus! {

/// Ceiling on the total size of one uploaded object, in bytes (50 MiB).
pub const MAX_FILE_SIZE: usize = 50 * 1024 * 1024;

/// The file extension chosen for a declared media type: a fixed allowlist
/// of image types, anything else falling back to a generic binary tag.
pub open spec fn spec_extension_for(media_type: Seq<char>) -> Seq<char> {
    if media_type == "image/jpeg"@ {
        "jpg"@
    } else if media_type == "image/png"@ {
        "png"@
    } else if media_type == "image/gif"@ {
        "gif"@
    } else if media_type == "image/webp"@ {
        "webp"@
    } else if media_type == "image/svg+xml"@ {
        "svg"@
    } else {
        "bin"@
    }
}

/// Map a declared media type to the extension its stored file gets.
pub fn get_file_extension(content_type: &str) -> (r: &'static str)
    ensures
        r@ == spec_extension_for(content_type@),
{
    if str_eq(content_type, "image/jpeg") {
        "jpg"
    } else if str_eq(content_type, "image/png") {
        "png"
    } else if str_eq(content_type, "image/gif") {
        "gif"
    } else if str_eq(content_type, "image/webp") {
        "webp"
    } else if str_eq(content_type, "image/svg+xml") {
        "svg"
    } else {
        "bin"
    }
}

/// The media type reported for a stored file name, from its extension.
pub open spec fn spec_content_type_for(filename: Seq<char>) -> Seq<char> {
    if crate::strutil::spec_has_suffix(filename, ".jpg"@) || crate::strutil::spec_has_suffix(
        filename,
        ".jpeg"@,
    ) {
        "image/jpeg"@
    } else if crate::strutil::spec_has_suffix(filename, ".png"@) {
        "image/png"@
    } else if crate::strutil::spec_has_suffix(filename, ".gif"@) {
        "image/gif"@
    } else if crate::strutil::spec_has_suffix(filename, ".webp"@) {
        "image/webp"@
    } else if crate::strutil::spec_has_suffix(filename, ".svg"@) {
        "image/svg+xml"@
    } else {
        "application/octet-stream"@
    }
}

/// Map a stored file name back to the media type served for it.
pub fn get_content_type(filename: &str) -> (r: &'static str)
    ensures
        r@ == spec_content_type_for(filename@),
{
    if str_has_suffix(filename, ".jpg") || str_has_suffix(filename, ".jpeg") {
        "image/jpeg"
    } else if str_has_suffix(filename, ".png") {
        "image/png"
    } else if str_has_suffix(filename, ".gif") {
        "image/gif"
    } else if str_has_suffix(filename, ".webp") {
        "image/webp"
    } else if str_has_suffix(filename, ".svg") {
        "image/svg+xml"
    } else {
        "application/octet-stream"
    }
}

/// One in-flight upload: a running digest over the bytes seen so far,
/// their count, and the extension chosen from the declared media type.
pub struct UploadSession {
    pub acc: Sha256Acc,
    pub total: usize,
    pub ext: String,
}

impl UploadSession {
    /// The bytes streamed into this session so far.
    pub open spec fn content(self) -> Seq<u8> {
        absorbed(self.acc)
    }

    /// The extension the finished object will carry.
    pub open spec fn extension(self) -> Seq<char> {
        self.ext@
    }

    /// The byte counter tracks the digest and stays under the size ceiling.
    pub open spec fn wf(self) -> bool {
        &&& self.total == self.content().len()
        &&& self.total <= MAX_FILE_SIZE
    }

    /// Open a session for an upload with the given declared media type.
    pub fn start(media_type: &str) -> (r: UploadSession)
        ensures
            r.wf(),
            r.content() == Seq::<u8>::empty(),
            r.extension() == spec_extension_for(media_type@),
    {
        let ext_str = get_file_extension(media_type);
        UploadSession { acc: Sha256Acc::new(), total: 0, ext: String::from_str(ext_str) }
    }

    /// Feed one chunk. Returns true if the chunk was absorbed; false if it
    /// would push the upload over the size ceiling, in which case nothing
    /// was absorbed and the caller must abort the upload.
    pub fn ingest(&mut self, chunk: &[u8]) -> (r: bool)
        requires
            old(self).wf(),
        ensures
            final(self).wf(),
            final(self).extension() == old(self).extension(),
            r <==> old(self).content().len() + chunk@.len() <= MAX_FILE_SIZE,
            r ==> final(self).content() == old(self).content() + chunk@,
            !r ==> final(self).content() == old(self).content(),
    {
        if chunk.len() <= MAX_FILE_SIZE - self.total {
            self.acc.update(chunk);
            self.total = self.total + chunk.len();
            true
        } else {
            false
        }
    }

    /// Close the session: the hex digest naming the object, and the file
    /// name it is stored under (digest, dot, extension).
    pub fn finish(self) -> (r: (String, String))
        requires
            self.wf(),
        ensures
            r.0@ == spec_hex(sha256_of(self.content())),
            r.0@.len() == 64,
            r.1@ == spec_hex(sha256_of(self.content())) + "."@ + self.extension(),
    {
        let ext = self.ext;
        let digest_bytes = self.acc.finalize();
        proof {
            lemma_spec_hex_len(digest_bytes@);
        }
        let hash_hex = hex_encode(digest_bytes.as_slice());
        let mut filename = hash_hex.clone();
        filename.append(".");
        filename.append(ext.as_str());
        (hash_hex, filename)
    }
}

/// How many times a name occurs in a list of names.
pub open spec fn name_count(names: Seq<Seq<char>>, n: Seq<char>) -> nat
    decreases names.len(),
{
    if names.len() == 0 {
        0
    } else {
        (if names.first() == n {
            1nat
        } else {
            0nat
        }) + name_count(names.drop_first(), n)
    }
}

/// A name occurs zero times exactly when no entry equals it.
pub proof fn lemma_name_count_zero(names: Seq<Seq<char>>, n: Seq<char>)
    ensures
        name_count(names, n) == 0 <==> (forall|i: int| 0 <= i < names.len() ==> names[i] != n),
    decreases names.len(),
{
    if names.len() > 0 {
        lemma_name_count_zero(names.drop_first(), n);
        assert(forall|i: int|
            1 <= i < names.len() ==> names[i] == #[trigger] names.drop_first()[i - 1]);
        if name_count(names, n) == 0 {
            assert forall|i: int| 0 <= i < names.len() implies names[i] != n by {
                if i == 0 {
                    assert(names.first() != n);
                } else {
                    assert(names.drop_first()[i - 1] != n);
                }
            }
        } else {
            if names.first() != n {
                let k = choose|i: int|
                    0 <= i < names.drop_first().len() && names.drop_first()[i] == n;
                assert(names[k + 1] == n);
            }
        }
    }
}

/// Model of the store directory: the file names it holds, oldest first.
/// Files are only ever created, never replaced, and no name repeats.
pub struct StoreDir {
    pub names: Vec<String>,
}

impl StoreDir {
    /// The names held, as sequences of characters.
    pub open spec fn view_names(self) -> Seq<Seq<char>> {
        self.names@.map_values(|s: String| s@)
    }

    /// No two entries share a name.
    pub open spec fn wf(self) -> bool {
        forall|i: int, j: int|
            #![trigger self.view_names()[i], self.view_names()[j]]
            0 <= i < j < self.view_names().len() ==> self.view_names()[i]
                != self.view_names()[j]
    }

    /// The directory holds an entry with this exact name.
    pub open spec fn holds(self, n: Seq<char>) -> bool {
        exists|i: int| 0 <= i < self.view_names().len() && self.view_names()[i] == n
    }

    /// An empty directory.
    pub fn new() -> (r: StoreDir)
        ensures
            r.wf(),
            r.view_names() == Seq::<Seq<char>>::empty(),
    {
        let r = StoreDir { names: Vec::new() };
        proof {
            assert(r.view_names() =~= Seq::<Seq<char>>::empty());
        }
        r
    }

    /// Is a file with this exact name already stored?
    pub fn has_name(&self, name: &str) -> (r: bool)
        ensures
            r == self.holds(name@),
    {
        let n = self.names.len();
        for i in 0..n
            invariant
                n == self.names.len(),
                forall|j: int| 0 <= j < i ==> self.view_names()[j] != name@,
        {
            proof {
                assert(self.view_names()[i as int] == self.names@[i as int]@);
            }
            if str_eq(self.names[i].as_str(), name) {
                return true;
            }
        }
        false
    }

    /// Finalize an upload under `name`: create the entry if no file with
    /// that name exists, and otherwise leave the directory untouched, so
    /// that identical content is stored exactly once. Returns whether a new
    /// entry was created.
    pub fn finalize(&mut self, name: &String) -> (added: bool)
        requires
            old(self).wf(),
        ensures
            final(self).wf(),
            final(self).holds(name@),
            added <==> !old(self).holds(name@),
            added ==> final(self).view_names() == old(self).view_names().push(name@),
            !added ==> final(self).view_names() == old(self).view_names(),
    {
        if self.has_name(name.as_str()) {
            false
        } else {
            let ghost pre = self.view_names();
            self.names.push(name.clone());
            proof {
                assert(self.view_names() =~= pre.push(name@));
                assert(self.view_names()[pre.len() as int] == name@);
                assert forall|i: int, j: int|
                    #![trigger self.view_names()[i], self.view_names()[j]]
                    0 <= i < j < self.view_names().len() implies self.view_names()[i]
                    != self.view_names()[j] by {
                    if j < pre.len() {
                        assert(old(self).view_names()[i] != old(self).view_names()[j]);
                    } else {
                        assert(self.view_names()[i] == pre[i]);
                    }
                }
            }
            true
        }
    }

    /// Look an object up by a prefix of its name: the first stored name
    /// that starts with `prefix`, if any.
    pub fn find_prefix(&self, prefix: &str) -> (r: Option<String>)
        ensures
            match r {
                Some(name) => self.holds(name@) && spec_has_prefix(name@, prefix@),
                None => forall|i: int|
                    0 <= i < self.view_names().len() ==> !spec_has_prefix(
                        #[trigger] self.view_names()[i],
                        prefix@,
                    ),
            },
    {
        let n = self.names.len();
        for i in 0..n
            invariant
                n == self.names.len(),
                forall|j: int|
                    0 <= j < i ==> !spec_has_prefix(#[trigger] self.view_names()[j], prefix@),
        {
            proof {
                assert(self.view_names()[i as int] == self.names@[i as int]@);
            }
            if str_has_prefix(self.names[i].as_str(), prefix) {
                return Some(self.names[i].clone());
            }
        }
        None
    }

    /// A name the directory holds is held by exactly one entry: however
    /// many times uploads of the same content were finalized, one file
    /// stands for all of them.
    pub proof fn lemma_stored_once(self, n: Seq<char>)
        requires
            self.wf(),
            self.holds(n),
        ensures
            name_count(self.view_names(), n) == 1,
    {
        Self::lemma_distinct_count(self.view_names(), n);
    }

    /// In a list of pairwise distinct names, a present name counts once.
    proof fn lemma_distinct_count(names: Seq<Seq<char>>, n: Seq<char>)
        requires
            forall|i: int, j: int|
                #![trigger names[i], names[j]]
                0 <= i < j < names.len() ==> names[i] != names[j],
            exists|i: int| 0 <= i < names.len() && names[i] == n,
        ensures
            name_count(names, n) == 1,
        decreases names.len(),
    {
        assert(forall|i: int|
            1 <= i < names.len() ==> names[i] == #[trigger] names.drop_first()[i - 1]);
        if names.first() == n {
            lemma_name_count_zero(names.drop_first(), n);
        } else {
            let k = choose|i: int| 0 <= i < names.len() && names[i] == n;
            assert(names.drop_first()[k - 1] == n);
            Self::lemma_distinct_count(names.drop_first(), n);
        }
    }
}

/// Two uploads of the same bytes are stored under the same object name:
/// the digest, and with one media type the file name, depend on the bytes
/// alone.
pub proof fn lemma_upload_deterministic(a: UploadSession, b: UploadSession)
    requires
        a.content() == b.content(),
        a.extension() == b.extension(),
    ensures
        spec_hex(sha256_of(a.content())) == spec_hex(sha256_of(b.content())),
        spec_hex(sha256_of(a.content())) + "."@ + a.extension() == spec_hex(
            sha256_of(b.content()),
        ) + "."@ + b.extension(),
{
}

} // verus!
