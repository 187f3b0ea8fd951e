//! Files of the graph's file system: Markdown or Org pages on disk, assets
//! (images, PDFs, ...) and configuration files.

use crate::clock::now_millis;
use crate::text::{str_ends_with, str_eq, str_starts_with};
use crate::value_objects::Uuid;
use std::hash::Hasher;
use vstd::prelude::*;

verus! {

/// Calls `Hash::hash` on a byte slice, feeding it into `hasher`. Nothing
/// is stated of the hasher's new state: std's documentation does not say
/// which writes the slice's `Hash` impl makes.
#[verifier::external_body]
fn feed_bytes(data: &[u8], hasher: &mut std::hash::DefaultHasher) {
    std::hash::Hash::hash(data, hasher)
}

/// The 8 bytes of `x`, most significant first.
pub open spec fn be_bytes(x: u64) -> Seq<u8> {
    Seq::new(8, |i: int| ((x >> ((8 * (7 - i)) as u64)) & 0xff) as u8)
}

/// The 8 bytes of `x`, most significant first (as `u64::to_be_bytes`).
fn u64_be_bytes(x: u64) -> (res: Vec<u8>)
    ensures
        res@ == be_bytes(x),
{
    let mut res: Vec<u8> = Vec::new();
    let mut i: u64 = 0;
    while i < 8
        invariant
            i <= 8,
            res@.len() == i,
            forall|j: int| 0 <= j < i ==> #[trigger] res@[j] == be_bytes(x)[j],
        decreases 8 - i,
    {
        let shift: u64 = 8 * (7 - i);
        let b: u8 = ((x >> shift) & 0xff) as u8;
        res.push(b);
        i = i + 1;
    }
    assert(res@ =~= be_bytes(x));
    res
}

/// Digests `data` with std's `DefaultHasher` (a new hasher, fed the byte
/// slice, then finished) and gives the 64-bit result as 8 big-endian bytes.
fn digest(data: &[u8]) -> (res: Vec<u8>)
    ensures
        res@.len() == 8,
        exists|h: u64| res@ == be_bytes(h),
{
    let mut hasher = std::hash::DefaultHasher::new();
    feed_bytes(data, &mut hasher);
    let h = hasher.finish();
    let res = u64_be_bytes(h);
    assert(res@ == be_bytes(h));
    res
}

/// A file of the graph. Times are milliseconds since the Unix epoch.
#[derive(Debug, Clone, PartialEq)]
pub struct File {
    id: Uuid,
    path: String,
    content: Option<String>,
    hash: Vec<u8>,
    size_bytes: i64,
    mime_type: Option<String>,
    created_at: i64,
    last_modified_at: i64,
}

/// The size in bytes of a text: the length of its UTF-8 encoding, as
/// `str::len` gives it, converted to `i64`.
pub open spec fn text_size(s: Seq<char>) -> i64 {
    (vstd::utf8::encode_utf8(s).len() as usize) as i64
}

/// Views of an optional string.
pub open spec fn opt_text(o: Option<String>) -> Option<Seq<char>> {
    match o {
        Some(s) => Some(s@),
        None => None,
    }
}

impl File {
    /// The file's identifier.
    pub closed spec fn spec_id(&self) -> Uuid {
        self.id
    }

    /// The path, relative to the graph's root.
    pub closed spec fn spec_path(&self) -> Seq<char> {
        self.path@
    }

    /// The content, for a text file.
    pub closed spec fn spec_content(&self) -> Option<Seq<char>> {
        opt_text(self.content)
    }

    /// The content digest.
    pub closed spec fn spec_hash(&self) -> Seq<u8> {
        self.hash@
    }

    /// The size in bytes.
    pub closed spec fn spec_size(&self) -> i64 {
        self.size_bytes
    }

    /// The MIME type, if known.
    pub closed spec fn spec_mime_type(&self) -> Option<Seq<char>> {
        opt_text(self.mime_type)
    }

    /// Creation time.
    pub closed spec fn spec_created_at(&self) -> i64 {
        self.created_at
    }

    /// Last modification time.
    pub closed spec fn spec_last_modified_at(&self) -> i64 {
        self.last_modified_at
    }

    /// The digest and byte size of optional text content: an empty digest
    /// and size 0 without content.
    fn compute_hash_and_size(content: &Option<String>) -> (res: (Vec<u8>, i64))
        ensures
            match content {
                Some(t) => res.0@.len() == 8 && res.1 == text_size(t@),
                None => res.0@.len() == 0 && res.1 == 0,
            },
    {
        match content {
            Some(text) => {
                let bytes = text.as_str().as_bytes();
                (digest(bytes), #[verifier::truncate] (text.as_str().len() as i64))
            },
            None => (Vec::new(), 0i64),
        }
    }

    /// A file record with the given id and time: a text file is digested
    /// and sized by its UTF-8 bytes; without content the digest is empty
    /// and the size 0.
    pub fn new_at(
        path: String,
        content: Option<String>,
        mime_type: Option<String>,
        id: Uuid,
        now: i64,
    ) -> (res: File)
        ensures
            res.spec_id() == id,
            res.spec_path() == path@,
            res.spec_content() == opt_text(content),
            res.spec_mime_type() == opt_text(mime_type),
            res.spec_created_at() == now,
            res.spec_last_modified_at() == now,
            match content {
                Some(t) => res.spec_hash().len() == 8 && res.spec_size() == text_size(t@),
                None => res.spec_hash().len() == 0 && res.spec_size() == 0,
            },
    {
        let (hash, size_bytes) = Self::compute_hash_and_size(&content);
        File {
            id,
            path,
            content,
            hash,
            size_bytes,
            mime_type,
            created_at: now,
            last_modified_at: now,
        }
    }

    /// A file record with a fresh random id, created now (see `new_at`).
    pub fn new(path: String, content: Option<String>, mime_type: Option<String>) -> (res: File)
        ensures
            res.spec_id().value != 0,
            res.spec_path() == path@,
            res.spec_content() == opt_text(content),
            res.spec_mime_type() == opt_text(mime_type),
            res.spec_created_at() == res.spec_last_modified_at(),
            match content {
                Some(t) => res.spec_hash().len() == 8 && res.spec_size() == text_size(t@),
                None => res.spec_hash().len() == 0 && res.spec_size() == 0,
            },
    {
        let now = now_millis();
        let id = Uuid::new_v4();
        Self::new_at(path, content, mime_type, id, now)
    }

    /// A record of a file given by its bytes, with the given id and time:
    /// no text content, digested and sized by `data`.
    pub fn from_bytes_at(path: String, data: Vec<u8>, mime_type: Option<String>, id: Uuid, now: i64) -> (res: File)
        ensures
            res.spec_id() == id,
            res.spec_path() == path@,
            res.spec_content() is None,
            res.spec_mime_type() == opt_text(mime_type),
            res.spec_hash().len() == 8,
            res.spec_size() == data@.len() as i64,
            res.spec_created_at() == now,
            res.spec_last_modified_at() == now,
    {
        let hash = digest(data.as_slice());
        let size_bytes = #[verifier::truncate] (data.len() as i64);
        File {
            id,
            path,
            content: None,
            hash,
            size_bytes,
            mime_type,
            created_at: now,
            last_modified_at: now,
        }
    }

    /// A record of a file given by its bytes, with a fresh random id,
    /// created now (see `from_bytes_at`).
    pub fn from_bytes(path: String, data: Vec<u8>, mime_type: Option<String>) -> (res: File)
        ensures
            res.spec_id().value != 0,
            res.spec_path() == path@,
            res.spec_content() is None,
            res.spec_mime_type() == opt_text(mime_type),
            res.spec_hash().len() == 8,
            res.spec_size() == data@.len() as i64,
            res.spec_created_at() == res.spec_last_modified_at(),
    {
        let now = now_millis();
        let id = Uuid::new_v4();
        Self::from_bytes_at(path, data, mime_type, id, now)
    }

    /// The file's identifier.
    pub fn id(&self) -> (res: Uuid)
        ensures
            res == self.spec_id(),
    {
        self.id
    }

    /// The path, relative to the graph's root.
    pub fn path(&self) -> (res: &str)
        ensures
            res@ == self.spec_path(),
    {
        self.path.as_str()
    }

    /// The content, for a text file.
    pub fn content(&self) -> (res: Option<&str>)
        ensures
            match res {
                Some(s) => self.spec_content() == Some(s@),
                None => self.spec_content() is None,
            },
    {
        match &self.content {
            Some(s) => Some(s.as_str()),
            None => None,
        }
    }

    /// The size in bytes.
    pub fn size(&self) -> (res: i64)
        ensures
            res == self.spec_size(),
    {
        self.size_bytes
    }

    /// The MIME type, if known.
    pub fn mime_type(&self) -> (res: Option<&str>)
        ensures
            match res {
                Some(s) => self.spec_mime_type() == Some(s@),
                None => self.spec_mime_type() is None,
            },
    {
        match &self.mime_type {
            Some(s) => Some(s.as_str()),
            None => None,
        }
    }

    /// Whether the MIME type starts with `prefix`.
    fn mime_starts_with(&self, prefix: &str) -> (res: bool)
        ensures
            res == (self.spec_mime_type() matches Some(m) && has_prefix(m, prefix@)),
    {
        match &self.mime_type {
            Some(m) => str_starts_with(m.as_str(), prefix),
            None => false,
        }
    }

    /// Whether this is a text file: a `text/` MIME type, or a path ending
    /// in `.md`, `.org` or `.txt`.
    pub fn is_text(&self) -> (res: bool)
        ensures
            res == ((self.spec_mime_type() matches Some(m) && has_prefix(m, "text/"@)) || has_suffix(
                self.spec_path(),
                ".md"@,
            ) || has_suffix(self.spec_path(), ".org"@) || has_suffix(self.spec_path(), ".txt"@)),
    {
        let p = self.path.as_str();
        self.mime_starts_with("text/") || str_ends_with(p, ".md") || str_ends_with(p, ".org")
            || str_ends_with(p, ".txt")
    }

    /// Whether this is an image: an `image/` MIME type, or a path ending in
    /// `.png`, `.jpg`, `.jpeg`, `.gif` or `.svg`.
    pub fn is_image(&self) -> (res: bool)
        ensures
            res == ((self.spec_mime_type() matches Some(m) && has_prefix(m, "image/"@)) || has_suffix(
                self.spec_path(),
                ".png"@,
            ) || has_suffix(self.spec_path(), ".jpg"@) || has_suffix(self.spec_path(), ".jpeg"@)
                || has_suffix(self.spec_path(), ".gif"@) || has_suffix(self.spec_path(), ".svg"@)),
    {
        let p = self.path.as_str();
        self.mime_starts_with("image/") || str_ends_with(p, ".png") || str_ends_with(p, ".jpg")
            || str_ends_with(p, ".jpeg") || str_ends_with(p, ".gif") || str_ends_with(p, ".svg")
    }

    /// Whether this is a PDF: MIME type `application/pdf`, or a path ending
    /// in `.pdf`.
    pub fn is_pdf(&self) -> (res: bool)
        ensures
            res == (self.spec_mime_type() == Some("application/pdf"@) || has_suffix(
                self.spec_path(),
                ".pdf"@,
            )),
    {
        let is_pdf_type = match &self.mime_type {
            Some(m) => str_eq(m.as_str(), "application/pdf"),
            None => false,
        };
        is_pdf_type || str_ends_with(self.path.as_str(), ".pdf")
    }

    /// Replaces the content at time `now`: the digest and the size are
    /// recomputed from it.
    pub fn update_content_at(&mut self, content: String, now: i64)
        ensures
            final(self).spec_content() == Some(content@),
            final(self).spec_hash().len() == 8,
            final(self).spec_size() == text_size(content@),
            final(self).spec_last_modified_at() == now,
            final(self).spec_id() == old(self).spec_id(),
            final(self).spec_path() == old(self).spec_path(),
            final(self).spec_mime_type() == old(self).spec_mime_type(),
            final(self).spec_created_at() == old(self).spec_created_at(),
    {
        self.hash = digest(content.as_str().as_bytes());
        self.size_bytes = #[verifier::truncate] (content.as_str().len() as i64);
        self.content = Some(content);
        self.last_modified_at = now;
    }

    /// Replaces the content, now (see `update_content_at`).
    pub fn update_content(&mut self, content: String)
        ensures
            final(self).spec_content() == Some(content@),
            final(self).spec_hash().len() == 8,
            final(self).spec_size() == text_size(content@),
            final(self).spec_id() == old(self).spec_id(),
            final(self).spec_path() == old(self).spec_path(),
            final(self).spec_mime_type() == old(self).spec_mime_type(),
            final(self).spec_created_at() == old(self).spec_created_at(),
    {
        let now = now_millis();
        self.update_content_at(content, now);
    }
}

/// Whether `p` is a prefix of `s`.
pub open spec fn has_prefix(s: Seq<char>, p: Seq<char>) -> bool {
    p.len() <= s.len() && s.subrange(0, p.len() as int) == p
}

/// Whether `p` is a suffix of `s`.
pub open spec fn has_suffix(s: Seq<char>, p: Seq<char>) -> bool {
    p.len() <= s.len() && s.subrange(s.len() - p.len(), s.len() as int) == p
}

} // verus!
