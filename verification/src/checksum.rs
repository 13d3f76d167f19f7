//! The MD5 checksum and byte count that a hosted upload declares up front.

use vstd::prelude::*;


verus! {

/// Lower-case hexadecimal digit for `d < 16`.
pub open spec fn hex_digit(d: nat) -> char {
    if d < 10 {
        ((d + 48) as u32) as char
    } else {
        ((d + 87) as u32) as char
    }
}

/// An MD5 hasher (`md5::Md5`), held opaquely.
#[verifier::external_body]
pub struct Md5Hasher {
    inner: md5::Md5,
}

/// The bytes an MD5 hasher has consumed so far.
pub uninterp spec fn md5_input(hasher: Md5Hasher) -> Seq<u8>;

/// The MD5 digest of a byte sequence (RFC 1321), as `md5::Md5` computes it.
pub uninterp spec fn md5_digest(data: Seq<u8>) -> Seq<u8>;

/// Lower-case hexadecimal text of bytes, two digits per byte, high nibble
/// first, as `hex::encode` writes it.
pub open spec fn hex_text(bytes: Seq<u8>) -> Seq<char>
    decreases bytes.len(),
{
    if bytes.len() == 0 {
        Seq::empty()
    } else {
        let b = bytes.last();
        hex_text(bytes.drop_last()) + seq![hex_digit((b / 16) as nat), hex_digit((b % 16) as nat)]
    }
}

/// `md5::Md5::new` (through `digest::Digest`): a hasher that has consumed
/// nothing.
#[verifier::external_body]
fn md5_new() -> (r: Md5Hasher)
    ensures
        md5_input(r) == Seq::<u8>::empty(),
{
    Md5Hasher { inner: <md5::Md5 as md5::Digest>::new() }
}

/// `md5::Md5::update` (through `digest::Digest`): the hasher consumes `data`
/// after what it consumed before.
#[verifier::external_body]
fn md5_update(hasher: &mut Md5Hasher, data: &[u8])
    ensures
        md5_input(*final(hasher)) == md5_input(*old(hasher)) + data@,
{
    md5::Digest::update(&mut hasher.inner, data)
}

/// `md5::Md5::finalize` (through `digest::Digest`): the 16-byte digest of
/// everything consumed.
#[verifier::external_body]
fn md5_finalize(hasher: Md5Hasher) -> (r: [u8; 16])
    ensures
        r@ == md5_digest(md5_input(hasher)),
{
    md5::Digest::finalize(hasher.inner).into()
}

/// `hex::encode`: lower-case hexadecimal text of the bytes.
#[verifier::external_body]
fn hex_encode(data: &[u8]) -> (r: String)
    ensures
        r@ == hex_text(data@),
{
    hex::encode(data)
}

/// A running MD5 checksum and byte count over the chunks of a file.
pub struct Checksum {
    hasher: Md5Hasher,
    size: u64,
}

impl Checksum {
    /// The bytes consumed so far.
    pub closed spec fn input(&self) -> Seq<u8> {
        md5_input(self.hasher)
    }

    /// The byte count matches the bytes consumed.
    pub closed spec fn wf(&self) -> bool {
        self.size == md5_input(self.hasher).len()
    }

    /// A checksum over no bytes.
    pub fn new() -> (r: Self)
        ensures
            r.wf(),
            r.input() == Seq::<u8>::empty(),
    {
        Checksum { hasher: md5_new(), size: 0 }
    }

    /// The number of bytes consumed so far.
    pub fn size(&self) -> (r: u64)
        requires
            self.wf(),
        ensures
            r == self.input().len(),
    {
        self.size
    }

    /// Consumes the next chunk of the file.
    pub fn update(&mut self, chunk: &[u8])
        requires
            old(self).wf(),
            old(self).input().len() + chunk@.len() <= u64::MAX,
        ensures
            final(self).wf(),
            final(self).input() == old(self).input() + chunk@,
    {
        md5_update(&mut self.hasher, chunk);
        self.size = self.size + chunk.len() as u64;
    }

    /// The lower-case hexadecimal MD5 of everything consumed, and its length in
    /// bytes.
    pub fn finish(self) -> (r: (String, u64))
        requires
            self.wf(),
        ensures
            r.0@ == hex_text(md5_digest(self.input())),
            r.1 == self.input().len(),
    {
        let size = self.size;
        let digest = md5_finalize(self.hasher);
        (hex_encode(digest.as_slice()), size)
    }
}

/// Hex text has two digits per byte.
pub proof fn lemma_hex_text_len(bytes: Seq<u8>)
    ensures
        hex_text(bytes).len() == 2 * bytes.len(),
    decreases bytes.len(),
{
    if bytes.len() > 0 {
        lemma_hex_text_len(bytes.drop_last());
    }
}

} // verus!
