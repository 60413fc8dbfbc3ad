//! SHA-256 through the `sha2` crate, and the content check of a finished
//! download.
use vstd::prelude::*;

use sha2::Digest;
use sha2::Sha256;

use crate::errors::GitXetError;
use crate::text::{
    chars_of, eq_ignore_ascii_case, eq_ignore_ascii_case_exec, hex_lower, hex_lower_exec, lower_code,
};

verus! {

/// An incremental SHA-256 hasher: a `sha2::Sha256` held in a private
/// field; `sha256_absorbed` names the bytes it has absorbed since it was
/// made.
#[verifier::external_body]
pub struct Sha256Hasher {
    inner: Sha256,
}

/// The SHA-256 digest of `data`, as `sha2` computes it.
pub uninterp spec fn sha256_of(data: Seq<u8>) -> Seq<u8>;

/// The bytes that a `sha2::Sha256` hasher has absorbed since it was made.
pub uninterp spec fn sha256_absorbed(h: Sha256Hasher) -> Seq<u8>;

/// `<Sha256 as Digest>::new`: a hasher that has absorbed nothing.
#[verifier::external_body]
fn sha256_new() -> (h: Sha256Hasher)
    ensures
        sha256_absorbed(h) == Seq::<u8>::empty(),
{
    Sha256Hasher { inner: <Sha256 as Digest>::new() }
}

/// `<Sha256 as Digest>::update`: the hasher absorbs `data` after what it
/// absorbed before.
#[verifier::external_body]
fn sha256_update(h: &mut Sha256Hasher, data: &[u8])
    ensures
        sha256_absorbed(*final(h)) == sha256_absorbed(*old(h)) + data@,
{
    <Sha256 as Digest>::update(&mut h.inner, data)
}

/// `<Sha256 as Digest>::finalize`: the 32-byte digest of everything the
/// hasher absorbed.
#[verifier::external_body]
fn sha256_finalize(h: Sha256Hasher) -> (d: Vec<u8>)
    ensures
        d@ == sha256_of(sha256_absorbed(h)),
        d@.len() == 32,
{
    <Sha256 as Digest>::finalize(h.inner).to_vec()
}

/// The lower-case hexadecimal SHA-256 of `data`.
pub fn sha256_hex(data: &[u8]) -> (r: Vec<char>)
    ensures
        r@ == hex_lower(sha256_of(data@)),
        r@.len() == 64,
{
    let mut h = sha256_new();
    sha256_update(&mut h, data);
    assert(Seq::<u8>::empty() + data@ =~= data@);
    let d = sha256_finalize(h);
    proof {
        lemma_hex_lower_len(d@);
    }
    hex_lower_exec(d.as_slice())
}

/// Hexadecimal takes two characters per byte.
pub proof fn lemma_hex_lower_len(bytes: Seq<u8>)
    ensures
        hex_lower(bytes).len() == 2 * bytes.len(),
    decreases bytes.len(),
{
    if bytes.len() > 0 {
        lemma_hex_lower_len(bytes.drop_last());
    }
}

/// The content check of a finished download: the lower-case hexadecimal
/// SHA-256 of the content must match `oid`, ignoring ASCII case.
pub open spec fn content_check(content: Seq<u8>, oid: Seq<char>) -> Result<(), GitXetError> {
    if eq_ignore_ascii_case(hex_lower(sha256_of(content)), oid) {
        Ok(())
    } else {
        Err(GitXetError::ShaMismatch)
    }
}

/// The whole check of a finished download: first its size, then its content.
pub open spec fn download_check(file_len: u64, content: Seq<u8>, oid: Seq<char>, size: u64) -> Result<
    (),
    GitXetError,
> {
    if file_len != size {
        Err(GitXetError::IncompleteDownload)
    } else {
        content_check(content, oid)
    }
}

/// The size check of a finished download.
pub fn check_download_size(file_len: u64, size: u64) -> (r: Result<(), GitXetError>)
    ensures
        r is Ok <==> file_len == size,
        r is Err ==> r == Err::<(), GitXetError>(GitXetError::IncompleteDownload),
{
    if file_len != size {
        Err(GitXetError::IncompleteDownload)
    } else {
        Ok(())
    }
}

/// Hashes a downloaded file as it is read, chunk by chunk.
pub struct DownloadVerifier {
    hasher: Sha256Hasher,
}

impl DownloadVerifier {
    /// The bytes read so far, in order.
    pub closed spec fn absorbed(&self) -> Seq<u8> {
        sha256_absorbed(self.hasher)
    }

    /// A verifier that has read nothing.
    pub fn new() -> (v: DownloadVerifier)
        ensures
            v.absorbed() == Seq::<u8>::empty(),
    {
        DownloadVerifier { hasher: sha256_new() }
    }

    /// Reads the next chunk of the file.
    pub fn update(&mut self, chunk: &[u8])
        ensures
            final(self).absorbed() == old(self).absorbed() + chunk@,
    {
        sha256_update(&mut self.hasher, chunk);
    }

    /// Checks everything read against the expected object id.
    pub fn finish(self, oid: &str) -> (r: Result<(), GitXetError>)
        ensures
            r == content_check(self.absorbed(), oid@),
    {
        let d = sha256_finalize(self.hasher);
        let hex = hex_lower_exec(d.as_slice());
        if eq_ignore_ascii_case_exec(&hex, &chars_of(oid)) {
            Ok(())
        } else {
            Err(GitXetError::ShaMismatch)
        }
    }
}

/// Content always passes the check against its own lower-case SHA-256.
pub proof fn lemma_own_digest_passes(content: Seq<u8>)
    ensures
        content_check(content, hex_lower(sha256_of(content))) == Ok::<(), GitXetError>(()),
        download_check(content.len() as u64, content, hex_lower(sha256_of(content)), content.len() as u64)
            == Ok::<(), GitXetError>(()),
{
}

/// The content check does not depend on the ASCII case of the object id.
pub proof fn lemma_check_ignores_case(content: Seq<u8>, oid1: Seq<char>, oid2: Seq<char>)
    requires
        eq_ignore_ascii_case(oid1, oid2),
    ensures
        content_check(content, oid1) == content_check(content, oid2),
{
    let h = hex_lower(sha256_of(content));
    if eq_ignore_ascii_case(h, oid1) {
        assert forall|i: int| 0 <= i < h.len() implies lower_code(#[trigger] h[i]) == lower_code(oid2[i]) by {
            assert(lower_code(h[i]) == lower_code(oid1[i]));
            assert(lower_code(oid1[i]) == lower_code(oid2[i]));
        }
    }
    if eq_ignore_ascii_case(h, oid2) {
        assert forall|i: int| 0 <= i < h.len() implies lower_code(#[trigger] h[i]) == lower_code(oid1[i]) by {
            assert(lower_code(h[i]) == lower_code(oid2[i]));
            assert(lower_code(oid1[i]) == lower_code(oid2[i]));
        }
    }
}

} // verus!
