//! Download accumulation and SHA-256 verification of artifacts.
use vstd::prelude::*;
use crate::error::LauncherError;
use crate::text::{eq_ignore_case, eq_ignore_case_str};

verus! {

/// The SHA-256 digest of `data`.
pub uninterp spec fn sha256_of(data: Seq<u8>) -> Seq<u8>;

/// Relies on `sha2::Sha256::digest`: the 32-byte SHA-256 digest of the input,
/// a function of the bytes alone.
#[verifier::external_body]
fn sha256_digest(data: &[u8]) -> (r: Vec<u8>)
    ensures
        r@ == sha256_of(data@),
        r@.len() == 32,
{
    <sha2::Sha256 as sha2::Digest>::digest(data).to_vec()
}

/// Lower-case hexadecimal digit of a value below 16.
pub open spec fn hex_digit(v: u8) -> char {
    if v < 10 {
        ((v + 48) as u8) as char
    } else {
        ((v + 87) as u8) as char
    }
}

/// Two lower-case hexadecimal digits per byte, most significant first.
pub open spec fn hex_of(b: Seq<u8>) -> Seq<char>
    decreases b.len(),
{
    if b.len() == 0 {
        Seq::empty()
    } else {
        hex_of(b.drop_last()) + seq![hex_digit(b.last() / 16), hex_digit(b.last() % 16)]
    }
}

/// Relies on `hex::encode`: two lower-case digits from `0123456789abcdef`
/// per byte, high nibble first.
#[verifier::external_body]
fn hex_encode(data: &[u8]) -> (r: String)
    ensures
        r@ == hex_of(data@),
{
    hex::encode(data)
}

/// Compares two hexadecimal digests, ignoring the case of their letters.
/// A digest's digits are ASCII, so folding ASCII letters is all the case
/// folding the comparison needs.
pub fn hashes_match(a: &str, b: &str) -> (r: bool)
    ensures
        r == eq_ignore_case(a@, b@),
{
    eq_ignore_case_str(a, b)
}

/// Checks a computed digest against the pinned hexadecimal digest.
pub fn check_digest(digest: &[u8], expected_hash: &str) -> (r: Result<(), LauncherError>)
    ensures
        eq_ignore_case(hex_of(digest@), expected_hash@) ==> r is Ok,
        !eq_ignore_case(hex_of(digest@), expected_hash@) ==> (r matches Err(
            LauncherError::Integrity { expected, actual },
        ) && expected@ == expected_hash@ && actual@ == hex_of(digest@)),
{
    let actual = hex_encode(digest);
    if hashes_match(actual.as_str(), expected_hash) {
        Ok(())
    } else {
        Err(LauncherError::Integrity { expected: String::from_str(expected_hash), actual })
    }
}

/// Verifies a complete payload against its pinned SHA-256 digest.
pub fn verify_payload(payload: &[u8], expected_hash: &str) -> (r: Result<(), LauncherError>)
    ensures
        eq_ignore_case(hex_of(sha256_of(payload@)), expected_hash@) ==> r is Ok,
        !eq_ignore_case(hex_of(sha256_of(payload@)), expected_hash@) ==> (r matches Err(
            LauncherError::Integrity { expected, actual },
        ) && expected@ == expected_hash@ && actual@ == hex_of(sha256_of(payload@))),
{
    let digest = sha256_digest(payload);
    check_digest(digest.as_slice(), expected_hash)
}

/// A progress event: bytes received so far, and the announced total if any.
pub struct DownloadProgress {
    pub id: String,
    pub downloaded: u64,
    pub total: Option<u64>,
}

/// A download in flight: the bytes received so far, never trusted before
/// the whole payload has been verified.
pub struct Download {
    id: String,
    total: Option<u64>,
    buffer: Vec<u8>,
}

impl Download {
    pub closed spec fn spec_id(&self) -> Seq<char> {
        self.id@
    }

    pub closed spec fn spec_total(&self) -> Option<u64> {
        self.total
    }

    pub closed spec fn received(&self) -> Seq<u8> {
        self.buffer@
    }

    /// Starts a download reported under `id`; `total` is the announced length.
    pub fn new(id: String, total: Option<u64>) -> (r: Download)
        ensures
            r.spec_id() == id@,
            r.spec_total() == total,
            r.received() == Seq::<u8>::empty(),
    {
        Download { id, total, buffer: Vec::new() }
    }

    /// Appends a chunk and reports the progress made.
    pub fn receive_chunk(&mut self, chunk: &[u8]) -> (r: DownloadProgress)
        requires
            old(self).received().len() + chunk@.len() <= usize::MAX,
        ensures
            final(self).received() == old(self).received() + chunk@,
            final(self).spec_id() == old(self).spec_id(),
            final(self).spec_total() == old(self).spec_total(),
            r.id@ == old(self).spec_id(),
            r.downloaded == final(self).received().len(),
            r.total == old(self).spec_total(),
    {
        let ghost start = self.buffer@;
        let mut i: usize = 0;
        while i < chunk.len()
            invariant
                i <= chunk@.len(),
                start.len() + chunk@.len() <= usize::MAX,
                self.buffer@ == start + chunk@.take(i as int),
                self.id == old(self).id,
                self.total == old(self).total,
            decreases chunk@.len() - i,
        {
            self.buffer.push(chunk[i]);
            i = i + 1;
            assert(self.buffer@ =~= start + chunk@.take(i as int));
        }
        assert(chunk@.take(chunk@.len() as int) =~= chunk@);
        DownloadProgress {
            id: self.id.clone(),
            downloaded: self.buffer.len() as u64,
            total: self.total,
        }
    }

    /// The bytes received so far.
    pub fn payload(&self) -> (r: &Vec<u8>)
        ensures
            r@ == self.received(),
    {
        &self.buffer
    }

    /// Verifies everything received against the pinned digest.
    pub fn finish(&self, expected_hash: &str) -> (r: Result<(), LauncherError>)
        ensures
            eq_ignore_case(hex_of(sha256_of(self.received())), expected_hash@) ==> r is Ok,
            !eq_ignore_case(hex_of(sha256_of(self.received())), expected_hash@) ==> (r matches Err(
                LauncherError::Integrity { expected, actual },
            ) && expected@ == expected_hash@ && actual@ == hex_of(sha256_of(self.received()))),
    {
        verify_payload(self.buffer.as_slice(), expected_hash)
    }
}

} // verus!
