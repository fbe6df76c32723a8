//! Binary integrity verification: a streaming SHA-256 of the worker binary,
//! compared case-insensitively against the pinned hex digest of the policy.
//!
//! The caller reads the file in fixed-size chunks and feeds each into a
//! [`HashStream`], so the whole binary is never held in memory at once; a
//! file that cannot be read maps to [`IntegrityError::IoFailure`] rather
//! than silently passing.

use vstd::prelude::*;

verus! {

#[verifier::external_type_specification]
#[verifier::external_body]
pub struct ExSha256(sha2::Sha256);

/// The SHA-256 digest (32 bytes) of a byte sequence. Left uninterpreted: the
/// digest is computed only by the trusted sha2 calls below, and contracts
/// speak of it by this name.
pub uninterp spec fn sha256_of(bytes: Seq<u8>) -> Seq<u8>;

/// An incremental SHA-256 computation together with the bytes absorbed so far.
pub struct HashStream {
    hasher: sha2::Sha256,
    fed: Ghost<Seq<u8>>,
}

impl HashStream {
    /// The bytes absorbed so far.
    pub closed spec fn bytes(self) -> Seq<u8> {
        self.fed@
    }
}

/// Relies on `sha2::Sha256::new` (`Digest::new`): a fresh hasher that has
/// absorbed nothing.
#[verifier::external_body]
fn fresh_sha256() -> (h: sha2::Sha256) {
    <sha2::Sha256 as sha2::Digest>::new()
}

impl HashStream {
    /// A stream over a fresh hasher: nothing absorbed yet.
    pub fn new() -> (h: HashStream)
        ensures
            h.bytes() == Seq::<u8>::empty(),
    {
        HashStream { hasher: fresh_sha256(), fed: Ghost(Seq::empty()) }
    }

    /// Relies on `sha2::Sha256::update` (`Digest::update`): absorbs exactly
    /// the bytes of `chunk`, in order, after everything absorbed before.
    #[verifier::external_body]
    pub fn update(&mut self, chunk: &[u8])
        ensures
            final(self).bytes() == old(self).bytes() + chunk@,
    {
        sha2::Digest::update(&mut self.hasher, chunk);
    }

    /// Relies on `sha2::Sha256::finalize` (`Digest::finalize`): the SHA-256
    /// digest of the absorbed bytes, 32 bytes, a function of those bytes
    /// alone.
    #[verifier::external_body]
    pub fn finalize(self) -> (d: Vec<u8>)
        ensures
            d@ == sha256_of(self.bytes()),
            d@.len() == 32,
    {
        sha2::Digest::finalize(self.hasher).to_vec()
    }
}

/// How integrity verification can fail.
#[derive(Debug)]
pub enum IntegrityError {
    /// No digest is configured, in a production build: fail closed.
    ConfigurationMissing,
    /// The binary could not be opened or read.
    IoFailure,
    /// The computed digest differs from the pinned one; both are carried for
    /// diagnostics.
    IntegrityMismatch { expected: String, computed: Vec<u8> },
}

/// How integrity verification can succeed.
#[derive(Debug, PartialEq, Eq, Structural, Clone, Copy)]
pub enum VerifyOutcome {
    /// The computed digest matches the pinned one.
    Verified,
    /// No digest is configured, in a development build: allowed through, but
    /// the caller should warn loudly.
    SkippedNoDigest,
}

/// The value of one hex digit, either case; `None` for any other character.
pub open spec fn hex_char_val(c: char) -> Option<u8> {
    let u = c as u32;
    if 48 <= u && u <= 57 {
        Some((u - 48) as u8)
    } else if 97 <= u && u <= 102 {
        Some((u - 87) as u8)
    } else if 65 <= u && u <= 70 {
        Some((u - 55) as u8)
    } else {
        None
    }
}

/// `hex` spells `bytes` in hexadecimal, two digits a byte, either case.
pub open spec fn hex_matches(hex: Seq<char>, bytes: Seq<u8>) -> bool {
    hex.len() == 2 * bytes.len() && forall|i: int|
        0 <= i < bytes.len() ==> hex_char_val(hex[2 * i]) == Some((#[trigger] bytes[i] / 16) as u8)
            && hex_char_val(hex[2 * i + 1]) == Some((bytes[i] % 16) as u8)
}

fn exec_hex_val(c: char) -> (r: Option<u8>)
    ensures
        r == hex_char_val(c),
{
    let u = c as u32;
    if 48 <= u && u <= 57 {
        Some((u - 48) as u8)
    } else if 97 <= u && u <= 102 {
        Some((u - 87) as u8)
    } else if 65 <= u && u <= 70 {
        Some((u - 55) as u8)
    } else {
        None
    }
}

/// Does `hex` spell `digest`, case-insensitively?
pub fn hex_matches_digest(hex: &str, digest: &Vec<u8>) -> (b: bool)
    ensures
        b == hex_matches(hex@, digest@),
{
    let n = hex.unicode_len();
    let dlen = digest.len();
    if n % 2 != 0 || n / 2 != dlen {
        return false;
    }
    let mut i: usize = 0;
    while i < dlen
        invariant
            n == hex@.len(),
            dlen == digest@.len(),
            n == 2 * dlen,
            i <= dlen,
            forall|k: int|
                0 <= k < i ==> hex_char_val(hex@[2 * k]) == Some(
                    (#[trigger] digest@[k] / 16) as u8,
                ) && hex_char_val(hex@[2 * k + 1]) == Some((digest@[k] % 16) as u8),
        decreases dlen - i,
    {
        let hi = exec_hex_val(hex.get_char(2 * i));
        let lo = exec_hex_val(hex.get_char(2 * i + 1));
        let b = digest[i];
        let hi_ok = match hi {
            Some(v) => v == b / 16,
            None => false,
        };
        let lo_ok = match lo {
            Some(v) => v == b % 16,
            None => false,
        };
        if !(hi_ok && lo_ok) {
            return false;
        }
        i += 1;
    }
    true
}

/// Verifies the worker binary whose bytes were streamed into `stream`
/// against the pinned `expected_hash`.
///
/// An empty digest means "not configured": a production build fails closed
/// with `ConfigurationMissing`, a development build passes with
/// `SkippedNoDigest`. Otherwise the outcome is `Verified` exactly when the
/// hex digest matches the SHA-256 of the streamed bytes, case-insensitively;
/// a mismatch carries both the pinned hex and the computed digest.
pub fn verify_binary_integrity(stream: HashStream, expected_hash: &str, production: bool) -> (r:
    Result<VerifyOutcome, IntegrityError>)
    ensures
        expected_hash@.len() == 0 && production ==> r matches Err(
            IntegrityError::ConfigurationMissing,
        ),
        expected_hash@.len() == 0 && !production ==> (r matches Ok(o) && o
            == VerifyOutcome::SkippedNoDigest),
        expected_hash@.len() > 0 && hex_matches(expected_hash@, sha256_of(stream.bytes())) ==> (
        r matches Ok(o) && o == VerifyOutcome::Verified),
        expected_hash@.len() > 0 && !hex_matches(expected_hash@, sha256_of(stream.bytes())) ==> (
        r matches Err(e) && (e matches IntegrityError::IntegrityMismatch { expected, computed }
            && expected@ == expected_hash@ && computed@ == sha256_of(stream.bytes()))),
{
    if expected_hash.unicode_len() == 0 {
        if production {
            return Err(IntegrityError::ConfigurationMissing);
        } else {
            return Ok(VerifyOutcome::SkippedNoDigest);
        }
    }
    let digest = stream.finalize();
    if hex_matches_digest(expected_hash, &digest) {
        Ok(VerifyOutcome::Verified)
    } else {
        Err(IntegrityError::IntegrityMismatch { expected: expected_hash.to_owned(), computed: digest })
    }
}

} // verus!
