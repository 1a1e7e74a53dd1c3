//! The fixed-size digest values a service reports as its state hashes.
//!
//! The digest primitive itself is an external collaborator: it is consumed
//! as an opaque function from bytes to a fixed-size hash, named `digest_of`
//! in contracts, and computed by an outside crate.

use vstd::prelude::*;
use sha2::Digest;

verus! {

/// The number of bytes in one digest value.
pub const HASH_SIZE: usize = 32;

/// The digest of a byte sequence. The digest function is a pure function of
/// its input alone; nothing more is assumed of it than its output length.
pub uninterp spec fn digest_of(data: Seq<u8>) -> Seq<u8>;

/// Relies on sha2::Sha256::digest: a pure function of the input bytes alone,
/// returning a 32-byte digest.
#[verifier::external_body]
fn sha256_digest(data: &[u8]) -> (r: Vec<u8>)
    ensures
        r@ == digest_of(data@),
        r@.len() == HASH_SIZE,
{
    sha2::Sha256::digest(data).to_vec()
}

/// A fixed-size hash value, as reported by a service.
#[derive(Debug, PartialEq, Eq)]
pub struct Hash {
    bytes: Vec<u8>,
}

impl View for Hash {
    type V = Seq<u8>;

    closed spec fn view(&self) -> Seq<u8> {
        self.bytes@
    }
}

impl Hash {
    /// Every constructed hash holds exactly `HASH_SIZE` bytes.
    pub open spec fn wf(&self) -> bool {
        self@.len() == HASH_SIZE
    }

    /// Wraps raw bytes as a hash value; succeeds exactly on inputs of the
    /// fixed digest size.
    pub fn from_bytes(bytes: Vec<u8>) -> (r: Option<Hash>)
        ensures
            bytes@.len() == HASH_SIZE ==> (r matches Some(h) && h@ == bytes@ && h.wf()),
            bytes@.len() != HASH_SIZE ==> r is None,
    {
        if bytes.len() == HASH_SIZE {
            Some(Hash { bytes })
        } else {
            None
        }
    }

    /// The raw bytes of this hash.
    pub fn as_bytes(&self) -> (r: &Vec<u8>)
        ensures
            r@ == self@,
    {
        &self.bytes
    }

    /// A copy of this hash with the same bytes.
    pub fn duplicate(&self) -> (r: Hash)
        ensures
            r@ == self@,
            r.wf() == self.wf(),
    {
        let bytes = self.bytes.clone();
        proof {
            assert forall|i: int| 0 <= i < self.bytes@.len() implies bytes@[i]
                == self.bytes@[i] by {
                assert(cloned::<u8>(self.bytes@[i], bytes@[i]));
            }
            assert(bytes@ =~= self.bytes@);
        }
        Hash { bytes }
    }
}

/// Computes the digest of the given bytes.
pub fn hash(data: &[u8]) -> (h: Hash)
    ensures
        h@ == digest_of(data@),
        h.wf(),
{
    Hash { bytes: sha256_digest(data) }
}

} // verus!
