//! The running tally of a firmware download: the bytes received so far,
//! counted and hashed with SHA-256 as they arrive.
use crate::deployment::download::{announced_checksum, check_download, download_accepted, hex_upper};
use crate::deployment::types::Deployment;
use crate::deployment::DeploymentError;
use sha2::Digest;
use sha2::Sha256;
use vstd::prelude::*;

verus! {

/// A SHA-256 hasher of the `sha2` crate. Verus cannot take the crate's
/// hasher type as it stands (its parameters are `typenum` types), so it is
/// held here, out of Verus's sight; `sha256_input` names what it was fed.
#[verifier::external_body]
pub struct Sha256State {
    hasher: Sha256,
}

/// The bytes that a SHA-256 hasher has been fed since it was made.
pub uninterp spec fn sha256_input(state: Sha256State) -> Seq<u8>;

/// The SHA-256 digest of a byte sequence.
pub uninterp spec fn sha256_digest(bytes: Seq<u8>) -> Seq<u8>;

/// The most bytes a hasher takes: `sha2` counts the message length in bits
/// in a `u64`.
pub open spec fn hashable_len() -> nat {
    (u64::MAX / 8) as nat
}

/// `sha2::Sha256::new`: a hasher that has been fed nothing.
#[verifier::external_body]
fn sha256_new() -> (h: Sha256State)
    ensures
        sha256_input(h) == Seq::<u8>::empty(),
{
    Sha256State { hasher: <Sha256 as Digest>::new() }
}

/// `sha2::Digest::update` on a `Sha256`: the hasher has been fed `data`
/// after what it had before.
#[verifier::external_body]
fn sha256_update(h: &mut Sha256State, data: &[u8])
    requires
        sha256_input(*old(h)).len() + data@.len() <= hashable_len(),
    ensures
        sha256_input(*final(h)) == sha256_input(*old(h)) + data@,
{
    Digest::update(&mut h.hasher, data);
}

/// `sha2::Digest::finalize` on a `Sha256`: the digest of all the bytes fed,
/// as a vector.
#[verifier::external_body]
fn sha256_finalize(h: Sha256State) -> (d: Vec<u8>)
    requires
        sha256_input(h).len() <= hashable_len(),
    ensures
        d@ == sha256_digest(sha256_input(h)),
{
    h.hasher.finalize().to_vec()
}

/// The bytes of a download received so far, with their count and digest.
pub struct DownloadTally {
    hasher: Sha256State,
    downloaded: u64,
}

impl DownloadTally {
    /// The bytes received so far, in order.
    pub closed spec fn received(&self) -> Seq<u8> {
        sha256_input(self.hasher)
    }

    #[verifier::type_invariant]
    closed spec fn counted(&self) -> bool {
        &&& self.downloaded == sha256_input(self.hasher).len()
        &&& sha256_input(self.hasher).len() <= hashable_len()
    }

    /// A tally of nothing received.
    pub fn new() -> (t: Self)
        ensures
            t.received() == Seq::<u8>::empty(),
    {
        DownloadTally { hasher: sha256_new(), downloaded: 0 }
    }

    /// The number of bytes received so far.
    pub fn downloaded(&self) -> (n: u64)
        ensures
            n == self.received().len(),
    {
        proof {
            use_type_invariant(self);
        }
        self.downloaded
    }

    /// Takes in the next chunk of the download and returns the new byte count.
    pub fn absorb(&mut self, chunk: &[u8]) -> (n: u64)
        requires
            old(self).received().len() + chunk@.len() <= hashable_len(),
        ensures
            final(self).received() == old(self).received() + chunk@,
            n == final(self).received().len(),
    {
        proof {
            use_type_invariant(&*self);
        }
        let mut taken = DownloadTally::new();
        std::mem::swap(&mut taken, self);
        proof {
            use_type_invariant(&taken);
        }
        let DownloadTally { mut hasher, downloaded } = taken;
        let count = downloaded + chunk.len() as u64;
        sha256_update(&mut hasher, chunk);
        *self = DownloadTally { hasher, downloaded: count };
        count
    }

    /// Checks the finished download against the size and checksum that the
    /// deployment announced (see `check_download`), with the byte count and
    /// the SHA-256 digest of everything received.
    pub fn finish(self, deployment: &Deployment) -> (r: Result<(), DeploymentError>)
        ensures
            r is Ok <==> download_accepted(
                *deployment,
                self.received().len() as u64,
                sha256_digest(self.received()),
            ),
            r matches Err(e) ==> match e {
                DeploymentError::SizeMismatch { expected, actual } => deployment.size == Some(
                    expected,
                ) && actual == self.received().len() && expected != actual,
                DeploymentError::ChecksumMismatch { expected, actual } => (deployment.size matches Some(
                    s,
                ) ==> s == self.received().len()) && announced_checksum(*deployment) == Some(
                    expected@,
                ) && actual@ == hex_upper(sha256_digest(self.received())),
                _ => false,
            },
    {
        proof {
            use_type_invariant(&self);
        }
        let downloaded = self.downloaded;
        let digest = sha256_finalize(self.hasher);
        check_download(deployment, downloaded, digest.as_slice())
    }
}

} // verus!
