//! Sr25519 key pairs, held by their secret seed, with the public key and signing of
//! `sp_core::sr25519::Pair`.
use vstd::prelude::*;
use sp_core::Pair as _;

verus! {

/// The public key of the sr25519 key pair whose mini secret key is `seed`.
pub uninterp spec fn sr25519_public_key(seed: Seq<u8>) -> Seq<u8>;

/// Whether `signature` is a valid sr25519 signature of `message`, in the "substrate"
/// signing context, under the public key `public`.
pub uninterp spec fn sr25519_signature_valid(
    signature: Seq<u8>,
    message: Seq<u8>,
    public: Seq<u8>,
) -> bool;

/// An sr25519 key pair, held by its 32-byte mini secret key.
#[derive(Clone, Copy, Debug)]
pub struct Sr25519Pair {
    seed: [u8; 32],
}

impl Sr25519Pair {
    /// The secret seed of this pair.
    pub closed spec fn seed(self) -> Seq<u8> {
        self.seed@
    }

    /// The key pair whose mini secret key is `seed`.
    pub fn from_seed(seed: [u8; 32]) -> (res: Sr25519Pair)
        ensures
            res.seed() == seed@,
    {
        Sr25519Pair { seed }
    }

    /// The public key of this pair.
    pub fn public(&self) -> (res: [u8; 32])
        ensures
            res@ == sr25519_public_key(self.seed()),
    {
        public_of_seed(&self.seed)
    }

    /// A signature of `message` by this pair.
    pub fn sign(&self, message: &[u8]) -> (res: [u8; 64])
        ensures
            sr25519_signature_valid(res@, message@, sr25519_public_key(self.seed())),
    {
        sign_with_seed(&self.seed, message)
    }
}

/// Calls `sp_core::sr25519::Pair::public` on the pair made by `Pair::from_seed(seed)`.
#[verifier::external_body]
fn public_of_seed(seed: &[u8; 32]) -> (res: [u8; 32])
    ensures
        res@ == sr25519_public_key(seed@),
{
    sp_core::sr25519::Pair::from_seed(seed).public().0
}

/// Calls `sp_core::sr25519::Pair::sign` on the pair made by `Pair::from_seed(seed)`. The
/// signature is randomized; what holds of each one is that it verifies under the pair's
/// public key.
#[verifier::external_body]
fn sign_with_seed(seed: &[u8; 32], message: &[u8]) -> (res: [u8; 64])
    ensures
        sr25519_signature_valid(res@, message@, sr25519_public_key(seed@)),
{
    sp_core::sr25519::Pair::from_seed(seed).sign(message).0
}

} // verus!
