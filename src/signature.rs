//! BLS signatures on G1 that bind a contribution to a participant: signed
//! with the contributor's secret, checked against the public key in G2.

use vstd::prelude::*;
use crate::group::{
    g1_mul, g1_times, hash_g1, hash_to_curve_g1, pairings_equal, pairings_match, G1, G2, Tau,
};

verus! {

/// A signature, or `None` for one that is absent or was pruned.
#[derive(Clone, Copy, PartialEq, Eq, Debug)]
pub struct BlsSignature(pub Option<G1>);

/// `e(sig, G2::one()) == e(H(msg), pk)`.
pub open spec fn bls_verifies(sig: Seq<u8>, msg: Seq<u8>, pk: Seq<u8>) -> bool {
    pairings_equal(sig, G2::one_bytes(), hash_g1(msg), pk)
}

/// The signature of `msg` under secret `sk`: `sk · H(msg)`.
pub open spec fn bls_sign_spec(msg: Seq<u8>, sk: Seq<u8>) -> Seq<u8> {
    g1_mul(hash_g1(msg), sk)
}

/// What pruning keeps: a present signature that verifies.
pub open spec fn prune_spec(s: BlsSignature, msg: Seq<u8>, pk: Seq<u8>) -> BlsSignature {
    match s.0 {
        Some(sig) => if bls_verifies(sig.0@, msg, pk) {
            s
        } else {
            BlsSignature(None)
        },
        None => BlsSignature(None),
    }
}

/// Checks a signature against a message and a public key.
pub fn verify_signature(sig: &G1, message: &[u8], pk: &G2) -> (r: bool)
    ensures
        r == bls_verifies(sig.0@, message@, pk.0@),
{
    let h = hash_to_curve_g1(message);
    pairings_match(sig, &G2::one(), &h, pk)
}

impl BlsSignature {
    pub fn empty() -> (r: Self)
        ensures
            r.0 is None,
    {
        BlsSignature(None)
    }

    /// Keeps the signature if it verifies for `message` under `pk`, drops it
    /// otherwise.
    pub fn prune(&self, message: &[u8], pk: G2) -> (r: Self)
        ensures
            r == prune_spec(*self, message@, pk.0@),
    {
        match self.0 {
            Some(sig) => if verify_signature(&sig, message, &pk) {
                BlsSignature(Some(sig))
            } else {
                BlsSignature(None)
            },
            None => BlsSignature(None),
        }
    }

    /// Signs `message` with the secret `sk`.
    pub fn sign(message: &[u8], sk: &Tau) -> (r: Self)
        requires
            sk.is_valid(),
        ensures
            r.0 is Some,
            r.0->Some_0.0@ == bls_sign_spec(message@, sk.0@),
    {
        let h = hash_to_curve_g1(message);
        BlsSignature(g1_times(sk, &h))
    }
}

/// Pruning twice with the same message and key gives what pruning once gave.
pub proof fn lemma_prune_idempotent(s: BlsSignature, msg: Seq<u8>, pk: Seq<u8>)
    ensures
        prune_spec(prune_spec(s, msg, pk), msg, pk) == prune_spec(s, msg, pk),
{
}

/// A pruned signature that survived verifies; an absent one stays absent.
pub proof fn lemma_prune_keeps_only_valid(s: BlsSignature, msg: Seq<u8>, pk: Seq<u8>)
    ensures
        prune_spec(s, msg, pk).0 is Some ==> s == prune_spec(s, msg, pk) && bls_verifies(
            s.0->Some_0.0@,
            msg,
            pk,
        ),
        s.0 is None ==> prune_spec(s, msg, pk).0 is None,
{
}

} // verus!
