//! The batch-level Ethereum binding: an ECDSA signature by the participant's
//! address over the EIP-712 typed data that lists the batch's public keys.
//! A signature that does not verify is pruned, not fatal.

use vstd::prelude::*;
use crate::contribution::{ContributionTypedData, PubkeyTypedData};
use crate::identity::{Identity, IdentityView};
use crate::text::{dec_digits, hex_encode, hex_encode_bytes, usize_to_dec};
use ethers_core::types::transaction::eip712::{Eip712, TypedData};

verus! {

/// The EIP-712 digest of typed data given as JSON, or `None` where the JSON
/// is not typed data that can be encoded.
pub uninterp spec fn eip712_of(json: Seq<char>) -> Option<Seq<u8>>;

/// The 65-byte `(r, s, v)` signature over the 32-byte digest recovers to the
/// 20-byte address.
pub uninterp spec fn ecdsa_signed_by(sig: Seq<u8>, digest: Seq<u8>, address: Seq<u8>) -> bool;

/// Relies on ethers-core: `TypedData` read from JSON by serde_json, then
/// `Eip712::encode_eip712`; `None` when either refuses.
#[verifier::external_body]
fn eip712_hash(json: &str) -> (r: Option<[u8; 32]>)
    ensures
        r is Some <==> eip712_of(json@) is Some,
        r is Some ==> r->Some_0@ == eip712_of(json@)->Some_0,
{
    match serde_json::from_str::<TypedData>(json) {
        Ok(t) => t.encode_eip712().ok(),
        Err(_) => None,
    }
}

/// Relies on ethers-core `Signature::try_from` (65 raw bytes) and
/// `Signature::verify` on a prehashed message: whether the signature recovers
/// to the address.
#[verifier::external_body]
fn ecdsa_verify(sig: &[u8; 65], digest: &[u8; 32], address: &[u8; 20]) -> (r: bool)
    ensures
        r == ecdsa_signed_by(sig@, digest@, address@),
{
    match ethers_core::types::Signature::try_from(&sig[..]) {
        Ok(s) => s.verify(*digest, ethers_core::types::Address::from(*address)).is_ok(),
        Err(_) => false,
    }
}

/// `{"types":...,"primaryType":"PoTPubkeys","domain":...,"message":{"potPubkeys":[`
pub open spec fn typed_data_prefix() -> Seq<char> {
    "{\"types\":{\"EIP712Domain\":[{\"name\":\"name\",\"type\":\"string\"},{\"name\":\"version\",\"type\":\"string\"},{\"name\":\"chainId\",\"type\":\"uint256\"}],\"contributionPubkey\":[{\"name\":\"numG1Powers\",\"type\":\"uint256\"},{\"name\":\"numG2Powers\",\"type\":\"uint256\"},{\"name\":\"potPubkey\",\"type\":\"bytes\"}],\"PoTPubkeys\":[{\"name\":\"potPubkeys\",\"type\":\"contributionPubkey[]\"}]},\"primaryType\":\"PoTPubkeys\",\"domain\":{\"name\":\"Ethereum KZG Ceremony\",\"version\":\"1.0\",\"chainId\":1},\"message\":{\"potPubkeys\":["@
}

/// `{"numG1Powers":n1,"numG2Powers":n2,"potPubkey":"0x<hex>"}`
pub open spec fn pubkey_entry_json(p: PubkeyTypedData) -> Seq<char> {
    "{\"numG1Powers\":"@ + dec_digits(p.num_g1_powers as nat) + ",\"numG2Powers\":"@ + dec_digits(
        p.num_g2_powers as nat,
    ) + ",\"potPubkey\":\"0x"@ + hex_encode(p.pot_pubkey.0@) + "\"}"@
}

/// The entries, separated by commas.
pub open spec fn entries_json(ps: Seq<PubkeyTypedData>) -> Seq<char>
    decreases ps.len(),
{
    if ps.len() == 0 {
        Seq::empty()
    } else if ps.len() == 1 {
        pubkey_entry_json(ps[0])
    } else {
        entries_json(ps.drop_last()) + ","@ + pubkey_entry_json(ps.last())
    }
}

/// The typed data as JSON: the `PoTPubkeys` type under the ceremony's domain.
pub open spec fn typed_data_json(ps: Seq<PubkeyTypedData>) -> Seq<char> {
    typed_data_prefix() + entries_json(ps) + "]}}"@
}

impl ContributionTypedData {
    /// The typed data as EIP-712 JSON.
    pub fn to_json(&self) -> (r: String)
        ensures
            r@ == typed_data_json(self.pot_pubkeys@),
    {
        let mut r = String::from_str("{\"types\":{\"EIP712Domain\":[{\"name\":\"name\",\"type\":\"string\"},{\"name\":\"version\",\"type\":\"string\"},{\"name\":\"chainId\",\"type\":\"uint256\"}],\"contributionPubkey\":[{\"name\":\"numG1Powers\",\"type\":\"uint256\"},{\"name\":\"numG2Powers\",\"type\":\"uint256\"},{\"name\":\"potPubkey\",\"type\":\"bytes\"}],\"PoTPubkeys\":[{\"name\":\"potPubkeys\",\"type\":\"contributionPubkey[]\"}]},\"primaryType\":\"PoTPubkeys\",\"domain\":{\"name\":\"Ethereum KZG Ceremony\",\"version\":\"1.0\",\"chainId\":1},\"message\":{\"potPubkeys\":[");
        let ps = &self.pot_pubkeys;
        let mut i: usize = 0;
        while i < ps.len()
            invariant
                i <= ps@.len(),
                r@ == typed_data_prefix() + entries_json(ps@.take(i as int)),
            decreases ps@.len() - i,
        {
            let ghost before = r@;
            if i > 0 {
                r.append(",");
            }
            let p = &ps[i];
            r.append("{\"numG1Powers\":");
            let n1 = usize_to_dec(p.num_g1_powers);
            r.append(n1.as_str());
            r.append(",\"numG2Powers\":");
            let n2 = usize_to_dec(p.num_g2_powers);
            r.append(n2.as_str());
            r.append(",\"potPubkey\":\"0x");
            let h = hex_encode_bytes(&p.pot_pubkey.0);
            r.append(h.as_str());
            r.append("\"}");
            proof {
                let t = ps@.take(i + 1 as int);
                assert(t.drop_last() =~= ps@.take(i as int));
                assert(t.last() == *p);
                if i == 0 {
                    assert(r@ =~= before + pubkey_entry_json(*p));
                } else {
                    assert(r@ =~= before + ","@ + pubkey_entry_json(*p));
                }
                assert(r@ =~= typed_data_prefix() + entries_json(t));
            }
            i += 1;
        }
        assert(ps@.take(i as int) =~= ps@);
        r.append("]}}");
        r
    }
}

/// An ECDSA signature as 65 bytes `(r, s, v)`, or `None` when absent or pruned.
#[derive(Clone, Copy, PartialEq, Eq, Debug)]
pub struct EcdsaSignature(pub Option<[u8; 65]>);

pub open spec fn digest_view(d: Option<[u8; 32]>) -> Option<Seq<u8>> {
    match d {
        Some(b) => Some(b@),
        None => None,
    }
}

/// What pruning keeps: a present signature, by an Ethereum identity, that
/// verifies over the digest.
pub open spec fn ecdsa_prune_spec(s: EcdsaSignature, id: IdentityView, digest: Option<Seq<u8>>) -> EcdsaSignature {
    match s.0 {
        Some(sig) => match id {
            IdentityView::Ethereum { address } => match digest {
                Some(d) => if ecdsa_signed_by(sig@, d, address) {
                    s
                } else {
                    EcdsaSignature(None)
                },
                None => EcdsaSignature(None),
            },
            _ => EcdsaSignature(None),
        },
        None => EcdsaSignature(None),
    }
}

impl EcdsaSignature {
    pub fn empty() -> (r: Self)
        ensures
            r.0 is None,
    {
        EcdsaSignature(None)
    }

    /// Prunes against a digest already computed (`None` when the typed data
    /// could not be encoded).
    pub fn prune_with_digest(&self, identity: &Identity, digest: Option<[u8; 32]>) -> (r: Self)
        ensures
            r == ecdsa_prune_spec(*self, identity@, digest_view(digest)),
    {
        match self.0 {
            Some(sig) => match identity {
                Identity::Ethereum { address } => match digest {
                    Some(d) => if ecdsa_verify(&sig, &d, address) {
                        EcdsaSignature(Some(sig))
                    } else {
                        EcdsaSignature(None)
                    },
                    None => EcdsaSignature(None),
                },
                _ => EcdsaSignature(None),
            },
            None => EcdsaSignature(None),
        }
    }

    /// Keeps the signature only if `identity` is an Ethereum address that
    /// signed the EIP-712 digest of `data`.
    pub fn prune(&self, identity: &Identity, data: &ContributionTypedData) -> (r: Self)
        ensures
            r == ecdsa_prune_spec(*self, identity@, eip712_of(typed_data_json(data.pot_pubkeys@))),
    {
        let json = data.to_json();
        let digest = eip712_hash(json.as_str());
        self.prune_with_digest(identity, digest)
    }
}

/// Pruning twice with the same identity and digest gives what pruning once gave.
pub proof fn lemma_ecdsa_prune_idempotent(s: EcdsaSignature, id: IdentityView, digest: Option<Seq<u8>>)
    ensures
        ecdsa_prune_spec(ecdsa_prune_spec(s, id, digest), id, digest) == ecdsa_prune_spec(s, id, digest),
{
}

} // verus!
