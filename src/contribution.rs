//! One sub-ceremony's contribution: the powers of the running secret in G1
//! and G2, the public key of that secret, and the contributor's signature.

use vstd::prelude::*;
use vstd::utf8::encode_utf8;
use crate::group::{
    all_g1_on_curve, all_g2_on_curve, g1_powers_of, g2_mul,
    g2_on_curve, g2_powers_of, g2_times, g2_times_powers, g1_times_powers, validate_g1,
    validate_g1_spec, validate_g2, validate_g2_spec, CeremonyError, CurveError, Tau, G1, G2,
};
use crate::identity::{format_identity, Identity};
use crate::ecdsa::EcdsaSignature;
use crate::signature::{bls_sign_spec, BlsSignature};

verus! {

/// `g1[i] = x^i · G1::one()` and `g2[j] = x^j · G2::one()` for the running secret `x`.
#[derive(Clone, PartialEq, Eq, Debug)]
pub struct Powers {
    pub g1: Vec<G1>,
    pub g2: Vec<G2>,
}

impl Powers {
    /// The powers before any contribution: every entry is the generator.
    pub fn new(n1: usize, n2: usize) -> (r: Powers)
        ensures
            r.g1@.len() == n1,
            r.g2@.len() == n2,
            forall|i: int| 0 <= i < n1 ==> #[trigger] r.g1@[i].0@ == G1::one_bytes(),
            forall|i: int| 0 <= i < n2 ==> #[trigger] r.g2@[i].0@ == G2::one_bytes(),
    {
        let mut g1: Vec<G1> = Vec::new();
        let mut i: usize = 0;
        while i < n1
            invariant
                i <= n1,
                g1@.len() == i,
                forall|j: int| 0 <= j < i ==> #[trigger] g1@[j].0@ == G1::one_bytes(),
            decreases n1 - i,
        {
            g1.push(G1::one());
            i += 1;
        }
        let mut g2: Vec<G2> = Vec::new();
        let mut i: usize = 0;
        while i < n2
            invariant
                i <= n2,
                g2@.len() == i,
                forall|j: int| 0 <= j < i ==> #[trigger] g2@[j].0@ == G2::one_bytes(),
            decreases n2 - i,
        {
            g2.push(G2::one());
            i += 1;
        }
        Powers { g1, g2 }
    }
}

#[derive(Clone, PartialEq, Eq, Debug)]
pub struct Contribution {
    pub powers: Powers,
    pub pot_pubkey: G2,
    pub bls_signature: BlsSignature,
}

/// The same points and signature.
pub open spec fn same_contribution(a: Contribution, b: Contribution) -> bool {
    &&& a.powers.g1@ == b.powers.g1@
    &&& a.powers.g2@ == b.powers.g2@
    &&& a.pot_pubkey == b.pot_pubkey
    &&& a.bls_signature == b.bls_signature
}

/// The bytes an identity signs: its canonical form in UTF-8.
pub open spec fn identity_message(id: Identity) -> Seq<u8> {
    encode_utf8(format_identity(id@))
}

/// The outcome of `validate`: G1 powers, then G2 powers, then the public key.
pub open spec fn validate_contribution_spec(c: Contribution) -> Result<(), CeremonyError> {
    match validate_g1_spec(c.powers.g1@) {
        Err(e) => Err(e),
        Ok(_) => match validate_g2_spec(c.powers.g2@) {
            Err(e) => Err(e),
            Ok(_) => validate_g2_spec(seq![c.pot_pubkey]),
        },
    }
}

/// Every point of the contribution decodes to a point of the curve.
pub open spec fn decodes(c: Contribution) -> bool {
    all_g1_on_curve(c.powers.g1@) && all_g2_on_curve(c.powers.g2@) && g2_on_curve(c.pot_pubkey.0@)
}

/// `new` is `old` with `tau` applied on behalf of `identity`.
pub open spec fn tau_added(new: Contribution, old: Contribution, tau: Tau, identity: Identity) -> bool {
    &&& g1_powers_of(new.powers.g1@, old.powers.g1@, tau.0@)
    &&& g2_powers_of(new.powers.g2@, old.powers.g2@, tau.0@)
    &&& new.pot_pubkey.0@ == g2_mul(old.pot_pubkey.0@, tau.0@)
    &&& new.bls_signature.0 is Some
    &&& new.bls_signature.0->Some_0.0@ == bls_sign_spec(identity_message(identity), tau.0@)
}

impl Contribution {
    /// Whether anyone has contributed: the public key is no longer the generator.
    pub fn has_entropy(&self) -> (r: bool)
        ensures
            r == (self.pot_pubkey.0@ != G2::one_bytes()),
    {
        self.pot_pubkey != G2::one()
    }

    /// Mixes `tau` into the contribution: each power is multiplied by the
    /// matching power of `tau`, the public key by `tau`, and the identity is
    /// signed with `tau`. Points are only decoded here, not checked for
    /// subgroup membership; when one does not decode nothing changes.
    pub fn add_tau(&mut self, tau: &Tau, identity: &Identity) -> (r: Result<(), CeremonyError>)
        requires
            tau.is_valid(),
        ensures
            r is Ok <==> decodes(*old(self)),
            r is Ok ==> tau_added(*final(self), *old(self), *tau, *identity),
            r is Err ==> *final(self) == *old(self),
    {
        let g1 = match g1_times_powers(tau, self.powers.g1.as_slice()) {
            Ok(v) => v,
            Err(e) => return Err(e),
        };
        let g2 = match g2_times_powers(tau, self.powers.g2.as_slice()) {
            Ok(v) => v,
            Err(e) => return Err(e),
        };
        let pot_pubkey = match g2_times(tau, &self.pot_pubkey) {
            Some(p) => p,
            None => return Err(CeremonyError::InvalidG2Power(1, CurveError::NotOnCurve)),
        };
        let text = identity.to_string();
        let bls_signature = BlsSignature::sign(text.as_str().as_bytes(), tau);
        self.powers.g1 = g1;
        self.powers.g2 = g2;
        self.pot_pubkey = pot_pubkey;
        self.bls_signature = bls_signature;
        Ok(())
    }

    /// Checks that every point lies in its prime-order subgroup; the first
    /// refused point is reported.
    pub fn validate(&mut self) -> (r: Result<(), CeremonyError>)
        ensures
            r == validate_contribution_spec(*old(self)),
            *final(self) == *old(self),
    {
        validate_g1(self.powers.g1.as_slice())?;
        validate_g2(self.powers.g2.as_slice())?;
        let key = [self.pot_pubkey];
        assert(key@ =~= seq![self.pot_pubkey]);
        validate_g2(&key)
    }
}

/// One contribution per sub-ceremony, all from the same participant, and the
/// participant's Ethereum signature over their public keys.
#[derive(Clone, PartialEq, Eq, Debug)]
pub struct BatchContribution {
    pub contributions: Vec<Contribution>,
    pub ecdsa_signature: EcdsaSignature,
}

/// One sub-ceremony's entry in the typed data that an Ethereum signature covers.
#[derive(Clone, Debug)]
pub struct PubkeyTypedData {
    pub num_g1_powers: usize,
    pub num_g2_powers: usize,
    pub pot_pubkey: G2,
}

/// The public keys of a batch, as an Ethereum signature covers them.
#[derive(Clone, Debug)]
pub struct ContributionTypedData {
    pub pot_pubkeys: Vec<PubkeyTypedData>,
}

/// The typed-data entry of one contribution: its sizes and public key.
pub open spec fn pubkey_entry(c: Contribution) -> PubkeyTypedData {
    PubkeyTypedData {
        num_g1_powers: c.powers.g1@.len() as usize,
        num_g2_powers: c.powers.g2@.len() as usize,
        pot_pubkey: c.pot_pubkey,
    }
}

pub open spec fn batch_pubkeys(cs: Seq<Contribution>) -> Seq<PubkeyTypedData> {
    cs.map_values(|c: Contribution| pubkey_entry(c))
}

impl ContributionTypedData {
    /// The sizes and public key of each contribution of the batch, in order.
    pub fn from_batch(batch: &BatchContribution) -> (r: ContributionTypedData)
        ensures
            r.pot_pubkeys@ == batch_pubkeys(batch.contributions@),
    {
        let mut pot_pubkeys: Vec<PubkeyTypedData> = Vec::new();
        let mut i: usize = 0;
        while i < batch.contributions.len()
            invariant
                i <= batch.contributions@.len(),
                pot_pubkeys@ == batch_pubkeys(batch.contributions@.take(i as int)),
            decreases batch.contributions@.len() - i,
        {
            let c = &batch.contributions[i];
            pot_pubkeys.push(
                PubkeyTypedData {
                    num_g1_powers: c.powers.g1.len(),
                    num_g2_powers: c.powers.g2.len(),
                    pot_pubkey: c.pot_pubkey,
                },
            );
            i += 1;
            assert(pot_pubkeys@ =~= batch_pubkeys(batch.contributions@.take(i as int)));
        }
        assert(batch.contributions@.take(i as int) =~= batch.contributions@);
        ContributionTypedData { pot_pubkeys }
    }
}

} // verus!
