//! The transcript: per sub-ceremony, the current contribution and the
//! witness chain of public keys and signatures, one entry per contributor.
//! A batch is checked against it in full before anything is appended.

use vstd::prelude::*;
use crate::contribution::{
    batch_pubkeys, identity_message, same_contribution, validate_contribution_spec,
    ContributionTypedData, BatchContribution, Contribution, Powers,
};
use crate::group::{
    pairings_equal, pairings_match, validate_g1, validate_g2, CeremonyError, G1, G2, hash_g1,
    hash_to_curve_g1,
};
use crate::ecdsa::{ecdsa_prune_spec, eip712_of, typed_data_json, EcdsaSignature};
use crate::identity::Identity;
use crate::signature::BlsSignature;

verus! {

/// Sizes agree with the current powers, and there are at least two of each.
pub open spec fn sizes_match(old: Contribution, new: Contribution) -> bool {
    &&& new.powers.g1@.len() == old.powers.g1@.len()
    &&& new.powers.g2@.len() == old.powers.g2@.len()
    &&& old.powers.g1@.len() >= 2
    &&& old.powers.g2@.len() >= 2
}

/// `e(g1[i+1], G2) == e(g1[i], g2[1])`: one more factor of the secret.
pub open spec fn g1_step(c: Contribution, i: int) -> bool {
    pairings_equal(c.powers.g1@[i + 1].0@, G2::one_bytes(), c.powers.g1@[i].0@, c.powers.g2@[1].0@)
}

/// `e(G1, g2[j+1]) == e(g1[1], g2[j])`.
pub open spec fn g2_step(c: Contribution, j: int) -> bool {
    pairings_equal(G1::one_bytes(), c.powers.g2@[j + 1].0@, c.powers.g1@[1].0@, c.powers.g2@[j].0@)
}

/// The powers start at the generators and each is the previous one times the
/// same secret.
pub open spec fn powers_consistent(c: Contribution) -> bool {
    &&& c.powers.g1@[0].0@ == G1::one_bytes()
    &&& c.powers.g2@[0].0@ == G2::one_bytes()
    &&& forall|i: int| 0 <= i < c.powers.g1@.len() - 1 ==> #[trigger] g1_step(c, i)
    &&& forall|j: int| 0 <= j < c.powers.g2@.len() - 1 ==> #[trigger] g2_step(c, j)
}

/// The public key is the secret times the G2 generator, and it grew from the
/// old one by the same factor as the first G1 power.
pub open spec fn pubkey_consistent(old: Contribution, new: Contribution) -> bool {
    &&& pairings_equal(
        new.powers.g1@[1].0@,
        G2::one_bytes(),
        G1::one_bytes(),
        new.pot_pubkey.0@,
    )
    &&& pairings_equal(
        new.powers.g1@[1].0@,
        old.pot_pubkey.0@,
        old.powers.g1@[1].0@,
        new.pot_pubkey.0@,
    )
}

/// The signature is present and was made with the factor by which the public
/// key grew: `e(sig, old_pk) == e(H(msg), new_pk)`.
pub open spec fn signature_binds(old: Contribution, new: Contribution, msg: Seq<u8>) -> bool {
    match new.bls_signature.0 {
        Some(sig) => pairings_equal(sig.0@, old.pot_pubkey.0@, hash_g1(msg), new.pot_pubkey.0@),
        None => false,
    }
}

/// The checks on one contribution against the current one, in order; the
/// first that fails gives the error.
pub open spec fn verify_spec(old: Contribution, new: Contribution, msg: Seq<u8>) -> Result<
    (),
    CeremonyError,
> {
    match validate_contribution_spec(new) {
        Err(e) => Err(e),
        Ok(_) => if !sizes_match(old, new) {
            Err(CeremonyError::PowersMismatch)
        } else if !powers_consistent(new) {
            Err(CeremonyError::PowersMismatch)
        } else if !pubkey_consistent(old, new) {
            Err(CeremonyError::BadPubkey)
        } else if !signature_binds(old, new, msg) {
            Err(CeremonyError::BadBlsSignature)
        } else {
            Ok(())
        },
    }
}

/// Checks `new` as the successor of `old`, signed over `msg`.
pub fn verify_contribution(old: &Contribution, new: &Contribution, msg: &[u8]) -> (r: Result<
    (),
    CeremonyError,
>)
    ensures
        r == verify_spec(*old, *new, msg@),
{
    match validate_g1(new.powers.g1.as_slice()) {
        Err(e) => return Err(e),
        Ok(()) => {},
    }
    match validate_g2(new.powers.g2.as_slice()) {
        Err(e) => return Err(e),
        Ok(()) => {},
    }
    let key = [new.pot_pubkey];
    assert(key@ =~= seq![new.pot_pubkey]);
    match validate_g2(&key) {
        Err(e) => return Err(e),
        Ok(()) => {},
    }
    assert(validate_contribution_spec(*new) is Ok);
    let n1 = new.powers.g1.len();
    let n2 = new.powers.g2.len();
    if n1 != old.powers.g1.len() || n2 != old.powers.g2.len() || n1 < 2 || n2 < 2 {
        return Err(CeremonyError::PowersMismatch);
    }
    let g1_one = G1::one();
    let g2_one = G2::one();
    if !(new.powers.g1[0] == g1_one) || !(new.powers.g2[0] == g2_one) {
        assert(!powers_consistent(*new));
        return Err(CeremonyError::PowersMismatch);
    }
    let mut i: usize = 0;
    while i + 1 < n1
        invariant
            n1 == new.powers.g1@.len(),
            n2 == new.powers.g2@.len(),
            n2 >= 2,
            i < n1,
            g2_one.0@ == G2::one_bytes(),
            validate_contribution_spec(*new) is Ok,
            sizes_match(*old, *new),
            forall|k: int| 0 <= k < i ==> #[trigger] g1_step(*new, k),
        decreases n1 - i,
    {
        if !pairings_match(&new.powers.g1[i + 1], &g2_one, &new.powers.g1[i], &new.powers.g2[1]) {
            assert(!g1_step(*new, i as int));
            assert(!powers_consistent(*new));
            return Err(CeremonyError::PowersMismatch);
        }
        i += 1;
    }
    let mut j: usize = 0;
    while j + 1 < n2
        invariant
            n1 == new.powers.g1@.len(),
            n2 == new.powers.g2@.len(),
            n1 >= 2,
            j < n2,
            g1_one.0@ == G1::one_bytes(),
            g2_one.0@ == G2::one_bytes(),
            validate_contribution_spec(*new) is Ok,
            sizes_match(*old, *new),
            new.powers.g1@[0].0@ == G1::one_bytes(),
            new.powers.g2@[0].0@ == G2::one_bytes(),
            forall|k: int| 0 <= k < n1 - 1 ==> #[trigger] g1_step(*new, k),
            forall|k: int| 0 <= k < j ==> #[trigger] g2_step(*new, k),
        decreases n2 - j,
    {
        if !pairings_match(&g1_one, &new.powers.g2[j + 1], &new.powers.g1[1], &new.powers.g2[j]) {
            assert(!g2_step(*new, j as int));
            assert(!powers_consistent(*new));
            return Err(CeremonyError::PowersMismatch);
        }
        j += 1;
    }
    if !pairings_match(&new.powers.g1[1], &g2_one, &g1_one, &new.pot_pubkey) || !pairings_match(
        &new.powers.g1[1],
        &old.pot_pubkey,
        &old.powers.g1[1],
        &new.pot_pubkey,
    ) {
        return Err(CeremonyError::BadPubkey);
    }
    match new.bls_signature.0 {
        Some(sig) => {
            let h = hash_to_curve_g1(msg);
            if pairings_match(&sig, &old.pot_pubkey, &h, &new.pot_pubkey) {
                Ok(())
            } else {
                Err(CeremonyError::BadBlsSignature)
            }
        },
        None => Err(CeremonyError::BadBlsSignature),
    }
}

fn copy_g1s(v: &Vec<G1>) -> (r: Vec<G1>)
    ensures
        r@ == v@,
{
    let mut r: Vec<G1> = Vec::new();
    let mut i: usize = 0;
    while i < v.len()
        invariant
            i <= v.len(),
            r@ == v@.take(i as int),
        decreases v.len() - i,
    {
        r.push(v[i]);
        i += 1;
        assert(r@ =~= v@.take(i as int));
    }
    assert(v@.take(i as int) =~= v@);
    r
}

fn copy_g2s(v: &Vec<G2>) -> (r: Vec<G2>)
    ensures
        r@ == v@,
{
    let mut r: Vec<G2> = Vec::new();
    let mut i: usize = 0;
    while i < v.len()
        invariant
            i <= v.len(),
            r@ == v@.take(i as int),
        decreases v.len() - i,
    {
        r.push(v[i]);
        i += 1;
        assert(r@ =~= v@.take(i as int));
    }
    assert(v@.take(i as int) =~= v@);
    r
}

fn copy_signatures(v: &Vec<BlsSignature>) -> (r: Vec<BlsSignature>)
    ensures
        r@ == v@,
{
    let mut r: Vec<BlsSignature> = Vec::new();
    let mut i: usize = 0;
    while i < v.len()
        invariant
            i <= v.len(),
            r@ == v@.take(i as int),
        decreases v.len() - i,
    {
        r.push(v[i]);
        i += 1;
        assert(r@ =~= v@.take(i as int));
    }
    assert(v@.take(i as int) =~= v@);
    r
}

/// A contribution with the same points and signature.
pub fn copy_contribution(c: &Contribution) -> (r: Contribution)
    ensures
        same_contribution(r, *c),
{
    let r = Contribution {
        powers: Powers { g1: copy_g1s(&c.powers.g1), g2: copy_g2s(&c.powers.g2) },
        pot_pubkey: c.pot_pubkey,
        bls_signature: c.bls_signature,
    };
    r
}

/// One sub-ceremony: its current contribution and its witness chain.
#[derive(Clone, Debug, PartialEq, Eq)]
pub struct Transcript {
    pub current: Contribution,
    pub pot_pubkeys: Vec<G2>,
    pub bls_signatures: Vec<BlsSignature>,
}

impl Transcript {
    /// The transcript before anyone contributed: generators everywhere and an
    /// empty witness chain.
    pub fn new(n1: usize, n2: usize) -> (r: Transcript)
        ensures
            r.current.powers.g1@.len() == n1,
            r.current.powers.g2@.len() == n2,
            r.current.pot_pubkey.0@ == G2::one_bytes(),
            r.current.bls_signature.0 is None,
            r.pot_pubkeys@.len() == 0,
            r.bls_signatures@.len() == 0,
    {
        Transcript {
            current: Contribution {
                powers: Powers::new(n1, n2),
                pot_pubkey: G2::one(),
                bls_signature: BlsSignature::empty(),
            },
            pot_pubkeys: Vec::new(),
            bls_signatures: Vec::new(),
        }
    }

    /// The witness chain runs in lockstep.
    pub open spec fn wf(&self) -> bool {
        self.pot_pubkeys@.len() == self.bls_signatures@.len()
    }
}

/// `new` is `old` with `c` as its current contribution and one more entry in
/// its witness chain.
pub open spec fn transcript_appended(new: Transcript, old: Transcript, c: Contribution) -> bool {
    &&& same_contribution(new.current, c)
    &&& new.pot_pubkeys@ == old.pot_pubkeys@.push(c.pot_pubkey)
    &&& new.bls_signatures@ == old.bls_signatures@.push(c.bls_signature)
}

/// All sub-ceremonies, and the participants in the order they contributed.
#[derive(Clone, Debug, PartialEq, Eq)]
pub struct BatchTranscript {
    pub transcripts: Vec<Transcript>,
    pub participant_ids: Vec<Identity>,
    /// Each participant's Ethereum signature, pruned when it did not verify.
    pub participant_ecdsa_signatures: Vec<EcdsaSignature>,
}

/// Every contribution of the batch is a valid successor of its sub-ceremony.
pub open spec fn batch_ok(ts: Seq<Transcript>, batch: Seq<Contribution>, msg: Seq<u8>) -> bool {
    &&& batch.len() == ts.len()
    &&& forall|k: int| 0 <= k < ts.len() ==> #[trigger] verify_spec(ts[k].current, batch[k], msg) is Ok
}

impl BatchTranscript {
    /// Every witness chain runs in lockstep.
    pub open spec fn wf(&self) -> bool {
        forall|k: int| 0 <= k < self.transcripts@.len() ==> (#[trigger] self.transcripts@[k]).wf()
    }

    /// Checks every contribution of the batch against its sub-ceremony, in
    /// order; the first failure is returned.
    pub fn verify_batch(&self, batch: &BatchContribution, msg: &[u8]) -> (r: Result<(), CeremonyError>)
        ensures
            r is Ok <==> batch_ok(self.transcripts@, batch.contributions@, msg@),
    {
        let n = self.transcripts.len();
        if batch.contributions.len() != n {
            return Err(CeremonyError::UnexpectedNumContributions);
        }
        let mut k: usize = 0;
        while k < n
            invariant
                n == self.transcripts@.len(),
                n == batch.contributions@.len(),
                k <= n,
                forall|i: int|
                    0 <= i < k ==> #[trigger] verify_spec(
                        self.transcripts@[i].current,
                        batch.contributions@[i],
                        msg@,
                    ) is Ok,
            decreases n - k,
        {
            match verify_contribution(&self.transcripts[k].current, &batch.contributions[k], msg) {
                Ok(()) => {},
                Err(e) => {
                    assert(verify_spec(self.transcripts@[k as int].current, batch.contributions@[k as int], msg@) is Err);
                    return Err(e);
                },
            }
            k += 1;
        }
        Ok(())
    }

    /// A fresh transcript with one sub-ceremony per `(n1, n2)` size.
    pub fn new(sizes: &Vec<(usize, usize)>) -> (r: BatchTranscript)
        ensures
            r.transcripts@.len() == sizes@.len(),
            r.participant_ids@.len() == 0,
            r.participant_ecdsa_signatures@.len() == 0,
            r.wf(),
            forall|k: int|
                0 <= k < sizes@.len() ==> {
                    let t = #[trigger] r.transcripts@[k];
                    &&& t.current.powers.g1@.len() == sizes@[k].0
                    &&& t.current.powers.g2@.len() == sizes@[k].1
                    &&& t.current.pot_pubkey.0@ == G2::one_bytes()
                    &&& t.pot_pubkeys@.len() == 0
                    &&& t.bls_signatures@.len() == 0
                },
    {
        let mut transcripts: Vec<Transcript> = Vec::new();
        let mut k: usize = 0;
        while k < sizes.len()
            invariant
                k <= sizes@.len(),
                transcripts@.len() == k,
                forall|i: int|
                    0 <= i < k ==> {
                        let t = #[trigger] transcripts@[i];
                        &&& t.current.powers.g1@.len() == sizes@[i].0
                        &&& t.current.powers.g2@.len() == sizes@[i].1
                        &&& t.current.pot_pubkey.0@ == G2::one_bytes()
                        &&& t.pot_pubkeys@.len() == 0
                        &&& t.bls_signatures@.len() == 0
                    },
            decreases sizes@.len() - k,
        {
            let (n1, n2) = sizes[k];
            transcripts.push(Transcript::new(n1, n2));
            k += 1;
        }
        BatchTranscript {
            transcripts,
            participant_ids: Vec::new(),
            participant_ecdsa_signatures: Vec::new(),
        }
    }

    /// Checks the batch against every sub-ceremony and, only if all pass,
    /// makes each contribution current, extends each witness chain and
    /// records the participant with their Ethereum signature, pruned if it
    /// does not verify. On failure nothing changes.
    pub fn verify_add(&mut self, batch: &BatchContribution, identity: Identity) -> (r: Result<
        (),
        CeremonyError,
    >)
        ensures
            r is Ok <==> batch_ok(
                old(self).transcripts@,
                batch.contributions@,
                identity_message(identity),
            ),
            r is Ok ==> {
                &&& final(self).transcripts@.len() == old(self).transcripts@.len()
                &&& forall|k: int|
                    0 <= k < old(self).transcripts@.len() ==> #[trigger] transcript_appended(
                        final(self).transcripts@[k],
                        old(self).transcripts@[k],
                        batch.contributions@[k],
                    )
                &&& final(self).participant_ids@ == old(self).participant_ids@.push(identity)
                &&& final(self).participant_ecdsa_signatures@
                    == old(self).participant_ecdsa_signatures@.push(
                    ecdsa_prune_spec(
                        batch.ecdsa_signature,
                        identity@,
                        eip712_of(typed_data_json(batch_pubkeys(batch.contributions@))),
                    ),
                )
            },
            r is Err ==> *final(self) == *old(self),
            old(self).wf() ==> final(self).wf(),
    {
        let text = identity.to_string();
        let msg = text.as_str().as_bytes();
        let ghost m = identity_message(identity);
        assert(msg@ == m);
        let n = self.transcripts.len();
        match self.verify_batch(batch, msg) {
            Err(e) => return Err(e),
            Ok(()) => {},
        }
        let ghost before = self.transcripts@;
        assert(before == old(self).transcripts@);
        let mut k: usize = 0;
        while k < n
            invariant
                before == old(self).transcripts@,
                self.participant_ids@ == old(self).participant_ids@,
                self.participant_ecdsa_signatures@ == old(self).participant_ecdsa_signatures@,
                forall|i: int|
                    0 <= i < n ==> #[trigger] verify_spec(
                        before[i].current,
                        batch.contributions@[i],
                        m,
                    ) is Ok,
                n == self.transcripts@.len(),
                n == batch.contributions@.len(),
                n == before.len(),
                k <= n,
                forall|i: int|
                    0 <= i < k ==> #[trigger] transcript_appended(
                        self.transcripts@[i],
                        before[i],
                        batch.contributions@[i],
                    ),
                forall|i: int| k <= i < n ==> #[trigger] self.transcripts@[i] == before[i],
            decreases n - k,
        {
            let c = &batch.contributions[k];
            let mut pot_pubkeys = copy_g2s(&self.transcripts[k].pot_pubkeys);
            pot_pubkeys.push(c.pot_pubkey);
            let mut bls_signatures = copy_signatures(&self.transcripts[k].bls_signatures);
            bls_signatures.push(c.bls_signature);
            let t = Transcript { current: copy_contribution(c), pot_pubkeys, bls_signatures };
            self.transcripts.set(k, t);
            k += 1;
        }
        proof {
            if old(self).wf() {
                assert forall|i: int| 0 <= i < n implies (#[trigger] self.transcripts@[i]).wf() by {
                    assert(transcript_appended(self.transcripts@[i], before[i], batch.contributions@[i]));
                    assert(before[i].wf());
                }
            }
        }
        let typed = ContributionTypedData::from_batch(batch);
        let ecdsa = batch.ecdsa_signature.prune(&identity, &typed);
        self.participant_ecdsa_signatures.push(ecdsa);
        self.participant_ids.push(identity);
        Ok(())
    }
}

} // verus!
