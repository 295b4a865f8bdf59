use kzg_ceremony::ecdsa::EcdsaSignature;
use kzg_ceremony::contribution::{BatchContribution, Contribution};
use kzg_ceremony::group::{CeremonyError, CurveError, F, G1, G2};
use kzg_ceremony::identity::Identity;
use kzg_ceremony::signature::BlsSignature;
use kzg_ceremony::transcript::{verify_contribution, BatchTranscript};

fn sizes() -> Vec<(usize, usize)> {
    vec![(4, 2), (3, 3)]
}

fn contribute(t: &BatchTranscript, seed: u8, id: &Identity) -> BatchContribution {
    let mut contributions = Vec::new();
    for (k, tr) in t.transcripts.iter().enumerate() {
        let mut c = tr.current.clone();
        c.add_tau(&F::generate_tau(&[seed.wrapping_add(k as u8); 64]), id).unwrap();
        contributions.push(c);
    }
    BatchContribution { contributions, ecdsa_signature: EcdsaSignature::empty() }
}

#[test]
fn transcript_accepts_honest_batches() {
    let mut t = BatchTranscript::new(&sizes());
    assert_eq!(t.transcripts.len(), 2);
    let alice = Identity::Github { id: 1, username: "alice".to_string() };
    let batch = contribute(&t, 10, &alice);
    assert_eq!(t.verify_add(&batch, alice.clone()), Ok(()));
    assert_eq!(t.participant_ids, vec![alice]);
    assert_eq!(t.transcripts[0].current, batch.contributions[0]);
    assert_eq!(t.transcripts[1].pot_pubkeys, vec![batch.contributions[1].pot_pubkey]);
    assert!(t.transcripts[0].current.has_entropy());

    let bob = Identity::Ethereum { address: [7; 20] };
    let batch2 = contribute(&t, 50, &bob);
    assert_eq!(t.verify_add(&batch2, bob.clone()), Ok(()));
    assert_eq!(t.transcripts[0].pot_pubkeys.len(), 2);
    assert_eq!(t.transcripts[0].bls_signatures[1], batch2.contributions[0].bls_signature);
    assert_eq!(t.participant_ids.len(), 2);
}

#[test]
fn transcript_rejects_whole_batch() {
    let mut t = BatchTranscript::new(&sizes());
    let alice = Identity::Github { id: 1, username: "alice".to_string() };
    let mut batch = contribute(&t, 10, &alice);
    let before = t.clone();

    // signed for someone else
    let mallory = Identity::Github { id: 2, username: "mallory".to_string() };
    assert_eq!(t.verify_add(&batch, mallory), Err(CeremonyError::BadBlsSignature));
    assert_eq!(t, before);

    // second sub-ceremony unsigned
    batch.contributions[1].bls_signature = BlsSignature::empty();
    assert_eq!(t.verify_add(&batch, alice.clone()), Err(CeremonyError::BadBlsSignature));
    assert_eq!(t, before);

    // wrong number of contributions
    let short = BatchContribution {
        contributions: vec![batch.contributions[0].clone()],
        ecdsa_signature: EcdsaSignature::empty(),
    };
    assert_eq!(t.verify_add(&short, alice.clone()), Err(CeremonyError::UnexpectedNumContributions));

    // a power that is not the next power of the secret
    let mut bad = contribute(&t, 10, &alice);
    bad.contributions[0].powers.g1.swap(2, 3);
    assert_eq!(t.verify_add(&bad, alice.clone()), Err(CeremonyError::PowersMismatch));

    // a public key that does not match the powers
    let mut bad = contribute(&t, 10, &alice);
    bad.contributions[1].pot_pubkey = bad.contributions[0].pot_pubkey;
    assert_eq!(t.verify_add(&bad, alice.clone()), Err(CeremonyError::BadPubkey));

    // a point that does not decode
    let mut bad = contribute(&t, 10, &alice);
    bad.contributions[0].powers.g1[1] = G1([0u8; 48]);
    assert_eq!(
        t.verify_add(&bad, alice),
        Err(CeremonyError::InvalidG1Power(1, CurveError::BadEncoding))
    );
    assert_eq!(t, before);
}

#[test]
fn verify_rejects_size_change_and_entropy_free() {
    let t = BatchTranscript::new(&sizes());
    let id = Identity::Anonymous;
    let old = &t.transcripts[0].current;
    let mut grown = Contribution {
        powers: kzg_ceremony::contribution::Powers::new(5, 2),
        pot_pubkey: G2::one(),
        bls_signature: BlsSignature::empty(),
    };
    assert_eq!(verify_contribution(old, &grown, b""), Err(CeremonyError::PowersMismatch));
    grown.add_tau(&F::generate_tau(&[1; 64]), &id).unwrap();
    assert_eq!(verify_contribution(old, &grown, b""), Err(CeremonyError::PowersMismatch));
    // the unchanged transcript is no contribution: it carries no signature
    assert_eq!(verify_contribution(old, old, b""), Err(CeremonyError::BadBlsSignature));
}
