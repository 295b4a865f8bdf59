use ethers_core::k256::ecdsa::SigningKey;
use ethers_core::types::transaction::eip712::{Eip712, TypedData};
use kzg_ceremony::contribution::{BatchContribution, Contribution, ContributionTypedData, Powers};
use kzg_ceremony::ecdsa::EcdsaSignature;
use kzg_ceremony::group::{F, G2};
use kzg_ceremony::identity::Identity;
use kzg_ceremony::signature::BlsSignature;
use kzg_ceremony::transcript::BatchTranscript;

fn typed_data() -> ContributionTypedData {
    let mut a = Contribution {
        powers: Powers::new(4, 2),
        pot_pubkey: G2::one(),
        bls_signature: BlsSignature::empty(),
    };
    a.add_tau(&F::generate_tau(&[8; 64]), &Identity::Anonymous).unwrap();
    let b = Contribution {
        powers: Powers::new(3, 2),
        pot_pubkey: G2::one(),
        bls_signature: BlsSignature::empty(),
    };
    ContributionTypedData::from_batch(&BatchContribution { contributions: vec![a, b], ecdsa_signature: EcdsaSignature::empty() })
}

fn sign(key: &SigningKey, data: &ContributionTypedData) -> [u8; 65] {
    let typed: TypedData = serde_json::from_str(&data.to_json()).unwrap();
    let digest = typed.encode_eip712().unwrap();
    let (sig, recid) = key.sign_prehash_recoverable(&digest).unwrap();
    let mut out = [0u8; 65];
    out[..64].copy_from_slice(&sig.to_bytes());
    out[64] = 27 + recid.to_byte();
    out
}

fn key(seed: u8) -> SigningKey {
    SigningKey::from_bytes((&[seed; 32]).into()).unwrap()
}

#[test]
fn typed_data_json_is_eip712() {
    let data = typed_data();
    let json: serde_json::Value = serde_json::from_str(&data.to_json()).unwrap();
    assert_eq!(json["primaryType"], "PoTPubkeys");
    assert_eq!(json["domain"]["name"], "Ethereum KZG Ceremony");
    assert_eq!(json["domain"]["version"], "1.0");
    assert_eq!(json["domain"]["chainId"], 1);
    let keys = json["message"]["potPubkeys"].as_array().unwrap();
    assert_eq!(keys.len(), 2);
    assert_eq!(keys[0]["numG1Powers"], 4);
    assert_eq!(keys[1]["numG1Powers"], 3);
    assert_eq!(keys[1]["numG2Powers"], 2);
    assert_eq!(keys[1]["potPubkey"], format!("0x{}", hex::encode(G2::one().0)));
    assert!(serde_json::from_str::<TypedData>(&data.to_json()).is_ok());
    let empty = ContributionTypedData { pot_pubkeys: vec![] };
    assert!(empty.to_json().ends_with("\"message\":{\"potPubkeys\":[]}}"));
}

#[test]
fn ecdsa_prune_keeps_valid_signature() {
    let data = typed_data();
    let k = key(3);
    let address = ethers_core::utils::secret_key_to_address(&k);
    let id = Identity::Ethereum { address: address.0 };
    let sig = EcdsaSignature(Some(sign(&k, &data)));
    let kept = sig.prune(&id, &data);
    assert_eq!(kept, sig);
    assert_eq!(kept.prune(&id, &data), kept);
}

#[test]
fn ecdsa_prune_drops_invalid_signature() {
    let data = typed_data();
    let k = key(3);
    let sig = EcdsaSignature(Some(sign(&k, &data)));
    // another address
    let other = ethers_core::utils::secret_key_to_address(&key(4));
    assert_eq!(sig.prune(&Identity::Ethereum { address: other.0 }, &data), EcdsaSignature(None));
    // not an Ethereum identity
    let git = Identity::Github { id: 1, username: "a".to_string() };
    assert_eq!(sig.prune(&git, &data), EcdsaSignature(None));
    // other data
    let address = ethers_core::utils::secret_key_to_address(&k);
    let id = Identity::Ethereum { address: address.0 };
    let other_data = ContributionTypedData { pot_pubkeys: vec![] };
    assert_eq!(sig.prune(&id, &other_data), EcdsaSignature(None));
    // absent stays absent; no digest prunes
    assert_eq!(EcdsaSignature::empty().prune(&id, &data), EcdsaSignature(None));
    assert_eq!(sig.prune_with_digest(&id, None), EcdsaSignature(None));
}

#[test]
fn transcript_records_pruned_ecdsa_signature() {
    let mut t = BatchTranscript::new(&vec![(3, 2)]);
    let k = key(9);
    let address = ethers_core::utils::secret_key_to_address(&k);
    let id = Identity::Ethereum { address: address.0 };
    let mut c = t.transcripts[0].current.clone();
    c.add_tau(&F::generate_tau(&[2; 64]), &id).unwrap();
    let mut batch = BatchContribution { contributions: vec![c], ecdsa_signature: EcdsaSignature::empty() };
    let sig = sign(&k, &ContributionTypedData::from_batch(&batch));
    batch.ecdsa_signature = EcdsaSignature(Some(sig));
    assert_eq!(t.verify_add(&batch, id), Ok(()));
    assert_eq!(t.participant_ecdsa_signatures, vec![EcdsaSignature(Some(sig))]);

    // the next participant presents a signature by someone else: kept out, batch accepted
    let other = Identity::Ethereum { address: ethers_core::utils::secret_key_to_address(&key(10)).0 };
    let mut c = t.transcripts[0].current.clone();
    c.add_tau(&F::generate_tau(&[3; 64]), &other).unwrap();
    let mut batch = BatchContribution { contributions: vec![c], ecdsa_signature: EcdsaSignature::empty() };
    batch.ecdsa_signature = EcdsaSignature(Some(sign(&k, &ContributionTypedData::from_batch(&batch))));
    assert_eq!(t.verify_add(&batch, other), Ok(()));
    assert_eq!(t.participant_ecdsa_signatures[1], EcdsaSignature(None));
    assert_eq!(t.participant_ids.len(), 2);
}
