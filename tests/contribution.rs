use kzg_ceremony::ecdsa::EcdsaSignature;
use bls12_381::{G1Affine, G2Affine};
use kzg_ceremony::contribution::{BatchContribution, Contribution, ContributionTypedData, Powers};
use kzg_ceremony::group::{add_tau_g1, add_tau_g2, CeremonyError, CurveError, Tau, F, G1, G2};
use kzg_ceremony::identity::Identity;
use kzg_ceremony::signature::{verify_signature, BlsSignature};

/// A curve point outside the prime-order subgroup.
fn invalid_g1() -> G1 {
    for x in 1u8..=255 {
        let mut b = [0u8; 48];
        b[0] = 0x80;
        b[47] = x;
        if bool::from(G1Affine::from_compressed_unchecked(&b).is_some())
            && bool::from(G1Affine::from_compressed(&b).is_none())
        {
            return G1(b);
        }
    }
    panic!("no point found");
}

fn invalid_g2() -> G2 {
    for x in 1u8..=255 {
        let mut b = [0u8; 96];
        b[0] = 0x80;
        b[95] = x;
        if bool::from(G2Affine::from_compressed_unchecked(&b).is_some())
            && bool::from(G2Affine::from_compressed(&b).is_none())
        {
            return G2(b);
        }
    }
    panic!("no point found");
}

fn valid_contribution() -> Contribution {
    Contribution {
        powers: Powers { g1: vec![G1::one()], g2: vec![G2::one()] },
        pot_pubkey: G2::one(),
        bls_signature: BlsSignature::empty(),
    }
}

fn invalid_g1_contribution() -> Contribution {
    Contribution {
        powers: Powers { g1: vec![invalid_g1()], g2: vec![G2::one()] },
        pot_pubkey: G2::one(),
        bls_signature: BlsSignature::empty(),
    }
}

fn invalid_g2_contribution() -> Contribution {
    Contribution {
        powers: Powers { g1: vec![G1::one()], g2: vec![invalid_g2()] },
        pot_pubkey: G2::one(),
        bls_signature: BlsSignature::empty(),
    }
}

fn invalid_pot_pubkey_contribution() -> Contribution {
    Contribution {
        powers: Powers { g1: vec![G1::one()], g2: vec![G2::one()] },
        pot_pubkey: invalid_g2(),
        bls_signature: BlsSignature::empty(),
    }
}

fn tau(seed: u8) -> Tau {
    F::generate_tau(&[seed; 64])
}

#[test]
fn test_validate() {
    assert!(matches!(
        invalid_g1_contribution().validate(),
        Err(CeremonyError::InvalidG1Power(_, _))
    ));
    assert!(matches!(
        invalid_g2_contribution().validate(),
        Err(CeremonyError::InvalidG2Power(_, _))
    ));
    assert!(matches!(
        invalid_pot_pubkey_contribution().validate(),
        Err(CeremonyError::InvalidG2Power(_, _))
    ));
    assert!(valid_contribution().validate().is_ok());
}

#[test]
fn validate_reports_subgroup_failure() {
    assert_eq!(
        invalid_g1_contribution().validate(),
        Err(CeremonyError::InvalidG1Power(0, CurveError::NotInSubgroup))
    );
    let mut c = valid_contribution();
    c.powers.g1.push(G1([0u8; 48]));
    assert_eq!(c.validate(), Err(CeremonyError::InvalidG1Power(1, CurveError::BadEncoding)));
    let mut off = [0xffu8; 48];
    off[0] = 0x9f;
    let mut c = valid_contribution();
    c.powers.g1 = vec![G1::one(), G1::one(), G1(off)];
    assert_eq!(c.validate(), Err(CeremonyError::InvalidG1Power(2, CurveError::NotOnCurve)));
    assert_eq!(
        invalid_pot_pubkey_contribution().validate(),
        Err(CeremonyError::InvalidG2Power(0, CurveError::NotInSubgroup))
    );
}

#[test]
fn empty_contribution_has_generators() {
    let c = Contribution {
        powers: Powers::new(2, 4),
        pot_pubkey: G2::one(),
        bls_signature: BlsSignature::empty(),
    };
    assert_eq!(c.powers.g1.len(), 2);
    assert_eq!(c.powers.g2.len(), 4);
    assert!(c.powers.g1.iter().all(|p| *p == G1::one()));
    assert!(c.powers.g2.iter().all(|p| *p == G2::one()));
    assert_eq!(
        hex::encode(G1::one().0),
        "97f1d3a73197d7942695638c4fa9ac0fc3688c4f9774b905a14e3a3f171bac586c55e83ff97a1aeffb3af00adb22c6bb"
    );
    assert_eq!(G1::one().0, G1Affine::generator().to_compressed());
    assert_eq!(G2::one().0, G2Affine::generator().to_compressed());
    assert!(!c.has_entropy());
    assert_eq!(c.bls_signature, BlsSignature(None));
}

#[test]
fn add_tau_then_validate() {
    let mut c = Contribution {
        powers: Powers::new(4, 3),
        pot_pubkey: G2::one(),
        bls_signature: BlsSignature::empty(),
    };
    let t = tau(7);
    let id = Identity::Github { id: 1234, username: "foobar".to_string() };
    assert_eq!(c.add_tau(&t, &id), Ok(()));
    assert!(c.has_entropy());
    assert!(c.validate().is_ok());
    let s = bls12_381::Scalar::from_bytes(&t.0).unwrap();
    assert_eq!(c.pot_pubkey.0, G2Affine::from(G2Affine::generator() * s).to_compressed());
    assert_eq!(c.powers.g1[0], G1::one());
    assert_eq!(c.powers.g1[1].0, G1Affine::from(G1Affine::generator() * s).to_compressed());
    assert_eq!(c.powers.g1[3].0, G1Affine::from(G1Affine::generator() * (s * s * s)).to_compressed());
    assert_eq!(c.powers.g2[2].0, G2Affine::from(G2Affine::generator() * (s * s)).to_compressed());
    let msg = id.to_string();
    let sig = c.bls_signature.0.expect("signed");
    assert!(verify_signature(&sig, msg.as_bytes(), &c.pot_pubkey));

    let before = c.pot_pubkey;
    let t2 = tau(9);
    assert_eq!(c.add_tau(&t2, &id), Ok(()));
    let s2 = bls12_381::Scalar::from_bytes(&t2.0).unwrap();
    let expected = G2Affine::from_compressed(&before.0).unwrap() * s2;
    assert_eq!(c.pot_pubkey.0, G2Affine::from(expected).to_compressed());
    assert!(c.validate().is_ok());
}

#[test]
fn add_tau_refuses_undecodable_point() {
    let mut c = valid_contribution();
    c.powers.g1.push(G1([0u8; 48]));
    let before = c.clone();
    let r = c.add_tau(&tau(3), &Identity::Anonymous);
    assert_eq!(r, Err(CeremonyError::InvalidG1Power(1, CurveError::NotOnCurve)));
    assert_eq!(c, before);
}

#[test]
fn typed_data_lists_pubkeys() {
    let mut a = valid_contribution();
    a.add_tau(&tau(1), &Identity::Anonymous).unwrap();
    let b = Contribution {
        powers: Powers::new(3, 2),
        pot_pubkey: G2::one(),
        bls_signature: BlsSignature::empty(),
    };
    let batch = BatchContribution { contributions: vec![a.clone(), b], ecdsa_signature: EcdsaSignature::empty() };
    let t = ContributionTypedData::from_batch(&batch);
    assert_eq!(t.pot_pubkeys.len(), 2);
    assert_eq!(t.pot_pubkeys[0].num_g1_powers, 1);
    assert_eq!(t.pot_pubkeys[0].pot_pubkey, a.pot_pubkey);
    assert_eq!(t.pot_pubkeys[1].num_g1_powers, 3);
    assert_eq!(t.pot_pubkeys[1].num_g2_powers, 2);
}

#[test]
fn scalar_from_bytes_checks_canonical() {
    assert!(F::from_bytes([0xff; 32]).is_none());
    let mut one = [0u8; 32];
    one[0] = 1;
    assert_eq!(F::from_bytes(one), Some(F::one()));
    assert_eq!(F::one().0, one);
}

#[test]
fn add_tau_in_place_powers() {
    let t = tau(21);
    let s = bls12_381::Scalar::from_bytes(&t.0).unwrap();
    let mut g1 = vec![G1::one(); 3];
    assert_eq!(add_tau_g1(&t, &mut g1), Ok(()));
    assert_eq!(g1[0], G1::one());
    assert_eq!(g1[2].0, G1Affine::from(G1Affine::generator() * (s * s)).to_compressed());
    let mut g2 = vec![G2::one(); 2];
    assert_eq!(add_tau_g2(&t, &mut g2), Ok(()));
    assert_eq!(g2[1].0, G2Affine::from(G2Affine::generator() * s).to_compressed());
    let mut bad = vec![G2::one(), G2([0u8; 96])];
    assert_eq!(add_tau_g2(&t, &mut bad), Err(CeremonyError::InvalidG2Power(1, CurveError::NotOnCurve)));
    assert_eq!(bad[0], G2::one());
    let mut empty: Vec<G1> = Vec::new();
    assert_eq!(add_tau_g1(&t, &mut empty), Ok(()));
}
