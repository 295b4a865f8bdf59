use bls12_381::{G2Affine, Scalar};
use kzg_ceremony::group::{Tau, F, G2};
use kzg_ceremony::signature::{verify_signature, BlsSignature};

fn pubkey(t: &Tau) -> G2 {
    let s = Scalar::from_bytes(&t.0).unwrap();
    G2(G2Affine::from(G2Affine::generator() * s).to_compressed())
}

#[test]
fn test_bls_prune_after_encode() {
    for (seed, msg) in [(1u8, ""), (2, "hello"), (250, "git|1|a"), (77, "eth|0x00")] {
        let bytes = msg.as_bytes();
        let tau = F::generate_tau(&[seed; 64]);
        let signed = BlsSignature::sign(bytes, &tau);
        assert!(signed.0.is_some());
        let recovered = signed.prune(bytes, pubkey(&tau));
        assert_eq!(signed, recovered);
    }
}

#[test]
fn test_bls_prune_wrong_msg() {
    let message = b"git|1234|foobar";
    let wrong_msg = b"git|4567|bazbaz";
    let tau = F::one();
    let signed = BlsSignature::sign(message, &tau);
    assert!(signed.0.is_some());
    let recovered = signed.prune(wrong_msg, pubkey(&tau));
    assert_eq!(recovered, BlsSignature(None));
}

#[test]
fn test_bls_prune_wrong_sig() {
    let message = b"git|1234|foobar";
    let tau = F::generate_tau(&[11; 64]);
    let wrong_tau = F::generate_tau(&[12; 64]);
    let signed = BlsSignature::sign(message, &tau);
    assert!(signed.0.is_some());
    let recovered = signed.prune(message, pubkey(&wrong_tau));
    assert_eq!(recovered, BlsSignature(None));
}

#[test]
fn prune_twice_is_prune_once() {
    let message = b"git|1234|foobar";
    let tau = F::generate_tau(&[5; 64]);
    let signed = BlsSignature::sign(message, &tau);
    let good = signed.prune(message, pubkey(&tau));
    assert_eq!(good.prune(message, pubkey(&tau)), good);
    let bad = signed.prune(b"other", pubkey(&tau));
    assert_eq!(bad.prune(b"other", pubkey(&tau)), bad);
    assert_eq!(BlsSignature::empty().prune(message, pubkey(&tau)), BlsSignature(None));
}

#[test]
fn sign_then_verify() {
    let tau = F::generate_tau(&[42; 64]);
    let signed = BlsSignature::sign(b"abc", &tau);
    let sig = signed.0.unwrap();
    assert!(verify_signature(&sig, b"abc", &pubkey(&tau)));
    assert!(!verify_signature(&sig, b"abd", &pubkey(&tau)));
    assert!(!verify_signature(&sig, b"abc", &G2::one()));
}

#[test]
fn sign_is_deterministic_and_scaled() {
    let a = BlsSignature::sign(b"m", &F::generate_tau(&[3; 64]));
    let b = BlsSignature::sign(b"m", &F::generate_tau(&[3; 64]));
    assert_eq!(a, b);
    let c = BlsSignature::sign(b"m", &F::generate_tau(&[4; 64]));
    assert_ne!(a, c);
}
