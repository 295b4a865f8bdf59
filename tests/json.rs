use kzg_ceremony::contribution::{Contribution, Powers};
use kzg_ceremony::group::{F, G1, G2};
use kzg_ceremony::identity::Identity;
use kzg_ceremony::signature::BlsSignature;
use serde_json::Value;

fn point<const N: usize>(v: &Value) -> [u8; N] {
    let s = v.as_str().unwrap();
    hex::decode(s.strip_prefix("0x").unwrap()).unwrap().try_into().unwrap()
}

fn from_value(v: &Value) -> Contribution {
    let g1 = v["powersOfTau"]["G1Powers"].as_array().unwrap().iter().map(|p| G1(point(p))).collect();
    let g2 = v["powersOfTau"]["G2Powers"].as_array().unwrap().iter().map(|p| G2(point(p))).collect();
    let sig = match v["blsSignature"].as_str().unwrap() {
        "" => BlsSignature::empty(),
        _ => BlsSignature(Some(G1(point(&v["blsSignature"])))),
    };
    Contribution { powers: Powers { g1, g2 }, pot_pubkey: G2(point(&v["potPubkey"])), bls_signature: sig }
}

#[test]
fn contribution_json() {
    let value = Contribution {
        powers: Powers::new(2, 4),
        pot_pubkey: G2::one(),
        bls_signature: BlsSignature::empty(),
    };
    let json: Value = serde_json::from_str(&value.to_json()).unwrap();
    let expected: Value = serde_json::from_str(
        r#"{
            "numG1Powers": 2,
            "numG2Powers": 4,
            "powersOfTau": {
                "G1Powers": [
                "0x97f1d3a73197d7942695638c4fa9ac0fc3688c4f9774b905a14e3a3f171bac586c55e83ff97a1aeffb3af00adb22c6bb",
                "0x97f1d3a73197d7942695638c4fa9ac0fc3688c4f9774b905a14e3a3f171bac586c55e83ff97a1aeffb3af00adb22c6bb"
                ],
                "G2Powers": [
                "0x93e02b6052719f607dacd3a088274f65596bd0d09920b61ab5da61bbdc7f5049334cf11213945d57e5ac7d055d042b7e024aa2b2f08f0a91260805272dc51051c6e47ad4fa403b02b4510b647ae3d1770bac0326a805bbefd48056c8c121bdb8",
                "0x93e02b6052719f607dacd3a088274f65596bd0d09920b61ab5da61bbdc7f5049334cf11213945d57e5ac7d055d042b7e024aa2b2f08f0a91260805272dc51051c6e47ad4fa403b02b4510b647ae3d1770bac0326a805bbefd48056c8c121bdb8",
                "0x93e02b6052719f607dacd3a088274f65596bd0d09920b61ab5da61bbdc7f5049334cf11213945d57e5ac7d055d042b7e024aa2b2f08f0a91260805272dc51051c6e47ad4fa403b02b4510b647ae3d1770bac0326a805bbefd48056c8c121bdb8",
                "0x93e02b6052719f607dacd3a088274f65596bd0d09920b61ab5da61bbdc7f5049334cf11213945d57e5ac7d055d042b7e024aa2b2f08f0a91260805272dc51051c6e47ad4fa403b02b4510b647ae3d1770bac0326a805bbefd48056c8c121bdb8"
                ]
            },
            "potPubkey": "0x93e02b6052719f607dacd3a088274f65596bd0d09920b61ab5da61bbdc7f5049334cf11213945d57e5ac7d055d042b7e024aa2b2f08f0a91260805272dc51051c6e47ad4fa403b02b4510b647ae3d1770bac0326a805bbefd48056c8c121bdb8",
            "blsSignature": ""
        }"#,
    )
    .unwrap();
    assert_eq!(json, expected);
    let deser = from_value(&json);
    assert_eq!(deser, value);
}

#[test]
fn signed_contribution_json_round_trip() {
    let mut c = Contribution {
        powers: Powers::new(3, 2),
        pot_pubkey: G2::one(),
        bls_signature: BlsSignature::empty(),
    };
    c.add_tau(&F::generate_tau(&[4; 64]), &Identity::Anonymous).unwrap();
    let text = c.to_json();
    assert!(text.starts_with("{\"numG1Powers\":3,\"numG2Powers\":2,"));
    let json: Value = serde_json::from_str(&text).unwrap();
    assert_eq!(json["blsSignature"].as_str().unwrap().len(), 98);
    assert_eq!(from_value(&json), c);
    let empty = Contribution {
        powers: Powers { g1: vec![], g2: vec![] },
        pot_pubkey: G2::one(),
        bls_signature: BlsSignature::empty(),
    };
    assert!(empty.to_json().contains("\"G1Powers\":[],\"G2Powers\":[]"));
}
