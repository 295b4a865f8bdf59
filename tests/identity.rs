use kzg_ceremony::identity::{Identity, IdentityError};
use kzg_ceremony::oauth::dec_to_hex;

#[test]
fn test_none() {
    let identity = Identity::Anonymous;
    assert_eq!(identity.to_string(), "");
    assert_eq!(identity, "".parse().unwrap());
}

#[test]
fn test_eth() {
    let identity = Identity::Ethereum { address: [0; 20] };
    assert_eq!(
        identity.to_string(),
        "eth|0x0000000000000000000000000000000000000000"
    );
    assert_eq!(
        identity,
        "eth|0x0000000000000000000000000000000000000000"
            .parse()
            .unwrap()
    );
}

#[test]
fn test_git() {
    let identity = Identity::Github {
        id: 123,
        username: "username".to_string(),
    };
    assert_eq!(identity.to_string(), "git|123|username");
    assert_eq!(identity, "git|123|username".parse().unwrap());
}

#[test]
fn identity_vectors() {
    let zeros40 = format!("eth|0x{}", "0".repeat(40));
    assert_eq!(
        Identity::parse(&zeros40),
        Ok(Identity::Ethereum { address: [0; 20] })
    );
    assert_eq!(
        Identity::parse("git|123|username"),
        Ok(Identity::Github { id: 123, username: "username".to_string() })
    );
    assert_eq!(Identity::parse(""), Ok(Identity::Anonymous));
    let zeros39 = format!("eth|0x{}", "0".repeat(39));
    assert_eq!(Identity::parse(&zeros39), Err(IdentityError::InvalidEthereumAddress));
}

#[test]
fn identity_errors() {
    assert_eq!(Identity::parse("foo|1"), Err(IdentityError::UnsupportedType));
    assert_eq!(Identity::parse("eth"), Err(IdentityError::MissingField));
    assert_eq!(Identity::parse("git|12"), Err(IdentityError::MissingField));
    assert_eq!(Identity::parse("git"), Err(IdentityError::MissingField));
    assert_eq!(Identity::parse("git|1|a|b"), Err(IdentityError::TooManyFields));
    assert_eq!(
        Identity::parse("eth|0x0000000000000000000000000000000000000000|x"),
        Err(IdentityError::TooManyFields)
    );
    assert_eq!(Identity::parse("|"), Err(IdentityError::TooManyFields));
    assert_eq!(Identity::parse("git|abc|user"), Err(IdentityError::InvalidGithubId));
    assert_eq!(Identity::parse("git|-1|user"), Err(IdentityError::InvalidGithubId));
    assert_eq!(
        Identity::parse("git|18446744073709551616|user"),
        Err(IdentityError::InvalidGithubId)
    );
    assert_eq!(
        Identity::parse("eth|1x0000000000000000000000000000000000000000"),
        Err(IdentityError::InvalidEthereumAddress)
    );
    assert_eq!(
        Identity::parse("eth|0x000000000000000000000000000000000000000g"),
        Err(IdentityError::InvalidEthereumAddress)
    );
}

#[test]
fn identity_round_trip_normalises() {
    let s = "eth|0xABCDEF0123456789abcdef0123456789ABCDEF01";
    let parsed = Identity::parse(s).unwrap();
    match &parsed {
        Identity::Ethereum { address } => {
            assert_eq!(address[0], 0xab);
            assert_eq!(address[19], 0x01);
        }
        other => panic!("not an Ethereum identity: {other:?}"),
    }
    let text = parsed.to_string();
    assert_eq!(text, "eth|0xabcdef0123456789abcdef0123456789abcdef01");
    assert_eq!(Identity::parse(&text), Ok(parsed));

    let g = Identity::parse("git|+0042|someone").unwrap();
    assert_eq!(g.to_string(), "git|42|someone");
    assert_eq!(Identity::parse(&g.to_string()), Ok(g));
    assert_eq!(
        Identity::Github { id: u64::MAX, username: String::new() }.to_string(),
        "git|18446744073709551615|"
    );
}

#[test]
fn dec_to_hex_converts() {
    assert_eq!(dec_to_hex("15565180"), Some("0xed817c".to_string()));
    assert_eq!(dec_to_hex("0"), Some("0x0".to_string()));
    assert_eq!(dec_to_hex("x1"), None);
    assert_eq!(dec_to_hex(""), None);
}
