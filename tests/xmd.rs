use bls12_381::hash_to_curve::{ExpandMessage, ExpandMessageState, ExpandMsgXmd, InitExpandMessage};
use kzg_ceremony::xmd::{Expander, ExpanderXmd};

fn reference(msg: &[u8], dst: &[u8], n: usize) -> Vec<u8> {
    <ExpandMsgXmd<sha2::Sha256> as InitExpandMessage>::init_expand(msg, dst, n).into_vec()
}

#[test]
fn xmd_rfc_vectors_short_dst() {
    let e = ExpanderXmd { dst: b"QUUX-V01-CS02-with-expander-SHA256-128".to_vec(), block_size: 64 };
    assert_eq!(
        hex::encode(e.expand(b"", 0x20)),
        "68a985b87eb6b46952128911f2a4412bbc302a9d759667f87f7a21d803f07235"
    );
    assert_eq!(
        hex::encode(e.expand(b"abc", 0x20)),
        "d8ccab23b5985ccea865c6c97b6e5b8350e794e603b4b97902f53a8a0d605615"
    );
}

#[test]
fn xmd_rfc_vectors_long_dst() {
    let mut dst = b"QUUX-V01-CS02-with-expander-SHA256-128-long-DST-".to_vec();
    dst.extend(std::iter::repeat(b'1').take(208));
    let e = ExpanderXmd { dst, block_size: 64 };
    assert_eq!(e.construct_dst_prime().len(), 33);
    assert_eq!(
        hex::encode(e.expand(b"", 0x20)),
        "e8dc0c8b686b7ef2074086fbdd2f30e3f8bfbd3bdf177f73f04b97ce618a3ed3"
    );
    assert_eq!(
        hex::encode(e.expand(b"abc", 0x20)),
        "52dbf4f36cf560fca57dedec2ad924ee9c266341d8f3d6afe5171733b16bbb12"
    );
}

#[test]
fn xmd_agrees_with_reference_on_many_lengths() {
    let dst = b"BLS_SIG_BLS12381G1_XMD:SHA-256_SSWU_RO_POP_".to_vec();
    let e = ExpanderXmd { dst: dst.clone(), block_size: 64 };
    for n in [1usize, 31, 32, 33, 64, 65, 128, 255, 256, 1000] {
        let out = e.expand(b"git|1234|foobar", n);
        assert_eq!(out.len(), n);
        assert_eq!(out, reference(b"git|1234|foobar", &dst, n));
    }
    assert_eq!(e.expand(b"x", 0), Vec::<u8>::new());
}

#[test]
fn xmd_dst_prime_appends_length() {
    let e = ExpanderXmd { dst: b"abc".to_vec(), block_size: 64 };
    assert_eq!(e.construct_dst_prime(), vec![b'a', b'b', b'c', 3]);
}
