//! The JSON wire form of a contribution: point counts, the powers as
//! `0x`-prefixed lower-case hex of their compressed encodings, the public key,
//! and the signature (the empty string when absent).

use vstd::prelude::*;
use crate::contribution::Contribution;
use crate::group::{G1, G2};
use crate::signature::BlsSignature;
use crate::text::{dec_digits, hex_encode, hex_encode_bytes, usize_to_dec};

verus! {

/// `"0x<hex>"` for a G1 point.
pub open spec fn g1_json(p: G1) -> Seq<char> {
    "\"0x"@ + hex_encode(p.0@) + "\""@
}

pub open spec fn g2_json(p: G2) -> Seq<char> {
    "\"0x"@ + hex_encode(p.0@) + "\""@
}

/// The points, comma-separated.
pub open spec fn g1_list_json(ps: Seq<G1>) -> Seq<char>
    decreases ps.len(),
{
    if ps.len() == 0 {
        Seq::empty()
    } else if ps.len() == 1 {
        g1_json(ps[0])
    } else {
        g1_list_json(ps.drop_last()) + ","@ + g1_json(ps.last())
    }
}

pub open spec fn g2_list_json(ps: Seq<G2>) -> Seq<char>
    decreases ps.len(),
{
    if ps.len() == 0 {
        Seq::empty()
    } else if ps.len() == 1 {
        g2_json(ps[0])
    } else {
        g2_list_json(ps.drop_last()) + ","@ + g2_json(ps.last())
    }
}

pub open spec fn signature_json(s: BlsSignature) -> Seq<char> {
    match s.0 {
        Some(p) => g1_json(p),
        None => "\"\""@,
    }
}

pub open spec fn contribution_json(c: Contribution) -> Seq<char> {
    "{\"numG1Powers\":"@ + dec_digits(c.powers.g1@.len()) + ",\"numG2Powers\":"@ + dec_digits(
        c.powers.g2@.len(),
    ) + ",\"powersOfTau\":{\"G1Powers\":["@ + g1_list_json(c.powers.g1@) + "],\"G2Powers\":["@
        + g2_list_json(c.powers.g2@) + "]},\"potPubkey\":"@ + g2_json(c.pot_pubkey)
        + ",\"blsSignature\":"@ + signature_json(c.bls_signature) + "}"@
}

fn append_g1(r: &mut String, p: &G1)
    ensures
        final(r)@ == old(r)@ + g1_json(*p),
{
    r.append("\"0x");
    let h = hex_encode_bytes(&p.0);
    r.append(h.as_str());
    r.append("\"");
    assert(r@ =~= old(r)@ + g1_json(*p));
}

fn append_g2(r: &mut String, p: &G2)
    ensures
        final(r)@ == old(r)@ + g2_json(*p),
{
    r.append("\"0x");
    let h = hex_encode_bytes(&p.0);
    r.append(h.as_str());
    r.append("\"");
    assert(r@ =~= old(r)@ + g2_json(*p));
}

fn append_g1_list(r: &mut String, ps: &Vec<G1>)
    ensures
        final(r)@ == old(r)@ + g1_list_json(ps@),
{
    let mut i: usize = 0;
    while i < ps.len()
        invariant
            i <= ps@.len(),
            r@ == old(r)@ + g1_list_json(ps@.take(i as int)),
        decreases ps@.len() - i,
    {
        if i > 0 {
            r.append(",");
        }
        append_g1(r, &ps[i]);
        proof {
            let t = ps@.take(i + 1 as int);
            assert(t.drop_last() =~= ps@.take(i as int));
            assert(r@ =~= old(r)@ + g1_list_json(t));
        }
        i += 1;
    }
    assert(ps@.take(i as int) =~= ps@);
}

fn append_g2_list(r: &mut String, ps: &Vec<G2>)
    ensures
        final(r)@ == old(r)@ + g2_list_json(ps@),
{
    let mut i: usize = 0;
    while i < ps.len()
        invariant
            i <= ps@.len(),
            r@ == old(r)@ + g2_list_json(ps@.take(i as int)),
        decreases ps@.len() - i,
    {
        if i > 0 {
            r.append(",");
        }
        append_g2(r, &ps[i]);
        proof {
            let t = ps@.take(i + 1 as int);
            assert(t.drop_last() =~= ps@.take(i as int));
            assert(r@ =~= old(r)@ + g2_list_json(t));
        }
        i += 1;
    }
    assert(ps@.take(i as int) =~= ps@);
}

impl Contribution {
    /// The contribution in its JSON wire form.
    pub fn to_json(&self) -> (r: String)
        ensures
            r@ == contribution_json(*self),
    {
        let mut r = String::from_str("{\"numG1Powers\":");
        let n1 = usize_to_dec(self.powers.g1.len());
        r.append(n1.as_str());
        r.append(",\"numG2Powers\":");
        let n2 = usize_to_dec(self.powers.g2.len());
        r.append(n2.as_str());
        r.append(",\"powersOfTau\":{\"G1Powers\":[");
        append_g1_list(&mut r, &self.powers.g1);
        r.append("],\"G2Powers\":[");
        append_g2_list(&mut r, &self.powers.g2);
        r.append("]},\"potPubkey\":");
        append_g2(&mut r, &self.pot_pubkey);
        r.append(",\"blsSignature\":");
        match self.bls_signature.0 {
            Some(p) => append_g1(&mut r, &p),
            None => r.append("\"\""),
        }
        r.append("}");
        assert(r@ =~= contribution_json(*self));
        r
    }
}

} // verus!
