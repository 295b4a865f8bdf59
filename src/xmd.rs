//! `expand_message_xmd` over SHA-256: stretches a message and a domain
//! separation tag into uniformly distributed bytes, as hash-to-curve needs.

use vstd::prelude::*;

verus! {

/// What SHA-256 gives for a byte string.
pub uninterp spec fn sha256_of(data: Seq<u8>) -> Seq<u8>;

/// Relies on `sha2::Sha256`, driven through `digest::DynDigest`: the digest of
/// the bytes, 32 bytes long.
#[verifier::external_body]
fn sha256(data: &[u8]) -> (r: Vec<u8>)
    ensures
        r@ == sha256_of(data@),
        r@.len() == 32,
{
    let mut hasher = sha2::Sha256::default();
    digest::DynDigest::update(&mut hasher, data);
    digest::DynDigest::finalize_reset(&mut hasher).to_vec()
}

/// Output size of SHA-256 in bytes.
pub const HASH_LEN: usize = 32;

/// Longest domain separation tag that is used as it is.
pub const MAX_DST_LENGTH: usize = 255;

/// `"H2C-OVERSIZE-DST-"`, hashed in front of a tag that is too long.
pub open spec fn long_dst_prefix() -> Seq<u8> {
    seq![72u8, 50, 67, 45, 79, 86, 69, 82, 83, 73, 90, 69, 45, 68, 83, 84, 45]
}

/// The tag with its length byte: a tag longer than 255 bytes is first
/// replaced by its hash under the oversize prefix.
pub open spec fn dst_prime(dst: Seq<u8>) -> Seq<u8> {
    let d = if dst.len() > MAX_DST_LENGTH { sha256_of(long_dst_prefix() + dst) } else { dst };
    d.push(d.len() as u8)
}

pub open spec fn xor_bytes(a: Seq<u8>, b: Seq<u8>) -> Seq<u8> {
    Seq::new(if a.len() <= b.len() { a.len() } else { b.len() }, |i: int| a[i] ^ b[i])
}

/// Number of hash blocks needed for `n` bytes.
pub open spec fn block_count(n: nat) -> nat {
    (n + (HASH_LEN - 1)) as nat / HASH_LEN as nat
}

/// `n` fits in two bytes and needs at most 255 blocks.
pub open spec fn expand_allowed(n: nat) -> bool {
    n < 0x10000 && block_count(n) <= 255
}

/// The first block `b0`: the hash of a zero pad of one hash block, the
/// message, the length in two big-endian bytes, a zero byte and the tag.
pub open spec fn xmd_b0(block_size: nat, dstp: Seq<u8>, msg: Seq<u8>, n: nat) -> Seq<u8> {
    sha256_of(
        Seq::new(block_size, |i: int| 0u8) + msg + seq![(n / 256) as u8, (n % 256) as u8, 0u8]
            + dstp,
    )
}

/// Block `b_i` for `i >= 1`: `b1 = H(b0 || 1 || dst')` and
/// `b_i = H((b0 xor b_(i-1)) || i || dst')`.
pub open spec fn xmd_block(b0: Seq<u8>, dstp: Seq<u8>, i: nat) -> Seq<u8>
    decreases i,
{
    if i <= 1 {
        sha256_of(b0 + seq![1u8] + dstp)
    } else {
        sha256_of(xor_bytes(b0, xmd_block(b0, dstp, (i - 1) as nat)) + seq![i as u8] + dstp)
    }
}

/// `b1 || b2 || ... || b_k`.
pub open spec fn xmd_blocks(b0: Seq<u8>, dstp: Seq<u8>, k: nat) -> Seq<u8>
    decreases k,
{
    if k == 0 {
        Seq::empty()
    } else {
        xmd_blocks(b0, dstp, (k - 1) as nat) + xmd_block(b0, dstp, k)
    }
}

/// The first `n` bytes of `b1 || ... || b_ell`.
pub open spec fn expand_message_xmd(block_size: nat, dst: Seq<u8>, msg: Seq<u8>, n: nat) -> Seq<
    u8,
> {
    let dstp = dst_prime(dst);
    xmd_blocks(xmd_b0(block_size, dstp, msg, n), dstp, block_count(n)).take(n as int)
}

/// Appends `s` to `v`.
fn append_bytes(v: &mut Vec<u8>, s: &[u8])
    ensures
        final(v)@ == old(v)@ + s@,
{
    let mut i: usize = 0;
    while i < s.len()
        invariant
            0 <= i <= s.len(),
            v@ == old(v)@ + s@.take(i as int),
        decreases s.len() - i,
    {
        v.push(s[i]);
        i += 1;
        assert(s@.take(i as int) =~= s@.take(i - 1 as int).push(s@[i - 1]));
    }
    assert(s@.take(i as int) =~= s@);
}

pub trait Expander {
    spec fn dst_prime_spec(&self) -> Seq<u8>;

    spec fn expand_spec(&self, msg: Seq<u8>, n: nat) -> Seq<u8>;

    spec fn expand_allowed_spec(&self, n: nat) -> bool;

    /// The domain separation tag with its length appended.
    fn construct_dst_prime(&self) -> (r: Vec<u8>)
        ensures
            r@ == self.dst_prime_spec(),
    ;

    /// `n` uniform bytes derived from `msg` under this expander's tag.
    fn expand(&self, msg: &[u8], n: usize) -> (r: Vec<u8>)
        requires
            self.expand_allowed_spec(n as nat),
        ensures
            r@ == self.expand_spec(msg@, n as nat),
            r@.len() == n,
    ;
}

/// The XMD expander over SHA-256, for a given tag and hash block size.
pub struct ExpanderXmd {
    pub dst: Vec<u8>,
    pub block_size: usize,
}

impl Expander for ExpanderXmd {
    open spec fn dst_prime_spec(&self) -> Seq<u8> {
        dst_prime(self.dst@)
    }

    open spec fn expand_spec(&self, msg: Seq<u8>, n: nat) -> Seq<u8> {
        expand_message_xmd(self.block_size as nat, self.dst@, msg, n)
    }

    open spec fn expand_allowed_spec(&self, n: nat) -> bool {
        expand_allowed(n)
    }

    fn construct_dst_prime(&self) -> (r: Vec<u8>) {
        let mut d: Vec<u8>;
        if self.dst.len() > MAX_DST_LENGTH {
            let mut data: Vec<u8> = vec![72u8, 50, 67, 45, 79, 86, 69, 82, 83, 73, 90, 69, 45, 68, 83, 84, 45];
            assert(data@ =~= long_dst_prefix());
            append_bytes(&mut data, self.dst.as_slice());
            d = sha256(data.as_slice());
        } else {
            d = self.dst.clone();
        }
        let len = d.len() as u8;
        d.push(len);
        d
    }

    fn expand(&self, msg: &[u8], n: usize) -> (r: Vec<u8>) {
        let ell: usize = (n + (HASH_LEN - 1)) / HASH_LEN;
        let dstp = self.construct_dst_prime();
        let mut data: Vec<u8> = Vec::new();
        let mut i: usize = 0;
        while i < self.block_size
            invariant
                i <= self.block_size,
                data@ == Seq::new(i as nat, |j: int| 0u8),
            decreases self.block_size - i,
        {
            data.push(0u8);
            i += 1;
            assert(data@ =~= Seq::new(i as nat, |j: int| 0u8));
        }
        append_bytes(&mut data, msg);
        data.push((n / 256) as u8);
        data.push((n % 256) as u8);
        data.push(0u8);
        append_bytes(&mut data, dstp.as_slice());
        assert(data@ =~= Seq::new(self.block_size as nat, |j: int| 0u8) + msg@ + seq![
            (n / 256) as u8,
            (n % 256) as u8,
            0u8,
        ] + dstp@);
        let b0 = sha256(data.as_slice());

        let mut data: Vec<u8> = b0.clone();
        data.push(1u8);
        append_bytes(&mut data, dstp.as_slice());
        let mut bi = sha256(data.as_slice());
        proof {
            assert(data@ =~= b0@ + seq![1u8] + dstp@);
        }

        let mut uniform: Vec<u8> = Vec::new();
        append_bytes(&mut uniform, bi.as_slice());
        proof {
            assert(bi@ == xmd_block(b0@, dstp@, 1));
            assert(xmd_blocks(b0@, dstp@, 0) == Seq::<u8>::empty());
            assert(uniform@ =~= xmd_blocks(b0@, dstp@, 0) + xmd_block(b0@, dstp@, 1));
        }
        let mut k: usize = 2;
        while k <= ell
            invariant
                2 <= k <= ell + 1 || (ell < 2 && k == 2),
                ell == block_count(n as nat),
                uniform@.len() == 32 * (k - 1),
                ell <= 255,
                b0@.len() == 32,
                bi@ == xmd_block(b0@, dstp@, (k - 1) as nat),
                bi@.len() == 32,
                uniform@ == xmd_blocks(b0@, dstp@, (k - 1) as nat),
            decreases ell + 1 - k,
        {
            let mut data: Vec<u8> = Vec::new();
            let mut j: usize = 0;
            while j < HASH_LEN
                invariant
                    j <= HASH_LEN,
                    b0@.len() == 32,
                    bi@.len() == 32,
                    data@ == xor_bytes(b0@, bi@).take(j as int),
                decreases HASH_LEN - j,
            {
                data.push(b0[j] ^ bi[j]);
                j += 1;
                assert(data@ =~= xor_bytes(b0@, bi@).take(j as int));
            }
            assert(data@ =~= xor_bytes(b0@, bi@));
            data.push(k as u8);
            append_bytes(&mut data, dstp.as_slice());
            assert(data@ =~= xor_bytes(b0@, bi@) + seq![k as u8] + dstp@);
            bi = sha256(data.as_slice());
            append_bytes(&mut uniform, bi.as_slice());
            k += 1;
        }
        proof {
            if ell >= 1 {
                assert(k - 1 == ell);
            } else {
                assert(n == 0);
            }
        }
        let mut out: Vec<u8> = Vec::new();
        let mut j: usize = 0;
        while j < n
            invariant
                j <= n,
                n <= uniform@.len(),
                out@ == uniform@.take(j as int),
            decreases n - j,
        {
            out.push(uniform[j]);
            j += 1;
            assert(out@ =~= uniform@.take(j as int));
        }
        out
    }
}

} // verus!
