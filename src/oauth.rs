//! Settings of the Sign-in-with-Ethereum provider, and the conversion of the
//! block height at which nonces are read into the form JSON-RPC expects.

use vstd::prelude::*;
use crate::text::{hex_digits, parse_u64, parse_u64_spec, u64_to_hex};

verus! {

/// Settings of the Sign-in-with-Ethereum `OAuth2` provider.
#[derive(Clone, Debug, PartialEq, Eq)]
pub struct EthAuthOptions {
    /// The block height where the users nonce is fetched from, as `0x`-prefixed hex.
    pub nonce_verification_block: String,
    /// The least nonce required at that block height in order to participate.
    pub min_nonce: u64,
    /// The Ethereum JSON-RPC endpoint.
    pub rpc_url: String,
    pub auth_url: String,
    pub token_url: String,
    pub userinfo_url: String,
    pub redirect_url: String,
    pub client_id: String,
    pub client_secret: String,
}

/// A decimal block height in the `0x`-prefixed lower-case hex form of
/// JSON-RPC; `None` when the input is not a `u64` in decimal.
pub fn dec_to_hex(input: &str) -> (r: Option<String>)
    ensures
        r is Some <==> parse_u64_spec(input@) is Some,
        r is Some ==> r->Some_0@ == seq!['0', 'x'] + hex_digits(
            parse_u64_spec(input@)->Some_0 as nat,
        ),
{
    match parse_u64(input) {
        Some(n) => {
            let mut r = String::from_str("0x");
            let h = u64_to_hex(n);
            r.append(h.as_str());
            proof {
                reveal_strlit("0x");
                assert(r@ =~= seq!['0', 'x'] + hex_digits(n as nat));
            }
            Some(r)
        },
        None => None,
    }
}

} // verus!
