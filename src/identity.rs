//! Participant identities and their canonical string form, which is both the
//! message a contributor signs and the key under which contributors are
//! de-duplicated.

use vstd::prelude::*;
use vstd::slice::slice_subrange;
use crate::text::{
    chars_of, dec_digits, hex_decode, hex_decode_str, hex_encode, hex_encode_bytes, is_hex_str,
    lemma_dec_digits, lemma_hex_decode_len, lemma_hex_encode_len, lemma_hex_round_trip, parse_u64,
    parse_u64_spec, string_of, u64_to_dec,
};

verus! {

#[derive(Clone, PartialEq, Eq, Debug)]
pub enum Identity {
    Anonymous,
    Ethereum { address: [u8; 20] },
    Github { id: u64, username: String },
}

/// What an identity is, with its text fields as character sequences.
pub enum IdentityView {
    Anonymous,
    Ethereum { address: Seq<u8> },
    Github { id: u64, username: Seq<char> },
}

impl View for Identity {
    type V = IdentityView;

    open spec fn view(&self) -> IdentityView {
        match self {
            Identity::Anonymous => IdentityView::Anonymous,
            Identity::Ethereum { address } => IdentityView::Ethereum { address: address@ },
            Identity::Github { id, username } => IdentityView::Github {
                id: *id,
                username: username@,
            },
        }
    }
}

#[derive(Clone, Copy, PartialEq, Eq, Structural, Debug)]
pub enum IdentityError {
    UnsupportedType,
    MissingField,
    TooManyFields,
    InvalidEthereumAddress,
    InvalidGithubId,
}

/// Canonical form: `""`, `"eth|0x<40 lower-case hex digits>"` or
/// `"git|<decimal id>|<username>"`.
pub open spec fn format_identity(id: IdentityView) -> Seq<char> {
    match id {
        IdentityView::Anonymous => Seq::empty(),
        IdentityView::Ethereum { address } => seq!['e', 't', 'h', '|', '0', 'x'] + hex_encode(
            address,
        ),
        IdentityView::Github { id, username } => seq!['g', 'i', 't', '|'] + dec_digits(id as nat)
            + seq!['|'] + username,
    }
}

/// Index of the first `|` at or after `from`, or the length when there is none.
pub open spec fn find_bar(s: Seq<char>, from: int) -> int
    decreases s.len() - from,
{
    if from >= s.len() {
        s.len() as int
    } else if s[from] == '|' {
        from
    } else {
        find_bar(s, from + 1)
    }
}

/// The strict reading of an identity string: `|`-separated fields, a known
/// tag, the right number of fields, and well-formed field contents.
pub open spec fn parse_identity(s: Seq<char>) -> Result<IdentityView, IdentityError> {
    let p1 = find_bar(s, 0);
    let tag = s.subrange(0, p1);
    if tag == seq!['e', 't', 'h'] {
        if p1 == s.len() {
            Err(IdentityError::MissingField)
        } else {
            let p2 = find_bar(s, p1 + 1);
            let a = s.subrange(p1 + 1, p2);
            if p2 < s.len() {
                Err(IdentityError::TooManyFields)
            } else if a.len() == 42 && a[0] == '0' && a[1] == 'x' && is_hex_str(a.subrange(2, 42)) {
                Ok(IdentityView::Ethereum { address: hex_decode(a.subrange(2, 42)) })
            } else {
                Err(IdentityError::InvalidEthereumAddress)
            }
        }
    } else if tag == seq!['g', 'i', 't'] {
        if p1 == s.len() {
            Err(IdentityError::MissingField)
        } else {
            let p2 = find_bar(s, p1 + 1);
            if p2 == s.len() {
                Err(IdentityError::MissingField)
            } else {
                let p3 = find_bar(s, p2 + 1);
                if p3 < s.len() {
                    Err(IdentityError::TooManyFields)
                } else {
                    match parse_u64_spec(s.subrange(p1 + 1, p2)) {
                        Some(id) => Ok(
                            IdentityView::Github { id, username: s.subrange(p2 + 1, p3) },
                        ),
                        None => Err(IdentityError::InvalidGithubId),
                    }
                }
            }
        }
    } else if tag.len() == 0 {
        if p1 < s.len() {
            Err(IdentityError::TooManyFields)
        } else {
            Ok(IdentityView::Anonymous)
        }
    } else {
        Err(IdentityError::UnsupportedType)
    }
}

/// An identity that has a canonical form: a 20-byte address, or a username
/// without the field separator.
pub open spec fn identity_wf(id: IdentityView) -> bool {
    match id {
        IdentityView::Anonymous => true,
        IdentityView::Ethereum { address } => address.len() == 20,
        IdentityView::Github { id, username } => forall|i: int|
            0 <= i < username.len() ==> #[trigger] username[i] != '|',
    }
}

pub open spec fn parse_result_view(r: Result<Identity, IdentityError>) -> Result<
    IdentityView,
    IdentityError,
> {
    match r {
        Ok(id) => Ok(id@),
        Err(e) => Err(e),
    }
}

pub proof fn lemma_find_bar(s: Seq<char>, from: int, k: int)
    requires
        0 <= from <= k <= s.len(),
        forall|i: int| from <= i < k ==> s[i] != '|',
        k == s.len() || s[k] == '|',
    ensures
        find_bar(s, from) == k,
    decreases k - from,
{
    if from < k {
        lemma_find_bar(s, from + 1, k);
    }
}

pub proof fn lemma_find_bar_bounds(s: Seq<char>, from: int)
    requires
        0 <= from <= s.len(),
    ensures
        from <= find_bar(s, from) <= s.len(),
        forall|i: int| from <= i < find_bar(s, from) ==> s[i] != '|',
        find_bar(s, from) < s.len() ==> s[find_bar(s, from)] == '|',
    decreases s.len() - from,
{
    if from < s.len() && s[from] != '|' {
        lemma_find_bar_bounds(s, from + 1);
    }
}

/// Every identity that has a canonical form reads back from it unchanged.
pub proof fn lemma_format_then_parse(id: IdentityView)
    requires
        identity_wf(id),
    ensures
        parse_identity(format_identity(id)) == Ok::<IdentityView, IdentityError>(id),
{
    let s = format_identity(id);
    let eth = seq!['e', 't', 'h'];
    let git = seq!['g', 'i', 't'];
    assert(eth.len() == 3 && eth[0] == 'e');
    assert(git.len() == 3 && git[0] == 'g');
    match id {
        IdentityView::Anonymous => {
            assert(s.subrange(0, 0) =~= Seq::<char>::empty());
        },
        IdentityView::Ethereum { address } => {
            let h = hex_encode(address);
            lemma_hex_encode_len(address);
            lemma_hex_round_trip(address);
            assert(s.len() == 46);
            lemma_find_bar(s, 0, 3);
            assert forall|i: int| 4 <= i < 46 implies s[i] != '|' by {
                if i >= 6 {
                    assert(s[i] == h[i - 6]);
                }
            }
            lemma_find_bar(s, 4, 46);
            assert(s.subrange(0, 3) =~= eth);
            let a = s.subrange(4, 46);
            assert(a.subrange(2, 42) =~= h);
        },
        IdentityView::Github { id: n, username } => {
            let d = dec_digits(n as nat);
            lemma_dec_digits(n as nat);
            let k: int = 4 + d.len() as int;
            lemma_find_bar(s, 0, 3);
            assert forall|i: int| 4 <= i < k implies s[i] != '|' by {
                assert(s[i] == d[i - 4]);
            }
            assert(s[k] == '|');
            lemma_find_bar(s, 4, k);
            assert forall|i: int| k + 1 <= i < s.len() implies s[i] != '|' by {
                assert(s[i] == username[i - k - 1]);
            }
            lemma_find_bar(s, k + 1, s.len() as int);
            assert(s.subrange(0, 3) =~= git);
            assert(s.subrange(0, 3) != eth);
            assert(s.subrange(4, k) =~= d);
            assert(s.subrange(k + 1, s.len() as int) =~= username);
        },
    }
}

/// Reading an identity, writing it in canonical form and reading that again
/// gives what the first reading gave; what is read always has a canonical form.
pub proof fn lemma_parse_format_parse(s: Seq<char>)
    requires
        parse_identity(s) is Ok,
    ensures
        identity_wf(parse_identity(s)->Ok_0),
        parse_identity(format_identity(parse_identity(s)->Ok_0)) == parse_identity(s),
{
    let id = parse_identity(s)->Ok_0;
    lemma_find_bar_bounds(s, 0);
    let p1 = find_bar(s, 0);
    if p1 < s.len() {
        lemma_find_bar_bounds(s, p1 + 1);
        let p2 = find_bar(s, p1 + 1);
        if p2 < s.len() {
            lemma_find_bar_bounds(s, p2 + 1);
        }
        if p2 == s.len() && p2 - p1 - 1 == 42 {
            lemma_hex_decode_len(s.subrange(p1 + 1, p2).subrange(2, 42));
        }
    }
    lemma_format_then_parse(id);
}

fn find_bar_from(cs: &Vec<char>, from: usize) -> (r: usize)
    requires
        from <= cs.len(),
    ensures
        r as int == find_bar(cs@, from as int),
        from <= r <= cs.len(),
{
    let mut i: usize = from;
    while i < cs.len() && cs[i] != '|'
        invariant
            from <= i <= cs.len(),
            forall|j: int| from <= j < i ==> cs@[j] != '|',
        decreases cs.len() - i,
    {
        i += 1;
    }
    proof {
        lemma_find_bar(cs@, from as int, i as int);
    }
    i
}

impl Identity {
    /// The canonical string form of this identity.
    pub fn to_string(&self) -> (r: String)
        ensures
            r@ == format_identity(self@),
    {
        match self {
            Identity::Anonymous => String::new(),
            Identity::Ethereum { address } => {
                let mut r = String::from_str("eth|0x");
                let h = hex_encode_bytes(address.as_slice());
                r.append(h.as_str());
                proof {
                    reveal_strlit("eth|0x");
                    assert(r@ =~= format_identity(self@));
                }
                r
            },
            Identity::Github { id, username } => {
                let mut r = String::from_str("git|");
                let d = u64_to_dec(*id);
                r.append(d.as_str());
                r.append("|");
                r.append(username.as_str());
                proof {
                    reveal_strlit("git|");
                    reveal_strlit("|");
                    assert(r@ =~= format_identity(self@));
                }
                r
            },
        }
    }

    /// Reads an identity from its canonical form, strictly.
    pub fn parse(s: &str) -> (r: Result<Identity, IdentityError>)
        ensures
            parse_result_view(r) == parse_identity(s@),
    {
        let cs = chars_of(s);
        let n = cs.len();
        let p1 = find_bar_from(&cs, 0);
        proof {
            lemma_find_bar_bounds(cs@, 0);
        }
        let ghost tag = cs@.subrange(0, p1 as int);
        if p1 == 3 && cs[0] == 'e' && cs[1] == 't' && cs[2] == 'h' {
            assert(tag =~= seq!['e', 't', 'h']);
            if p1 == n {
                return Err(IdentityError::MissingField);
            }
            let p2 = find_bar_from(&cs, p1 + 1);
            let ghost a = cs@.subrange(p1 + 1, p2 as int);
            if p2 < n {
                return Err(IdentityError::TooManyFields);
            }
            if p2 - p1 - 1 != 42 || cs[p1 + 1] != '0' || cs[p1 + 2] != 'x' {
                return Err(IdentityError::InvalidEthereumAddress);
            }
            let digits = string_of(slice_subrange(cs.as_slice(), p1 + 3, p2));
            assert(digits@ =~= a.subrange(2, 42));
            match hex_decode_str(digits.as_str()) {
                None => Err(IdentityError::InvalidEthereumAddress),
                Some(v) => {
                    proof {
                        lemma_hex_decode_len(digits@);
                    }
                    let address: [u8; 20] = [
                        v[0], v[1], v[2], v[3], v[4], v[5], v[6], v[7], v[8], v[9],
                        v[10], v[11], v[12], v[13], v[14], v[15], v[16], v[17], v[18], v[19],
                    ];
                    assert(address@ =~= v@);
                    Ok(Identity::Ethereum { address })
                },
            }
        } else if p1 == 3 && cs[0] == 'g' && cs[1] == 'i' && cs[2] == 't' {
            assert(tag =~= seq!['g', 'i', 't']);
            assert(tag != seq!['e', 't', 'h']);
            if p1 == n {
                return Err(IdentityError::MissingField);
            }
            let p2 = find_bar_from(&cs, p1 + 1);
            if p2 == n {
                return Err(IdentityError::MissingField);
            }
            let p3 = find_bar_from(&cs, p2 + 1);
            if p3 < n {
                return Err(IdentityError::TooManyFields);
            }
            let id_text = string_of(slice_subrange(cs.as_slice(), p1 + 1, p2));
            let username = string_of(slice_subrange(cs.as_slice(), p2 + 1, p3));
            match parse_u64(id_text.as_str()) {
                Some(id) => Ok(Identity::Github { id, username }),
                None => Err(IdentityError::InvalidGithubId),
            }
        } else if p1 == 0 {
            assert(tag.len() == 0);
            assert(tag != seq!['e', 't', 'h']);
            assert(tag != seq!['g', 'i', 't']);
            if p1 < n {
                Err(IdentityError::TooManyFields)
            } else {
                Ok(Identity::Anonymous)
            }
        } else {
            assert(tag != seq!['e', 't', 'h']) by {
                if tag == seq!['e', 't', 'h'] {
                    let e = seq!['e', 't', 'h'];
                    assert(e.len() == 3 && e[0] == 'e' && e[1] == 't' && e[2] == 'h');
                    assert(tag[0] == cs@[0] && tag[1] == cs@[1] && tag[2] == cs@[2]);
                }
            }
            assert(tag != seq!['g', 'i', 't']) by {
                if tag == seq!['g', 'i', 't'] {
                    let e = seq!['g', 'i', 't'];
                    assert(e.len() == 3 && e[0] == 'g' && e[1] == 'i' && e[2] == 't');
                    assert(tag[0] == cs@[0] && tag[1] == cs@[1] && tag[2] == cs@[2]);
                }
            }
            Err(IdentityError::UnsupportedType)
        }
    }
}

impl core::str::FromStr for Identity {
    type Err = IdentityError;

    fn from_str(s: &str) -> Result<Identity, IdentityError> {
        Identity::parse(s)
    }
}

} // verus!
