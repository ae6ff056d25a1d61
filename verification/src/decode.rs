//! Ghost-level decoding of the governance payload, and proofs that it
//! inverts the encoder.
//!
//! Nothing here runs: these specifications pin down what the wire bytes
//! of `MsgSubmitProposal` mean, and the round-trip lemmas show that the
//! nested envelope built by [`crate::encode`] carries the title, the
//! description and the proposer exactly, with no loss from the framing.

use vstd::prelude::*;
use vstd::utf8::{encode_scalar, encode_utf8};
use crate::asset::Asset;
use crate::encode::{
    any_bytes, dec_bytes, len_field, listing_proposal_payload, opt_field, proposal_description,
    proposal_title, submit_proposal_bytes, text_proposal_bytes, text_proposal_type_url, varint,
};

verus! {

/// Decodes one varint from the front of `s`: the decoded value and the
/// remaining bytes.
pub open spec fn dec_varint(s: Seq<u8>) -> Option<(nat, Seq<u8>)>
    decreases s.len(),
{
    if s.len() == 0 {
        None
    } else if s[0] < 128 {
        Some((s[0] as nat, s.drop_first()))
    } else {
        match dec_varint(s.drop_first()) {
            Some(p) => Some((((p.0 * 128 + s[0] - 128)) as nat, p.1)),
            None => None,
        }
    }
}

/// Decodes a length-delimited field with the given field number: the
/// payload and the remaining bytes.
pub open spec fn dec_len_field(field: nat, s: Seq<u8>) -> Option<(Seq<u8>, Seq<u8>)> {
    match dec_varint(s) {
        Some((tag, s1)) => if tag != field * 8 + 2 {
            None
        } else {
            match dec_varint(s1) {
                Some((len, s2)) => if s2.len() < len {
                    None
                } else {
                    Some((s2.take(len as int), s2.skip(len as int)))
                },
                None => None,
            }
        },
        None => None,
    }
}

/// Decodes `TextProposal { title, description }`; both fields present.
pub open spec fn dec_text_proposal(s: Seq<u8>) -> Option<(Seq<u8>, Seq<u8>)> {
    match dec_len_field(1, s) {
        Some((title, s1)) => match dec_len_field(2, s1) {
            Some((description, s2)) => if s2.len() == 0 {
                Some((title, description))
            } else {
                None
            },
            None => None,
        },
        None => None,
    }
}

/// Decodes `Any { type_url, value }`; both fields present.
pub open spec fn dec_any(s: Seq<u8>) -> Option<(Seq<u8>, Seq<u8>)> {
    match dec_len_field(1, s) {
        Some((type_url, s1)) => match dec_len_field(2, s1) {
            Some((value, s2)) => if s2.len() == 0 {
                Some((type_url, value))
            } else {
                None
            },
            None => None,
        },
        None => None,
    }
}

/// Decodes `MsgSubmitProposal`: the content envelope and the proposer,
/// which reads as empty when the field was skipped.
pub open spec fn dec_submit_proposal(s: Seq<u8>) -> Option<(Seq<u8>, Seq<u8>)> {
    match dec_len_field(1, s) {
        Some((content, s1)) => if s1.len() == 0 {
            Some((content, Seq::empty()))
        } else {
            match dec_len_field(3, s1) {
                Some((proposer, s2)) => if s2.len() == 0 {
                    Some((content, proposer))
                } else {
                    None
                },
                None => None,
            }
        },
        None => None,
    }
}

/// Varint decoding inverts varint encoding, whatever follows.
pub proof fn lemma_varint_roundtrip(n: nat, rest: Seq<u8>)
    ensures
        dec_varint(varint(n) + rest) == Some((n, rest)),
    decreases n,
{
    let s = varint(n) + rest;
    if n < 128 {
        assert(s[0] == n as u8);
        assert(s.drop_first() =~= rest);
    } else {
        let b = (n % 128 + 128) as u8;
        assert(s[0] == b);
        assert(b >= 128);
        assert(s.drop_first() =~= varint(n / 128) + rest);
        lemma_varint_roundtrip(n / 128, rest);
        assert((n / 128) * 128 + n % 128 == n) by {
            vstd::arithmetic::div_mod::lemma_fundamental_div_mod(n as int, 128);
        };
        assert(dec_varint(s) == Some((n, rest)));
    }
}

/// Field decoding inverts field encoding, whatever follows.
pub proof fn lemma_len_field_roundtrip(field: nat, payload: Seq<u8>, rest: Seq<u8>)
    ensures
        dec_len_field(field, len_field(field, payload) + rest) == Some((payload, rest)),
{
    let s = len_field(field, payload) + rest;
    let tail = payload + rest;
    assert(s =~= varint(field * 8 + 2) + (varint(payload.len()) + tail));
    lemma_varint_roundtrip(field * 8 + 2, varint(payload.len()) + tail);
    lemma_varint_roundtrip(payload.len(), tail);
    assert(tail.take(payload.len() as int) =~= payload);
    assert(tail.skip(payload.len() as int) =~= rest);
}

/// The UTF-8 encoding of a character sequence is at least as long as
/// the sequence itself.
pub proof fn lemma_encode_utf8_len(s: Seq<char>)
    ensures
        encode_utf8(s).len() >= s.len(),
    decreases s.len(),
{
    if s.len() > 0 {
        assert(encode_scalar(s[0] as u32).len() >= 1);
        lemma_encode_utf8_len(s.drop_first());
    }
}

/// Decoding the inner record inverts its encoding when both fields are
/// nonempty.
pub proof fn lemma_text_proposal_roundtrip(title: Seq<u8>, description: Seq<u8>)
    requires
        title.len() > 0,
        description.len() > 0,
    ensures
        dec_text_proposal(text_proposal_bytes(title, description)) == Some((title, description)),
{
    let s = text_proposal_bytes(title, description);
    assert(s =~= len_field(1, title) + len_field(2, description));
    lemma_len_field_roundtrip(1, title, len_field(2, description));
    assert(len_field(2, description) =~= len_field(2, description) + Seq::<u8>::empty());
    lemma_len_field_roundtrip(2, description, Seq::empty());
}

/// Decoding the envelope inverts its encoding when both fields are
/// nonempty.
pub proof fn lemma_any_roundtrip(type_url: Seq<u8>, value: Seq<u8>)
    requires
        type_url.len() > 0,
        value.len() > 0,
    ensures
        dec_any(any_bytes(type_url, value)) == Some((type_url, value)),
{
    let s = any_bytes(type_url, value);
    assert(s =~= len_field(1, type_url) + len_field(2, value));
    lemma_len_field_roundtrip(1, type_url, len_field(2, value));
    assert(len_field(2, value) =~= len_field(2, value) + Seq::<u8>::empty());
    lemma_len_field_roundtrip(2, value, Seq::empty());
}

/// Decoding the outer record inverts its encoding, for any proposer.
pub proof fn lemma_submit_proposal_roundtrip(content: Seq<u8>, proposer: Seq<u8>)
    ensures
        dec_submit_proposal(submit_proposal_bytes(content, proposer)) == Some(
            (content, proposer),
        ),
{
    let s = submit_proposal_bytes(content, proposer);
    if proposer.len() == 0 {
        assert(s =~= len_field(1, content) + Seq::<u8>::empty());
        lemma_len_field_roundtrip(1, content, Seq::empty());
        assert(proposer =~= Seq::<u8>::empty());
    } else {
        assert(s =~= len_field(1, content) + len_field(3, proposer));
        lemma_len_field_roundtrip(1, content, len_field(3, proposer));
        assert(len_field(3, proposer) =~= len_field(3, proposer) + Seq::<u8>::empty());
        lemma_len_field_roundtrip(3, proposer, Seq::empty());
    }
}

/// Peeling the whole listing payload apart recovers the type tag, the
/// title, the description and the proposer exactly as they were encoded:
/// the doubly nested envelope loses nothing.
pub proof fn lemma_listing_proposal_roundtrip(
    token: Seq<u8>,
    lp: Seq<u8>,
    proposer: Seq<u8>,
    rewards: Seq<Asset>,
)
    ensures
        ({
            let title = proposal_title(token);
            let description = proposal_description(token, lp, rewards);
            let text = text_proposal_bytes(title, description);
            let content = any_bytes(text_proposal_type_url(), text);
            let payload = listing_proposal_payload(token, lp, proposer, rewards);
            &&& dec_submit_proposal(payload) == Some((content, proposer))
            &&& dec_any(content) == Some((text_proposal_type_url(), text))
            &&& dec_text_proposal(text) == Some((title, description))
        }),
{
    let title = proposal_title(token);
    let description = proposal_description(token, lp, rewards);
    let text = text_proposal_bytes(title, description);
    let content = any_bytes(text_proposal_type_url(), text);
    reveal_strlit("OraiDEX frontier - Listing new LP mining pool of token ");
    reveal_strlit("Create a new liquidity mining pool for CW20 token: ");
    reveal_strlit("/cosmos.gov.v1beta1.TextProposal");
    lemma_encode_utf8_len("OraiDEX frontier - Listing new LP mining pool of token "@);
    lemma_encode_utf8_len("Create a new liquidity mining pool for CW20 token: "@);
    lemma_encode_utf8_len("/cosmos.gov.v1beta1.TextProposal"@);
    assert(title.len() > 0);
    assert(description.len() > 0);
    lemma_text_proposal_roundtrip(title, description);
    assert(text.len() > 0);
    lemma_any_roundtrip(text_proposal_type_url(), text);
    lemma_submit_proposal_roundtrip(content, proposer);
}

/// `needle` occurs contiguously inside `hay`.
pub open spec fn contains_bytes(hay: Seq<u8>, needle: Seq<u8>) -> bool {
    exists|i: int|
        0 <= i && i + needle.len() <= hay.len() && #[trigger] hay.subrange(i, i + needle.len())
            == needle
}

/// The proposal description mentions both the managed token's address
/// and the pool token's address.
pub proof fn lemma_description_mentions(token: Seq<u8>, lp: Seq<u8>, rewards: Seq<Asset>)
    ensures
        contains_bytes(proposal_description(token, lp, rewards), token),
        contains_bytes(proposal_description(token, lp, rewards), lp),
{
    let d = proposal_description(token, lp, rewards);
    let p1 = encode_utf8("Create a new liquidity mining pool for CW20 token: "@);
    let p2 = encode_utf8(" with LP Address: "@);
    let i = p1.len() as int;
    assert(d.subrange(i, i + token.len()) =~= token);
    assert(0 <= i && i + token.len() <= d.len());
    let j = p1.len() as int + token.len() + p2.len();
    assert(d.subrange(j, j + lp.len()) =~= lp);
    assert(0 <= j && j + lp.len() <= d.len());
}

} // verus!
