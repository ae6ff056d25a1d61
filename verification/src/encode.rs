//! Byte-exact construction of the governance call's wire payload.
//!
//! The governance module accepts a binary record (`MsgSubmitProposal`)
//! that carries a type-tagged envelope (`Any`) around an inner record
//! (`TextProposal`). The records follow the protobuf wire format: each
//! field is a base-128 varint key followed by a varint length and the
//! payload bytes. The field numbers and the nesting are dictated by the
//! governance module's schema and are reproduced here byte for byte.

use vstd::prelude::*;
use vstd::utf8::encode_utf8;
use crate::asset::{Asset, AssetInfo, asset_id_chars};

verus! {

/// Base-128 varint encoding: seven low bits per byte, least significant
/// group first, high bit set on every byte but the last.
pub open spec fn varint(n: nat) -> Seq<u8>
    decreases n,
{
    if n < 128 {
        seq![n as u8]
    } else {
        seq![(n % 128 + 128) as u8] + varint(n / 128)
    }
}

/// Wire bytes of a length-delimited protobuf field: key with wire type 2,
/// payload length, payload.
pub open spec fn len_field(field: nat, payload: Seq<u8>) -> Seq<u8> {
    varint(field * 8 + 2) + varint(payload.len()) + payload
}

/// A protobuf string or bytes field; an empty value is not emitted at all.
pub open spec fn opt_field(field: nat, payload: Seq<u8>) -> Seq<u8> {
    if payload.len() == 0 {
        Seq::empty()
    } else {
        len_field(field, payload)
    }
}

/// Wire bytes of the inner record `TextProposal { title, description }`
/// (fields 1 and 2, both strings).
pub open spec fn text_proposal_bytes(title: Seq<u8>, description: Seq<u8>) -> Seq<u8> {
    opt_field(1, title) + opt_field(2, description)
}

/// Wire bytes of the envelope `Any { type_url, value }` (fields 1 and 2).
pub open spec fn any_bytes(type_url: Seq<u8>, value: Seq<u8>) -> Seq<u8> {
    opt_field(1, type_url) + opt_field(2, value)
}

/// Wire bytes of the outer record `MsgSubmitProposal` with a present
/// `content` envelope (field 1), an empty initial-deposit list (field 2,
/// repeated, so nothing is emitted), and the proposer identity (field 3).
pub open spec fn submit_proposal_bytes(content: Seq<u8>, proposer: Seq<u8>) -> Seq<u8> {
    len_field(1, content) + opt_field(3, proposer)
}

/// Appends every byte of `bytes` to `out`.
fn push_bytes(out: &mut Vec<u8>, bytes: &[u8])
    ensures
        final(out)@ == old(out)@ + bytes@,
{
    let mut i: usize = 0;
    while i < bytes.len()
        invariant
            i <= bytes@.len(),
            out@ == old(out)@ + bytes@.subrange(0, i as int),
        decreases bytes@.len() - i,
    {
        out.push(bytes[i]);
        assert(bytes@.subrange(0, i as int).push(bytes@[i as int]) =~= bytes@.subrange(
            0,
            i as int + 1,
        ));
        i = i + 1;
    }
    assert(bytes@.subrange(0, i as int) =~= bytes@);
}

/// Appends the varint encoding of `n` to `out`.
fn push_varint(out: &mut Vec<u8>, n: u64)
    ensures
        final(out)@ == old(out)@ + varint(n as nat),
{
    let mut m: u64 = n;
    while m >= 128
        invariant
            old(out)@.is_prefix_of(out@),
            varint(n as nat) == out@.skip(old(out)@.len() as int) + varint(m as nat),
        decreases m,
    {
        let ghost pre = out@;
        out.push((m % 128 + 128) as u8);
        assert(out@.skip(old(out)@.len() as int) =~= pre.skip(old(out)@.len() as int) + seq![
            (m % 128 + 128) as u8,
        ]);
        assert(varint(m as nat) == seq![(m % 128 + 128) as u8] + varint((m / 128) as nat));
        assert((pre.skip(old(out)@.len() as int) + seq![(m % 128 + 128) as u8]) + varint(
            (m / 128) as nat,
        ) =~= pre.skip(old(out)@.len() as int) + varint(m as nat));
        m = m / 128;
    }
    let ghost pre = out@;
    out.push(m as u8);
    assert(varint(m as nat) == seq![m as u8]);
    assert(out@.skip(old(out)@.len() as int) =~= pre.skip(old(out)@.len() as int) + seq![m as u8]);
    assert(out@ =~= old(out)@ + out@.skip(old(out)@.len() as int));
}

/// Appends a length-delimited field with the given field number.
fn push_len_field(out: &mut Vec<u8>, field: u64, payload: &[u8])
    requires
        1 <= field <= 536870911,  // the largest protobuf field number, 2^29 - 1
    ensures
        final(out)@ == old(out)@ + len_field(field as nat, payload@),
{
    push_varint(out, field * 8 + 2);
    push_varint(out, payload.len() as u64);
    push_bytes(out, payload);
}

/// Appends a string or bytes field, skipping it when the value is empty.
fn push_opt_field(out: &mut Vec<u8>, field: u64, payload: &[u8])
    requires
        1 <= field <= 536870911,
    ensures
        final(out)@ == old(out)@ + opt_field(field as nat, payload@),
{
    if payload.len() > 0 {
        push_len_field(out, field, payload);
    } else {
        assert(out@ =~= old(out)@ + opt_field(field as nat, payload@));
    }
}

/// Decimal digits of `n`, most significant first.
pub open spec fn dec_bytes(n: nat) -> Seq<u8>
    decreases n,
{
    if n < 10 {
        seq![(48 + n) as u8]
    } else {
        dec_bytes(n / 10) + seq![(48 + n % 10) as u8]
    }
}

/// Appends the decimal rendering of `n` to `out`.
fn push_decimal(out: &mut Vec<u8>, n: u128)
    ensures
        final(out)@ == old(out)@ + dec_bytes(n as nat),
    decreases n,
{
    if n < 10 {
        out.push((48 + n) as u8);
    } else {
        push_decimal(out, n / 10);
        out.push((48 + n % 10) as u8);
        assert(out@ =~= old(out)@ + dec_bytes(n as nat));
    }
}

/// `<identifier> <amount>` for one reward asset.
pub open spec fn asset_rendered(a: Asset) -> Seq<u8> {
    encode_utf8(asset_id_chars(a.info)) + encode_utf8(" "@) + dec_bytes(a.amount as nat)
}

/// The `, `-separated rendering of every asset after the first.
pub open spec fn assets_tail_rendered(s: Seq<Asset>) -> Seq<u8>
    decreases s.len(),
{
    if s.len() == 0 {
        Seq::empty()
    } else {
        encode_utf8(", "@) + asset_rendered(s[0]) + assets_tail_rendered(s.drop_first())
    }
}

/// The canonical textual rendering of the reward-asset list: nothing for
/// an empty list, else a fixed heading and `, `-separated items.
pub open spec fn rewards_rendered(s: Seq<Asset>) -> Seq<u8> {
    if s.len() == 0 {
        Seq::empty()
    } else {
        encode_utf8(" with reward assets: "@) + asset_rendered(s[0]) + assets_tail_rendered(
            s.drop_first(),
        )
    }
}

/// Appends the rendering of one reward asset.
fn push_asset(out: &mut Vec<u8>, a: &Asset)
    ensures
        final(out)@ == old(out)@ + asset_rendered(*a),
{
    match &a.info {
        AssetInfo::Token { contract_addr } => push_bytes(out, contract_addr.as_str().as_bytes()),
        AssetInfo::NativeToken { denom } => push_bytes(out, denom.as_str().as_bytes()),
    }
    push_bytes(out, " ".as_bytes());
    push_decimal(out, a.amount);
    assert(out@ =~= old(out)@ + asset_rendered(*a));
}

/// Appends the rendering of the whole reward-asset list.
fn push_rewards(out: &mut Vec<u8>, rewards: &Vec<Asset>)
    ensures
        final(out)@ == old(out)@ + rewards_rendered(rewards@),
{
    if rewards.len() == 0 {
        assert(out@ =~= old(out)@ + rewards_rendered(rewards@));
        return ;
    }
    push_bytes(out, " with reward assets: ".as_bytes());
    push_asset(out, &rewards[0]);
    let mut i: usize = 1;
    while i < rewards.len()
        invariant
            1 <= i <= rewards@.len(),
            out@ + assets_tail_rendered(rewards@.skip(i as int)) == old(out)@ + rewards_rendered(
                rewards@,
            ),
        decreases rewards@.len() - i,
    {
        let ghost pre = out@;
        push_bytes(out, ", ".as_bytes());
        push_asset(out, &rewards[i]);
        proof {
            let tail = rewards@.skip(i as int);
            assert(tail[0] == rewards@[i as int]);
            assert(tail.drop_first() =~= rewards@.skip(i as int + 1));
            assert(assets_tail_rendered(tail) == encode_utf8(", "@) + asset_rendered(
                rewards@[i as int],
            ) + assets_tail_rendered(rewards@.skip(i as int + 1)));
            assert(out@ + assets_tail_rendered(rewards@.skip(i as int + 1)) =~= pre
                + assets_tail_rendered(tail));
        }
        i = i + 1;
    }
    proof {
        assert(rewards@.skip(i as int) =~= Seq::<Asset>::empty());
        assert(out@ + assets_tail_rendered(rewards@.skip(i as int)) =~= out@);
    }
}

/// Builds the inner `TextProposal` record from title and description bytes.
pub fn encode_text_proposal(title: &[u8], description: &[u8]) -> (r: Vec<u8>)
    ensures
        r@ == text_proposal_bytes(title@, description@),
{
    let mut out: Vec<u8> = Vec::new();
    push_opt_field(&mut out, 1, title);
    push_opt_field(&mut out, 2, description);
    assert(out@ =~= text_proposal_bytes(title@, description@));
    out
}

/// Builds the `Any` envelope from a type tag and the wrapped bytes.
pub fn encode_any(type_url: &[u8], value: &[u8]) -> (r: Vec<u8>)
    ensures
        r@ == any_bytes(type_url@, value@),
{
    let mut out: Vec<u8> = Vec::new();
    push_opt_field(&mut out, 1, type_url);
    push_opt_field(&mut out, 2, value);
    assert(out@ =~= any_bytes(type_url@, value@));
    out
}

/// Builds the outer `MsgSubmitProposal` record around an envelope.
pub fn encode_submit_proposal(content: &[u8], proposer: &[u8]) -> (r: Vec<u8>)
    ensures
        r@ == submit_proposal_bytes(content@, proposer@),
{
    let mut out: Vec<u8> = Vec::new();
    push_len_field(&mut out, 1, content);
    push_opt_field(&mut out, 3, proposer);
    assert(out@ =~= submit_proposal_bytes(content@, proposer@));
    out
}

/// The proposal title: a fixed product heading followed by the managed
/// token's address.
pub open spec fn proposal_title(token: Seq<u8>) -> Seq<u8> {
    encode_utf8("OraiDEX frontier - Listing new LP mining pool of token "@) + token
}

/// The proposal description names the managed token, the pool (liquidity)
/// token, and the reward-asset list.
pub open spec fn proposal_description(token: Seq<u8>, lp: Seq<u8>, rewards: Seq<Asset>) -> Seq<
    u8,
> {
    encode_utf8("Create a new liquidity mining pool for CW20 token: "@) + token + encode_utf8(
        " with LP Address: "@,
    ) + lp + rewards_rendered(rewards)
}

/// The type tag the envelope carries for a text proposal.
pub open spec fn text_proposal_type_url() -> Seq<u8> {
    encode_utf8("/cosmos.gov.v1beta1.TextProposal"@)
}

/// The complete governance-call payload for a listing proposal: the outer
/// record around the tagged envelope around the inner title/description
/// record, with an empty initial deposit and the given proposer identity.
pub open spec fn listing_proposal_payload(
    token: Seq<u8>,
    lp: Seq<u8>,
    proposer: Seq<u8>,
    rewards: Seq<Asset>,
) -> Seq<u8> {
    submit_proposal_bytes(
        any_bytes(
            text_proposal_type_url(),
            text_proposal_bytes(
                proposal_title(token),
                proposal_description(token, lp, rewards),
            ),
        ),
        proposer,
    )
}

/// Builds the governance payload. The output is a function of the four
/// arguments alone, so identical inputs give byte-identical payloads.
pub fn encode_listing_proposal(
    token: &[u8],
    lp: &[u8],
    proposer: &[u8],
    rewards: &Vec<Asset>,
) -> (r: Vec<u8>)
    ensures
        r@ == listing_proposal_payload(token@, lp@, proposer@, rewards@),
{
    let mut title: Vec<u8> = Vec::new();
    push_bytes(&mut title, "OraiDEX frontier - Listing new LP mining pool of token ".as_bytes());
    push_bytes(&mut title, token);
    assert(title@ =~= proposal_title(token@));
    let mut desc: Vec<u8> = Vec::new();
    push_bytes(&mut desc, "Create a new liquidity mining pool for CW20 token: ".as_bytes());
    push_bytes(&mut desc, token);
    push_bytes(&mut desc, " with LP Address: ".as_bytes());
    push_bytes(&mut desc, lp);
    push_rewards(&mut desc, rewards);
    assert(desc@ =~= proposal_description(token@, lp@, rewards@));
    let text = encode_text_proposal(title.as_slice(), desc.as_slice());
    let content = encode_any("/cosmos.gov.v1beta1.TextProposal".as_bytes(), text.as_slice());
    encode_submit_proposal(content.as_slice(), proposer)
}

/// Building the governance payload is deterministic: any two calls of
/// [`encode_listing_proposal`] on identical inputs yield byte-identical
/// payloads, because each result equals [`listing_proposal_payload`] of
/// its inputs alone.
pub proof fn lemma_listing_proposal_deterministic(
    token1: Seq<u8>,
    lp1: Seq<u8>,
    proposer1: Seq<u8>,
    rewards1: Seq<Asset>,
    token2: Seq<u8>,
    lp2: Seq<u8>,
    proposer2: Seq<u8>,
    rewards2: Seq<Asset>,
)
    requires
        token1 == token2,
        lp1 == lp2,
        proposer1 == proposer2,
        rewards1 == rewards2,
    ensures
        listing_proposal_payload(token1, lp1, proposer1, rewards1) == listing_proposal_payload(
            token2,
            lp2,
            proposer2,
            rewards2,
        ),
{
}

} // verus!

