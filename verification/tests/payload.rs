//! Golden-byte tests of the governance payload encoder, cross-checked
//! against two independent protobuf implementations.

use anybuf::Anybuf;
use cosmos_sdk_proto::cosmos::gov::v1beta1::{MsgSubmitProposal, TextProposal};
use cosmos_sdk_proto::traits::Message;
use cosmos_sdk_proto::Any;
use cosmwasm_std::Binary;
use listing_engine::asset::{Asset, AssetInfo};
use listing_engine::encode::encode_listing_proposal;

fn prost_payload(token: &str, lp: &str, proposer: &str) -> Vec<u8> {
    MsgSubmitProposal {
        content: Some(Any {
            type_url: "/cosmos.gov.v1beta1.TextProposal".to_string(),
            value: TextProposal {
                title: format!(
                    "OraiDEX frontier - Listing new LP mining pool of token {}",
                    token
                ),
                description: format!(
                    "Create a new liquidity mining pool for CW20 token: {} with LP Address: {}",
                    token, lp,
                ),
            }
            .encode_to_vec(),
        }),
        initial_deposit: vec![],
        proposer: proposer.to_string(),
    }
    .encode_to_vec()
}

#[test]
fn test_encode() {
    let cw20_address = "orai123";

    let value: Binary = prost_payload(cw20_address, cw20_address, cw20_address).into();

    let text_proposal = Anybuf::new()
        .append_string(
            1,
            format!(
                "OraiDEX frontier - Listing new LP mining pool of token {}",
                cw20_address
            ),
        )
        .append_string(
            2,
            format!(
                "Create a new liquidity mining pool for CW20 token: {} with LP Address: {}",
                cw20_address, cw20_address,
            ),
        );

    let msg_submit_proposal = Anybuf::new()
        .append_message(
            1,
            &Anybuf::new()
                .append_string(1, "/cosmos.gov.v1beta1.TextProposal")
                .append_message(2, &text_proposal),
        )
        .append_bytes(2, &[])
        .append_bytes(3, cw20_address.as_bytes());
    let value2: Binary = msg_submit_proposal.as_bytes().into();

    assert_eq!(value.to_base64(), value2.to_base64());
}

#[test]
fn library_payload_matches_protobuf_crates() {
    let payload = encode_listing_proposal(
        b"orai123".as_slice(),
        b"orai123".as_slice(),
        b"orai123".as_slice(),
        &Vec::new(),
    );
    assert_eq!(payload, prost_payload("orai123", "orai123", "orai123"));

    let payload2 = encode_listing_proposal(
        b"tokenaddr".as_slice(),
        b"lpaddr".as_slice(),
        b"proposeraddr".as_slice(),
        &Vec::new(),
    );
    assert_eq!(payload2, prost_payload("tokenaddr", "lpaddr", "proposeraddr"));
}

#[test]
fn payload_is_deterministic() {
    let rewards = vec![Asset {
        info: AssetInfo::NativeToken { denom: "orai".to_string() },
        amount: 5,
    }];
    let a = encode_listing_proposal(
        b"tok".as_slice(),
        b"lp".as_slice(),
        b"prop".as_slice(),
        &rewards,
    );
    let b = encode_listing_proposal(
        b"tok".as_slice(),
        b"lp".as_slice(),
        b"prop".as_slice(),
        &rewards,
    );
    assert_eq!(a, b);
}

#[test]
fn golden_bytes_fixed_tuple() {
    let payload = encode_listing_proposal(
        b"orai123".as_slice(),
        b"orai123".as_slice(),
        b"orai123".as_slice(),
        &Vec::new(),
    );
    let expected: Vec<u8> = vec![
        10, 186, 1, 10, 32, 47, 99, 111, 115, 109, 111, 115, 46, 103, 111, 118, 46, 118, 49, 98,
        101, 116, 97, 49, 46, 84, 101, 120, 116, 80, 114, 111, 112, 111, 115, 97, 108, 18, 149, 1,
        10, 62, 79, 114, 97, 105, 68, 69, 88, 32, 102, 114, 111, 110, 116, 105, 101, 114, 32, 45,
        32, 76, 105, 115, 116, 105, 110, 103, 32, 110, 101, 119, 32, 76, 80, 32, 109, 105, 110,
        105, 110, 103, 32, 112, 111, 111, 108, 32, 111, 102, 32, 116, 111, 107, 101, 110, 32, 111,
        114, 97, 105, 49, 50, 51, 18, 83, 67, 114, 101, 97, 116, 101, 32, 97, 32, 110, 101, 119,
        32, 108, 105, 113, 117, 105, 100, 105, 116, 121, 32, 109, 105, 110, 105, 110, 103, 32, 112,
        111, 111, 108, 32, 102, 111, 114, 32, 67, 87, 50, 48, 32, 116, 111, 107, 101, 110, 58, 32,
        111, 114, 97, 105, 49, 50, 51, 32, 119, 105, 116, 104, 32, 76, 80, 32, 65, 100, 100, 114,
        101, 115, 115, 58, 32, 111, 114, 97, 105, 49, 50, 51, 26, 7, 111, 114, 97, 105, 49, 50, 51,
    ];
    assert_eq!(payload, expected);
}

#[test]
fn payload_decodes_to_title_and_description() {
    let payload = encode_listing_proposal(
        b"tokenA".as_slice(),
        b"lpB".as_slice(),
        b"senderC".as_slice(),
        &Vec::new(),
    );
    let outer = MsgSubmitProposal::decode(payload.as_slice()).unwrap();
    assert_eq!(outer.proposer, "senderC");
    assert!(outer.initial_deposit.is_empty());
    let content = outer.content.unwrap();
    assert_eq!(content.type_url, "/cosmos.gov.v1beta1.TextProposal");
    let inner = TextProposal::decode(content.value.as_slice()).unwrap();
    assert_eq!(
        inner.title,
        "OraiDEX frontier - Listing new LP mining pool of token tokenA"
    );
    assert_eq!(
        inner.description,
        "Create a new liquidity mining pool for CW20 token: tokenA with LP Address: lpB"
    );
}

#[test]
fn payload_renders_reward_assets() {
    let rewards = vec![
        Asset {
            info: AssetInfo::NativeToken { denom: "orai".to_string() },
            amount: 250,
        },
        Asset {
            info: AssetInfo::Token { contract_addr: "oraiXYZ".to_string() },
            amount: 1,
        },
    ];
    let payload = encode_listing_proposal(
        b"tok".as_slice(),
        b"lp".as_slice(),
        b"prop".as_slice(),
        &rewards,
    );
    let outer = MsgSubmitProposal::decode(payload.as_slice()).unwrap();
    let inner = TextProposal::decode(outer.content.unwrap().value.as_slice()).unwrap();
    assert_eq!(
        inner.description,
        "Create a new liquidity mining pool for CW20 token: tok with LP Address: lp \
         with reward assets: orai 250, oraiXYZ 1"
    );
}

#[test]
fn payload_renders_largest_amount() {
    let rewards = vec![Asset {
        info: AssetInfo::NativeToken { denom: "orai".to_string() },
        amount: u128::MAX,
    }];
    let payload = encode_listing_proposal(
        b"tok".as_slice(),
        b"lp".as_slice(),
        b"prop".as_slice(),
        &rewards,
    );
    let outer = MsgSubmitProposal::decode(payload.as_slice()).unwrap();
    let inner = TextProposal::decode(outer.content.unwrap().value.as_slice()).unwrap();
    assert!(inner
        .description
        .contains("340282366920938463463374607431768211455"));
}

#[test]
fn payload_keeps_empty_proposer_out() {
    let payload = encode_listing_proposal(
        b"tok".as_slice(),
        b"lp".as_slice(),
        b"".as_slice(),
        &Vec::new(),
    );
    let outer = MsgSubmitProposal::decode(payload.as_slice()).unwrap();
    assert_eq!(outer.proposer, "");
    let reencoded = prost_payload("tok", "lp", "");
    assert_eq!(payload, reencoded);
}
