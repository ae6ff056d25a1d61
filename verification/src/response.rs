//! The completion notifications the host delivers to the engine, and
//! the outbound calls the engine hands back.

use vstd::prelude::*;
use crate::asset::AssetInfo;
use crate::msg::TokenInstantiateMsg;

verus! {

/// One key/value pair attached to an event of a completion notification.
#[derive(Debug)]
pub struct Attribute {
    pub key: String,
    pub value: String,
}

/// One event of a completion notification.
#[derive(Debug)]
pub struct Event {
    pub ty: String,
    pub attributes: Vec<Attribute>,
}

/// What a successfully completed outbound call reported back.
#[derive(Debug)]
pub struct SubMsgResponse {
    pub events: Vec<Event>,
}

/// The outcome of an outbound call: the collaborator's events on
/// success, its error message on failure.
#[derive(Debug)]
pub enum SubMsgResult {
    Success(SubMsgResponse),
    Failure(String),
}

/// A completion notification: the correlation id of the outbound call it
/// answers, and the outcome.
#[derive(Debug)]
pub struct Reply {
    pub id: u64,
    pub result: SubMsgResult,
}

/// The message the pair factory module accepts.
#[derive(Debug)]
pub enum FactoryMsg {
    CreatePair { asset_infos: (AssetInfo, AssetInfo), pair_admin: Option<String> },
}

/// An outbound call to another on-chain module.
#[derive(Debug)]
pub enum CosmosMsg {
    /// Instantiate a new managed token from the configured code.
    WasmInstantiate { code_id: u64, admin: Option<String>, label: String, token_init: TokenInstantiateMsg },
    /// Execute a message on the pair factory module.
    WasmExecute { contract_addr: String, factory_msg: FactoryMsg },
    /// A chain-level call addressed by a type url, carrying a binary
    /// payload; the governance proposal goes out this way.
    Stargate { type_url: String, value: Vec<u8> },
}

/// Whether the host shall deliver a completion notification for an
/// outbound call, and when.
#[derive(Debug)]
pub enum ReplyOn {
    Never,
    Always,
    Error,
}

/// An outbound call together with its correlation id and delivery mode.
/// A call that tracks no completion carries id zero and `Never`.
#[derive(Debug)]
pub struct SubMsg {
    pub id: u64,
    pub reply_on: ReplyOn,
    pub msg: CosmosMsg,
}

/// What an execution unit of the engine hands back to the host: the
/// outbound calls to queue and the attributes to log.
#[derive(Debug)]
pub struct Response {
    pub messages: Vec<SubMsg>,
    pub attributes: Vec<Attribute>,
}

impl Response {
    /// A response with no outbound call and no attribute.
    pub fn empty() -> (r: Response)
        ensures
            r.messages@ == Seq::<SubMsg>::empty(),
            r.attributes@ == Seq::<Attribute>::empty(),
    {
        Response { messages: Vec::new(), attributes: Vec::new() }
    }
}

} // verus!
