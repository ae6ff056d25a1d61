//! The entry dispatcher and the completion router: the workflow steps
//! themselves.
//!
//! A step that emits an outbound call terminates at once; the outcome of
//! the call arrives later as a [`Reply`] with the correlation id the
//! step chose, and [`reply`] dispatches it to the matching resumption
//! logic. All state that a later step needs is written to the
//! continuation store before the step returns.

use vstd::prelude::*;
use vstd::slice::{slice_index_get, slice_subrange, slice_to_vec};
use vstd::string::StringSliceAdditionalSpecFns;
use vstd::utf8::encode_utf8;
use crate::asset::{AssetInfo, asset_id_chars};
use crate::encode::{encode_listing_proposal, listing_proposal_payload};
use crate::error::ContractError;
use crate::msg::{
    Cw20Coin, ExecuteMsg, InstantiateMsg, ListTokenMsg, MigrateMsg, QueryMsg, TokenInstantiateMsg,
};
use crate::response::{
    Attribute, CosmosMsg, Event, FactoryMsg, Reply, ReplyOn, Response, SubMsg, SubMsgResponse,
    SubMsgResult,
};
use crate::state::{
    Config, Store, WorkflowContext, config_read, config_save, context_read, context_save,
    token_addr_save,
};

verus! {

/// Correlation id of the token-creation call of step one.
pub const INSTANTIATE_REPLY_ID: u64 = 1;

/// Correlation id of the pair-creation call of step two.
pub const CREATE_PAIR_REPLY_ID: u64 = 2;

/// Correlation id of the governance-proposal call of step three.
pub const CREATE_PROPOSAL_REPLY_ID: u64 = 3;

/// The first value under `key` in an attribute list.
pub open spec fn lookup_in_attrs(attrs: Seq<Attribute>, key: Seq<char>) -> Option<Seq<char>>
    decreases attrs.len(),
{
    if attrs.len() == 0 {
        None
    } else if attrs[0].key@ == key {
        Some(attrs[0].value@)
    } else {
        lookup_in_attrs(attrs.drop_first(), key)
    }
}

/// The first value under `key` across the events of a notification, in
/// event order; the first occurrence wins.
pub open spec fn lookup_attr(events: Seq<Event>, key: Seq<char>) -> Option<Seq<char>>
    decreases events.len(),
{
    if events.len() == 0 {
        None
    } else {
        match lookup_in_attrs(events[0].attributes@, key) {
            Some(v) => Some(v),
            None => lookup_attr(events.drop_first(), key),
        }
    }
}

/// Whether two string slices hold the same characters, decided byte by
/// byte; equal UTF-8 bytes mean equal character sequences.
fn str_eq(a: &str, b: &str) -> (r: bool)
    ensures
        r == (a@ == b@),
{
    proof {
        vstd::utf8::encode_utf8_decode_utf8(a@);
        vstd::utf8::encode_utf8_decode_utf8(b@);
    }
    let ab = a.as_bytes();
    let bb = b.as_bytes();
    if ab.len() != bb.len() {
        return false;
    }
    let mut i: usize = 0;
    while i < ab.len()
        invariant
            i <= ab@.len(),
            ab@.len() == bb@.len(),
            ab@ == a.spec_bytes(),
            bb@ == b.spec_bytes(),
            forall|k: int| 0 <= k < i ==> ab@[k] == bb@[k],
        decreases ab@.len() - i,
    {
        if ab[i] != bb[i] {
            return false;
        }
        i = i + 1;
    }
    proof {
        assert(ab@ =~= bb@);
    }
    true
}

/// Looks `key` up in the events of a completion notification; exact key
/// match, first occurrence wins, absence is an error and never a
/// default.
#[verifier::loop_isolation(false)]
pub fn read_attr(key: &str, response: &SubMsgResponse) -> (r: Result<String, ContractError>)
    ensures
        match r {
            Ok(v) => lookup_attr(response.events@, key@) == Some(v@),
            Err(e) => lookup_attr(response.events@, key@) is None && (e
                matches ContractError::MissingAttribute { name } && name@ == key@),
        },
{
    let events = &response.events;
    proof {
        assert(events@.skip(0) =~= events@);
    }
    let mut i: usize = 0;
    while i < events.len()
        invariant
            i <= events@.len(),
            lookup_attr(events@, key@) == lookup_attr(events@.skip(i as int), key@),
        decreases events@.len() - i,
    {
        let attrs = &events[i].attributes;
        let ghost evs = events@.skip(i as int);
        proof {
            assert(evs[0] == events@[i as int]);
        }
        proof {
            assert(attrs@.skip(0) =~= attrs@);
        }
        let mut j: usize = 0;
        while j < attrs.len()
            invariant
                j <= attrs@.len(),
                attrs@ == events@[i as int].attributes@,
                i < events@.len(),
                lookup_in_attrs(attrs@, key@) == lookup_in_attrs(attrs@.skip(j as int), key@),
            decreases attrs@.len() - j,
        {
            let ghost ats = attrs@.skip(j as int);
            proof {
                assert(ats[0] == attrs@[j as int]);
                assert(ats.drop_first() =~= attrs@.skip(j as int + 1));
            }
            if str_eq(attrs[j].key.as_str(), key) {
                proof {
                    assert(lookup_in_attrs(attrs@, key@) == Some(attrs@[j as int].value@));
                    assert(lookup_attr(evs, key@) == Some(attrs@[j as int].value@));
                }
                return Ok(attrs[j].value.clone());
            }
            j = j + 1;
        }
        proof {
            assert(attrs@.skip(attrs@.len() as int) =~= Seq::<Attribute>::empty());
            assert(lookup_in_attrs(events@[i as int].attributes@, key@) is None);
            assert(evs.drop_first() =~= events@.skip(i as int + 1));
        }
        i = i + 1;
    }
    proof {
        assert(events@.skip(events@.len() as int) =~= Seq::<Event>::empty());
    }
    Err(ContractError::MissingAttribute { name: String::from_str(key) })
}

/// One attribute with the given key and value.
pub open spec fn attr_is(a: Attribute, key: Seq<char>, value: Seq<char>) -> bool {
    a.key@ == key && a.value@ == value
}

/// The pair-creation call: an execute message asking the factory module
/// for a pair of the two assets, with the factory itself as pair admin.
pub open spec fn is_create_pair_msg(
    m: CosmosMsg,
    factory_addr: Seq<char>,
    first: AssetInfo,
    second: AssetInfo,
) -> bool {
    m matches CosmosMsg::WasmExecute { contract_addr, factory_msg } && contract_addr@
        == factory_addr && (factory_msg matches FactoryMsg::CreatePair { asset_infos, pair_admin }
        && asset_infos.0 == first && asset_infos.1 == second && (pair_admin matches Some(p) && p@
        == factory_addr))
}

/// Builds the pair-creation call for the factory module.
pub fn create_pair_msg(factory_addr: String, asset_infos: (AssetInfo, AssetInfo)) -> (r: CosmosMsg)
    ensures
        is_create_pair_msg(r, factory_addr@, asset_infos.0, asset_infos.1),
{
    let admin = factory_addr.clone();
    CosmosMsg::WasmExecute {
        contract_addr: factory_addr,
        factory_msg: FactoryMsg::CreatePair { asset_infos, pair_admin: Some(admin) },
    }
}

/// The token-instantiation payload a new-token request gives rise to:
/// the requested symbol, the requested or defaulted name, six decimals,
/// and the passed-through balances, mint authority and marketing data.
pub open spec fn token_init_matches(t: TokenInstantiateMsg, req: ListTokenMsg) -> bool {
    &&& t.symbol@ == req.symbol->0@
    &&& t.name@ == (match req.name {
        Some(n) => n@,
        None => req.symbol->0@ + " token"@,
    })
    &&& t.decimals == 6
    &&& t.initial_balances@ == (match req.initial_balances {
        Some(v) => v@,
        None => Seq::<Cw20Coin>::empty(),
    })
    &&& t.mint == req.mint
    &&& t.marketing == req.marketing
}

/// The token-creation call of step one, with the requested or defaulted
/// label and admin.
pub open spec fn is_token_init_msg(m: CosmosMsg, code_id: u64, req: ListTokenMsg) -> bool {
    m matches CosmosMsg::WasmInstantiate { code_id: c, admin, label, token_init } && c == code_id
        && admin == req.cw20_admin && label@ == (match req.label {
        Some(l) => l@,
        None => "Production Cw20 "@ + req.symbol->0@ + " token"@,
    }) && token_init_matches(token_init, req)
}

/// The response of a request that named a ready-made asset: one
/// untracked pair-creation call, and the logged attributes.
pub open spec fn direct_pair_response(
    resp: Response,
    cfg: Config,
    sender: String,
    target: AssetInfo,
    counter: AssetInfo,
) -> bool {
    &&& resp.messages@.len() == 1
    &&& resp.messages@[0].id == 0
    &&& resp.messages@[0].reply_on == ReplyOn::Never
    &&& is_create_pair_msg(resp.messages@[0].msg, cfg.factory_addr@, target, counter)
    &&& resp.attributes@.len() == 3
    &&& attr_is(resp.attributes@[0], "action"@, "list_new_token_pool"@)
    &&& attr_is(resp.attributes@[1], "proposer"@, sender@)
    &&& attr_is(resp.attributes@[2], "asset_info"@, asset_id_chars(target))
}

/// The response of a request that asked for a new token: one
/// token-creation call tracked under the step-one correlation id, and
/// the logged attributes.
pub open spec fn new_token_response(
    resp: Response,
    cfg: Config,
    sender: String,
    req: ListTokenMsg,
) -> bool {
    &&& resp.messages@.len() == 1
    &&& resp.messages@[0].id == INSTANTIATE_REPLY_ID
    &&& resp.messages@[0].reply_on == ReplyOn::Always
    &&& is_token_init_msg(resp.messages@[0].msg, cfg.cw20_code_id, req)
    &&& resp.attributes@.len() == 3
    &&& attr_is(resp.attributes@[0], "action"@, "list_new_token_pool_with_new_cw20_token"@)
    &&& attr_is(resp.attributes@[1], "symbol"@, req.symbol->0@)
    &&& attr_is(resp.attributes@[2], "proposer"@, sender@)
}

/// Everything `list_token` guarantees, relating the store before and
/// after, the request, and the outcome.
pub open spec fn list_token_spec(
    s0: Store,
    s1: Store,
    sender: String,
    msg: ListTokenMsg,
    r: Result<Response, ContractError>,
) -> bool {
    if s0.config is None {
        &&& s1 == s0
        &&& r matches Err(ContractError::StorageError)
    } else {
        let cfg = s0.config->0;
        match msg.targeted_asset_info {
            Some(target) => {
                &&& s1 == s0
                &&& r matches Ok(resp) && direct_pair_response(
                    resp,
                    cfg,
                    sender,
                    target,
                    msg.pair_asset_info,
                )
            },
            None => match msg.symbol {
                None => {
                    &&& s1 == s0
                    &&& r matches Err(ContractError::InvalidRequest)
                },
                Some(sym) => {
                    &&& s1.config == s0.config
                    &&& s1.token_addr == s0.token_addr
                    &&& s1.context == Some(
                        WorkflowContext {
                            proposer: sender,
                            pair_asset_info: msg.pair_asset_info,
                            reward_assets: msg.liquidity_pool_reward_assets,
                        },
                    )
                    &&& r matches Ok(resp) && new_token_response(resp, cfg, sender, msg)
                },
            },
        }
    }
}

/// Starts a listing workflow. A request that names a ready-made asset
/// goes straight to pair creation and tracks no completion; a request
/// with a token symbol persists the workflow context and emits the
/// token-creation call of step one; a request with neither is invalid.
pub fn list_token(store: &mut Store, sender: String, msg: ListTokenMsg) -> (r: Result<
    Response,
    ContractError,
>)
    ensures
        list_token_spec(*old(store), *final(store), sender, msg, r),
{
    let config = match config_read(store) {
        Ok(c) => c,
        Err(e) => { return Err(e); },
    };
    if let Some(asset_info) = msg.targeted_asset_info {
        let id_str = asset_info.id_string();
        let cosmos_msg = create_pair_msg(config.factory_addr, (asset_info, msg.pair_asset_info));
        let mut messages: Vec<SubMsg> = Vec::new();
        messages.push(SubMsg { id: 0, reply_on: ReplyOn::Never, msg: cosmos_msg });
        let mut attributes: Vec<Attribute> = Vec::new();
        attributes.push(
            Attribute {
                key: String::from_str("action"),
                value: String::from_str("list_new_token_pool"),
            },
        );
        attributes.push(Attribute { key: String::from_str("proposer"), value: sender });
        attributes.push(Attribute { key: String::from_str("asset_info"), value: id_str });
        return Ok(Response { messages, attributes });
    }
    let symbol = match msg.symbol {
        Some(s) => s,
        None => { return Err(ContractError::InvalidRequest); },
    };
    let name = match msg.name {
        Some(n) => n,
        None => symbol.clone().concat(" token"),
    };
    let label = match msg.label {
        Some(l) => l,
        None => String::from_str("Production Cw20 ").concat(symbol.as_str()).concat(" token"),
    };
    let initial_balances = match msg.initial_balances {
        Some(v) => v,
        None => Vec::new(),
    };
    let token_init = TokenInstantiateMsg {
        name,
        symbol: symbol.clone(),
        decimals: 6,
        initial_balances,
        mint: msg.mint,
        marketing: msg.marketing,
    };
    let cosmos_msg = CosmosMsg::WasmInstantiate {
        code_id: config.cw20_code_id,
        admin: msg.cw20_admin,
        label,
        token_init,
    };
    context_save(
        store,
        WorkflowContext {
            proposer: sender.clone(),
            pair_asset_info: msg.pair_asset_info,
            reward_assets: msg.liquidity_pool_reward_assets,
        },
    );
    let mut messages: Vec<SubMsg> = Vec::new();
    messages.push(SubMsg { id: INSTANTIATE_REPLY_ID, reply_on: ReplyOn::Always, msg: cosmos_msg });
    let mut attributes: Vec<Attribute> = Vec::new();
    attributes.push(
        Attribute {
            key: String::from_str("action"),
            value: String::from_str("list_new_token_pool_with_new_cw20_token"),
        },
    );
    attributes.push(Attribute { key: String::from_str("symbol"), value: symbol });
    attributes.push(Attribute { key: String::from_str("proposer"), value: sender });
    Ok(Response { messages, attributes })
}

/// Initializes the engine: the caller becomes the owner, and the token
/// code id and factory address are recorded.
pub fn instantiate(store: &mut Store, sender: String, msg: InstantiateMsg) -> (r: Result<
    Response,
    ContractError,
>)
    ensures
        final(store).config == Some(
            Config {
                owner: sender,
                cw20_code_id: msg.cw20_code_id,
                factory_addr: msg.factory_addr,
            },
        ),
        final(store).context == old(store).context,
        final(store).token_addr == old(store).token_addr,
        r matches Ok(resp) && resp.messages@.len() == 0 && resp.attributes@.len() == 0,
{
    config_save(
        store,
        Config {
            owner: sender,
            cw20_code_id: msg.cw20_code_id,
            factory_addr: msg.factory_addr,
        },
    );
    Ok(Response::empty())
}

/// Dispatches a transaction to the operation it invokes.
pub fn execute(store: &mut Store, sender: String, msg: ExecuteMsg) -> (r: Result<
    Response,
    ContractError,
>)
    ensures
        msg matches ExecuteMsg::ListToken(m) ==> list_token_spec(
            *old(store),
            *final(store),
            sender,
            m,
            r,
        ),
{
    match msg {
        ExecuteMsg::ListToken(m) => list_token(store, sender, m),
    }
}

/// Answers a read-only query; the one query reads the configuration.
pub fn query(store: &Store, msg: QueryMsg) -> (r: Result<Config, ContractError>)
    ensures
        match r {
            Ok(c) => store.config == Some(c),
            Err(e) => store.config is None && e matches ContractError::StorageError,
        },
{
    match msg {
        QueryMsg::Config {} => config_read(store),
    }
}

/// Index of the first `-` byte in `s`, or the length when there is none.
pub open spec fn first_dash(s: Seq<u8>) -> int
    decreases s.len(),
{
    if s.len() == 0 {
        0
    } else if s[0] == 45 {
        0
    } else {
        1 + first_dash(s.drop_first())
    }
}

/// The managed-token address inside a `pair` attribute value: the part
/// after the first `-`, or the whole value when there is none. The
/// external factory module names a pair `<first>-<second>`, and the
/// engine always puts the managed token second.
pub open spec fn pair_token(s: Seq<u8>) -> Seq<u8> {
    if first_dash(s) == s.len() {
        s
    } else {
        s.subrange(first_dash(s) + 1, s.len() as int)
    }
}

/// Extracts the managed-token address from a `pair` attribute value.
fn token_suffix(pair: &[u8]) -> (r: Vec<u8>)
    ensures
        r@ == pair_token(pair@),
{
    proof {
        assert(pair@.skip(0) =~= pair@);
    }
    let mut i: usize = 0;
    while i < pair.len()
        invariant
            i <= pair@.len(),
            first_dash(pair@) == i + first_dash(pair@.skip(i as int)),
        decreases pair@.len() - i,
    {
        let ghost rest = pair@.skip(i as int);
        proof {
            assert(rest[0] == pair@[i as int]);
            assert(rest.drop_first() =~= pair@.skip(i as int + 1));
        }
        if *slice_index_get(pair, i) == 45 {
            proof {
                assert(first_dash(pair@) == i);
            }
            return slice_to_vec(slice_subrange(pair, i + 1, pair.len()));
        }
        i = i + 1;
    }
    proof {
        assert(pair@.skip(pair@.len() as int) =~= Seq::<u8>::empty());
        assert(first_dash(pair@) == pair@.len());
    }
    slice_to_vec(pair)
}

/// Whether a correlation id belongs to one of the three workflow steps.
pub open spec fn known_id(id: u64) -> bool {
    id == INSTANTIATE_REPLY_ID || id == CREATE_PAIR_REPLY_ID || id == CREATE_PROPOSAL_REPLY_ID
}

/// The name a step carries in step-failure errors.
pub open spec fn step_name(id: u64) -> Seq<char> {
    if id == INSTANTIATE_REPLY_ID {
        "token_created"@
    } else if id == CREATE_PAIR_REPLY_ID {
        "pair_created"@
    } else {
        "proposal_submitted"@
    }
}

/// The response of step one: the pair-creation call, tracked under the
/// step-two correlation id, pairing the persisted counter asset with the
/// newly created token, plus the logged token address.
pub open spec fn step1_response(
    resp: Response,
    cfg: Config,
    ctx: WorkflowContext,
    addr: Seq<char>,
) -> bool {
    &&& resp.messages@.len() == 1
    &&& resp.messages@[0].id == CREATE_PAIR_REPLY_ID
    &&& resp.messages@[0].reply_on == ReplyOn::Always
    &&& (resp.messages@[0].msg matches CosmosMsg::WasmExecute { contract_addr, factory_msg }
        && contract_addr@ == cfg.factory_addr@ && (factory_msg matches FactoryMsg::CreatePair {
        asset_infos,
        pair_admin,
    } && asset_infos.0 == ctx.pair_asset_info && (asset_infos.1 matches AssetInfo::Token {
        contract_addr: t,
    } && t@ == addr) && (pair_admin matches Some(p) && p@ == cfg.factory_addr@)))
    &&& resp.attributes@.len() == 1
    &&& attr_is(resp.attributes@[0], "cw20_address"@, addr)
}

/// What resuming step one guarantees: the token address is taken from
/// the `_contract_address` attribute, persisted, and answered with the
/// pair-creation call; a missing attribute or missing persisted state
/// fails and changes nothing.
pub open spec fn step1_spec(
    s0: Store,
    s1: Store,
    resp: SubMsgResponse,
    r: Result<Response, ContractError>,
) -> bool {
    match lookup_attr(resp.events@, "_contract_address"@) {
        None => {
            &&& s1 == s0
            &&& r matches Err(ContractError::MissingAttribute { name }) && name@
                == "_contract_address"@
        },
        Some(addr) => {
            if s0.config is None || s0.context is None {
                &&& s1 == s0
                &&& r matches Err(ContractError::StorageError)
            } else {
                &&& s1.config == s0.config
                &&& s1.context == s0.context
                &&& s1.token_addr matches Some(t) && t@ == addr
                &&& r matches Ok(out) && step1_response(out, s0.config->0, s0.context->0, addr)
            }
        },
    }
}

/// The response of step two: the governance call as a chain-level
/// message whose payload carries the listing proposal, tracked under the
/// step-three correlation id in error-only delivery mode.
pub open spec fn step2_response(
    resp: Response,
    token: Seq<u8>,
    lp: Seq<u8>,
    ctx: WorkflowContext,
) -> bool {
    &&& resp.messages@.len() == 1
    &&& resp.messages@[0].id == CREATE_PROPOSAL_REPLY_ID
    &&& resp.messages@[0].reply_on == ReplyOn::Error
    &&& (resp.messages@[0].msg matches CosmosMsg::Stargate { type_url, value } && type_url@
        == "/cosmos.gov.v1beta1.MsgSubmitProposal"@ && value@ == listing_proposal_payload(
        token,
        lp,
        encode_utf8(ctx.proposer@),
        ctx.reward_assets@,
    ))
    &&& resp.attributes@.len() == 1
    &&& attr_is(resp.attributes@[0], "action"@, "create_new_token_listing_proposal"@)
}

/// What resuming step two guarantees: the pool-token address and the
/// pair name are taken from their well-known attributes, the managed
/// token's address is the suffix of the pair name, and the governance
/// call is built from them and the persisted context. The store is never
/// changed by this step.
pub open spec fn step2_spec(s0: Store, resp: SubMsgResponse, r: Result<
    Response,
    ContractError,
>) -> bool {
    match lookup_attr(resp.events@, "liquidity_token_addr"@) {
        None => r matches Err(ContractError::MissingAttribute { name }) && name@
            == "liquidity_token_addr"@,
        Some(lp) => match lookup_attr(resp.events@, "pair"@) {
            None => r matches Err(ContractError::MissingAttribute { name }) && name@ == "pair"@,
            Some(pair) => {
                if s0.context is None {
                    r matches Err(ContractError::StorageError)
                } else {
                    r matches Ok(out) && step2_response(
                        out,
                        pair_token(encode_utf8(pair)),
                        encode_utf8(lp),
                        s0.context->0,
                    )
                }
            },
        },
    }
}

/// Everything `reply` guarantees, relating the store before and after,
/// the completion notification, and the outcome.
pub open spec fn reply_spec(s0: Store, s1: Store, msg: Reply, r: Result<
    Response,
    ContractError,
>) -> bool {
    match msg.result {
        SubMsgResult::Failure(err) => {
            &&& s1 == s0
            &&& if known_id(msg.id) {
                r matches Err(ContractError::StepFailed { step, reason }) && step@ == step_name(
                    msg.id,
                ) && reason == err
            } else {
                r matches Err(ContractError::UnknownCorrelation { id }) && id == msg.id
            }
        },
        SubMsgResult::Success(resp) => {
            if msg.id == INSTANTIATE_REPLY_ID {
                step1_spec(s0, s1, resp, r)
            } else if msg.id == CREATE_PAIR_REPLY_ID {
                &&& s1 == s0
                &&& step2_spec(s0, resp, r)
            } else if msg.id == CREATE_PROPOSAL_REPLY_ID {
                &&& s1 == s0
                &&& r matches Ok(out) && out.messages@.len() == 0 && out.attributes@.len() == 0
            } else {
                &&& s1 == s0
                &&& r matches Err(ContractError::UnknownCorrelation { id }) && id == msg.id
            }
        },
    }
}

/// The completion router: dispatches a notification to the resumption
/// logic of the step its correlation id names. A failure outcome at a
/// known step surfaces that step's name and the collaborator's message;
/// an unknown id is always an error; nothing is retried.
pub fn reply(store: &mut Store, msg: Reply) -> (r: Result<Response, ContractError>)
    ensures
        reply_spec(*old(store), *final(store), msg, r),
{
    match msg.result {
        SubMsgResult::Failure(err) => {
            if msg.id == INSTANTIATE_REPLY_ID {
                Err(ContractError::StepFailed { step: String::from_str("token_created"), reason: err })
            } else if msg.id == CREATE_PAIR_REPLY_ID {
                Err(ContractError::StepFailed { step: String::from_str("pair_created"), reason: err })
            } else if msg.id == CREATE_PROPOSAL_REPLY_ID {
                Err(
                    ContractError::StepFailed {
                        step: String::from_str("proposal_submitted"),
                        reason: err,
                    },
                )
            } else {
                Err(ContractError::UnknownCorrelation { id: msg.id })
            }
        },
        SubMsgResult::Success(response) => {
            if msg.id == INSTANTIATE_REPLY_ID {
                let addr = match read_attr("_contract_address", &response) {
                    Ok(a) => a,
                    Err(e) => { return Err(e); },
                };
                let config = match config_read(store) {
                    Ok(c) => c,
                    Err(e) => { return Err(e); },
                };
                let counter = match context_read(store) {
                    Ok(c) => c.pair_asset_info.clone(),
                    Err(e) => { return Err(e); },
                };
                let token_info = AssetInfo::Token { contract_addr: addr.clone() };
                let cosmos_msg = create_pair_msg(config.factory_addr, (counter, token_info));
                token_addr_save(store, addr.clone());
                let mut messages: Vec<SubMsg> = Vec::new();
                messages.push(
                    SubMsg { id: CREATE_PAIR_REPLY_ID, reply_on: ReplyOn::Always, msg: cosmos_msg },
                );
                let mut attributes: Vec<Attribute> = Vec::new();
                attributes.push(Attribute { key: String::from_str("cw20_address"), value: addr });
                Ok(Response { messages, attributes })
            } else if msg.id == CREATE_PAIR_REPLY_ID {
                let lp = match read_attr("liquidity_token_addr", &response) {
                    Ok(a) => a,
                    Err(e) => { return Err(e); },
                };
                let pair_val = match read_attr("pair", &response) {
                    Ok(a) => a,
                    Err(e) => { return Err(e); },
                };
                let ctx = match context_read(store) {
                    Ok(c) => c,
                    Err(e) => { return Err(e); },
                };
                let token_bytes = token_suffix(pair_val.as_str().as_bytes());
                let payload = encode_listing_proposal(
                    token_bytes.as_slice(),
                    lp.as_str().as_bytes(),
                    ctx.proposer.as_str().as_bytes(),
                    &ctx.reward_assets,
                );
                let cosmos_msg = CosmosMsg::Stargate {
                    type_url: String::from_str("/cosmos.gov.v1beta1.MsgSubmitProposal"),
                    value: payload,
                };
                let mut messages: Vec<SubMsg> = Vec::new();
                messages.push(
                    SubMsg {
                        id: CREATE_PROPOSAL_REPLY_ID,
                        reply_on: ReplyOn::Error,
                        msg: cosmos_msg,
                    },
                );
                let mut attributes: Vec<Attribute> = Vec::new();
                attributes.push(
                    Attribute {
                        key: String::from_str("action"),
                        value: String::from_str("create_new_token_listing_proposal"),
                    },
                );
                Ok(Response { messages, attributes })
            } else if msg.id == CREATE_PROPOSAL_REPLY_ID {
                Ok(Response::empty())
            } else {
                Err(ContractError::UnknownCorrelation { id: msg.id })
            }
        },
    }
}

/// A migration is a no-op placeholder: nothing changes.
pub fn migrate(store: &mut Store, _msg: MigrateMsg) -> (r: Result<Response, ContractError>)
    ensures
        *final(store) == *old(store),
        r matches Ok(resp) && resp.messages@.len() == 0 && resp.attributes@.len() == 0,
{
    Ok(Response::empty())
}

/// Every valid request that asks for a new token persists a workflow
/// context whose reward-asset list and proposer are exactly the
/// request's, and emits exactly one outbound call, tracked under the
/// step-one correlation id.
pub proof fn lemma_start_persists_context(
    s0: Store,
    s1: Store,
    sender: String,
    msg: ListTokenMsg,
    r: Result<Response, ContractError>,
)
    requires
        list_token_spec(s0, s1, sender, msg, r),
        s0.config is Some,
        msg.targeted_asset_info is None,
        msg.symbol is Some,
    ensures
        s1.context matches Some(ctx) && ctx.reward_assets == msg.liquidity_pool_reward_assets
            && ctx.proposer == sender && ctx.pair_asset_info == msg.pair_asset_info,
        r matches Ok(resp) && resp.messages@.len() == 1 && resp.messages@[0].id
            == INSTANTIATE_REPLY_ID && resp.messages@[0].reply_on == ReplyOn::Always,
{
}

/// A step-one completion that lacks the `_contract_address` attribute
/// fails with exactly that missing-attribute error, performs no further
/// outbound call, and leaves the persisted state untouched.
pub proof fn lemma_missing_address_attribute(
    s0: Store,
    s1: Store,
    msg: Reply,
    r: Result<Response, ContractError>,
)
    requires
        reply_spec(s0, s1, msg, r),
        msg.id == INSTANTIATE_REPLY_ID,
        msg.result matches SubMsgResult::Success(resp) && lookup_attr(
            resp.events@,
            "_contract_address"@,
        ) is None,
    ensures
        s1 == s0,
        r matches Err(ContractError::MissingAttribute { name }) && name@ == "_contract_address"@,
{
}

/// A completion carrying an unknown correlation id fails with the
/// unknown-correlation error and never mutates persisted state, at any
/// workflow phase and for either outcome kind.
pub proof fn lemma_unknown_correlation_preserves_state(
    s0: Store,
    s1: Store,
    msg: Reply,
    r: Result<Response, ContractError>,
)
    requires
        reply_spec(s0, s1, msg, r),
        !known_id(msg.id),
    ensures
        s1 == s0,
        r matches Err(ContractError::UnknownCorrelation { id }) && id == msg.id,
{
}

/// A failure outcome at any known step surfaces a step-failed error
/// naming that step and carrying the collaborator's message; no outbound
/// call is emitted and the persisted state is untouched.
pub proof fn lemma_step_failure_surfaces(
    s0: Store,
    s1: Store,
    msg: Reply,
    r: Result<Response, ContractError>,
)
    requires
        reply_spec(s0, s1, msg, r),
        known_id(msg.id),
        msg.result matches SubMsgResult::Failure(m),
    ensures
        s1 == s0,
        r matches Err(ContractError::StepFailed { step, reason }) && step@ == step_name(msg.id)
            && reason == msg.result->Failure_0,
{
}

/// Starting a new workflow overwrites the prior context, and a stray
/// step-one completion delivered after the overwrite resumes with the
/// latest context: the pair it asks for carries the new request's
/// counter asset, not the old one's.
pub proof fn lemma_restart_overwrites_context(
    s0: Store,
    s1: Store,
    s2: Store,
    sender: String,
    msg: ListTokenMsg,
    r1: Result<Response, ContractError>,
    completion: Reply,
    r2: Result<Response, ContractError>,
)
    requires
        list_token_spec(s0, s1, sender, msg, r1),
        s0.config is Some,
        msg.targeted_asset_info is None,
        msg.symbol is Some,
        reply_spec(s1, s2, completion, r2),
        completion.id == INSTANTIATE_REPLY_ID,
        completion.result matches SubMsgResult::Success(resp) && lookup_attr(
            resp.events@,
            "_contract_address"@,
        ) is Some,
    ensures
        s1.context == Some(
            WorkflowContext {
                proposer: sender,
                pair_asset_info: msg.pair_asset_info,
                reward_assets: msg.liquidity_pool_reward_assets,
            },
        ),
        r2 matches Ok(out) && out.messages@.len() == 1 && (out.messages@[0].msg
            matches CosmosMsg::WasmExecute { contract_addr, factory_msg } && (factory_msg
            matches FactoryMsg::CreatePair { asset_infos, pair_admin } && asset_infos.0
            == msg.pair_asset_info)),
{
}

/// After a successful pair-creation completion, the emitted governance
/// payload decodes — outer record, envelope, inner record — to a
/// description that contains both the managed token's address and the
/// pool token's address.
pub proof fn lemma_proposal_mentions_addresses(
    s0: Store,
    s1: Store,
    msg: Reply,
    r: Result<Response, ContractError>,
    resp: SubMsgResponse,
    lp_attr: Seq<char>,
    pair_attr: Seq<char>,
)
    requires
        reply_spec(s0, s1, msg, r),
        msg.id == CREATE_PAIR_REPLY_ID,
        msg.result == SubMsgResult::Success(resp),
        lookup_attr(resp.events@, "liquidity_token_addr"@) == Some(lp_attr),
        lookup_attr(resp.events@, "pair"@) == Some(pair_attr),
        s0.context is Some,
    ensures
        r matches Ok(out) && out.messages@.len() == 1 && (out.messages@[0].msg
            matches CosmosMsg::Stargate { type_url, value } && ({
            let token = pair_token(encode_utf8(pair_attr));
            let lp = encode_utf8(lp_attr);
            let ctx = s0.context->0;
            let title = crate::encode::proposal_title(token);
            let description = crate::encode::proposal_description(token, lp, ctx.reward_assets@);
            let text = crate::encode::text_proposal_bytes(title, description);
            let content = crate::encode::any_bytes(crate::encode::text_proposal_type_url(), text);
            &&& crate::decode::dec_submit_proposal(value@) == Some(
                (content, encode_utf8(ctx.proposer@)),
            )
            &&& crate::decode::dec_any(content) == Some(
                (crate::encode::text_proposal_type_url(), text),
            )
            &&& crate::decode::dec_text_proposal(text) == Some((title, description))
            &&& crate::decode::contains_bytes(description, token)
            &&& crate::decode::contains_bytes(description, lp)
        })),
{
    let token = pair_token(encode_utf8(pair_attr));
    let lp = encode_utf8(lp_attr);
    let ctx = s0.context->0;
    crate::decode::lemma_listing_proposal_roundtrip(
        token,
        lp,
        encode_utf8(ctx.proposer@),
        ctx.reward_assets@,
    );
    crate::decode::lemma_description_mentions(token, lp, ctx.reward_assets@);
}

} // verus!
