//! The continuation store: the persisted state that carries a workflow
//! across its suspension points.
//!
//! The host offers durable key-value storage with one well-known key per
//! record; the engine models it as one slot per record. A slot that a
//! resuming step needs but that was never written is a fatal ordering
//! error, surfaced as [`ContractError::StorageError`]. The host rolls
//! back every write of an aborted execution unit, so an error leaves the
//! store exactly as it was.

use vstd::prelude::*;
use crate::asset::{Asset, AssetInfo};
use crate::error::ContractError;

verus! {

/// Engine configuration, set at initialization.
#[derive(Debug)]
pub struct Config {
    pub owner: String,
    pub cw20_code_id: u64,
    pub factory_addr: String,
}

impl Clone for Config {
    fn clone(&self) -> (r: Self)
        ensures
            r == *self,
    {
        Config {
            owner: self.owner.clone(),
            cw20_code_id: self.cw20_code_id,
            factory_addr: self.factory_addr.clone(),
        }
    }
}

/// The continuation record written when a workflow starts and read by
/// the later steps: who proposed the listing, the counter asset of the
/// pair, and the reward assets the proposal describes.
#[derive(Debug)]
pub struct WorkflowContext {
    pub proposer: String,
    pub pair_asset_info: AssetInfo,
    pub reward_assets: Vec<Asset>,
}

/// The three persisted slots: the configuration, the workflow context,
/// and the address of the token created by step one.
#[derive(Debug)]
pub struct Store {
    pub config: Option<Config>,
    pub context: Option<WorkflowContext>,
    pub token_addr: Option<String>,
}

impl Store {
    /// An empty store, as a fresh engine instance sees it.
    pub fn new() -> (r: Store)
        ensures
            r.config is None,
            r.context is None,
            r.token_addr is None,
    {
        Store { config: None, context: None, token_addr: None }
    }
}

/// Writes the configuration slot.
pub fn config_save(store: &mut Store, config: Config)
    ensures
        final(store).config == Some(config),
        final(store).context == old(store).context,
        final(store).token_addr == old(store).token_addr,
{
    store.config = Some(config);
}

/// Reads the configuration slot; an engine that was never initialized
/// has none.
pub fn config_read(store: &Store) -> (r: Result<Config, ContractError>)
    ensures
        match r {
            Ok(c) => store.config == Some(c),
            Err(e) => store.config is None && e matches ContractError::StorageError,
        },
{
    match &store.config {
        Some(c) => Ok(c.clone()),
        None => Err(ContractError::StorageError),
    }
}

/// Updates any subset of the configuration fields and returns the
/// resulting configuration.
pub fn config_update(
    store: &mut Store,
    owner: Option<String>,
    cw20_code_id: Option<u64>,
    factory_addr: Option<String>,
) -> (r: Result<Config, ContractError>)
    ensures
        old(store).config is None ==> *final(store) == *old(store) && (r matches Err(e)
            && e matches ContractError::StorageError),
        old(store).config matches Some(c) ==> {
            &&& final(store).context == old(store).context
            &&& final(store).token_addr == old(store).token_addr
            &&& final(store).config matches Some(nc)
            &&& nc.owner == (if owner is Some { owner->0 } else { c.owner })
            &&& nc.cw20_code_id == (if cw20_code_id is Some { cw20_code_id->0 } else { c.cw20_code_id })
            &&& nc.factory_addr == (if factory_addr is Some { factory_addr->0 } else { c.factory_addr })
            &&& r matches Ok(rc) && Some(rc) == final(store).config
        },
{
    let mut config = match config_read(store) {
        Ok(c) => c,
        Err(e) => { return Err(e); },
    };
    if let Some(owner) = owner {
        config.owner = owner;
    }
    if let Some(cw20_code_id) = cw20_code_id {
        config.cw20_code_id = cw20_code_id;
    }
    if let Some(factory_addr) = factory_addr {
        config.factory_addr = factory_addr;
    }
    let result = config.clone();
    config_save(store, config);
    Ok(result)
}

/// Writes the workflow-context slot; a new workflow overwrites whatever
/// an earlier one left there.
pub fn context_save(store: &mut Store, context: WorkflowContext)
    ensures
        final(store).context == Some(context),
        final(store).config == old(store).config,
        final(store).token_addr == old(store).token_addr,
{
    store.context = Some(context);
}

/// Reads the workflow-context slot; its absence when a step resumes is a
/// fatal ordering error.
pub fn context_read(store: &Store) -> (r: Result<&WorkflowContext, ContractError>)
    ensures
        match r {
            Ok(c) => store.context == Some(*c),
            Err(e) => store.context is None && e matches ContractError::StorageError,
        },
{
    match &store.context {
        Some(c) => Ok(c),
        None => Err(ContractError::StorageError),
    }
}

/// Writes the slot holding the address of the token step one created.
pub fn token_addr_save(store: &mut Store, addr: String)
    ensures
        final(store).token_addr == Some(addr),
        final(store).config == old(store).config,
        final(store).context == old(store).context,
{
    store.token_addr = Some(addr);
}

/// Reads the slot holding the address of the token step one created.
pub fn token_addr_read(store: &Store) -> (r: Result<&String, ContractError>)
    ensures
        match r {
            Ok(a) => store.token_addr == Some(*a),
            Err(e) => store.token_addr is None && e matches ContractError::StorageError,
        },
{
    match &store.token_addr {
        Some(a) => Ok(a),
        None => Err(ContractError::StorageError),
    }
}

} // verus!
