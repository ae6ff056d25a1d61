//! The request and query messages a caller hands to the engine, and the
//! token-instantiation payload the engine emits.

use vstd::prelude::*;
use crate::asset::{Asset, AssetInfo};

verus! {

/// Engine initialization: which token code to instantiate for new
/// listings, and the address of the pair factory module.
#[derive(Debug)]
pub struct InstantiateMsg {
    pub cw20_code_id: u64,
    pub factory_addr: String,
}

/// The operations a transaction can invoke.
#[derive(Debug)]
pub enum ExecuteMsg {
    ListToken(ListTokenMsg),
}

/// A request to list a new asset. Either `targeted_asset_info` names a
/// ready-made asset (no token is created), or `symbol` asks for a new
/// managed token with the given symbol.
#[derive(Debug)]
pub struct ListTokenMsg {
    pub targeted_asset_info: Option<AssetInfo>,
    pub symbol: Option<String>,
    pub name: Option<String>,
    pub initial_balances: Option<Vec<Cw20Coin>>,
    pub cw20_admin: Option<String>,
    pub liquidity_pool_reward_assets: Vec<Asset>,
    pub label: Option<String>,
    pub mint: Option<MinterResponse>,
    pub marketing: Option<InstantiateMarketingInfo>,
    pub pair_asset_info: AssetInfo,
}

/// The read-only queries the engine answers.
#[derive(Debug)]
pub enum QueryMsg {
    Config {},
}

/// A migration is a no-op placeholder in this engine.
#[derive(Debug)]
pub struct MigrateMsg {}

/// An initial balance entry of a newly created token.
#[derive(Debug)]
pub struct Cw20Coin {
    pub address: String,
    pub amount: u128,
}

/// The mint authority of a newly created token, with an optional cap.
#[derive(Debug)]
pub struct MinterResponse {
    pub minter: String,
    pub cap: Option<u128>,
}

/// Marketing metadata passed through to the token instantiation.
#[derive(Debug)]
pub struct InstantiateMarketingInfo {
    pub project: Option<String>,
    pub description: Option<String>,
    pub marketing: Option<String>,
    pub logo: Option<Logo>,
}

/// A token logo: a URL, or an embedded SVG or PNG image.
#[derive(Debug)]
pub enum Logo {
    Url(String),
    EmbeddedSvg(Vec<u8>),
    EmbeddedPng(Vec<u8>),
}

/// The instantiation payload of the token module: name, symbol, a fixed
/// six decimals, and the passed-through balances, mint authority and
/// marketing metadata.
#[derive(Debug)]
pub struct TokenInstantiateMsg {
    pub name: String,
    pub symbol: String,
    pub decimals: u8,
    pub initial_balances: Vec<Cw20Coin>,
    pub mint: Option<MinterResponse>,
    pub marketing: Option<InstantiateMarketingInfo>,
}

} // verus!
