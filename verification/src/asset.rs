//! Descriptors for the assets a trading pair is made of.

use vstd::prelude::*;

verus! {

/// One side of a trading pair: either a native currency, named by its
/// denomination, or a managed (contract-based) token, named by the
/// address of its contract.
#[derive(Debug)]
pub enum AssetInfo {
    Token { contract_addr: String },
    NativeToken { denom: String },
}

/// An asset descriptor together with an amount, used for the reward
/// assets a new pool pays out per unit of time.
#[derive(Debug)]
pub struct Asset {
    pub info: AssetInfo,
    pub amount: u128,
}

/// The string that identifies an asset: its denomination for a native
/// currency, the contract address for a managed token.
pub open spec fn asset_id_chars(info: AssetInfo) -> Seq<char> {
    match info {
        AssetInfo::Token { contract_addr } => contract_addr@,
        AssetInfo::NativeToken { denom } => denom@,
    }
}

impl AssetInfo {
    /// Returns the identifying string of the asset.
    pub fn id_string(&self) -> (r: String)
        ensures
            r@ == asset_id_chars(*self),
    {
        match self {
            AssetInfo::Token { contract_addr } => contract_addr.clone(),
            AssetInfo::NativeToken { denom } => denom.clone(),
        }
    }
}

impl Clone for AssetInfo {
    fn clone(&self) -> (r: Self)
        ensures
            r == *self,
    {
        match self {
            AssetInfo::Token { contract_addr } => AssetInfo::Token { contract_addr: contract_addr.clone() },
            AssetInfo::NativeToken { denom } => AssetInfo::NativeToken { denom: denom.clone() },
        }
    }
}

impl Clone for Asset {
    fn clone(&self) -> (r: Self)
        ensures
            r == *self,
    {
        Asset { info: self.info.clone(), amount: self.amount }
    }
}

} // verus!
