//! The asset descriptor, its origin chain, the accounting buckets and the error vocabulary.
use vstd::prelude::*;

use crate::validation::{
    desc_check, is_valid_desc, is_valid_token, is_valid_token_name, token_check,
    token_name_check, valid_desc, valid_token, valid_token_name, DispatchResult,
};

verus! {

/// An asset symbol, as raw bytes.
pub type Token = Vec<u8>;

/// A free-text description, as raw bytes.
pub type Desc = Vec<u8>;

/// A transfer memo, as raw bytes.
pub type Memo = Vec<u8>;

/// Number of decimal places of an asset.
pub type Precision = u16;

/// The network an asset comes from.
#[derive(PartialEq, Eq, Structural, PartialOrd, Ord, Clone, Copy, Debug, Hash)]
pub enum Chain {
    ChainX,
    Bitcoin,
    Ethereum,
}

impl Default for Chain {
    fn default() -> (r: Self)
        ensures
            r == Chain::ChainX,
    {
        Chain::ChainX
    }
}

/// Every chain, in declaration order.
pub open spec fn all_chains() -> Seq<Chain> {
    seq![Chain::ChainX, Chain::Bitcoin, Chain::Ethereum]
}

impl Chain {
    /// Lists every chain, in declaration order.
    pub fn iterator() -> (r: Vec<Chain>)
        ensures
            r@ == all_chains(),
    {
        vec![Chain::ChainX, Chain::Bitcoin, Chain::Ethereum]
    }
}

/// The purpose that a balance of an asset serves.
#[derive(PartialEq, Eq, Structural, PartialOrd, Ord, Clone, Copy, Debug, Hash)]
pub enum AssetType {
    Free,
    ReservedStaking,
    ReservedStakingRevocation,
    ReservedWithdrawal,
    ReservedDexSpot,
    ReservedDexFuture,
    ReservedCurrency,
}

impl Default for AssetType {
    fn default() -> (r: Self)
        ensures
            r == AssetType::Free,
    {
        AssetType::Free
    }
}

/// Every bucket, in declaration order.
pub open spec fn all_asset_types() -> Seq<AssetType> {
    seq![
        AssetType::Free,
        AssetType::ReservedStaking,
        AssetType::ReservedStakingRevocation,
        AssetType::ReservedWithdrawal,
        AssetType::ReservedDexSpot,
        AssetType::ReservedDexFuture,
        AssetType::ReservedCurrency,
    ]
}

impl AssetType {
    /// Lists every bucket, in declaration order.
    pub fn iterator() -> (r: Vec<AssetType>)
        ensures
            r@ == all_asset_types(),
    {
        vec![
            AssetType::Free,
            AssetType::ReservedStaking,
            AssetType::ReservedStakingRevocation,
            AssetType::ReservedWithdrawal,
            AssetType::ReservedDexSpot,
            AssetType::ReservedDexFuture,
            AssetType::ReservedCurrency,
        ]
    }
}

/// Failures of balance adjustments.
#[derive(PartialEq, Eq, Structural, Clone, Copy, Debug)]
pub enum AssetErr {
    NotEnough,
    OverFlow,
    TotalAssetNotEnough,
    TotalAssetOverFlow,
    InvalidToken,
    InvalidAccount,
}

/// The text that describes each failure.
pub open spec fn asset_err_text(e: AssetErr) -> &'static str {
    match e {
        AssetErr::NotEnough => "balance too low for this account",
        AssetErr::OverFlow => "balance too high for this account",
        AssetErr::TotalAssetNotEnough => "total balance too low for this asset",
        AssetErr::TotalAssetOverFlow => "total balance too high for this asset",
        AssetErr::InvalidToken => "not a valid token for this account",
        AssetErr::InvalidAccount => "account Locked",
    }
}

impl AssetErr {
    /// The fixed description of this failure.
    pub fn info(self) -> (r: &'static str)
        ensures
            r == asset_err_text(self),
    {
        match self {
            AssetErr::NotEnough => "balance too low for this account",
            AssetErr::OverFlow => "balance too high for this account",
            AssetErr::TotalAssetNotEnough => "total balance too low for this asset",
            AssetErr::TotalAssetOverFlow => "total balance too high for this asset",
            AssetErr::InvalidToken => "not a valid token for this account",
            AssetErr::InvalidAccount => "account Locked",
        }
    }
}

/// The abstract content of an [`Asset`].
pub struct AssetView {
    pub token: Seq<u8>,
    pub token_name: Seq<u8>,
    pub chain: Chain,
    pub precision: Precision,
    pub desc: Seq<u8>,
}

/// What checking all three byte fields yields: symbol, then name, then description.
pub open spec fn asset_check(a: AssetView) -> DispatchResult {
    if token_check(a.token) is Err {
        token_check(a.token)
    } else if token_name_check(a.token_name) is Err {
        token_name_check(a.token_name)
    } else {
        desc_check(a.desc)
    }
}

/// With an invalid symbol, the checks of an asset fail with the symbol's own error,
/// whatever its name and description hold.
pub proof fn lemma_token_checked_first(a: AssetView, b: AssetView)
    requires
        a.token == b.token,
        !valid_token(a.token),
    ensures
        asset_check(a) == token_check(a.token),
        asset_check(a) == asset_check(b),
{
}

/// A registered asset.
#[derive(PartialEq, Eq, Clone, Debug)]
pub struct Asset {
    token: Token,
    token_name: Token,
    chain: Chain,
    precision: Precision,
    desc: Desc,
}

impl View for Asset {
    type V = AssetView;

    closed spec fn view(&self) -> AssetView {
        AssetView {
            token: self.token@,
            token_name: self.token_name@,
            chain: self.chain,
            precision: self.precision,
            desc: self.desc@,
        }
    }
}

impl Asset {
    /// What every asset keeps: a valid symbol and a valid display name. The
    /// description is valid when built and may be replaced unchecked later.
    pub open spec fn wf(&self) -> bool {
        valid_token(self@.token) && valid_token_name(self@.token_name)
    }

    /// Builds an asset, or returns the first failed check: symbol, then name, then description.
    pub fn new(token: Token, token_name: Token, chain: Chain, precision: Precision, desc: Desc) -> (r:
        Result<Self, &'static str>)
        ensures
            ({
                let v = AssetView {
                    token: token@,
                    token_name: token_name@,
                    chain,
                    precision,
                    desc: desc@,
                };
                &&& r is Ok <==> asset_check(v) is Ok
                &&& r is Ok <==> valid_token(token@) && valid_token_name(token_name@) && valid_desc(
                    desc@,
                )
                &&& r is Ok ==> r->Ok_0@ == v && r->Ok_0.wf()
                &&& r is Err ==> Err::<(), &str>(r->Err_0) == asset_check(v)
            }),
    {
        let a = Asset { token, token_name, chain, precision, desc };
        match a.is_valid() {
            Ok(()) => Ok(a),
            Err(e) => Err(e),
        }
    }

    /// Runs the three format checks in order and returns the first failure.
    pub fn is_valid(&self) -> (r: DispatchResult)
        ensures
            r == asset_check(self@),
    {
        is_valid_token(self.token.as_slice())?;
        is_valid_token_name(self.token_name.as_slice())?;
        is_valid_desc(self.desc.as_slice())
    }

    pub fn token(&self) -> (r: Token)
        ensures
            r@ == self@.token,
    {
        self.token.clone()
    }

    pub fn token_name(&self) -> (r: Token)
        ensures
            r@ == self@.token_name,
    {
        self.token_name.clone()
    }

    pub fn chain(&self) -> (r: Chain)
        ensures
            r == self@.chain,
    {
        self.chain
    }

    pub fn desc(&self) -> (r: Desc)
        ensures
            r@ == self@.desc,
    {
        self.desc.clone()
    }

    /// Replaces the description, without checking it.
    pub fn set_desc(&mut self, desc: Desc)
        ensures
            final(self)@ == (AssetView { desc: desc@, ..old(self)@ }),
    {
        self.desc = desc
    }

    pub fn precision(&self) -> (r: Precision)
        ensures
            r == self@.precision,
    {
        self.precision
    }
}

} // verus!
