//! Balances and UTxOs as the wallet shows them.

use vstd::prelude::*;
use crate::utils::str_eq;

verus! {

/// A native asset held in an output: its name and the quantity, as decimal text.
#[derive(Debug)]
pub struct Asset {
    pub name: Vec<u8>,
    pub quantity: String,
}

pub struct AssetView {
    pub name: Seq<u8>,
    pub quantity: Seq<char>,
}

impl View for Asset {
    type V = AssetView;

    open spec fn view(&self) -> AssetView {
        AssetView { name: self.name@, quantity: self.quantity@ }
    }
}

/// The hash of a datum attached to an output.
#[derive(Debug)]
pub struct Datum {
    pub hash: Vec<u8>,
}

impl View for Datum {
    type V = Seq<u8>;

    open spec fn view(&self) -> Seq<u8> {
        self.hash@
    }
}

/// The assets of one policy.
#[derive(Debug)]
pub struct BalanceAsset {
    pub policy_id: Vec<u8>,
    pub assets: Vec<Asset>,
}

pub struct BalanceAssetView {
    pub policy_id: Seq<u8>,
    pub assets: Seq<AssetView>,
}

impl View for BalanceAsset {
    type V = BalanceAssetView;

    open spec fn view(&self) -> BalanceAssetView {
        BalanceAssetView {
            policy_id: self.policy_id@,
            assets: self.assets@.map_values(|a: Asset| a@),
        }
    }
}

/// An unspent output of an address.
#[derive(Debug)]
pub struct UTxO {
    pub tx: Vec<u8>,
    pub tx_index: u64,
    pub address: String,
    /// Lovelace, as decimal text.
    pub coin: String,
    pub assets: Vec<BalanceAsset>,
    pub datum: Option<Datum>,
}

pub struct UTxOView {
    pub tx: Seq<u8>,
    pub tx_index: u64,
    pub address: Seq<char>,
    pub coin: Seq<char>,
    pub assets: Seq<BalanceAssetView>,
    pub datum: Option<Seq<u8>>,
}

pub open spec fn datum_view(d: Option<Datum>) -> Option<Seq<u8>> {
    match d {
        Some(d) => Some(d@),
        None => None,
    }
}

impl View for UTxO {
    type V = UTxOView;

    open spec fn view(&self) -> UTxOView {
        UTxOView {
            tx: self.tx@,
            tx_index: self.tx_index,
            address: self.address@,
            coin: self.coin@,
            assets: self.assets@.map_values(|a: BalanceAsset| a@),
            datum: datum_view(self.datum),
        }
    }
}

/// The balance of an address: lovelace, assets and datum hashes over all its outputs.
#[derive(Debug)]
pub struct Balance {
    pub address: String,
    /// Lovelace, as decimal text.
    pub coin: String,
    pub assets: Vec<BalanceAsset>,
    pub datums: Vec<Datum>,
}

pub struct BalanceView {
    pub address: Seq<char>,
    pub coin: Seq<char>,
    pub assets: Seq<BalanceAssetView>,
    pub datums: Seq<Seq<u8>>,
}

impl View for Balance {
    type V = BalanceView;

    open spec fn view(&self) -> BalanceView {
        BalanceView {
            address: self.address@,
            coin: self.coin@,
            assets: self.assets@.map_values(|a: BalanceAsset| a@),
            datums: self.datums@.map_values(|d: Datum| d@),
        }
    }
}

/// The outputs of an address, one by one.
pub type DetailedBalance = Vec<UTxO>;

/// Whether two byte strings are equal.
pub fn same_bytes(a: &Vec<u8>, b: &Vec<u8>) -> (r: bool)
    ensures
        r == (a@ == b@),
{
    if a.len() != b.len() {
        return false;
    }
    let mut i: usize = 0;
    while i < a.len()
        invariant
            i <= a@.len(),
            a@.len() == b@.len(),
            forall|k: int| 0 <= k < i ==> a@[k] == b@[k],
        decreases a@.len() - i,
    {
        if a[i] != b[i] {
            return false;
        }
        i += 1;
    }
    assert(a@ =~= b@);
    true
}

/// Whether two lists of assets are equal.
fn same_assets(a: &Vec<Asset>, b: &Vec<Asset>) -> (r: bool)
    ensures
        r == (a@.map_values(|x: Asset| x@) == b@.map_values(|x: Asset| x@)),
{
    let ghost va = a@.map_values(|x: Asset| x@);
    let ghost vb = b@.map_values(|x: Asset| x@);
    if a.len() != b.len() {
        assert(va.len() != vb.len());
        return false;
    }
    let mut i: usize = 0;
    while i < a.len()
        invariant
            i <= a@.len(),
            a@.len() == b@.len(),
            va == a@.map_values(|x: Asset| x@),
            vb == b@.map_values(|x: Asset| x@),
            forall|k: int| 0 <= k < i ==> va[k] == vb[k],
        decreases a@.len() - i,
    {
        if !(same_bytes(&a[i].name, &b[i].name) && str_eq(a[i].quantity.as_str(), b[i].quantity.as_str())) {
            assert(va[i as int] != vb[i as int]);
            return false;
        }
        i += 1;
    }
    assert(va =~= vb);
    true
}

/// Whether two lists of policies with their assets are equal.
fn same_balance_assets(a: &Vec<BalanceAsset>, b: &Vec<BalanceAsset>) -> (r: bool)
    ensures
        r == (a@.map_values(|x: BalanceAsset| x@) == b@.map_values(|x: BalanceAsset| x@)),
{
    let ghost va = a@.map_values(|x: BalanceAsset| x@);
    let ghost vb = b@.map_values(|x: BalanceAsset| x@);
    if a.len() != b.len() {
        assert(va.len() != vb.len());
        return false;
    }
    let mut i: usize = 0;
    while i < a.len()
        invariant
            i <= a@.len(),
            a@.len() == b@.len(),
            va == a@.map_values(|x: BalanceAsset| x@),
            vb == b@.map_values(|x: BalanceAsset| x@),
            forall|k: int| 0 <= k < i ==> va[k] == vb[k],
        decreases a@.len() - i,
    {
        if !(same_bytes(&a[i].policy_id, &b[i].policy_id) && same_assets(&a[i].assets, &b[i].assets)) {
            assert(va[i as int] != vb[i as int]);
            return false;
        }
        i += 1;
    }
    assert(va =~= vb);
    true
}

/// Whether two outputs are the same.
pub fn same_utxo(a: &UTxO, b: &UTxO) -> (r: bool)
    ensures
        r == (a@ == b@),
{
    let datum = match (&a.datum, &b.datum) {
        (Some(x), Some(y)) => same_bytes(&x.hash, &y.hash),
        (None, None) => true,
        _ => false,
    };
    same_bytes(&a.tx, &b.tx) && a.tx_index == b.tx_index && str_eq(a.address.as_str(), b.address.as_str())
        && str_eq(a.coin.as_str(), b.coin.as_str()) && same_balance_assets(&a.assets, &b.assets) && datum
}

/// Whether two detailed balances hold the same outputs in the same order;
/// the explorer updates a wallet only when they differ.
pub fn same_detailed_balance(a: &DetailedBalance, b: &DetailedBalance) -> (r: bool)
    ensures
        r == (a@.map_values(|u: UTxO| u@) == b@.map_values(|u: UTxO| u@)),
{
    let ghost va = a@.map_values(|u: UTxO| u@);
    let ghost vb = b@.map_values(|u: UTxO| u@);
    if a.len() != b.len() {
        assert(va.len() != vb.len());
        return false;
    }
    let mut i: usize = 0;
    while i < a.len()
        invariant
            i <= a@.len(),
            a@.len() == b@.len(),
            va == a@.map_values(|u: UTxO| u@),
            vb == b@.map_values(|u: UTxO| u@),
            forall|k: int| 0 <= k < i ==> va[k] == vb[k],
        decreases a@.len() - i,
    {
        if !same_utxo(&a[i], &b[i]) {
            assert(va[i as int] != vb[i as int]);
            return false;
        }
        i += 1;
    }
    assert(va =~= vb);
    true
}

} // verus!
