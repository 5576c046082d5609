//! Building balances and detailed balances from the outputs that a provider
//! returns for an address.

use vstd::prelude::*;
use crate::numbers::{decimal, u64_to_decimal};
use crate::order::{bytes_le, insert_by_tx, lemma_insert_at, lex_le, sort_by_tx};
use crate::types::{DetailedBalance, Asset, AssetView, Balance, BalanceAsset, BalanceAssetView, Datum, UTxO, UTxOView, datum_view};

verus! {

/// An asset amount as a provider reports it.
pub struct QueriedAsset {
    pub name: Vec<u8>,
    pub output_coin: u64,
}

/// The assets of one policy as a provider reports them.
pub struct QueriedMultiasset {
    pub policy_id: Vec<u8>,
    pub assets: Vec<QueriedAsset>,
}

/// An unspent output as a provider reports it: where it was created, its
/// lovelace, its assets and the hash of its datum (empty when it has none).
pub struct QueriedUtxo {
    pub tx_hash: Vec<u8>,
    pub index: u64,
    pub coin: u64,
    pub assets: Vec<QueriedMultiasset>,
    pub datum_hash: Option<Vec<u8>>,
}

/// Copies a byte string.
pub fn copy_bytes(v: &Vec<u8>) -> (r: Vec<u8>)
    ensures
        r@ == v@,
{
    let r = v.clone();
    assert(r@ =~= v@);
    r
}

/// The asset as the wallet shows it.
pub open spec fn asset_of(q: QueriedAsset) -> AssetView {
    AssetView { name: q.name@, quantity: decimal(q.output_coin as nat) }
}

/// The policy's assets as the wallet shows them.
pub open spec fn balance_asset_of(m: QueriedMultiasset) -> BalanceAssetView {
    BalanceAssetView {
        policy_id: m.policy_id@,
        assets: m.assets@.map_values(|a: QueriedAsset| asset_of(a)),
    }
}

/// The assets of an output as the wallet shows them.
pub open spec fn assets_of(u: QueriedUtxo) -> Seq<BalanceAssetView> {
    u.assets@.map_values(|m: QueriedMultiasset| balance_asset_of(m))
}

/// The datum hash of an output, when it has a non-empty one.
pub open spec fn datum_of(u: QueriedUtxo) -> Option<Seq<u8>> {
    match u.datum_hash {
        Some(h) => if h@.len() == 0 { None } else { Some(h@) },
        None => None,
    }
}

/// The output as one line of a detailed balance of `address`.
pub open spec fn utxo_of(u: QueriedUtxo, address: Seq<char>) -> UTxOView {
    UTxOView {
        tx: u.tx_hash@,
        tx_index: u.index,
        address: address,
        coin: decimal(u.coin as nat),
        assets: assets_of(u),
        datum: datum_of(u),
    }
}

/// The total lovelace of some outputs.
pub open spec fn total_coin(us: Seq<QueriedUtxo>) -> nat
    decreases us.len(),
{
    if us.len() == 0 {
        0
    } else {
        total_coin(us.drop_last()) + us.last().coin as nat
    }
}

/// The assets of all outputs, output after output.
pub open spec fn all_assets(us: Seq<QueriedUtxo>) -> Seq<BalanceAssetView>
    decreases us.len(),
{
    if us.len() == 0 {
        Seq::empty()
    } else {
        all_assets(us.drop_last()) + assets_of(us.last())
    }
}

/// The non-empty datum hashes of all outputs, in order.
pub open spec fn all_datums(us: Seq<QueriedUtxo>) -> Seq<Seq<u8>>
    decreases us.len(),
{
    if us.len() == 0 {
        Seq::empty()
    } else {
        match datum_of(us.last()) {
            Some(h) => all_datums(us.drop_last()).push(h),
            None => all_datums(us.drop_last()),
        }
    }
}

fn asset_from(q: &QueriedAsset) -> (r: Asset)
    ensures
        r@ == asset_of(*q),
{
    Asset { name: copy_bytes(&q.name), quantity: u64_to_decimal(q.output_coin) }
}

fn balance_asset_from(m: &QueriedMultiasset) -> (r: BalanceAsset)
    ensures
        r@ == balance_asset_of(*m),
{
    let mut assets: Vec<Asset> = Vec::new();
    let mut i: usize = 0;
    while i < m.assets.len()
        invariant
            i <= m.assets.len(),
            assets@.map_values(|a: Asset| a@) =~= m.assets@.take(i as int).map_values(|a: QueriedAsset| asset_of(a)),
        decreases m.assets.len() - i,
    {
        let a = asset_from(&m.assets[i]);
        let ghost before = assets@;
        assets.push(a);
        assert(assets@.map_values(|a: Asset| a@) =~= before.map_values(|a: Asset| a@).push(a@));
        assert(m.assets@.take(i + 1) =~= m.assets@.take(i as int).push(m.assets@[i as int]));
        i += 1;
    }
    assert(m.assets@.take(m.assets.len() as int) =~= m.assets@);
    BalanceAsset { policy_id: copy_bytes(&m.policy_id), assets }
}

fn assets_from(u: &QueriedUtxo) -> (r: Vec<BalanceAsset>)
    ensures
        r@.map_values(|a: BalanceAsset| a@) == assets_of(*u),
{
    let mut out: Vec<BalanceAsset> = Vec::new();
    let mut i: usize = 0;
    while i < u.assets.len()
        invariant
            i <= u.assets.len(),
            out@.map_values(|a: BalanceAsset| a@) =~= u.assets@.take(i as int).map_values(|m: QueriedMultiasset| balance_asset_of(m)),
        decreases u.assets.len() - i,
    {
        let b = balance_asset_from(&u.assets[i]);
        let ghost before = out@;
        out.push(b);
        assert(out@.map_values(|a: BalanceAsset| a@) =~= before.map_values(|a: BalanceAsset| a@).push(b@));
        assert(u.assets@.take(i + 1) =~= u.assets@.take(i as int).push(u.assets@[i as int]));
        i += 1;
    }
    assert(u.assets@.take(u.assets.len() as int) =~= u.assets@);
    out
}

fn datum_from(u: &QueriedUtxo) -> (r: Option<Datum>)
    ensures
        datum_view(r) == datum_of(*u),
{
    match &u.datum_hash {
        Some(h) => {
            if h.len() == 0 {
                None
            } else {
                Some(Datum { hash: copy_bytes(h) })
            }
        },
        None => None,
    }
}

/// The total lovelace of `us`, or `None` when it does not fit in `u64`.
pub fn sum_coins(us: &Vec<QueriedUtxo>) -> (r: Option<u64>)
    ensures
        match r {
            Some(t) => t as nat == total_coin(us@),
            None => total_coin(us@) > u64::MAX,
        },
{
    let mut total: u64 = 0;
    let mut i: usize = 0;
    while i < us.len()
        invariant
            i <= us.len(),
            total as nat == total_coin(us@.take(i as int)),
        decreases us.len() - i,
    {
        assert(us@.take(i + 1).drop_last() =~= us@.take(i as int));
        match total.checked_add(us[i].coin) {
            Some(t) => total = t,
            None => {
                proof {
                    lemma_total_coin_prefix(us@, i + 1);
                }
                return None;
            },
        }
        i += 1;
    }
    assert(us@.take(us.len() as int) =~= us@);
    Some(total)
}

/// The total of a prefix never exceeds the total of the whole.
pub proof fn lemma_total_coin_prefix(us: Seq<QueriedUtxo>, k: int)
    requires
        0 <= k <= us.len(),
    ensures
        total_coin(us.take(k)) <= total_coin(us),
    decreases us.len() - k,
{
    if k < us.len() {
        lemma_total_coin_prefix(us, k + 1);
        assert(us.take(k + 1).drop_last() =~= us.take(k));
    } else {
        assert(us.take(k) =~= us);
    }
}

/// The balance of `address` over its outputs `us`: the total lovelace, the
/// assets of every output in order, and every non-empty datum hash.
pub fn balance_from_utxos(address: &str, us: &Vec<QueriedUtxo>) -> (r: Balance)
    requires
        total_coin(us@) <= u64::MAX,
    ensures
        r@.address == address@,
        r@.coin == decimal(total_coin(us@)),
        r@.assets == all_assets(us@),
        r@.datums == all_datums(us@),
{
    let mut total: u64 = 0;
    let mut assets: Vec<BalanceAsset> = Vec::new();
    let mut datums: Vec<Datum> = Vec::new();
    let mut i: usize = 0;
    while i < us.len()
        invariant
            i <= us.len(),
            total_coin(us@) <= u64::MAX,
            total as nat == total_coin(us@.take(i as int)),
            assets@.map_values(|a: BalanceAsset| a@) =~= all_assets(us@.take(i as int)),
            datums@.map_values(|d: Datum| d@) =~= all_datums(us@.take(i as int)),
        decreases us.len() - i,
    {
        let ghost prev = us@.take(i as int);
        let ghost next = us@.take(i + 1);
        assert(next.drop_last() =~= prev);
        assert(next.last() == us@[i as int]);
        proof {
            lemma_total_coin_prefix(us@, i + 1);
        }
        total = total + us[i].coin;
        let mut more = assets_from(&us[i]);
        let ghost before = assets@;
        assets.append(&mut more);
        assert(assets@.map_values(|a: BalanceAsset| a@) =~= before.map_values(|a: BalanceAsset| a@) + assets_of(us@[i as int]));
        let ghost dbefore = datums@;
        match datum_from(&us[i]) {
            Some(d) => {
                datums.push(d);
                assert(datums@.map_values(|d: Datum| d@) =~= dbefore.map_values(|d: Datum| d@).push(d@));
            },
            None => {},
        }
        i += 1;
    }
    assert(us@.take(us.len() as int) =~= us@);
    Balance {
        address: String::from_str(address),
        coin: u64_to_decimal(total),
        assets,
        datums,
    }
}

/// The output as a line of the detailed balance of `address`.
pub fn utxo_from(u: &QueriedUtxo, address: &str) -> (r: UTxO)
    ensures
        r@ == utxo_of(*u, address@),
{
    UTxO {
        tx: copy_bytes(&u.tx_hash),
        tx_index: u.index,
        address: String::from_str(address),
        coin: u64_to_decimal(u.coin),
        assets: assets_from(u),
        datum: datum_from(u),
    }
}

/// The outputs of `address` as lines of its detailed balance, ordered by
/// transaction hash; outputs of one transaction keep their order.
pub fn detailed_balance_from_utxos(address: &str, us: &Vec<QueriedUtxo>) -> (r: DetailedBalance)
    ensures
        r@.map_values(|u: UTxO| u@) == sort_by_tx(us@.map_values(|u: QueriedUtxo| utxo_of(u, address@))),
{
    let ghost lines = us@.map_values(|u: QueriedUtxo| utxo_of(u, address@));
    let mut out: Vec<UTxO> = Vec::new();
    let mut i: usize = 0;
    while i < us.len()
        invariant
            i <= us.len(),
            lines == us@.map_values(|u: QueriedUtxo| utxo_of(u, address@)),
            out@.map_values(|u: UTxO| u@) == sort_by_tx(lines.take(i as int)),
        decreases us.len() - i,
    {
        let line = utxo_from(&us[i], address);
        let ghost before = out@.map_values(|u: UTxO| u@);
        let mut p: usize = out.len();
        while p > 0 && !bytes_le(out[p - 1].tx.as_slice(), line.tx.as_slice())
            invariant
                p <= out.len(),
                before == out@.map_values(|u: UTxO| u@),
                forall|j: int| p <= j < out.len() ==> !lex_le(#[trigger] before[j].tx, line@.tx),
            decreases p,
        {
            p -= 1;
        }
        proof {
            if p > 0 {
                assert(lex_le(before[p - 1].tx, line@.tx));
            }
            lemma_insert_at(before, line@, p as int);
            assert(lines.take(i + 1).drop_last() =~= lines.take(i as int));
            assert(lines.take(i + 1).last() == line@);
        }
        out.insert(p, line);
        assert(out@.map_values(|u: UTxO| u@) =~= before.take(p as int).push(line@) + before.skip(p as int));
        i += 1;
    }
    assert(lines.take(us.len() as int) =~= lines);
    out
}

/// The lovelace of a balance counts every queried output once, whatever
/// its assets or datum: no outputs hold nothing, and one more output adds
/// its coin.
pub proof fn law_total_coin_counts_every_output(us: Seq<QueriedUtxo>, u: QueriedUtxo)
    ensures
        total_coin(Seq::<QueriedUtxo>::empty()) == 0,
        total_coin(us.push(u)) == total_coin(us) + u.coin,
{
    assert(us.push(u).drop_last() =~= us);
}

/// The lovelace of two groups of outputs together is the sum of the
/// lovelace of each group.
pub proof fn law_total_coin_of_concat(a: Seq<QueriedUtxo>, b: Seq<QueriedUtxo>)
    ensures
        total_coin(a + b) == total_coin(a) + total_coin(b),
    decreases b.len(),
{
    if b.len() == 0 {
        assert(a + b =~= a);
    } else {
        law_total_coin_of_concat(a, b.drop_last());
        assert((a + b).drop_last() =~= a + b.drop_last());
        assert((a + b).last() == b.last());
    }
}

/// The assets of a balance are those of every output, output after
/// output: one more output adds its assets at the end.
pub proof fn law_all_assets_counts_every_output(us: Seq<QueriedUtxo>, u: QueriedUtxo)
    ensures
        all_assets(Seq::<QueriedUtxo>::empty()) == Seq::<BalanceAssetView>::empty(),
        all_assets(us.push(u)) == all_assets(us) + assets_of(u),
{
    assert(us.push(u).drop_last() =~= us);
}

/// The datums of a balance are the non-empty datum hashes of its outputs,
/// in order: one more output adds its hash when it has a non-empty one, and
/// nothing otherwise.
pub proof fn law_all_datums_keeps_each_hash(us: Seq<QueriedUtxo>, u: QueriedUtxo)
    ensures
        all_datums(Seq::<QueriedUtxo>::empty()) == Seq::<Seq<u8>>::empty(),
        (u.datum_hash matches Some(h) && h@.len() > 0) ==> all_datums(us.push(u)) == all_datums(us).push(
            u.datum_hash.unwrap()@,
        ),
        !(u.datum_hash matches Some(h) && h@.len() > 0) ==> all_datums(us.push(u)) == all_datums(us),
{
    assert(us.push(u).drop_last() =~= us);
}

} // verus!
