//! What the command line prints for balances, outputs, blocks and
//! transactions, as lines and table cells.

use vstd::prelude::*;
use vstd::string::*;
use crate::explorer::{ChainBlock, TxView};
use crate::hexcodec::{hex_encode, hex_text};
use crate::numbers::{decimal, u64_to_decimal};
use crate::types::{Balance, BalanceAsset, BalanceAssetView, UTxO};

verus! {

/// How results are printed.
#[derive(Debug, Clone, Copy, PartialEq, Eq, Structural)]
pub enum OutputFormat {
    Json,
    Table,
}

/// A row of an assets table: policy and asset name in hex, and quantity.
pub type AssetRow = (Seq<char>, Seq<char>, Seq<char>);

/// The rows of the assets of one policy.
pub open spec fn policy_rows(e: BalanceAssetView) -> Seq<AssetRow> {
    e.assets.map_values(|a: crate::types::AssetView| (hex_text(e.policy_id), hex_text(a.name), a.quantity))
}

/// The rows of an assets table: each asset of each policy, in order.
pub open spec fn asset_rows_of(entries: Seq<BalanceAssetView>) -> Seq<AssetRow>
    decreases entries.len(),
{
    if entries.len() == 0 {
        Seq::empty()
    } else {
        asset_rows_of(entries.drop_last()) + policy_rows(entries.last())
    }
}

/// A row as values.
pub open spec fn row_view(r: (String, String, String)) -> AssetRow {
    (r.0@, r.1@, r.2@)
}

/// The rows of an assets table: each asset of each policy, in order.
pub fn asset_rows(entries: &Vec<BalanceAsset>) -> (r: Vec<(String, String, String)>)
    ensures
        r@.map_values(|x: (String, String, String)| row_view(x))
            == asset_rows_of(entries@.map_values(|e: BalanceAsset| e@)),
{
    let ghost es = entries@.map_values(|e: BalanceAsset| e@);
    let mut rows: Vec<(String, String, String)> = Vec::new();
    let mut i: usize = 0;
    while i < entries.len()
        invariant
            i <= entries@.len(),
            es == entries@.map_values(|e: BalanceAsset| e@),
            rows@.map_values(|x: (String, String, String)| row_view(x)) == asset_rows_of(es.take(i as int)),
        decreases entries@.len() - i,
    {
        let entry = &entries[i];
        let policy = hex_encode(entry.policy_id.as_slice());
        let ghost before = rows@.map_values(|x: (String, String, String)| row_view(x));
        let ghost ev = entry@;
        let mut j: usize = 0;
        while j < entry.assets.len()
            invariant
                j <= entry.assets@.len(),
                ev == entry@,
                policy@ == hex_text(ev.policy_id),
                rows@.map_values(|x: (String, String, String)| row_view(x)) == before + policy_rows(ev).take(j as int),
            decreases entry.assets@.len() - j,
        {
            let a = &entry.assets[j];
            let name = hex_encode(a.name.as_slice());
            let ghost prev = rows@;
            rows.push((policy.clone(), name, a.quantity.clone()));
            proof {
                assert(rows@.map_values(|x: (String, String, String)| row_view(x))
                    =~= prev.map_values(|x: (String, String, String)| row_view(x)).push(row_view(rows@.last())));
                assert(policy_rows(ev).take(j + 1) =~= policy_rows(ev).take(j as int).push(policy_rows(ev)[j as int]));
            }
            j += 1;
        }
        proof {
            assert(policy_rows(ev).take(j as int) =~= policy_rows(ev));
            assert(es.take(i + 1).drop_last() =~= es.take(i as int));
            assert(es[i as int] == ev);
        }
        i += 1;
    }
    assert(es.take(i as int) =~= es);
    rows
}

/// `a` followed by `b` and `c`.
fn join3(a: &str, b: &str, c: &str) -> (r: String)
    ensures
        r@ == a@ + b@ + c@,
{
    let mut out = String::from_str(a);
    out.append(b);
    out.append(c);
    out
}

/// The first lines printed for a balance: the address and the lovelace.
pub fn balance_heading(b: &Balance) -> (r: (String, String))
    ensures
        r.0@ == "Balance for address: "@ + b.address@,
        r.1@ == "  Lovelace: "@ + b.coin@ + " ADA"@,
{
    let mut first = String::from_str("Balance for address: ");
    first.append(b.address.as_str());
    (first, join3("  Lovelace: ", b.coin.as_str(), " ADA"))
}

/// The rows of the datums table of a balance: each datum hash in hex.
pub fn datum_rows(b: &Balance) -> (r: Vec<String>)
    ensures
        r@.len() == b.datums@.len(),
        forall|i: int| 0 <= i < b.datums@.len() ==> #[trigger] r@[i]@ == hex_text(b.datums@[i].hash@),
{
    let mut rows: Vec<String> = Vec::new();
    let mut i: usize = 0;
    while i < b.datums.len()
        invariant
            i <= b.datums@.len(),
            rows@.len() == i,
            forall|k: int| 0 <= k < i ==> #[trigger] rows@[k]@ == hex_text(b.datums@[k].hash@),
        decreases b.datums@.len() - i,
    {
        rows.push(hex_encode(b.datums[i].hash.as_slice()));
        i += 1;
    }
    rows
}

/// The lines printed for an output: where it was created, its lovelace and,
/// when it has one, its datum hash.
pub fn utxo_heading(u: &UTxO) -> (r: Vec<String>)
    ensures
        r@.len() == (if u.datum is Some { 3int } else { 2int }),
        r@[0]@ == "* "@ + hex_text(u.tx@) + "#"@ + decimal(u.tx_index as nat),
        r@[1]@ == "  * Lovelace: "@ + u.coin@,
        u.datum matches Some(d) ==> r@[2]@ == "  * Datum: "@ + hex_text(d.hash@),
{
    let mut lines: Vec<String> = Vec::new();
    let tx = hex_encode(u.tx.as_slice());
    let index = u64_to_decimal(u.tx_index);
    let mut first = join3("* ", tx.as_str(), "#");
    first.append(index.as_str());
    lines.push(first);
    let mut second = String::from_str("  * Lovelace: ");
    second.append(u.coin.as_str());
    lines.push(second);
    match &u.datum {
        Some(d) => {
            let h = hex_encode(d.hash.as_slice());
            let mut third = String::from_str("  * Datum: ");
            third.append(h.as_str());
            lines.push(third);
        },
        None => {},
    }
    lines
}

/// The cells of a row of the blocks table: slot, hash in hex, height and
/// number of transactions.
pub fn block_cells(b: &ChainBlock) -> (r: (String, String, String, String))
    ensures
        r.0@ == decimal(b.slot as nat),
        r.1@ == hex_text(b.hash@),
        r.2@ == decimal(b.number as nat),
        r.3@ == decimal(b.tx_count as nat),
{
    (
        u64_to_decimal(b.slot),
        hex_encode(b.hash.as_slice()),
        u64_to_decimal(b.number),
        u64_to_decimal(b.tx_count as u64),
    )
}

/// The cells of a row of the transactions table: hash, slot, number of
/// certificates and of asset policies, lovelace, and whether an output has
/// a datum.
pub fn tx_cells(v: &TxView) -> (r: Vec<String>)
    ensures
        r@.len() == 6,
        r@[0]@ == v.hash@,
        r@[1]@ == decimal(v.block_slot as nat),
        r@[2]@ == decimal(v.certs as nat),
        r@[3]@ == decimal(v.assets as nat),
        r@[4]@ == decimal(v.amount_ada as nat),
        r@[5]@ == (if v.datum { "yes"@ } else { "no"@ }),
{
    let mut cells: Vec<String> = Vec::new();
    cells.push(v.hash.clone());
    cells.push(u64_to_decimal(v.block_slot));
    cells.push(u64_to_decimal(v.certs as u64));
    cells.push(u64_to_decimal(v.assets as u64));
    cells.push(u64_to_decimal(v.amount_ada));
    cells.push(String::from_str(if v.datum { "yes" } else { "no" }));
    cells
}

/// A transaction as the search table counts it: its hash, the number of
/// inputs, certificates and reference inputs, and the datum hash of each
/// output (`None` for an output without a datum).
pub struct TxCounts {
    pub hash: Vec<u8>,
    pub inputs: usize,
    pub output_datums: Vec<Option<Vec<u8>>>,
    pub certificates: usize,
    pub reference_inputs: usize,
}

/// Whether some output has a datum with a non-empty hash.
pub open spec fn has_some_datum(ds: Seq<Option<Vec<u8>>>) -> bool {
    exists|i: int| 0 <= i < ds.len() && (#[trigger] ds[i] matches Some(h) && h@.len() > 0)
}

/// A block hash as the search table abbreviates it: the first and last four
/// hex digits around `...`; nothing without a hash.
pub open spec fn short_block_hash(hash: Option<Vec<u8>>) -> Seq<char> {
    match hash {
        Some(h) => {
            let x = hex_text(h@);
            x.take(4) + "..."@ + x.skip(x.len() - 4)
        },
        None => Seq::empty(),
    }
}

/// The cells of the search table for the `i`-th transaction.
pub open spec fn search_row(block: Seq<char>, i: int, t: TxCounts) -> Seq<Seq<char>> {
    seq![
        block,
        decimal(i as nat),
        hex_text(t.hash@),
        decimal(t.inputs as nat),
        decimal(t.output_datums@.len()),
        decimal(t.certificates as nat),
        decimal(t.reference_inputs as nat),
        if has_some_datum(t.output_datums@) { "contain"@ } else { "empty"@ },
    ]
}

/// The rows of the search table of transactions, each starting with the
/// abbreviated hash of their block.
pub fn cardano_tx_rows(block_hash: Option<Vec<u8>>, txs: &Vec<TxCounts>) -> (r: Vec<Vec<String>>)
    requires
        block_hash matches Some(h) ==> h@.len() >= 2,
    ensures
        r@.len() == txs@.len(),
        forall|i: int| 0 <= i < txs@.len() ==> (#[trigger] r@[i])@.map_values(|c: String| c@)
            == search_row(short_block_hash(block_hash), i, txs@[i]),
{
    let block = match &block_hash {
        Some(h) => {
            let x = hex_encode(h.as_slice());
            proof {
                crate::hexcodec::lemma_hex_text_len(h@);
            }
            let n = x.as_str().unicode_len();
            let head = crate::utils::take_prefix(x.as_str(), 4);
            let tail = crate::utils::drop_prefix(x.as_str(), n - 4);
            let r = join3(head.as_str(), "...", tail.as_str());
            proof {
                assert(crate::utils::take_chars(x@, 4) =~= x@.take(4));
                assert(crate::utils::skip_chars(x@, n - 4) =~= x@.skip(n - 4));
            }
            r
        },
        None => String::new(),
    };
    assert(block@ =~= short_block_hash(block_hash));
    let mut rows: Vec<Vec<String>> = Vec::new();
    let mut i: usize = 0;
    while i < txs.len()
        invariant
            i <= txs@.len(),
            block@ == short_block_hash(block_hash),
            rows@.len() == i,
            forall|k: int| 0 <= k < i ==> (#[trigger] rows@[k])@.map_values(|c: String| c@)
                == search_row(short_block_hash(block_hash), k, txs@[k]),
        decreases txs@.len() - i,
    {
        let t = &txs[i];
        let mut datum = false;
        let mut j: usize = 0;
        while j < t.output_datums.len()
            invariant
                j <= t.output_datums@.len(),
                datum == exists|q: int| 0 <= q < j && (#[trigger] t.output_datums@[q] matches Some(h) && h@.len() > 0),
            decreases t.output_datums@.len() - j,
        {
            let here = match &t.output_datums[j] {
                Some(h) => h.len() > 0,
                None => false,
            };
            datum = datum || here;
            j += 1;
        }
        let mut row: Vec<String> = Vec::new();
        row.push(block.clone());
        row.push(u64_to_decimal(i as u64));
        row.push(hex_encode(t.hash.as_slice()));
        row.push(u64_to_decimal(t.inputs as u64));
        row.push(u64_to_decimal(t.output_datums.len() as u64));
        row.push(u64_to_decimal(t.certificates as u64));
        row.push(u64_to_decimal(t.reference_inputs as u64));
        row.push(String::from_str(if datum { "contain" } else { "empty" }));
        proof {
            assert(row@.map_values(|c: String| c@) =~= search_row(short_block_hash(block_hash), i as int, txs@[i as int]));
        }
        rows.push(row);
        i += 1;
    }
    rows
}

} // verus!
