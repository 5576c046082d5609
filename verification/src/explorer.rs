//! The chain explorer's state: the blocks seen since it started, newest
//! first, and what the activity chart shows of them.

use vstd::prelude::*;
use crate::balance::copy_bytes;
use crate::hexcodec::{hex_encode, hex_text};
use crate::numbers::{decimal, u64_to_decimal};
use vstd::string::*;
use crate::provider::{Provider, ProviderView};
use crate::store::{Store, first_where, is_default_provider, provider_named};
use crate::types::DetailedBalance;
use crate::utils::Name;

verus! {

/// An output of a transaction, as far as the explorer summarises it: its
/// lovelace, how many policies its assets belong to, and its datum hash.
pub struct TxOutputSummary {
    pub coin: u64,
    pub asset_policies: usize,
    pub datum_hash: Option<Vec<u8>>,
}

/// A transaction of a block, as far as the explorer summarises it.
pub struct BlockTx {
    pub hash: Vec<u8>,
    pub certificates: usize,
    pub outputs: Vec<TxOutputSummary>,
}

/// A block that the explorer saw: its slot, hash, height, number of
/// transactions, and its transactions when the block was applied.
pub struct ChainBlock {
    pub slot: u64,
    pub hash: Vec<u8>,
    pub number: u64,
    pub tx_count: usize,
    pub body: Option<Vec<BlockTx>>,
}

/// The chain as the explorer follows it: the slot of the tip and the blocks
/// seen, the newest first.
pub struct ChainState {
    pub tip: Option<u64>,
    pub blocks: Vec<ChainBlock>,
}

/// The blocks kept when the chain rolls back to a block of height `number`.
pub open spec fn kept_after_undo(blocks: Seq<ChainBlock>, number: u64) -> Seq<ChainBlock> {
    blocks.filter(|b: ChainBlock| b.number >= number)
}

impl ChainState {
    /// No tip and no blocks yet.
    pub fn new() -> (r: ChainState)
        ensures
            r.tip is None,
            r.blocks@.len() == 0,
    {
        ChainState { tip: None, blocks: Vec::new() }
    }

    /// The chain was reset to a slot: the tip moves there and the blocks
    /// seen stay.
    pub fn handle_reset(&mut self, tip: u64)
        ensures
            final(self).tip == Some(tip),
            final(self).blocks@ == old(self).blocks@,
    {
        self.tip = Some(tip);
    }

    /// A block was applied: it becomes the tip and the newest block.
    pub fn handle_new_tip(&mut self, block: ChainBlock)
        ensures
            final(self).tip == Some(block.slot),
            final(self).blocks@ == seq![block] + old(self).blocks@,
    {
        self.tip = Some(block.slot);
        self.blocks.insert(0, block);
        assert(self.blocks@ =~= seq![block] + old(self).blocks@);
    }

    /// A block was rolled back: the tip moves to its slot and only the
    /// blocks at its height or above stay, in their order.
    pub fn handle_undo_tip(&mut self, block: ChainBlock)
        ensures
            final(self).tip == Some(block.slot),
            final(self).blocks@ == kept_after_undo(old(self).blocks@, block.number),
    {
        self.tip = Some(block.slot);
        let ghost f = |b: ChainBlock| b.number >= block.number;
        let mut rest: Vec<ChainBlock> = Vec::new();
        std::mem::swap(&mut rest, &mut self.blocks);
        let ghost all = rest@;
        let total = rest.len();
        let mut kept: Vec<ChainBlock> = Vec::new();
        let mut i: usize = 0;
        while rest.len() > 0
            invariant
                i + rest@.len() == all.len(),
                all.len() <= usize::MAX,
                rest@ == all.skip(i as int),
                kept@ == all.take(i as int).filter(f),
                f == (|b: ChainBlock| b.number >= block.number),
            decreases rest@.len(),
        {
            let b = rest.remove(0);
            assert(b == all[i as int]);
            assert(rest@ =~= all.skip(i + 1));
            proof {
                let next = all.take(i + 1);
                assert(next.drop_last() =~= all.take(i as int));
                assert(next.last() == b);
                reveal(Seq::filter);
            }
            if b.number >= block.number {
                kept.push(b);
            }
            i += 1;
        }
        assert(all.take(i as int) =~= all);
        self.blocks = kept;
    }
}

/// The last position in `s` that satisfies `f`.
pub open spec fn last_where<A>(s: Seq<A>, f: spec_fn(A) -> bool) -> Option<int>
    decreases s.len(),
{
    if s.len() == 0 {
        None
    } else if f(s.last()) {
        Some(s.len() - 1)
    } else {
        last_where(s.drop_last(), f)
    }
}

/// Extending a sequence by an item keeps its last match unless the new
/// item matches.
pub proof fn lemma_last_where_push<A>(s: Seq<A>, f: spec_fn(A) -> bool, x: A)
    ensures
        last_where(s.push(x), f) == (if f(x) { Some(s.len() as int) } else { last_where(s, f) }),
{
    assert(s.push(x).drop_last() =~= s);
}

/// The slot that column `j` of a chart of `size` columns stands for, the
/// rightmost column being the slot `max_slot`.
pub open spec fn column_slot(max_slot: u64, size: nat, j: int) -> int {
    max_slot - (size - 1 - j)
}

/// The oldest slot left out of a chart of `size` columns ending at `max_slot`.
pub open spec fn chart_floor(max_slot: u64, size: nat) -> int {
    if max_slot >= size { max_slot - size } else { 0 }
}

/// What column `j` of the activity chart shows for the newest `size`
/// blocks: one more than the transaction count of the last of them (in the
/// order they are kept) whose slot is the column's slot, or 0 when there is
/// none or the column is at or below the chart's floor.
pub open spec fn activity_column(blocks: Seq<ChainBlock>, size: nat, j: int) -> u64 {
    let shown = blocks.take(if blocks.len() < size { blocks.len() as int } else { size as int });
    let max_slot = shown[0].slot;
    let slot = column_slot(max_slot, size, j);
    if slot <= chart_floor(max_slot, size) {
        0
    } else {
        match last_where(shown, |b: ChainBlock| b.slot == slot) {
            Some(k) => (shown[k].tx_count + 1) as u64,
            None => 0,
        }
    }
}

/// The activity chart of the last `size` slots up to the newest block's:
/// for each slot, one more than the number of transactions of its block,
/// or 0 where no block was seen; all zeros when no block was seen.
pub fn get_last_slots(data: &Vec<ChainBlock>, size: usize) -> (r: Vec<u64>)
    requires
        data@.len() > 0 ==> size > 0,
        forall|k: int| 0 <= k < data@.len() ==> (#[trigger] data@[k]).tx_count < u64::MAX,
    ensures
        r@.len() == size,
        data@.len() == 0 ==> forall|j: int| 0 <= j < size ==> r@[j] == 0,
        data@.len() > 0 ==> forall|j: int| 0 <= j < size ==> r@[j] == activity_column(data@, size as nat, j),
{
    let mut result: Vec<u64> = Vec::new();
    let mut z: usize = 0;
    while z < size
        invariant
            z <= size,
            result@.len() == z,
            forall|j: int| 0 <= j < z ==> result@[j] == 0,
        decreases size - z,
    {
        result.push(0);
        z += 1;
    }
    if data.len() == 0 {
        return result;
    }
    let n: usize = if data.len() < size { data.len() } else { size };
    let ghost shown = data@.take(n as int);
    let max_slot = data[0].slot;
    let size64: u64 = size as u64;
    let min_slot: u64 = if max_slot >= size64 { max_slot - size64 } else { 0 };
    let mut k: usize = 0;
    while k < n
        invariant
            0 < n <= size,
            n <= data@.len(),
            shown == data@.take(n as int),
            max_slot == data@[0].slot,
            min_slot == chart_floor(max_slot, size as nat),
            size64 == size,
            k <= n,
            result@.len() == size,
            forall|q: int| 0 <= q < data@.len() ==> (#[trigger] data@[q]).tx_count < u64::MAX,
            forall|j: int| 0 <= j < size ==> #[trigger] result@[j] == (
                if column_slot(max_slot, size as nat, j) <= min_slot {
                    0u64
                } else {
                    match last_where(shown.take(k as int), |b: ChainBlock| b.slot == column_slot(max_slot, size as nat, j)) {
                        Some(p) => (shown[p].tx_count + 1) as u64,
                        None => 0u64,
                    }
                }
            ),
        decreases n - k,
    {
        let item = &data[k];
        let ghost before = result@;
        if item.slot <= max_slot && item.slot > min_slot {
            let index: usize = (max_slot - item.slot) as usize;
            let value: u64 = item.tx_count as u64 + 1;
            result.set(size - 1 - index, value);
        }
        proof {
            assert(shown.take(k + 1) =~= shown.take(k as int).push(shown[k as int]));
            assert(shown[k as int] == data@[k as int]);
            assert forall|j: int| 0 <= j < size implies #[trigger] result@[j] == (
                if column_slot(max_slot, size as nat, j) <= min_slot {
                    0u64
                } else {
                    match last_where(shown.take(k + 1), |b: ChainBlock| b.slot == column_slot(max_slot, size as nat, j)) {
                        Some(p) => (shown[p].tx_count + 1) as u64,
                        None => 0u64,
                    }
                }
            ) by {
                let slot = column_slot(max_slot, size as nat, j);
                let f = |b: ChainBlock| b.slot == slot;
                lemma_last_where_push(shown.take(k as int), f, shown[k as int]);
                assert(before[j] == result@[j] || j == size - 1 - (max_slot - data@[k as int].slot));
            }
        }
        k += 1;
    }
    proof {
        assert(shown.take(n as int) =~= shown);
        assert forall|j: int| 0 <= j < size implies result@[j] == activity_column(data@, size as nat, j) by {
            assert(shown[0] == data@[0]);
        }
    }
    result
}

/// An output summary as values.
pub open spec fn output_view(o: TxOutputSummary) -> (u64, usize, Option<Seq<u8>>) {
    (o.coin, o.asset_policies, match o.datum_hash { Some(h) => Some(h@), None => None })
}

/// A transaction summary as values.
pub struct BlockTxView {
    pub hash: Seq<u8>,
    pub certificates: usize,
    pub outputs: Seq<(u64, usize, Option<Seq<u8>>)>,
}

/// A transaction as values.
pub open spec fn block_tx_view(t: BlockTx) -> BlockTxView {
    BlockTxView {
        hash: t.hash@,
        certificates: t.certificates,
        outputs: t.outputs@.map_values(|o: TxOutputSummary| output_view(o)),
    }
}

/// The lovelace of all outputs.
pub open spec fn coin_sum(outputs: Seq<TxOutputSummary>) -> nat
    decreases outputs.len(),
{
    if outputs.len() == 0 { 0 } else { coin_sum(outputs.drop_last()) + outputs.last().coin as nat }
}

/// How many asset policies the outputs hold in all.
pub open spec fn policy_sum(outputs: Seq<TxOutputSummary>) -> nat
    decreases outputs.len(),
{
    if outputs.len() == 0 { 0 } else { policy_sum(outputs.drop_last()) + outputs.last().asset_policies as nat }
}

/// Whether an output carries a datum with a non-empty hash.
pub open spec fn has_datum(o: TxOutputSummary) -> bool {
    match o.datum_hash {
        Some(h) => h@.len() > 0,
        None => false,
    }
}

/// Whether the sums of a transaction's outputs fit their integer types.
pub open spec fn sums_fit(t: BlockTx) -> bool {
    coin_sum(t.outputs@) <= u64::MAX && policy_sum(t.outputs@) <= usize::MAX
}

/// A transaction as a row of the transactions table.
pub struct TxView {
    pub hash: String,
    pub certs: usize,
    pub assets: usize,
    pub amount_ada: u64,
    pub datum: bool,
    pub tx: Option<BlockTx>,
    pub block_slot: u64,
    pub block_height: u64,
    pub block_hash: String,
}

/// Whether a row shows transaction `t` of block `b`: its hash and the
/// block's in hex, the counts and sums of its outputs, and whether one
/// of them has a datum.
pub open spec fn shows(v: TxView, b: ChainBlock, t: BlockTx) -> bool {
    &&& v.hash@ == hex_text(t.hash@)
    &&& v.certs == t.certificates
    &&& v.assets == policy_sum(t.outputs@)
    &&& v.amount_ada == coin_sum(t.outputs@)
    &&& v.datum == (exists|i: int| 0 <= i < t.outputs@.len() && has_datum(#[trigger] t.outputs@[i]))
    &&& v.block_slot == b.slot
    &&& v.block_height == b.number
    &&& v.block_hash@ == hex_text(b.hash@)
}

/// Copies an output summary.
pub fn copy_output(o: &TxOutputSummary) -> (r: TxOutputSummary)
    ensures
        output_view(r) == output_view(*o),
{
    TxOutputSummary {
        coin: o.coin,
        asset_policies: o.asset_policies,
        datum_hash: match &o.datum_hash {
            Some(h) => Some(copy_bytes(h)),
            None => None,
        },
    }
}

/// Copies a transaction summary.
pub fn copy_tx(t: &BlockTx) -> (r: BlockTx)
    ensures
        block_tx_view(r) == block_tx_view(*t),
{
    let mut outputs: Vec<TxOutputSummary> = Vec::new();
    let mut i: usize = 0;
    while i < t.outputs.len()
        invariant
            i <= t.outputs@.len(),
            outputs@.len() == i,
            forall|j: int| 0 <= j < i ==> output_view(#[trigger] outputs@[j]) == output_view(t.outputs@[j]),
        decreases t.outputs@.len() - i,
    {
        outputs.push(copy_output(&t.outputs[i]));
        i += 1;
    }
    let r = BlockTx { hash: copy_bytes(&t.hash), certificates: t.certificates, outputs };
    assert(block_tx_view(r).outputs =~= block_tx_view(*t).outputs);
    r
}

/// The sums and the datum flag of a transaction's outputs.
fn output_totals(outputs: &Vec<TxOutputSummary>) -> (r: (usize, u64, bool))
    requires
        coin_sum(outputs@) <= u64::MAX,
        policy_sum(outputs@) <= usize::MAX,
    ensures
        r.0 == policy_sum(outputs@),
        r.1 == coin_sum(outputs@),
        r.2 == (exists|i: int| 0 <= i < outputs@.len() && has_datum(#[trigger] outputs@[i])),
{
    let mut assets: usize = 0;
    let mut coin: u64 = 0;
    let mut datum = false;
    let mut i: usize = 0;
    while i < outputs.len()
        invariant
            i <= outputs@.len(),
            coin_sum(outputs@) <= u64::MAX,
            policy_sum(outputs@) <= usize::MAX,
            assets == policy_sum(outputs@.take(i as int)),
            coin == coin_sum(outputs@.take(i as int)),
            datum == (exists|j: int| 0 <= j < i && has_datum(#[trigger] outputs@[j])),
        decreases outputs@.len() - i,
    {
        proof {
            assert(outputs@.take(i + 1).drop_last() =~= outputs@.take(i as int));
            lemma_sums_prefix(outputs@, i + 1);
        }
        let o = &outputs[i];
        assets = assets + o.asset_policies;
        coin = coin + o.coin;
        let here = match &o.datum_hash {
            Some(h) => h.len() > 0,
            None => false,
        };
        datum = datum || here;
        i += 1;
    }
    assert(outputs@.take(i as int) =~= outputs@);
    (assets, coin, datum)
}

/// The sums over a prefix are at most the sums over the whole.
pub proof fn lemma_sums_prefix(s: Seq<TxOutputSummary>, k: int)
    requires
        0 <= k <= s.len(),
    ensures
        coin_sum(s.take(k)) <= coin_sum(s),
        policy_sum(s.take(k)) <= policy_sum(s),
    decreases s.len() - k,
{
    if k < s.len() {
        lemma_sums_prefix(s, k + 1);
        assert(s.take(k + 1).drop_last() =~= s.take(k));
    } else {
        assert(s.take(k) =~= s);
    }
}

/// The row of transaction `t` of block `b`.
fn tx_row(b: &ChainBlock, t: &BlockTx, with_tx: bool) -> (r: TxView)
    requires
        sums_fit(*t),
    ensures
        shows(r, *b, *t),
        with_tx ==> (r.tx matches Some(c) && block_tx_view(c) == block_tx_view(*t)),
        !with_tx ==> r.tx is None,
{
    let (assets, coin, datum) = output_totals(&t.outputs);
    TxView {
        hash: hex_encode(t.hash.as_slice()),
        certs: t.certificates,
        assets,
        amount_ada: coin,
        datum,
        tx: if with_tx { Some(copy_tx(t)) } else { None },
        block_slot: b.slot,
        block_height: b.number,
        block_hash: hex_encode(b.hash.as_slice()),
    }
}

/// The transactions of a block as rows, with or without a copy of each
/// transaction.
fn block_rows(chain_block: &ChainBlock, with_tx: bool) -> (r: Vec<TxView>)
    requires
        chain_block.body matches Some(txs) ==> forall|i: int| 0 <= i < txs@.len() ==> sums_fit(#[trigger] txs@[i]),
    ensures
        match chain_block.body {
            Some(txs) => r@.len() == txs@.len() && forall|i: int| 0 <= i < txs@.len() ==> {
                &&& shows(#[trigger] r@[i], *chain_block, txs@[i])
                &&& (with_tx ==> (r@[i].tx matches Some(c) && block_tx_view(c) == block_tx_view(txs@[i])))
                &&& (!with_tx ==> r@[i].tx is None)
            },
            None => r@.len() == 0,
        },
{
    let mut rows: Vec<TxView> = Vec::new();
    match &chain_block.body {
        Some(txs) => {
            let mut i: usize = 0;
            while i < txs.len()
                invariant
                    chain_block.body == Some(*txs),
                    forall|k: int| 0 <= k < txs@.len() ==> sums_fit(#[trigger] txs@[k]),
                    i <= txs@.len(),
                    rows@.len() == i,
                    forall|k: int| 0 <= k < i ==> {
                        &&& shows(#[trigger] rows@[k], *chain_block, txs@[k])
                        &&& (with_tx ==> (rows@[k].tx matches Some(c) && block_tx_view(c) == block_tx_view(txs@[k])))
                        &&& (!with_tx ==> rows@[k].tx is None)
                    },
                decreases txs@.len() - i,
            {
                let row = tx_row(chain_block, &txs[i], with_tx);
                rows.push(row);
                i += 1;
            }
        },
        None => {},
    }
    rows
}

impl TxView {
    /// The rows of a block's transactions, without the transactions.
    pub fn new(chain_block: &ChainBlock) -> (r: Vec<TxView>)
        requires
            chain_block.body matches Some(txs) ==> forall|i: int| 0 <= i < txs@.len() ==> sums_fit(#[trigger] txs@[i]),
        ensures
            match chain_block.body {
                Some(txs) => r@.len() == txs@.len() && forall|i: int| 0 <= i < txs@.len() ==>
                    shows(#[trigger] r@[i], *chain_block, txs@[i]) && r@[i].tx is None,
                None => r@.len() == 0,
            },
    {
        block_rows(chain_block, false)
    }

    /// The rows of a block's transactions, each with its transaction.
    pub fn new_with_tx(chain_block: &ChainBlock) -> (r: Vec<TxView>)
        requires
            chain_block.body matches Some(txs) ==> forall|i: int| 0 <= i < txs@.len() ==> sums_fit(#[trigger] txs@[i]),
        ensures
            match chain_block.body {
                Some(txs) => r@.len() == txs@.len() && forall|i: int| 0 <= i < txs@.len() ==>
                    shows(#[trigger] r@[i], *chain_block, txs@[i])
                    && (r@[i].tx matches Some(c) && block_tx_view(c) == block_tx_view(txs@[i])),
                None => r@.len() == 0,
            },
    {
        block_rows(chain_block, true)
    }
}

/// Whether `regex::Regex::new` accepts a pattern.
pub uninterp spec fn regex_accepts(pattern: Seq<char>) -> bool;

/// What `Regex::is_match` says of a text for a pattern that compiles.
pub uninterp spec fn regex_matches(pattern: Seq<char>, text: Seq<char>) -> bool;

/// Calls `regex::Regex::new`: whether the pattern compiles.
#[verifier::external_body]
pub(crate) fn pattern_compiles(pattern: &str) -> (r: bool)
    ensures
        r == regex_accepts(pattern@),
{
    regex::Regex::new(pattern).is_ok()
}

/// Calls `Regex::is_match` on the compiled pattern: whether the pattern
/// matches somewhere in the text.
#[verifier::external_body]
pub(crate) fn pattern_matches(pattern: &str, text: &str) -> (r: bool)
    requires
        regex_accepts(pattern@),
    ensures
        r == regex_matches(pattern@, text@),
{
    match regex::Regex::new(pattern) {
        Ok(re) => re.is_match(text),
        Err(_) => false,
    }
}

/// Whether a row is found by a search: the pattern matches its hash or its
/// slot in decimal.
pub open spec fn found_by(pattern: Seq<char>, v: TxView) -> bool {
    regex_matches(pattern, v.hash@) || regex_matches(pattern, decimal(v.block_slot as nat))
}

/// The rows whose flag is set, in their order.
pub open spec fn flagged(rows: Seq<TxView>, keep: Seq<bool>) -> Seq<TxView>
    decreases rows.len(),
{
    if rows.len() == 0 || keep.len() < rows.len() {
        Seq::empty()
    } else {
        let before = flagged(rows.drop_last(), keep.take(rows.len() - 1));
        if keep[rows.len() - 1] { before.push(rows.last()) } else { before }
    }
}

/// Keeps the rows whose flag is set, in their order.
pub fn keep_flagged(rows: Vec<TxView>, keep: &Vec<bool>) -> (r: Vec<TxView>)
    requires
        keep@.len() == rows@.len(),
    ensures
        r@ == flagged(rows@, keep@),
{
    let ghost all = rows@;
    let mut rest = rows;
    let mut kept: Vec<TxView> = Vec::new();
    let mut i: usize = 0;
    let total = rest.len();
    while rest.len() > 0
        invariant
            i + rest@.len() == all.len(),
            all.len() == total,
            keep@.len() == all.len(),
            rest@ == all.skip(i as int),
            kept@ == flagged(all.take(i as int), keep@.take(i as int)),
        decreases rest@.len(),
    {
        let row = rest.remove(0);
        proof {
            assert(row == all[i as int]);
            assert(rest@ =~= all.skip(i + 1));
            let next = all.take(i + 1);
            assert(next.drop_last() =~= all.take(i as int));
            assert(keep@.take(i + 1).take(i as int) =~= keep@.take(i as int));
        }
        if keep[i] {
            kept.push(row);
        }
        i += 1;
    }
    assert(all.take(i as int) =~= all);
    assert(keep@.take(i as int) =~= keep@);
    kept
}

/// The rows found by a search, in their order: all of them for an empty
/// search, and nothing (`None`) for a pattern that does not compile.
pub fn filter_tx_views(rows: Vec<TxView>, pattern: &str) -> (r: Option<Vec<TxView>>)
    ensures
        pattern@.len() == 0 ==> (r matches Some(v) && v@ == rows@),
        pattern@.len() > 0 && !regex_accepts(pattern@) ==> r is None,
        pattern@.len() > 0 && regex_accepts(pattern@) ==> (r matches Some(v)
            && v@ == rows@.filter(|t: TxView| found_by(pattern@, t))),
{
    if pattern.unicode_len() == 0 {
        return Some(rows);
    }
    if !pattern_compiles(pattern) {
        return None;
    }
    let ghost f = |t: TxView| found_by(pattern@, t);
    let mut keep: Vec<bool> = Vec::new();
    let mut i: usize = 0;
    while i < rows.len()
        invariant
            regex_accepts(pattern@),
            i <= rows@.len(),
            keep@.len() == i,
            forall|j: int| 0 <= j < i ==> keep@[j] == found_by(pattern@, #[trigger] rows@[j]),
        decreases rows@.len() - i,
    {
        let slot = u64_to_decimal(rows[i].block_slot);
        let hit = pattern_matches(pattern, rows[i].hash.as_str()) || pattern_matches(pattern, slot.as_str());
        keep.push(hit);
        i += 1;
    }
    proof {
        lemma_flagged_filter(rows@, keep@, f);
    }
    Some(keep_flagged(rows, &keep))
}

/// Keeping the rows flagged by a predicate is filtering by it.
pub proof fn lemma_flagged_filter(rows: Seq<TxView>, keep: Seq<bool>, f: spec_fn(TxView) -> bool)
    requires
        keep.len() == rows.len(),
        forall|j: int| 0 <= j < rows.len() ==> keep[j] == f(#[trigger] rows[j]),
    ensures
        flagged(rows, keep) == rows.filter(f),
    decreases rows.len(),
{
    reveal(Seq::filter);
    if rows.len() > 0 {
        let k = keep.take(rows.len() - 1);
        assert forall|j: int| 0 <= j < rows.drop_last().len() implies k[j] == f(#[trigger] rows.drop_last()[j]) by {
            assert(rows.drop_last()[j] == rows[j]);
        }
        lemma_flagged_filter(rows.drop_last(), k, f);
    }
}

/// A wallet followed by the explorer: its name and its outputs.
#[derive(Debug)]
pub struct ExplorerWallet {
    pub name: Name,
    pub balance: DetailedBalance,
}

impl ExplorerWallet {
    /// A wallet whose outputs are not known yet.
    pub fn new(name: Name) -> (r: ExplorerWallet)
        ensures
            r.name@ == name@,
            r.balance@.len() == 0,
    {
        ExplorerWallet { name, balance: Vec::new() }
    }
}

/// Why the explorer could not pick a provider.
#[derive(Debug, Clone, Copy, PartialEq, Eq, Structural)]
pub enum ExplorerError {
    /// No provider has the name asked for.
    ProviderNotFound,
    /// No provider is configured.
    NoProviders,
}

impl ExplorerError {
    /// The message shown for this error.
    pub fn message(&self) -> (r: &'static str)
        ensures
            r@ == (match self {
                ExplorerError::ProviderNotFound => "Provider not found."@,
                ExplorerError::NoProviders => "No providers configured"@,
            }),
    {
        match self {
            ExplorerError::ProviderNotFound => "Provider not found.",
            ExplorerError::NoProviders => "No providers configured",
        }
    }
}

/// The provider the explorer follows the chain with: the one named, when a
/// name is given; otherwise the default one, or else the first one.
pub fn choose_provider<'a>(store: &'a Store, name: Option<&str>) -> (r: Result<&'a Provider, ExplorerError>)
    ensures
        match name {
            Some(n) => match first_where(store@.providers, provider_named(n@)) {
                Some(i) => r matches Ok(p) && p@ == store@.providers[i],
                None => r == Err::<&Provider, ExplorerError>(ExplorerError::ProviderNotFound),
            },
            None => match first_where(store@.providers, |p: ProviderView| is_default_provider(p)) {
                Some(i) => r matches Ok(p) && p@ == store@.providers[i],
                None => if store@.providers.len() > 0 {
                    r matches Ok(p) && p@ == store@.providers[0]
                } else {
                    r == Err::<&Provider, ExplorerError>(ExplorerError::NoProviders)
                },
            },
        },
{
    match name {
        Some(n) => match store.find_provider(n) {
            Some(p) => Ok(p),
            None => Err(ExplorerError::ProviderNotFound),
        },
        None => match store.default_provider() {
            Some(p) => Ok(p),
            None => {
                let ps = store.providers();
                if ps.len() > 0 {
                    Ok(&ps[0])
                } else {
                    Err(ExplorerError::NoProviders)
                }
            },
        },
    }
}

/// A transaction's lovelace counts every output once: no outputs hold
/// nothing, and one more output adds its coin, whatever the outputs before.
pub proof fn law_coin_sum_counts_every_output(s: Seq<TxOutputSummary>, o: TxOutputSummary)
    ensures
        coin_sum(Seq::<TxOutputSummary>::empty()) == 0,
        coin_sum(s.push(o)) == coin_sum(s) + o.coin,
{
    assert(s.push(o).drop_last() =~= s);
}

/// A transaction's asset policies count those of every output once.
pub proof fn law_policy_sum_counts_every_output(s: Seq<TxOutputSummary>, o: TxOutputSummary)
    ensures
        policy_sum(Seq::<TxOutputSummary>::empty()) == 0,
        policy_sum(s.push(o)) == policy_sum(s) + o.asset_policies,
{
    assert(s.push(o).drop_last() =~= s);
}

/// The lovelace of two groups of outputs together is the sum of the
/// lovelace of each group.
pub proof fn law_coin_sum_of_concat(a: Seq<TxOutputSummary>, b: Seq<TxOutputSummary>)
    ensures
        coin_sum(a + b) == coin_sum(a) + coin_sum(b),
    decreases b.len(),
{
    if b.len() == 0 {
        assert(a + b =~= a);
    } else {
        law_coin_sum_of_concat(a, b.drop_last());
        assert((a + b).drop_last() =~= a + b.drop_last());
        assert((a + b).last() == b.last());
    }
}

} // verus!
