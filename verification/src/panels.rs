//! What the explorer's panels show, as text: the rows of the blocks,
//! transactions and outputs tables, the accounts list and the details of a
//! wallet, and the fields of the new-address popup.

use vstd::prelude::*;
use vstd::string::*;
use vstd::utf8::encode_utf8;
use crate::explorer::{
    coin_sum, has_datum, pattern_compiles, pattern_matches, policy_sum, regex_accepts, regex_matches, sums_fit, shows,
    BlockTx, ChainBlock, ChainState, TxView,
};
use crate::followed::{ExplorerWallets, WalletView};
use crate::numbers::{parse_u64, unsigned_text_value};
use crate::screen::{InputField, NewViewAddress, NewViewAddressView};
use crate::tabs::InputMode;
use crate::types::{DetailedBalance, UTxO, UTxOView};
use crate::utils::{clip, clip_spec};
use crate::hexcodec::{hex_encode, hex_text};
use crate::numbers::{decimal, u64_to_decimal};

verus! {

/// A cell as a table draws it: the text on the middle of three lines.
pub open spec fn framed(s: Seq<char>) -> Seq<char> {
    "\n"@ + s + "\n"@
}

/// The text of a cell on the middle of three lines.
pub fn framed_text(s: &str) -> (r: String)
    ensures
        r@ == framed(s@),
{
    let mut t = String::from_str("\n");
    t.append(s);
    t.append("\n");
    t
}

/// A row of a table: its cells, and whether it has the dark stripe that
/// every other row has, starting with the first.
#[derive(Debug)]
pub struct TableRow {
    pub cells: Vec<String>,
    pub striped: bool,
}

/// The texts of a row's cells.
pub open spec fn cells_text(r: TableRow) -> Seq<Seq<char>> {
    r.cells@.map_values(|c: String| c@)
}

/// The cells of a block's row: slot, hash in hex, height and number of
/// transactions.
pub open spec fn block_row_text(b: ChainBlock) -> Seq<Seq<char>> {
    seq![
        framed(decimal(b.slot as nat)),
        framed(hex_text(b.hash@)),
        framed(decimal(b.number as nat)),
        framed(decimal(b.tx_count as nat)),
    ]
}

/// The blocks table of the explorer, over the blocks of the chain.
pub struct BlocksTab<'a> {
    pub blocks: &'a Vec<ChainBlock>,
}

impl<'a> BlocksTab<'a> {
    /// The blocks table over the blocks the explorer follows.
    pub fn new(chain: &'a ChainState) -> (r: BlocksTab<'a>)
        ensures
            r.blocks@ == chain.blocks@,
    {
        BlocksTab { blocks: &chain.blocks }
    }

    /// The rows of the table, one per block in the chain's order, every
    /// other one striped.
    pub fn rows(&self) -> (r: Vec<TableRow>)
        ensures
            r@.len() == self.blocks@.len(),
            forall|i: int| 0 <= i < r@.len() ==> cells_text(#[trigger] r@[i]) == block_row_text(self.blocks@[i])
                && r@[i].striped == (i % 2 == 0),
    {
        let mut rows: Vec<TableRow> = Vec::new();
        let mut i: usize = 0;
        while i < self.blocks.len()
            invariant
                i <= self.blocks@.len(),
                rows@.len() == i,
                forall|k: int| 0 <= k < i ==> cells_text(#[trigger] rows@[k]) == block_row_text(self.blocks@[k])
                    && rows@[k].striped == (k % 2 == 0),
            decreases self.blocks@.len() - i,
        {
            let b = &self.blocks[i];
            let mut cells: Vec<String> = Vec::new();
            let slot = u64_to_decimal(b.slot);
            cells.push(framed_text(slot.as_str()));
            let hash = hex_encode(b.hash.as_slice());
            cells.push(framed_text(hash.as_str()));
            let number = u64_to_decimal(b.number);
            cells.push(framed_text(number.as_str()));
            let count = u64_to_decimal(b.tx_count as u64);
            cells.push(framed_text(count.as_str()));
            let row = TableRow { cells, striped: i % 2 == 0 };
            assert(cells_text(row) =~= block_row_text(self.blocks@[i as int]));
            rows.push(row);
            i += 1;
        }
        rows
    }
}

/// A transaction of a block, with the block.
pub type BlockAndTx = (ChainBlock, BlockTx);

/// The transactions of a block, each with the block.
pub open spec fn block_pairs(b: ChainBlock) -> Seq<BlockAndTx> {
    match b.body {
        Some(txs) => txs@.map_values(|t: BlockTx| (b, t)),
        None => Seq::empty(),
    }
}

/// The transactions of the blocks, block by block in the blocks' order.
pub open spec fn chain_pairs(blocks: Seq<ChainBlock>) -> Seq<BlockAndTx>
    decreases blocks.len(),
{
    if blocks.len() == 0 {
        Seq::empty()
    } else {
        chain_pairs(blocks.drop_last()) + block_pairs(blocks.last())
    }
}

/// Whether every transaction of the blocks has sums that fit.
pub open spec fn blocks_fit(blocks: Seq<ChainBlock>) -> bool {
    forall|i: int| 0 <= i < blocks.len() ==> ((#[trigger] blocks[i]).body matches Some(txs)
        ==> forall|j: int| 0 <= j < txs@.len() ==> sums_fit(#[trigger] txs@[j]))
}

/// Whether a search finds a transaction: an empty search finds all, and a
/// pattern must match the transaction's hash in hex or its block's slot.
pub open spec fn pair_found(pattern: Seq<char>, p: BlockAndTx) -> bool {
    pattern.len() == 0 || regex_matches(pattern, hex_text(p.1.hash@)) || regex_matches(pattern, decimal(p.0.slot as nat))
}

/// The cells of a transaction's row: hash, slot, certificates, asset
/// policies, lovelace, and whether an output carries a datum.
pub open spec fn tx_row_text(p: BlockAndTx) -> Seq<Seq<char>> {
    let t = p.1;
    seq![
        framed(hex_text(t.hash@)),
        framed(decimal(p.0.slot as nat)),
        framed(decimal(t.certificates as nat)),
        framed(decimal(policy_sum(t.outputs@))),
        framed(decimal(coin_sum(t.outputs@))),
        framed(if exists|i: int| 0 <= i < t.outputs@.len() && has_datum(#[trigger] t.outputs@[i]) { "yes"@ } else { "no"@ }),
    ]
}

/// The rows of the transactions that a search finds, in their order.
pub open spec fn search_rows(pattern: Seq<char>, pairs: Seq<BlockAndTx>) -> Seq<Seq<Seq<char>>>
    decreases pairs.len(),
{
    if pairs.len() == 0 {
        Seq::empty()
    } else {
        let before = search_rows(pattern, pairs.drop_last());
        if pair_found(pattern, pairs.last()) {
            before.push(tx_row_text(pairs.last()))
        } else {
            before
        }
    }
}

/// An empty search finds every transaction: the table then has one row per
/// transaction, in order.
pub proof fn law_empty_search_shows_all(pairs: Seq<BlockAndTx>)
    ensures
        search_rows(Seq::empty(), pairs) == pairs.map_values(|p: BlockAndTx| tx_row_text(p)),
    decreases pairs.len(),
{
    if pairs.len() > 0 {
        law_empty_search_shows_all(pairs.drop_last());
        assert(pairs.map_values(|p: BlockAndTx| tx_row_text(p))
            =~= pairs.drop_last().map_values(|p: BlockAndTx| tx_row_text(p)).push(tx_row_text(pairs.last())));
    } else {
        assert(pairs.map_values(|p: BlockAndTx| tx_row_text(p)) =~= Seq::empty());
    }
}

/// The transactions table of the explorer, over the blocks of the chain.
pub struct TransactionsTab<'a> {
    pub blocks: &'a Vec<ChainBlock>,
}

/// The row of a table as the table of a search draws it.
fn tx_row(v: &TxView, striped: bool) -> (r: TableRow)
    ensures
        cells_text(r) == seq![
            framed(v.hash@),
            framed(decimal(v.block_slot as nat)),
            framed(decimal(v.certs as nat)),
            framed(decimal(v.assets as nat)),
            framed(decimal(v.amount_ada as nat)),
            framed(if v.datum { "yes"@ } else { "no"@ }),
        ],
        r.striped == striped,
{
    let mut cells: Vec<String> = Vec::new();
    cells.push(framed_text(v.hash.as_str()));
    let slot = u64_to_decimal(v.block_slot);
    cells.push(framed_text(slot.as_str()));
    let certs = u64_to_decimal(v.certs as u64);
    cells.push(framed_text(certs.as_str()));
    let assets = u64_to_decimal(v.assets as u64);
    cells.push(framed_text(assets.as_str()));
    let coin = u64_to_decimal(v.amount_ada);
    cells.push(framed_text(coin.as_str()));
    cells.push(framed_text(if v.datum { "yes" } else { "no" }));
    let r = TableRow { cells, striped };
    proof {
        reveal_strlit("yes");
        reveal_strlit("no");
    }
    assert(cells_text(r) =~= seq![
        framed(v.hash@),
        framed(decimal(v.block_slot as nat)),
        framed(decimal(v.certs as nat)),
        framed(decimal(v.assets as nat)),
        framed(decimal(v.amount_ada as nat)),
        framed(if v.datum { "yes"@ } else { "no"@ }),
    ]);
    r
}

impl<'a> TransactionsTab<'a> {
    /// The transactions table over the blocks the explorer follows.
    pub fn new(chain: &'a ChainState) -> (r: TransactionsTab<'a>)
        ensures
            r.blocks@ == chain.blocks@,
    {
        TransactionsTab { blocks: &chain.blocks }
    }

    /// The rows of the transactions that a search finds, block by block
    /// and in each block in its order, every other one striped; `None` when
    /// the search is a pattern that does not compile.
    pub fn rows(&self, search: &str) -> (r: Option<Vec<TableRow>>)
        requires
            blocks_fit(self.blocks@),
        ensures
            search@.len() > 0 && !regex_accepts(search@) ==> r is None,
            !(search@.len() > 0 && !regex_accepts(search@)) ==> (r matches Some(rows)
                && rows@.len() == search_rows(search@, chain_pairs(self.blocks@)).len()
                && forall|i: int| 0 <= i < rows@.len() ==>
                    cells_text(#[trigger] rows@[i]) == search_rows(search@, chain_pairs(self.blocks@))[i]
                    && rows@[i].striped == (i % 2 == 0)),
    {
        let empty = search.unicode_len() == 0;
        if !empty && !pattern_compiles(search) {
            return None;
        }
        let ghost pattern = search@;
        let ghost all = self.blocks@;
        let mut rows: Vec<TableRow> = Vec::new();
        let mut i: usize = 0;
        while i < self.blocks.len()
            invariant
                i <= all.len(),
                all == self.blocks@,
                blocks_fit(all),
                pattern == search@,
                empty == (pattern.len() == 0),
                empty || regex_accepts(pattern),
                rows@.len() == search_rows(pattern, chain_pairs(all.take(i as int))).len(),
                forall|k: int| 0 <= k < rows@.len() ==>
                    cells_text(#[trigger] rows@[k]) == search_rows(pattern, chain_pairs(all.take(i as int)))[k]
                    && rows@[k].striped == (k % 2 == 0),
            decreases all.len() - i,
        {
            let b = &self.blocks[i];
            assert(b.body matches Some(txs) ==> forall|j: int| 0 <= j < txs@.len() ==> sums_fit(#[trigger] txs@[j])) by {
                assert(all[i as int] == *b);
            }
            let views = TxView::new(b);
            let ghost done = chain_pairs(all.take(i as int));
            let ghost here = block_pairs(*b);
            assert(views@.len() == here.len());
            let mut j: usize = 0;
            while j < views.len()
                invariant
                    j <= views@.len(),
                    views@.len() == here.len(),
                    here == block_pairs(*b),
                    forall|q: int| 0 <= q < here.len() ==> #[trigger] here[q] == (*b, here[q].1)
                        && shows(views@[q], *b, here[q].1),
                    pattern == search@,
                    empty == (pattern.len() == 0),
                    empty || regex_accepts(pattern),
                    rows@.len() == search_rows(pattern, done + here.take(j as int)).len(),
                    forall|k: int| 0 <= k < rows@.len() ==>
                        cells_text(#[trigger] rows@[k]) == search_rows(pattern, done + here.take(j as int))[k]
                        && rows@[k].striped == (k % 2 == 0),
                decreases views@.len() - j,
            {
                let v = &views[j];
                let hit = if empty {
                    true
                } else if pattern_matches(search, v.hash.as_str()) {
                    true
                } else {
                    let slot = u64_to_decimal(v.block_slot);
                    pattern_matches(search, slot.as_str())
                };
                let ghost p = here[j as int];
                let ghost before = done + here.take(j as int);
                let ghost after = done + here.take(j + 1);
                assert(after.drop_last() =~= before);
                assert(after.last() == p);
                assert(hit == pair_found(pattern, p));
                if hit {
                    let row = tx_row(v, rows.len() % 2 == 0);
                    assert(cells_text(row) =~= tx_row_text(p));
                    rows.push(row);
                }
                assert forall|k: int| 0 <= k < rows@.len() implies
                    cells_text(#[trigger] rows@[k]) == search_rows(pattern, after)[k]
                    && rows@[k].striped == (k % 2 == 0) by {}
                j += 1;
            }
            proof {
                assert(here.take(j as int) =~= here);
                assert(all.take(i + 1).drop_last() =~= all.take(i as int));
                assert(all.take(i + 1).last() == *b);
            }
            i += 1;
        }
        assert(all.take(i as int) =~= all);
        Some(rows)
    }
}

/// The text and the title of the search field: while it is edited it shows
/// a cursor at the end.
pub fn search_box(input: &str, mode: InputMode) -> (r: (String, &'static str))
    ensures
        mode == InputMode::Normal ==> r.0@ == input@ && r.1@ == " Search | press f to filter "@,
        mode == InputMode::Editing ==> r.0@ == input@ + "\u{2502}"@ && r.1@ == " Search | press ESC to leave "@,
{
    match mode {
        InputMode::Normal => (String::from_str(input), " Search | press f to filter "),
        InputMode::Editing => {
            let mut t = String::from_str(input);
            t.append("\u{2502}");
            (t, " Search | press ESC to leave ")
        },
    }
}

/// The datum cell of an output: the head and tail of its hash in hex, or
/// `[Empty]`.
pub open spec fn datum_cell(u: UTxOView) -> Seq<char> {
    match u.datum {
        Some(h) => clip_spec(hex_text(h), 8),
        None => "[Empty]"@,
    }
}

/// The cells of an output's row: transaction in hex, index, lovelace, how
/// many policies its assets belong to, and its datum.
pub open spec fn utxo_row_text(u: UTxOView) -> Seq<Seq<char>> {
    seq![
        framed(hex_text(u.tx)),
        framed(decimal(u.tx_index as nat)),
        framed(u.coin),
        framed(decimal(u.assets.len())),
        framed(datum_cell(u)),
    ]
}

/// The rows of the outputs table of a wallet, one per output in order;
/// none is striped.
pub fn utxo_rows(balance: &DetailedBalance) -> (r: Vec<TableRow>)
    ensures
        r@.len() == balance@.len(),
        forall|i: int| 0 <= i < r@.len() ==> cells_text(#[trigger] r@[i]) == utxo_row_text(balance@[i]@)
            && !r@[i].striped,
{
    let mut rows: Vec<TableRow> = Vec::new();
    let mut i: usize = 0;
    while i < balance.len()
        invariant
            i <= balance@.len(),
            rows@.len() == i,
            forall|k: int| 0 <= k < i ==> cells_text(#[trigger] rows@[k]) == utxo_row_text(balance@[k]@)
                && !rows@[k].striped,
        decreases balance@.len() - i,
    {
        let u = &balance[i];
        let mut cells: Vec<String> = Vec::new();
        let tx = hex_encode(u.tx.as_slice());
        cells.push(framed_text(tx.as_str()));
        let index = u64_to_decimal(u.tx_index);
        cells.push(framed_text(index.as_str()));
        cells.push(framed_text(u.coin.as_str()));
        let policies = u64_to_decimal(u.assets.len() as u64);
        cells.push(framed_text(policies.as_str()));
        match &u.datum {
            Some(d) => {
                let h = hex_encode(d.hash.as_slice());
                let byte_count = h.as_str().as_bytes().len();
                assert(byte_count == encode_utf8(h@).len());
                let c = clip(h.as_str(), 8);
                cells.push(framed_text(c.as_str()));
            },
            None => {
                cells.push(framed_text("[Empty]"));
            },
        }
        let row = TableRow { cells, striped: false };
        assert(cells_text(row) =~= utxo_row_text(balance@[i as int]@));
        rows.push(row);
        i += 1;
    }
    rows
}

/// The lovelace of an output, when its text is a `u64`.
pub open spec fn coin_value(u: UTxOView) -> Option<nat> {
    let v = unsigned_text_value(u.coin);
    if v is Some && v.unwrap() <= u64::MAX { v } else { None }
}

/// Whether the lovelace of every output reads as a `u64`.
pub open spec fn coins_readable(us: Seq<UTxOView>) -> bool {
    forall|i: int| 0 <= i < us.len() ==> (#[trigger] coin_value(us[i])) is Some
}

/// The lovelace of the outputs in all.
pub open spec fn coin_total(us: Seq<UTxOView>) -> nat
    decreases us.len(),
{
    if us.len() == 0 {
        0
    } else {
        coin_total(us.drop_last()) + coin_value(us.last()).unwrap_or(0)
    }
}

/// The lovelace of a prefix of the outputs is at most that of all.
pub proof fn lemma_coin_total_prefix(us: Seq<UTxOView>, k: int)
    requires
        0 <= k <= us.len(),
    ensures
        coin_total(us.take(k)) <= coin_total(us),
    decreases us.len() - k,
{
    if k < us.len() {
        lemma_coin_total_prefix(us, k + 1);
        assert(us.take(k + 1).drop_last() =~= us.take(k));
    } else {
        assert(us.take(k) =~= us);
    }
}

/// Whether a wallet's lovelace can be shown: every output's reads as a
/// `u64`, and so does their total.
pub open spec fn balance_shown(w: WalletView) -> bool {
    coins_readable(w.1) && coin_total(w.1) <= u64::MAX
}

/// The lines of the details of a wallet: its name, its address and its
/// lovelace in all.
pub open spec fn detail_lines(address: Seq<char>, w: WalletView) -> Seq<Seq<char>> {
    seq![
        w.0 + " wallet"@,
        "Address: "@ + address,
        "Balance: "@ + decimal(coin_total(w.1)) + " Lovelace"@,
    ]
}

/// The details panel of a selected wallet: its lines and its outputs.
#[derive(Debug)]
pub struct WalletDetails {
    pub lines: Vec<String>,
    pub rows: Vec<TableRow>,
}

/// What the details panel of the accounts tab shows: a prompt to select a
/// wallet, or the details of the selected one.
#[derive(Debug)]
pub enum DetailsPanel {
    Prompt(&'static str),
    Wallet(WalletDetails),
}

/// The text shown while no wallet is selected.
pub open spec fn select_prompt() -> Seq<char> {
    "Select a wallet to show its balance"@
}

/// The accounts tab of the explorer, over the wallets it follows: each
/// address with its wallet, in the order they were added.
pub struct AccountsTab<'a> {
    pub wallets: &'a ExplorerWallets,
}

impl<'a> AccountsTab<'a> {
    /// The accounts tab over the wallets the explorer follows.
    pub fn new(wallets: &'a ExplorerWallets) -> (r: AccountsTab<'a>)
        ensures
            r.wallets@ == wallets@,
    {
        AccountsTab { wallets }
    }

    /// The items of the list: each wallet's name and the head and tail of
    /// its address.
    pub fn items(&self) -> (r: Vec<(String, String)>)
        ensures
            r@.len() == self.wallets@.len(),
            forall|i: int| 0 <= i < r@.len() ==> (#[trigger] r@[i]).0@ == self.wallets@[i].1.0
                && r@[i].1@ == clip_spec(self.wallets@[i].0, 20),
    {
        let mut items: Vec<(String, String)> = Vec::new();
        let n = self.wallets.len();
        let mut i: usize = 0;
        while i < n
            invariant
                i <= n,
                n == self.wallets@.len(),
                items@.len() == i,
                forall|k: int| 0 <= k < i ==> (#[trigger] items@[k]).0@ == self.wallets@[k].1.0
                    && items@[k].1@ == clip_spec(self.wallets@[k].0, 20),
            decreases n - i,
        {
            let (address, wallet) = self.wallets.entry(i);
            let byte_count = address.as_str().as_bytes().len();
            assert(byte_count == encode_utf8(address@).len());
            let short = clip(address.as_str(), 20);
            items.push((wallet.name.to_string(), short));
            i += 1;
        }
        items
    }

    /// The details of the selected wallet, the selection wrapping around the
    /// list; a prompt to select one when none is selected.
    pub fn details(&self, selected: Option<usize>) -> (r: DetailsPanel)
        requires
            selected is Some ==> self.wallets@.len() > 0
                && balance_shown(self.wallets@[(selected.unwrap() as nat % self.wallets@.len()) as int].1),
        ensures
            selected is None ==> (r matches DetailsPanel::Prompt(t) && t@ == select_prompt()),
            selected matches Some(i) ==> (r matches DetailsPanel::Wallet(d) && {
                let (address, w) = self.wallets@[(i as nat % self.wallets@.len()) as int];
                &&& d.lines@.map_values(|l: String| l@) == detail_lines(address, w)
                &&& d.rows@.len() == w.1.len()
                &&& forall|k: int| 0 <= k < d.rows@.len() ==> cells_text(#[trigger] d.rows@[k]) == utxo_row_text(w.1[k])
            }),
    {
        match selected {
            None => DetailsPanel::Prompt("Select a wallet to show its balance"),
            Some(i) => {
                let n = self.wallets.len();
                let index = i % n;
                let (address, wallet) = self.wallets.entry(index);
                let ghost w = self.wallets@[index as int].1;
                assert(wallet.balance@.map_values(|u: UTxO| u@) == w.1);
                let total = lovelace_total(&wallet.balance);
                let mut lines: Vec<String> = Vec::new();
                let mut first = wallet.name.to_string();
                first.append(" wallet");
                lines.push(first);
                let mut second = String::from_str("Address: ");
                second.append(address.as_str());
                lines.push(second);
                let mut third = String::from_str("Balance: ");
                let t = u64_to_decimal(total);
                third.append(t.as_str());
                third.append(" Lovelace");
                lines.push(third);
                assert(lines@.map_values(|l: String| l@) =~= detail_lines(address@, w));
                let rows = utxo_rows(&wallet.balance);
                assert forall|k: int| 0 <= k < rows@.len() implies cells_text(#[trigger] rows@[k]) == utxo_row_text(w.1[k]) by {
                    assert(w.1[k] == wallet.balance@[k]@);
                }
                DetailsPanel::Wallet(WalletDetails { lines, rows })
            },
        }
    }
}

/// The lovelace of the outputs in all, each read from its text.
fn lovelace_total(us: &DetailedBalance) -> (r: u64)
    requires
        coins_readable(us@.map_values(|u: UTxO| u@)),
        coin_total(us@.map_values(|u: UTxO| u@)) <= u64::MAX,
    ensures
        r == coin_total(us@.map_values(|u: UTxO| u@)),
{
    let ghost vs = us@.map_values(|u: UTxO| u@);
    let mut total: u64 = 0;
    let mut i: usize = 0;
    while i < us.len()
        invariant
            i <= us@.len(),
            vs == us@.map_values(|u: UTxO| u@),
            coins_readable(vs),
            coin_total(vs) <= u64::MAX,
            total == coin_total(vs.take(i as int)),
        decreases us@.len() - i,
    {
        proof {
            lemma_coin_total_prefix(vs, i + 1);
            assert(vs.take(i + 1).drop_last() =~= vs.take(i as int));
            assert(coin_value(vs[i as int]) is Some);
            assert(vs[i as int] == us@[i as int]@);
        }
        match parse_u64(us[i].coin.as_str()) {
            Some(v) => {
                total = total + v;
            },
            None => {
                proof {
                    assert(false);
                }
            },
        }
        i += 1;
    }
    assert(vs.take(i as int) =~= vs);
    total
}

/// How a field of the new-address popup is drawn: refused (red), focused
/// (green) or plain.
#[derive(Debug, Clone, Copy, PartialEq, Eq, Structural)]
pub enum FieldLook {
    Refused,
    Focused,
    Plain,
}

/// The text of a field: with a cursor at the end when it has the focus.
pub open spec fn field_text(input: Seq<char>, focused: bool) -> Seq<char> {
    if focused { input + "\u{2502}"@ } else { input }
}

/// The look of a field: refused when it has an error, else focused or plain.
pub open spec fn field_look(refused: bool, focused: bool) -> FieldLook {
    if refused { FieldLook::Refused } else if focused { FieldLook::Focused } else { FieldLook::Plain }
}

/// An optional message as a list of at most one line.
pub open spec fn message_line(m: Option<Seq<char>>) -> Seq<Seq<char>> {
    match m {
        Some(t) => seq![t],
        None => Seq::empty(),
    }
}

/// The message lines of the popup: the name's error, the address's error
/// and the success message, those that are there.
pub open spec fn popup_messages(v: NewViewAddressView) -> Seq<Seq<char>> {
    message_line(v.name_error) + message_line(v.address_error) + message_line(v.success_message)
}

/// What the new-address popup shows: its two fields with their looks, its
/// messages, and whether they are drawn as a success (green) rather than
/// as errors (red).
#[derive(Debug)]
pub struct AddressPanel {
    pub name_text: String,
    pub name_look: FieldLook,
    pub address_text: String,
    pub address_look: FieldLook,
    pub messages: Vec<String>,
    pub success: bool,
}

/// The text of a field, with a cursor at the end when it has the focus.
fn field_shown(input: &String, focused: bool) -> (r: String)
    ensures
        r@ == field_text(input@, focused),
{
    let mut t = input.clone();
    if focused {
        t.append("\u{2502}");
    }
    t
}

/// Adds an optional message to the lines.
fn push_message(lines: &mut Vec<String>, m: &Option<String>)
    ensures
        final(lines)@.map_values(|l: String| l@)
            == old(lines)@.map_values(|l: String| l@) + message_line(crate::screen::opt_text(*m)),
{
    let ghost before = lines@.map_values(|l: String| l@);
    match m {
        Some(t) => {
            lines.push(t.clone());
            assert(lines@.map_values(|l: String| l@) =~= before + message_line(crate::screen::opt_text(*m)));
        },
        None => {
            assert(lines@.map_values(|l: String| l@) =~= before + message_line(crate::screen::opt_text(*m)));
        },
    }
}

impl NewViewAddress {
    /// What the popup shows.
    pub fn panel(&self) -> (r: AddressPanel)
        ensures
            r.name_text@ == field_text(self@.name_input, self@.focused == InputField::Name),
            r.name_look == field_look(self@.name_error is Some, self@.focused == InputField::Name),
            r.address_text@ == field_text(self@.address_input, self@.focused == InputField::Address),
            r.address_look == field_look(self@.address_error is Some, self@.focused == InputField::Address),
            r.messages@.map_values(|l: String| l@) == popup_messages(self@),
            r.success == (self@.success_message is Some),
    {
        let name_focused = self.focused == InputField::Name;
        let address_focused = self.focused == InputField::Address;
        let name_look = if self.name_error.is_some() {
            FieldLook::Refused
        } else if name_focused {
            FieldLook::Focused
        } else {
            FieldLook::Plain
        };
        let address_look = if self.address_error.is_some() {
            FieldLook::Refused
        } else if address_focused {
            FieldLook::Focused
        } else {
            FieldLook::Plain
        };
        let mut messages: Vec<String> = Vec::new();
        push_message(&mut messages, &self.name_error);
        push_message(&mut messages, &self.address_error);
        push_message(&mut messages, &self.success_message);
        assert(messages@.map_values(|l: String| l@) =~= popup_messages(self@));
        AddressPanel {
            name_text: field_shown(&self.name_input, name_focused),
            name_look,
            address_text: field_shown(&self.address_input, address_focused),
            address_look,
            messages,
            success: self.success_message.is_some(),
        }
    }
}

/// The lovelace total of a wallet counts every output once, whatever its
/// assets or datum: no outputs hold nothing, and one more output whose
/// lovelace reads as a `u64` adds that number.
pub proof fn law_coin_total_counts_every_output(us: Seq<UTxOView>, u: UTxOView)
    ensures
        coin_total(Seq::<UTxOView>::empty()) == 0,
        unsigned_text_value(u.coin) is Some && unsigned_text_value(u.coin).unwrap() <= u64::MAX
            ==> coin_total(us.push(u)) == coin_total(us) + unsigned_text_value(u.coin).unwrap(),
{
    assert(us.push(u).drop_last() =~= us);
}

/// The lovelace total of two groups of outputs together is the sum of the
/// totals of each group.
pub proof fn law_coin_total_of_concat(a: Seq<UTxOView>, b: Seq<UTxOView>)
    ensures
        coin_total(a + b) == coin_total(a) + coin_total(b),
    decreases b.len(),
{
    if b.len() == 0 {
        assert(a + b =~= a);
    } else {
        law_coin_total_of_concat(a, b.drop_last());
        assert((a + b).drop_last() =~= a + b.drop_last());
        assert((a + b).last() == b.last());
    }
}

} // verus!
