//! The wallets the explorer follows: each address with its wallet, in the
//! order they were first added, an address at most once.

use vstd::prelude::*;
use crate::explorer::ExplorerWallet;
use crate::types::{same_detailed_balance, DetailedBalance, UTxO, UTxOView};
use crate::utils::Name;
use indexmap::IndexMap;

verus! {

/// A wallet as values: its name and its outputs.
pub type WalletView = (Seq<char>, Seq<UTxOView>);

/// A followed address and its wallet, as values.
pub type EntryView = (Seq<char>, WalletView);

/// A wallet as values.
pub open spec fn wallet_view(w: ExplorerWallet) -> WalletView {
    (w.name@, w.balance@.map_values(|u: UTxO| u@))
}

/// An address and its wallet as values.
pub open spec fn entry_view(e: (String, ExplorerWallet)) -> EntryView {
    (e.0@, wallet_view(e.1))
}

/// Whether no address occurs twice.
pub open spec fn keys_unique(v: Seq<EntryView>) -> bool {
    forall|i: int, j: int| 0 <= i < j < v.len() ==> (#[trigger] v[i]).0 != (#[trigger] v[j]).0
}

/// Whether an address is followed.
pub open spec fn has_key(v: Seq<EntryView>, key: Seq<char>) -> bool {
    exists|j: int| 0 <= j < v.len() && (#[trigger] v[j]).0 == key
}

/// The position of a followed address.
pub open spec fn key_index(v: Seq<EntryView>, key: Seq<char>) -> int {
    choose|j: int| 0 <= j < v.len() && (#[trigger] v[j]).0 == key
}

/// The wallets after adding a wallet under an address: a followed address
/// gets the new wallet in its place, a new one goes last.
pub open spec fn inserted(v: Seq<EntryView>, key: Seq<char>, w: WalletView) -> Seq<EntryView> {
    if has_key(v, key) {
        v.update(key_index(v, key), (key, w))
    } else {
        v.push((key, w))
    }
}

/// The wallets after the outputs of an address changed: a followed
/// address keeps its name and gets the outputs; otherwise nothing changes.
pub open spec fn with_balance(v: Seq<EntryView>, key: Seq<char>, balance: Seq<UTxOView>) -> Seq<EntryView> {
    if has_key(v, key) {
        let j = key_index(v, key);
        v.update(j, (key, (v[j].1.0, balance)))
    } else {
        v
    }
}

/// The outputs fetched for an address as values; none when fetching failed.
pub open spec fn fetched_view(fetched: Option<DetailedBalance>) -> Seq<UTxOView> {
    match fetched {
        Some(b) => b@.map_values(|u: UTxO| u@),
        None => Seq::empty(),
    }
}

#[verifier::external_type_specification]
#[verifier::external_body]
#[verifier::reject_recursive_types(K)]
#[verifier::reject_recursive_types(V)]
#[verifier::reject_recursive_types(S)]
pub struct ExIndexMap<K, V, S>(IndexMap<K, V, S>);

/// What an `IndexMap` of followed wallets holds: each address with its
/// wallet, in the map's order.
pub uninterp spec fn followed_entries(m: IndexMap<String, ExplorerWallet>) -> Seq<EntryView>;

/// Calls `IndexMap::new`: an empty map.
#[verifier::external_body]
fn map_new() -> (r: IndexMap<String, ExplorerWallet>)
    ensures
        followed_entries(r) == Seq::<EntryView>::empty(),
{
    IndexMap::new()
}

/// Calls `IndexMap::len`: the number of entries.
#[verifier::external_body]
fn map_len(m: &IndexMap<String, ExplorerWallet>) -> (r: usize)
    ensures
        r == followed_entries(*m).len(),
{
    m.len()
}

/// Calls `IndexMap::get_index`: the entry at a position, if there is one.
#[verifier::external_body]
fn map_get_index(m: &IndexMap<String, ExplorerWallet>, i: usize) -> (r: Option<(&String, &ExplorerWallet)>)
    ensures
        r is Some <==> i < followed_entries(*m).len(),
        r is Some ==> r.unwrap().0@ == followed_entries(*m)[i as int].0,
        r is Some ==> wallet_view(*r.unwrap().1) == followed_entries(*m)[i as int].1,
{
    m.get_index(i)
}

/// Calls `IndexMap::get_index_of`: the position of a key, if it is there.
#[verifier::external_body]
fn map_index_of(m: &IndexMap<String, ExplorerWallet>, key: &str) -> (r: Option<usize>)
    ensures
        match r {
            Some(i) => i < followed_entries(*m).len() && followed_entries(*m)[i as int].0 == key@,
            None => !has_key(followed_entries(*m), key@),
        },
{
    m.get_index_of(key)
}

/// Calls `IndexMap::insert`: a key already there keeps its place and gets
/// the new value; a new key goes last.
#[verifier::external_body]
fn map_insert(m: &mut IndexMap<String, ExplorerWallet>, key: String, w: ExplorerWallet)
    ensures
        followed_entries(*final(m)) == inserted(followed_entries(*old(m)), key@, wallet_view(w)),
{
    m.insert(key, w);
}

/// Calls `IndexMap::get_index_mut` and sets the outputs of the wallet at a
/// position.
#[verifier::external_body]
fn map_set_balance(m: &mut IndexMap<String, ExplorerWallet>, i: usize, balance: DetailedBalance)
    requires
        i < followed_entries(*old(m)).len(),
    ensures
        followed_entries(*final(m)) == followed_entries(*old(m)).update(
            i as int,
            (followed_entries(*old(m))[i as int].0, (followed_entries(*old(m))[i as int].1.0, balance@.map_values(|u: UTxO| u@))),
        ),
{
    if let Some((_, w)) = m.get_index_mut(i) {
        w.balance = balance;
    }
}

/// The wallets the explorer follows, by address.
pub struct ExplorerWallets {
    map: IndexMap<String, ExplorerWallet>,
}

impl View for ExplorerWallets {
    type V = Seq<EntryView>;

    closed spec fn view(&self) -> Seq<EntryView> {
        followed_entries(self.map)
    }
}

impl ExplorerWallets {
    #[verifier::type_invariant]
    spec fn addresses_unique(self) -> bool {
        keys_unique(followed_entries(self.map))
    }

    /// No wallet followed.
    pub fn new() -> (r: ExplorerWallets)
        ensures
            r@ == Seq::<EntryView>::empty(),
    {
        ExplorerWallets { map: map_new() }
    }

    /// The number of followed addresses.
    pub fn len(&self) -> (r: usize)
        ensures
            r == self@.len(),
            keys_unique(self@),
    {
        proof {
            use_type_invariant(self);
        }
        map_len(&self.map)
    }

    /// The address and wallet at a position.
    pub fn entry(&self, i: usize) -> (r: (&String, &ExplorerWallet))
        requires
            i < self@.len(),
        ensures
            r.0@ == self@[i as int].0,
            wallet_view(*r.1) == self@[i as int].1,
    {
        match map_get_index(&self.map, i) {
            Some(e) => e,
            None => {
                proof {
                    assert(false);
                }
                map_get_index(&self.map, i).unwrap()
            },
        }
    }

    /// The position of a followed address.
    pub fn find(&self, address: &str) -> (r: Option<usize>)
        ensures
            keys_unique(self@),
            match r {
                Some(j) => j < self@.len() && self@[j as int].0 == address@,
                None => !has_key(self@, address@),
            },
    {
        proof {
            use_type_invariant(self);
        }
        map_index_of(&self.map, address)
    }

    /// Follows a wallet under an address with the outputs that were
    /// fetched for it, none when fetching failed; an address followed
    /// already gets the new wallet in its place.
    pub fn insert_wallet(&mut self, address: String, name: Name, fetched: Option<DetailedBalance>)
        ensures
            final(self)@ == inserted(old(self)@, address@, (name@, fetched_view(fetched))),
    {
        proof {
            use_type_invariant(&*self);
        }
        let ghost w: WalletView = (name@, fetched_view(fetched));
        let balance = match fetched {
            Some(b) => b,
            None => Vec::new(),
        };
        let wallet = ExplorerWallet { name, balance };
        assert(wallet_view(wallet) =~= w);
        let ghost before = self@;
        let ghost key = address@;
        let mut map = map_new();
        std::mem::swap(&mut map, &mut self.map);
        map_insert(&mut map, address, wallet);
        proof {
            law_inserted_is_found(before, key, w);
        }
        self.map = map;
    }

    /// Gives a followed address its new outputs; an address that is not
    /// followed changes nothing.
    pub fn update_balance(&mut self, address: &str, balance: DetailedBalance)
        ensures
            final(self)@ == with_balance(old(self)@, address@, balance@.map_values(|u: UTxO| u@)),
    {
        let found = self.find(address);
        let ghost before = self@;
        let ghost b = balance@.map_values(|u: UTxO| u@);
        match found {
            Some(j) => {
                proof {
                    let k = key_index(before, address@);
                    assert(before[j as int].0 == address@);
                    assert(k == j as int);
                }
                let mut map = map_new();
                std::mem::swap(&mut map, &mut self.map);
                map_set_balance(&mut map, j, balance);
                proof {
                    lemma_same_key_keeps_unique(before, j as int, (address@, (before[j as int].1.0, b)));
                }
                self.map = map;
            },
            None => {},
        }
    }
}

impl ExplorerWallets {
    /// Compares the outputs fetched for a followed address with those
    /// known, and takes them when they differ; whether they did.
    pub fn refresh_balance(&mut self, address: &str, fetched: DetailedBalance) -> (r: bool)
        ensures
            r == (has_key(old(self)@, address@)
                && old(self)@[key_index(old(self)@, address@)].1.1 != fetched@.map_values(|u: UTxO| u@)),
            final(self)@ == if r {
                with_balance(old(self)@, address@, fetched@.map_values(|u: UTxO| u@))
            } else {
                old(self)@
            },
    {
        let found = self.find(address);
        match found {
            Some(j) => {
                proof {
                    let k = key_index(self@, address@);
                    assert(k == j as int);
                }
                let (_, wallet) = self.entry(j);
                let same = same_detailed_balance(&wallet.balance, &fetched);
                if same {
                    false
                } else {
                    self.update_balance(address, fetched);
                    true
                }
            },
            None => false,
        }
    }
}

/// Replacing an entry by one with the same address keeps every address at
/// most once.
proof fn lemma_same_key_keeps_unique(v: Seq<EntryView>, j: int, e: EntryView)
    requires
        keys_unique(v),
        0 <= j < v.len(),
        e.0 == v[j].0,
    ensures
        keys_unique(v.update(j, e)),
{
    let r = v.update(j, e);
    assert forall|a: int, b: int| 0 <= a < b < r.len() implies (#[trigger] r[a]).0 != (#[trigger] r[b]).0 by {
        assert(r[a].0 == v[a].0);
        assert(r[b].0 == v[b].0);
    }
}

/// Adding a wallet keeps every address at most once, and the wallet is
/// then found under its address.
pub proof fn law_inserted_is_found(v: Seq<EntryView>, key: Seq<char>, w: WalletView)
    requires
        keys_unique(v),
    ensures
        keys_unique(inserted(v, key, w)),
        has_key(inserted(v, key, w), key),
        inserted(v, key, w)[key_index(inserted(v, key, w), key)] == (key, w),
{
    let r = inserted(v, key, w);
    if has_key(v, key) {
        let j = key_index(v, key);
        assert(r[j] == (key, w));
        assert forall|a: int, b: int| 0 <= a < b < r.len() implies (#[trigger] r[a]).0 != (#[trigger] r[b]).0 by {
            if a == j {
                assert(r[b].0 == v[b].0);
            } else if b == j {
                assert(r[a].0 == v[a].0);
            }
        }
    } else {
        let j = v.len() as int;
        assert(r[j] == (key, w));
        assert forall|a: int, b: int| 0 <= a < b < r.len() implies (#[trigger] r[a]).0 != (#[trigger] r[b]).0 by {
            if b == j {
                assert(r[a] == v[a]);
            } else {
                assert(r[a] == v[a]);
                assert(r[b] == v[b]);
            }
        }
    }
    let k = key_index(r, key);
    assert(r[k].0 == key);
}

/// Adding a wallet under one address leaves every other address with its
/// wallet.
pub proof fn law_insert_keeps_others(v: Seq<EntryView>, key: Seq<char>, w: WalletView, other: Seq<char>)
    requires
        keys_unique(v),
        other != key,
        has_key(v, other),
    ensures
        has_key(inserted(v, key, w), other),
        inserted(v, key, w)[key_index(inserted(v, key, w), other)] == v[key_index(v, other)],
{
    let r = inserted(v, key, w);
    law_inserted_is_found(v, key, w);
    let i = key_index(v, other);
    assert(r[i] == v[i]);
    let k = key_index(r, other);
    assert(r[k].0 == other);
    assert(k == i);
}

} // verus!
