//! The local store of wallets and providers.

use vstd::prelude::*;
use crate::provider::{Provider, ProviderView};
use crate::wallet::{Wallet, WalletView};

verus! {

/// Why a store operation was refused.
#[derive(Debug, Clone, Copy, PartialEq, Eq, Structural)]
pub enum StoreError {
    WalletNotFound,
    ProviderNotFound,
}

impl StoreError {
    /// The message shown for this error.
    pub fn message(&self) -> (r: &'static str)
        ensures
            *self == StoreError::WalletNotFound ==> r@ == "Wallet not on store."@,
            *self == StoreError::ProviderNotFound ==> r@ == "Provider not on store."@,
    {
        match self {
            StoreError::WalletNotFound => "Wallet not on store.",
            StoreError::ProviderNotFound => "Provider not on store.",
        }
    }
}

/// The wallets and providers that are kept between runs.
#[derive(Debug)]
pub struct StoreInner {
    pub wallets: Vec<Wallet>,
    pub providers: Vec<Provider>,
}

/// The store: wallets and providers, in the order they were added.
#[derive(Debug)]
pub struct Store {
    inner: StoreInner,
}

pub struct StoreView {
    pub wallets: Seq<WalletView>,
    pub providers: Seq<ProviderView>,
}

impl View for Store {
    type V = StoreView;

    closed spec fn view(&self) -> StoreView {
        StoreView {
            wallets: wallet_views(self.inner.wallets@),
            providers: provider_views(self.inner.providers@),
        }
    }
}

pub open spec fn wallet_views(ws: Seq<Wallet>) -> Seq<WalletView> {
    ws.map_values(|w: Wallet| w@)
}

pub open spec fn provider_views(ps: Seq<Provider>) -> Seq<ProviderView> {
    ps.map_values(|p: Provider| p@)
}

/// The first position in `s` that satisfies `f`.
pub open spec fn first_where<A>(s: Seq<A>, f: spec_fn(A) -> bool) -> Option<int> {
    if exists|i: int| 0 <= i < s.len() && f(s[i]) {
        Some(choose|i: int| 0 <= i < s.len() && f(s[i]) && forall|j: int| 0 <= j < i ==> !f(s[j]))
    } else {
        None
    }
}

/// The first index satisfying `f` is unique, so `first_where` is that index.
pub proof fn lemma_first_where<A>(s: Seq<A>, f: spec_fn(A) -> bool, i: int)
    requires
        0 <= i < s.len(),
        f(s[i]),
        forall|j: int| 0 <= j < i ==> !f(s[j]),
    ensures
        first_where(s, f) == Some(i),
{
    assert(exists|k: int| 0 <= k < s.len() && f(s[k]) && forall|j: int| 0 <= j < k ==> !f(s[j]));
    let k = choose|k: int| 0 <= k < s.len() && f(s[k]) && forall|j: int| 0 <= j < k ==> !f(s[j]);
    if k < i {
        assert(!f(s[k]));
    } else if k > i {
        assert(!f(s[i]));
    }
}

/// With no position satisfying `f`, there is no first one.
pub proof fn lemma_first_where_none<A>(s: Seq<A>, f: spec_fn(A) -> bool)
    requires
        forall|j: int| 0 <= j < s.len() ==> !f(#[trigger] s[j]),
    ensures
        first_where(s, f) is None,
{
}

pub open spec fn is_default_wallet(w: WalletView) -> bool {
    w.is_default
}

pub open spec fn wallet_named(name: Seq<char>) -> spec_fn(WalletView) -> bool {
    |w: WalletView| w.name == name
}

pub open spec fn is_default_provider(p: ProviderView) -> bool {
    p.is_default == Some(true)
}

pub open spec fn provider_named(name: Seq<char>) -> spec_fn(ProviderView) -> bool {
    |p: ProviderView| p.name == name
}

pub open spec fn wallet_equal(w: WalletView) -> spec_fn(WalletView) -> bool {
    |x: WalletView| x == w
}

pub open spec fn provider_equal(p: ProviderView) -> spec_fn(ProviderView) -> bool {
    |x: ProviderView| x == p
}

/// The position of the first wallet equal to `wallet`.
fn position_of_wallet(ws: &Vec<Wallet>, wallet: &Wallet) -> (r: Option<usize>)
    ensures
        match r {
            Some(k) => k < ws.len() && first_where(wallet_views(ws@), wallet_equal(wallet@)) == Some(k as int),
            None => first_where(wallet_views(ws@), wallet_equal(wallet@)) is None,
        },
{
    let ghost s = wallet_views(ws@);
    let mut i: usize = 0;
    while i < ws.len()
        invariant
            i <= ws.len(),
            s == wallet_views(ws@),
            forall|j: int| 0 <= j < i ==> !(wallet_equal(wallet@))(#[trigger] s[j]),
        decreases ws.len() - i,
    {
        if ws[i].same(wallet) {
            proof {
                lemma_first_where(s, wallet_equal(wallet@), i as int);
            }
            return Some(i);
        }
        i += 1;
    }
    proof {
        lemma_first_where_none(s, wallet_equal(wallet@));
    }
    None
}

/// The position of the first provider equal to `provider`.
fn position_of_provider(ps: &Vec<Provider>, provider: &Provider) -> (r: Option<usize>)
    ensures
        match r {
            Some(k) => k < ps.len() && first_where(provider_views(ps@), provider_equal(provider@)) == Some(k as int),
            None => first_where(provider_views(ps@), provider_equal(provider@)) is None,
        },
{
    let ghost s = provider_views(ps@);
    let mut i: usize = 0;
    while i < ps.len()
        invariant
            i <= ps.len(),
            s == provider_views(ps@),
            forall|j: int| 0 <= j < i ==> !(provider_equal(provider@))(#[trigger] s[j]),
        decreases ps.len() - i,
    {
        if ps[i].same(provider) {
            proof {
                lemma_first_where(s, provider_equal(provider@), i as int);
            }
            return Some(i);
        }
        i += 1;
    }
    proof {
        lemma_first_where_none(s, provider_equal(provider@));
    }
    None
}

impl Store {
    /// A store holding the given wallets and providers.
    pub fn from_inner(inner: StoreInner) -> (r: Store)
        ensures
            r@.wallets == wallet_views(inner.wallets@),
            r@.providers == provider_views(inner.providers@),
    {
        Store { inner }
    }

    /// An empty store.
    pub fn empty() -> (r: Store)
        ensures
            r@.wallets == Seq::<WalletView>::empty(),
            r@.providers == Seq::<ProviderView>::empty(),
    {
        let r = Store { inner: StoreInner { wallets: Vec::new(), providers: Vec::new() } };
        assert(r@.wallets =~= Seq::<WalletView>::empty());
        assert(r@.providers =~= Seq::<ProviderView>::empty());
        r
    }

    /// What is kept, for writing it out.
    pub fn inner(&self) -> (r: &StoreInner)
        ensures
            wallet_views(r.wallets@) == self@.wallets,
            provider_views(r.providers@) == self@.providers,
    {
        &self.inner
    }

    /// The wallets, in the order they were added.
    pub fn wallets(&self) -> (r: &Vec<Wallet>)
        ensures
            wallet_views(r@) == self@.wallets,
    {
        &self.inner.wallets
    }

    /// The providers, in the order they were added.
    pub fn providers(&self) -> (r: &Vec<Provider>)
        ensures
            provider_views(r@) == self@.providers,
    {
        &self.inner.providers
    }

    /// The first wallet marked as default.
    pub fn default_wallet(&self) -> (r: Option<&Wallet>)
        ensures
            match first_where(self@.wallets, |w: WalletView| is_default_wallet(w)) {
                Some(i) => r matches Some(w) && w@ == self@.wallets[i],
                None => r is None,
            },
    {
        let ws = &self.inner.wallets;
        let ghost s = self@.wallets;
        let mut i: usize = 0;
        while i < ws.len()
            invariant
                i <= ws.len(),
                s == wallet_views(ws@),
                s == self@.wallets,
                forall|j: int| 0 <= j < i ==> !is_default_wallet(#[trigger] s[j]),
            decreases ws.len() - i,
        {
            if ws[i].is_default {
                proof {
                    lemma_first_where(s, |w: WalletView| is_default_wallet(w), i as int);
                }
                return Some(&ws[i]);
            }
            i += 1;
        }
        proof {
            lemma_first_where_none(s, |w: WalletView| is_default_wallet(w));
        }
        None
    }

    /// The first wallet with the given name.
    pub fn find_wallet(&self, name: &str) -> (r: Option<&Wallet>)
        ensures
            match first_where(self@.wallets, wallet_named(name@)) {
                Some(i) => r matches Some(w) && w@ == self@.wallets[i],
                None => r is None,
            },
    {
        let ws = &self.inner.wallets;
        let ghost s = self@.wallets;
        let mut i: usize = 0;
        while i < ws.len()
            invariant
                i <= ws.len(),
                s == wallet_views(ws@),
                s == self@.wallets,
                forall|j: int| 0 <= j < i ==> !(wallet_named(name@))(#[trigger] s[j]),
            decreases ws.len() - i,
        {
            if ws[i].name.is(name) {
                proof {
                    lemma_first_where(s, wallet_named(name@), i as int);
                }
                return Some(&ws[i]);
            }
            i += 1;
        }
        proof {
            lemma_first_where_none(s, wallet_named(name@));
        }
        None
    }

    /// Adds a wallet after the others.
    pub fn add_wallet(&mut self, wallet: Wallet)
        ensures
            final(self)@.wallets == old(self)@.wallets.push(wallet@),
            final(self)@.providers == old(self)@.providers,
    {
        self.inner.wallets.push(wallet);
        assert(self@.wallets =~= old(self)@.wallets.push(wallet@));
    }

    /// Removes the first wallet equal to `wallet`; refused when there is none.
    pub fn remove_wallet(&mut self, wallet: &Wallet) -> (r: Result<(), StoreError>)
        ensures
            final(self)@.providers == old(self)@.providers,
            match first_where(old(self)@.wallets, wallet_equal(wallet@)) {
                Some(i) => r is Ok && final(self)@.wallets == old(self)@.wallets.remove(i),
                None => r == Err::<(), StoreError>(StoreError::WalletNotFound) && final(self)@.wallets == old(self)@.wallets,
            },
    {
        let ghost s = self@.wallets;
        match position_of_wallet(&self.inner.wallets, wallet) {
            Some(i) => {
                self.inner.wallets.remove(i);
                assert(self@.wallets =~= s.remove(i as int));
                Ok(())
            },
            None => Err(StoreError::WalletNotFound),
        }
    }

    /// The first provider marked as default.
    pub fn default_provider(&self) -> (r: Option<&Provider>)
        ensures
            match first_where(self@.providers, |p: ProviderView| is_default_provider(p)) {
                Some(i) => r matches Some(p) && p@ == self@.providers[i],
                None => r is None,
            },
    {
        let ps = &self.inner.providers;
        let ghost s = self@.providers;
        let mut i: usize = 0;
        while i < ps.len()
            invariant
                i <= ps.len(),
                s == provider_views(ps@),
                s == self@.providers,
                forall|j: int| 0 <= j < i ==> !is_default_provider(#[trigger] s[j]),
            decreases ps.len() - i,
        {
            if ps[i].is_default() {
                proof {
                    lemma_first_where(s, |p: ProviderView| is_default_provider(p), i as int);
                }
                return Some(&ps[i]);
            }
            i += 1;
        }
        proof {
            lemma_first_where_none(s, |p: ProviderView| is_default_provider(p));
        }
        None
    }

    /// The first provider with the given name.
    pub fn find_provider(&self, name: &str) -> (r: Option<&Provider>)
        ensures
            match first_where(self@.providers, provider_named(name@)) {
                Some(i) => r matches Some(p) && p@ == self@.providers[i],
                None => r is None,
            },
    {
        let ps = &self.inner.providers;
        let ghost s = self@.providers;
        let mut i: usize = 0;
        while i < ps.len()
            invariant
                i <= ps.len(),
                s == provider_views(ps@),
                s == self@.providers,
                forall|j: int| 0 <= j < i ==> !(provider_named(name@))(#[trigger] s[j]),
            decreases ps.len() - i,
        {
            if ps[i].name.is(name) {
                proof {
                    lemma_first_where(s, provider_named(name@), i as int);
                }
                return Some(&ps[i]);
            }
            i += 1;
        }
        proof {
            lemma_first_where_none(s, provider_named(name@));
        }
        None
    }

    /// Whether some provider already has the given name.
    pub fn has_provider_named(&self, name: &str) -> (r: bool)
        ensures
            r == (first_where(self@.providers, provider_named(name@)) is Some),
    {
        self.find_provider(name).is_some()
    }

    /// Adds a provider after the others.
    pub fn add_provider(&mut self, provider: Provider)
        ensures
            final(self)@.providers == old(self)@.providers.push(provider@),
            final(self)@.wallets == old(self)@.wallets,
    {
        self.inner.providers.push(provider);
        assert(self@.providers =~= old(self)@.providers.push(provider@));
    }

    /// Removes the first provider equal to `provider`; refused when there is none.
    pub fn remove_provider(&mut self, provider: &Provider) -> (r: Result<(), StoreError>)
        ensures
            final(self)@.wallets == old(self)@.wallets,
            match first_where(old(self)@.providers, provider_equal(provider@)) {
                Some(i) => r is Ok && final(self)@.providers == old(self)@.providers.remove(i),
                None => r == Err::<(), StoreError>(StoreError::ProviderNotFound) && final(self)@.providers == old(self)@.providers,
            },
    {
        let ghost s = self@.providers;
        match position_of_provider(&self.inner.providers, provider) {
            Some(i) => {
                self.inner.providers.remove(i);
                assert(self@.providers =~= s.remove(i as int));
                Ok(())
            },
            None => Err(StoreError::ProviderNotFound),
        }
    }
}

/// Adding an item after the others does not change the first match when
/// there was one, and makes the new item the first match when there was none.
pub proof fn lemma_first_where_push<A>(s: Seq<A>, f: spec_fn(A) -> bool, x: A)
    ensures
        first_where(s.push(x), f) == (match first_where(s, f) {
            Some(i) => Some(i),
            None => if f(x) { Some(s.len() as int) } else { None },
        }),
{
    let t = s.push(x);
    assert(forall|j: int| 0 <= j < s.len() ==> #[trigger] t[j] == s[j]);
    match first_where(s, f) {
        Some(i) => {
            let k = choose|k: int| 0 <= k < s.len() && f(s[k]);
            lemma_first_where_at_most(s, f, k);
            lemma_first_where(t, f, i);
        },
        None => {
            assert(forall|j: int| 0 <= j < s.len() ==> !f(#[trigger] s[j]));
            if f(x) {
                lemma_first_where(t, f, s.len() as int);
            } else {
                lemma_first_where_none(t, f);
            }
        },
    }
}

/// When position `k` satisfies `f`, `first_where` names the first such
/// position, which is at or before `k`.
pub proof fn lemma_first_where_at_most<A>(s: Seq<A>, f: spec_fn(A) -> bool, k: int)
    requires
        0 <= k < s.len(),
        f(s[k]),
    ensures
        first_where(s, f) matches Some(i) && 0 <= i <= k && f(s[i])
            && forall|j: int| 0 <= j < i ==> !f(s[j]),
    decreases k,
{
    if exists|m: int| 0 <= m < k && f(s[m]) {
        let m = choose|m: int| 0 <= m < k && f(s[m]);
        lemma_first_where_at_most(s, f, m);
    } else {
        lemma_first_where(s, f, k);
    }
}

/// A provider added under a name no provider had is what a search by that
/// name finds.
pub proof fn law_added_provider_is_found(providers: Seq<ProviderView>, p: ProviderView)
    requires
        first_where(providers, provider_named(p.name)) is None,
    ensures
        first_where(providers.push(p), provider_named(p.name)) == Some(providers.len() as int),
        providers.push(p)[providers.len() as int] == p,
{
    lemma_first_where_push(providers, provider_named(p.name), p);
}

/// Adding a provider does not change what a search by name found before.
pub proof fn law_add_provider_keeps_found(providers: Seq<ProviderView>, p: ProviderView, name: Seq<char>)
    requires
        first_where(providers, provider_named(name)) is Some,
    ensures
        first_where(providers.push(p), provider_named(name)) == first_where(providers, provider_named(name)),
{
    lemma_first_where_push(providers, provider_named(name), p);
}

/// Removing a provider just added, that was not there before, gives back
/// the providers as they were.
pub proof fn law_remove_undoes_add_provider(providers: Seq<ProviderView>, p: ProviderView)
    requires
        first_where(providers, provider_equal(p)) is None,
    ensures
        first_where(providers.push(p), provider_equal(p)) == Some(providers.len() as int),
        providers.push(p).remove(providers.len() as int) == providers,
{
    lemma_first_where_push(providers, provider_equal(p), p);
    assert(providers.push(p).remove(providers.len() as int) =~= providers);
}

/// A wallet added under a name no wallet had is what a search by that name
/// finds.
pub proof fn law_added_wallet_is_found(wallets: Seq<WalletView>, w: WalletView)
    requires
        first_where(wallets, wallet_named(w.name)) is None,
    ensures
        first_where(wallets.push(w), wallet_named(w.name)) == Some(wallets.len() as int),
        wallets.push(w)[wallets.len() as int] == w,
{
    lemma_first_where_push(wallets, wallet_named(w.name), w);
}

/// Adding a wallet does not change what a search by name found before.
pub proof fn law_add_wallet_keeps_found(wallets: Seq<WalletView>, w: WalletView, name: Seq<char>)
    requires
        first_where(wallets, wallet_named(name)) is Some,
    ensures
        first_where(wallets.push(w), wallet_named(name)) == first_where(wallets, wallet_named(name)),
{
    lemma_first_where_push(wallets, wallet_named(name), w);
}

/// Removing a wallet just added, that was not there before, gives back the
/// wallets as they were.
pub proof fn law_remove_undoes_add_wallet(wallets: Seq<WalletView>, w: WalletView)
    requires
        first_where(wallets, wallet_equal(w)) is None,
    ensures
        first_where(wallets.push(w), wallet_equal(w)) == Some(wallets.len() as int),
        wallets.push(w).remove(wallets.len() as int) == wallets,
{
    lemma_first_where_push(wallets, wallet_equal(w), w);
    assert(wallets.push(w).remove(wallets.len() as int) =~= wallets);
}

/// The first default provider stays the default one when more providers
/// are added.
pub proof fn law_add_provider_keeps_default(providers: Seq<ProviderView>, p: ProviderView)
    requires
        first_where(providers, |q: ProviderView| is_default_provider(q)) is Some,
    ensures
        first_where(providers.push(p), |q: ProviderView| is_default_provider(q))
            == first_where(providers, |q: ProviderView| is_default_provider(q)),
{
    lemma_first_where_push(providers, |q: ProviderView| is_default_provider(q), p);
}

} // verus!
