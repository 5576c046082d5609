//! Chain providers: where the wallet reads the chain and resolves transactions.

use vstd::prelude::*;
use vstd::string::*;
use crate::kv::KeyValues;
use crate::tii::{Json, JsonView, entries_view, json_view};
use crate::utils::{Name, str_eq};

verus! {

/// Whether a provider serves mainnet or a testnet.
#[derive(Debug, Clone, Copy, PartialEq, Eq, Structural)]
pub enum NetworkKind {
    Mainnet,
    Testnet,
}

/// A configured chain provider: a UTxO RPC endpoint with its headers, and
/// optionally a transaction-resolver (TRP) endpoint with its own headers.
#[derive(Debug)]
pub struct Provider {
    pub name: Name,
    pub url: String,
    pub headers: Option<KeyValues>,
    pub is_default: Option<bool>,
    pub is_testnet: Option<bool>,
    pub trp_url: Option<String>,
    pub trp_headers: Option<KeyValues>,
}

pub struct ProviderView {
    pub name: Seq<char>,
    pub url: Seq<char>,
    pub headers: Option<Map<Seq<char>, Seq<char>>>,
    pub is_default: Option<bool>,
    pub is_testnet: Option<bool>,
    pub trp_url: Option<Seq<char>>,
    pub trp_headers: Option<Map<Seq<char>, Seq<char>>>,
}

pub open spec fn opt_kv_view(h: Option<KeyValues>) -> Option<Map<Seq<char>, Seq<char>>> {
    match h {
        Some(h) => Some(h@),
        None => None,
    }
}

pub open spec fn opt_text_view(s: Option<String>) -> Option<Seq<char>> {
    match s {
        Some(s) => Some(s@),
        None => None,
    }
}

impl View for Provider {
    type V = ProviderView;

    open spec fn view(&self) -> ProviderView {
        ProviderView {
            name: self.name@,
            url: self.url@,
            headers: opt_kv_view(self.headers),
            is_default: self.is_default,
            is_testnet: self.is_testnet,
            trp_url: opt_text_view(self.trp_url),
            trp_headers: opt_kv_view(self.trp_headers),
        }
    }
}

/// Whether two optional header maps are the same.
fn same_headers(a: &Option<KeyValues>, b: &Option<KeyValues>) -> (r: bool)
    ensures
        r == (opt_kv_view(*a) == opt_kv_view(*b)),
{
    match (a, b) {
        (Some(x), Some(y)) => x.same(y),
        (None, None) => true,
        _ => false,
    }
}

/// Whether two optional texts are the same.
pub fn same_text(a: &Option<String>, b: &Option<String>) -> (r: bool)
    ensures
        r == (opt_text_view(*a) == opt_text_view(*b)),
{
    match (a, b) {
        (Some(x), Some(y)) => str_eq(x.as_str(), y.as_str()),
        (None, None) => true,
        _ => false,
    }
}

/// An empty header map counts as no headers.
pub fn non_empty_headers(h: KeyValues) -> (r: Option<KeyValues>)
    ensures
        h@ == Map::<Seq<char>, Seq<char>>::empty() ==> r is None,
        h@ != Map::<Seq<char>, Seq<char>>::empty() ==> opt_kv_view(r) == Some(h@),
{
    if h.is_empty() {
        None
    } else {
        Some(h)
    }
}

/// An empty text counts as no text.
pub fn non_empty_text(s: String) -> (r: Option<String>)
    ensures
        s@.len() == 0 ==> r is None,
        s@.len() > 0 ==> opt_text_view(r) == Some(s@),
{
    if s.as_str().is_empty() {
        None
    } else {
        Some(s)
    }
}

impl Provider {
    /// The provider's name.
    pub fn name(&self) -> (r: String)
        ensures
            r@ == self@.name,
    {
        self.name.to_string()
    }

    /// Whether this is the default provider; unset means no.
    pub fn is_default(&self) -> (r: bool)
        ensures
            r == (self@.is_default == Some(true)),
    {
        match self.is_default {
            Some(b) => b,
            None => false,
        }
    }

    /// Whether this provider serves a testnet; unset means no.
    pub fn is_testnet(&self) -> (r: bool)
        ensures
            r == (self@.is_testnet == Some(true)),
    {
        match self.is_testnet {
            Some(b) => b,
            None => false,
        }
    }

    /// Whether both providers are configured alike.
    pub fn same(&self, other: &Provider) -> (r: bool)
        ensures
            r == (self@ == other@),
    {
        self.name.same(&other.name)
            && str_eq(self.url.as_str(), other.url.as_str())
            && same_headers(&self.headers, &other.headers)
            && self.is_default == other.is_default
            && self.is_testnet == other.is_testnet
            && same_text(&self.trp_url, &other.trp_url)
            && same_headers(&self.trp_headers, &other.trp_headers)
    }

    /// The connection parameters as a JSON object: the URL and the headers
    /// (`null` when there are none).
    pub fn parameters(&self) -> (r: Option<Json>)
        ensures
            r matches Some(j) && j@ matches JsonView::Object(es) && es.len() == 2
                && es[0].0 == "url"@ && es[0].1 == JsonView::Str(self@.url)
                && es[1].0 == "headers"@
                && match self@.headers {
                    None => es[1].1 == JsonView::Null,
                    Some(h) => es[1].1 matches JsonView::Object(hs)
                        && crate::kv::pairs_map(hs.map_values(|e: (Seq<char>, JsonView)| (e.0, e.1->Str_0))) == h
                        && forall|i: int| 0 <= i < hs.len() ==> (#[trigger] hs[i]).1 is Str,
                },
    {
        let headers = match &self.headers {
            None => Json::Null,
            Some(h) => {
                let entries = h.entries();
                let mut out: Vec<(String, Json)> = Vec::new();
                let mut i: usize = 0;
                while i < entries.len()
                    invariant
                        i <= entries.len(),
                        crate::kv::pairs_view(entries@) == h.pairs(),
                        crate::kv::pairs_map(h.pairs()) == h@,
                        entries_view(out@).len() == i,
                        forall|k: int| 0 <= k < i ==> (#[trigger] entries_view(out@)[k]) == (h.pairs()[k].0, JsonView::Str(h.pairs()[k].1)),
                    decreases entries.len() - i,
                {
                    let ghost before = out@;
                    out.push((entries[i].0.clone(), Json::String(entries[i].1.clone())));
                    proof {
                        assert(out@.drop_last() =~= before);
                        assert(entries_view(out@) == entries_view(before).push((out@.last().0@, json_view(out@.last().1))));
                        assert(h.pairs()[i as int] == (entries@[i as int].0@, entries@[i as int].1@));
                        assert forall|k: int| 0 <= k < i + 1 implies (#[trigger] entries_view(out@)[k]) == (h.pairs()[k].0, JsonView::Str(h.pairs()[k].1)) by {
                            if k < i {
                                assert(entries_view(out@)[k] == entries_view(before)[k]);
                            }
                        }
                    }
                    i += 1;
                }
                proof {
                    let hs = entries_view(out@);
                    assert(hs.map_values(|e: (Seq<char>, JsonView)| (e.0, e.1->Str_0)) =~= h.pairs());
                }
                Json::Object(out)
            },
        };
        let mut fields: Vec<(String, Json)> = Vec::new();
        fields.push((String::from_str("url"), Json::String(self.url.clone())));
        fields.push((String::from_str("headers"), headers));
        proof {
            reveal_with_fuel(entries_view, 3);
            assert(fields@.drop_last().drop_last() =~= Seq::<(String, Json)>::empty());
            assert(fields@.drop_last() =~= seq![fields@[0]]);
            let es = entries_view(fields@);
            assert(es.len() == 2);
            assert(es[0].0 == "url"@);
            assert(es[0].1 == JsonView::Str(self@.url));
            assert(es[1].0 == "headers"@);
            assert(es[1].1 == json_view(headers));
        }
        Some(Json::Object(fields))
    }
}

/// The provider that `provider create` makes: it is the default as asked,
/// and when nothing is asked, when it is the first one; empty headers are no
/// headers; resolver headers are kept only with a resolver URL.
pub fn new_provider(
    name: Name,
    first: bool,
    requested_default: Option<bool>,
    network: NetworkKind,
    url: String,
    headers: KeyValues,
    trp_url: Option<String>,
    trp_headers: Option<KeyValues>,
) -> (r: Provider)
    ensures
        r@.name == name@,
        r@.url == url@,
        r@.is_default == Some(match requested_default {
            Some(d) => d,
            None => first,
        }),
        r@.is_testnet == Some(network == NetworkKind::Testnet),
        headers@ == Map::<Seq<char>, Seq<char>>::empty() ==> r@.headers is None,
        headers@ != Map::<Seq<char>, Seq<char>>::empty() ==> r@.headers == Some(headers@),
        r@.trp_url == opt_text_view(trp_url),
        trp_url is None ==> r@.trp_headers is None,
        trp_url is Some ==> match trp_headers {
            None => r@.trp_headers is None,
            Some(h) => if h@ == Map::<Seq<char>, Seq<char>>::empty() { r@.trp_headers is None } else { r@.trp_headers == Some(h@) },
        },
{
    let has_trp = trp_url.is_some();
    let kept_trp_headers = if has_trp {
        match trp_headers {
            Some(h) => non_empty_headers(h),
            None => None,
        }
    } else {
        None
    };
    let is_default = match requested_default {
        Some(d) => d,
        None => first,
    };
    Provider {
        name,
        is_default: Some(is_default),
        is_testnet: Some(network == NetworkKind::Testnet),
        url,
        headers: non_empty_headers(headers),
        trp_url,
        trp_headers: kept_trp_headers,
    }
}

/// The provider that `provider edit` makes of the answers: empty headers are
/// no headers and an empty resolver URL is no resolver.
pub fn edited_provider(
    name: Name,
    is_default: bool,
    network: NetworkKind,
    url: String,
    headers: KeyValues,
    trp_url: String,
    trp_headers: KeyValues,
) -> (r: Provider)
    ensures
        r@.name == name@,
        r@.url == url@,
        r@.is_default == Some(is_default),
        r@.is_testnet == Some(network == NetworkKind::Testnet),
        headers@ == Map::<Seq<char>, Seq<char>>::empty() ==> r@.headers is None,
        headers@ != Map::<Seq<char>, Seq<char>>::empty() ==> r@.headers == Some(headers@),
        trp_url@.len() == 0 ==> r@.trp_url is None,
        trp_url@.len() > 0 ==> r@.trp_url == Some(trp_url@),
        trp_headers@ == Map::<Seq<char>, Seq<char>>::empty() ==> r@.trp_headers is None,
        trp_headers@ != Map::<Seq<char>, Seq<char>>::empty() ==> r@.trp_headers == Some(trp_headers@),
{
    Provider {
        name,
        is_default: Some(is_default),
        is_testnet: Some(network == NetworkKind::Testnet),
        url,
        headers: non_empty_headers(headers),
        trp_url: non_empty_text(trp_url),
        trp_headers: non_empty_headers(trp_headers),
    }
}

/// A provider that speaks UTxO RPC only.
#[derive(Debug)]
pub struct UTxORPCProvider {
    pub name: Name,
    pub url: String,
    pub headers: Option<KeyValues>,
    pub is_default: Option<bool>,
    pub is_testnet: Option<bool>,
}

/// What the transaction resolver answers: the resolved transaction.
#[derive(Debug)]
pub struct TrpResponse {
    pub tx: Vec<u8>,
}

} // verus!
