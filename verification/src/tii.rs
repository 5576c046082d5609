//! JSON values of a transaction-invoke interface, and the rewriting of the
//! namespaced type references it may hold to the core ones.

use vstd::prelude::*;
use vstd::string::*;
use crate::utils::str_eq;

verus! {

/// A JSON value. Numbers are kept as their JSON text.
#[derive(Debug)]
pub enum Json {
    Null,
    Bool(bool),
    Number(String),
    String(String),
    Array(Vec<Json>),
    Object(Vec<(String, Json)>),
}

/// The mathematical value of a JSON value.
pub enum JsonView {
    Null,
    Bool(bool),
    Number(Seq<char>),
    Str(Seq<char>),
    Array(Seq<JsonView>),
    Object(Seq<(Seq<char>, JsonView)>),
}

pub open spec fn json_view(j: Json) -> JsonView
    decreases j,
{
    match j {
        Json::Null => JsonView::Null,
        Json::Bool(b) => JsonView::Bool(b),
        Json::Number(n) => JsonView::Number(n@),
        Json::String(s) => JsonView::Str(s@),
        Json::Array(items) => JsonView::Array(items_view(items@)),
        Json::Object(entries) => JsonView::Object(entries_view(entries@)),
    }
}

pub open spec fn items_view(items: Seq<Json>) -> Seq<JsonView>
    decreases items,
{
    if items.len() == 0 {
        Seq::empty()
    } else {
        items_view(items.drop_last()).push(json_view(items.last()))
    }
}

pub open spec fn entries_view(entries: Seq<(String, Json)>) -> Seq<(Seq<char>, JsonView)>
    decreases entries,
{
    if entries.len() == 0 {
        Seq::empty()
    } else {
        entries_view(entries.drop_last()).push((entries.last().0@, json_view(entries.last().1)))
    }
}

impl View for Json {
    type V = JsonView;

    open spec fn view(&self) -> JsonView {
        json_view(*self)
    }
}

pub const NAMESPACED_BYTES_REF: &'static str = "https://tx3.land/specs/v1beta0/tii#/$defs/Bytes";
pub const NAMESPACED_ADDRESS_REF: &'static str = "https://tx3.land/specs/v1beta0/tii#/$defs/Address";
pub const NAMESPACED_UTXO_REF: &'static str = "https://tx3.land/specs/v1beta0/tii#/$defs/UtxoRef";
pub const CORE_BYTES_REF: &'static str = "https://tx3.land/specs/v1beta0/core#Bytes";
pub const CORE_ADDRESS_REF: &'static str = "https://tx3.land/specs/v1beta0/core#Address";
pub const CORE_UTXO_REF: &'static str = "https://tx3.land/specs/v1beta0/core#UtxoRef";

/// The core reference that a namespaced type reference stands for.
pub open spec fn core_ref_of(reference: Seq<char>) -> Option<Seq<char>> {
    if reference == NAMESPACED_BYTES_REF@ {
        Some(CORE_BYTES_REF@)
    } else if reference == NAMESPACED_ADDRESS_REF@ {
        Some(CORE_ADDRESS_REF@)
    } else if reference == NAMESPACED_UTXO_REF@ {
        Some(CORE_UTXO_REF@)
    } else {
        None
    }
}

/// The core reference for a namespaced one (`Bytes`, `Address` or `UtxoRef`);
/// `None` for any other reference.
pub fn normalize_tii_ref(reference: &str) -> (r: Option<&'static str>)
    ensures
        match core_ref_of(reference@) {
            Some(c) => r matches Some(x) && x@ == c,
            None => r is None,
        },
{
    if str_eq(reference, NAMESPACED_BYTES_REF) {
        Some(CORE_BYTES_REF)
    } else if str_eq(reference, NAMESPACED_ADDRESS_REF) {
        Some(CORE_ADDRESS_REF)
    } else if str_eq(reference, NAMESPACED_UTXO_REF) {
        Some(CORE_UTXO_REF)
    } else {
        None
    }
}

pub open spec fn ref_key() -> Seq<char> {
    "$ref"@
}

/// The value with every `$ref` entry that names a namespaced type rewritten
/// to the core reference, at any depth.
pub open spec fn normalize_json(v: JsonView) -> JsonView
    decreases v,
{
    match v {
        JsonView::Array(items) => JsonView::Array(normalize_items(items)),
        JsonView::Object(entries) => JsonView::Object(normalize_entries(entries)),
        _ => v,
    }
}

pub open spec fn normalize_items(items: Seq<JsonView>) -> Seq<JsonView>
    decreases items,
{
    if items.len() == 0 {
        Seq::empty()
    } else {
        normalize_items(items.drop_last()).push(normalize_json(items.last()))
    }
}

pub open spec fn normalize_entry(e: (Seq<char>, JsonView)) -> (Seq<char>, JsonView)
    decreases e,
{
    if e.0 == ref_key() && e.1 is Str && core_ref_of(e.1->Str_0) is Some {
        (e.0, JsonView::Str(core_ref_of(e.1->Str_0).unwrap()))
    } else {
        (e.0, normalize_json(e.1))
    }
}

pub open spec fn normalize_entries(entries: Seq<(Seq<char>, JsonView)>) -> Seq<(Seq<char>, JsonView)>
    decreases entries,
{
    if entries.len() == 0 {
        Seq::empty()
    } else {
        normalize_entries(entries.drop_last()).push(normalize_entry(entries.last()))
    }
}

/// The value with its namespaced type references rewritten.
pub fn normalized(v: Json) -> (r: Json)
    ensures
        r@ == normalize_json(v@),
    decreases v,
{
    let ghost whole = v;
    match v {
        Json::Array(items) => {
            let ghost orig = items;
            let ghost all = items@;
            let mut rest = items;
            let mut out: Vec<Json> = Vec::new();
            let ghost mut done: int = 0;
            while rest.len() > 0
                invariant
                    0 <= done <= all.len(),
                    rest@ == all.subrange(done, all.len() as int),
                    items_view(out@) == normalize_items(items_view(all.take(done))),
                    whole == v,
                    whole == Json::Array(orig),
                    all == orig@,
                decreases rest.len(),
            {
                let x = rest.remove(0);
                assert(x == all[done]);
                assert(decreases_to!(whole => whole->Array_0));
                assert(whole->Array_0 == orig);
                assert(decreases_to!(orig => orig@));
                assert(decreases_to!(orig@ => orig@[done]));
                assert(decreases_to!(v => all[done]));
                let y = normalized(x);
                let ghost before = out@;
                out.push(y);
                proof {
                    assert(out@.drop_last() =~= before);
                    assert(all.take(done + 1).drop_last() =~= all.take(done));
                    lemma_items_view_push(all.take(done), all[done]);
                    assert(all.take(done + 1) =~= all.take(done).push(all[done]));
                    let iv = items_view(all.take(done));
                    assert(iv.push(json_view(all[done])).drop_last() =~= iv);
                    lemma_items_view_push(before, y);
                    assert(before.push(y) =~= out@);
                    done = done + 1;
                }
            }
            assert(all.take(done) =~= all);
            Json::Array(out)
        },
        Json::Object(entries) => {
            let ghost orig = entries;
            let ghost all = entries@;
            let mut rest = entries;
            let mut out: Vec<(String, Json)> = Vec::new();
            let ghost mut done: int = 0;
            while rest.len() > 0
                invariant
                    0 <= done <= all.len(),
                    rest@ == all.subrange(done, all.len() as int),
                    entries_view(out@) == normalize_entries(entries_view(all.take(done))),
                    whole == v,
                    whole == Json::Object(orig),
                    all == orig@,
                decreases rest.len(),
            {
                let (key, value) = rest.remove(0);
                assert((key, value) == all[done]);
                let ghost before = out@;
                let mut rewritten: Option<&'static str> = None;
                if str_eq(key.as_str(), "$ref") {
                    if let Json::String(s) = &value {
                        rewritten = normalize_tii_ref(s.as_str());
                    }
                }
                proof {
                    reveal_strlit("$ref");
                }
                let ghost kv = (key@, json_view(value));
                match rewritten {
                    Some(core) => {
                        assert(normalize_entry(kv) == (key@, JsonView::Str(core@)));
                        out.push((key, Json::String(String::from_str(core))));
                    },
                    None => {
                        assert(normalize_entry(kv) == (key@, normalize_json(json_view(value))));
                        assert(decreases_to!(whole => whole->Object_0));
                        assert(whole->Object_0 == orig);
                        assert(decreases_to!(orig => orig@));
                        assert(decreases_to!(orig@ => orig@[done]));
                        assert(decreases_to!(orig@[done] => orig@[done].1));
                        assert(decreases_to!(v => all[done].1));
                        let y = normalized(value);
                        out.push((key, y));
                    },
                }
                proof {
                    assert(out@.drop_last() =~= before);
                    lemma_entries_view_push(all.take(done), all[done]);
                    assert(all.take(done + 1) =~= all.take(done).push(all[done]));
                    let ev = entries_view(all.take(done));
                    assert(ev.push((all[done].0@, json_view(all[done].1))).drop_last() =~= ev);
                    lemma_entries_view_push(before, out@.last());
                    assert(before.push(out@.last()) =~= out@);
                    done = done + 1;
                }
            }
            assert(all.take(done) =~= all);
            Json::Object(out)
        },
        Json::Null => Json::Null,
        Json::Bool(b) => Json::Bool(b),
        Json::Number(n) => Json::Number(n),
        Json::String(s) => Json::String(s),
    }
}

proof fn lemma_items_view_push(items: Seq<Json>, x: Json)
    ensures
        items_view(items.push(x)) == items_view(items).push(json_view(x)),
{
    assert(items.push(x).drop_last() =~= items);
}

proof fn lemma_entries_view_push(entries: Seq<(String, Json)>, x: (String, Json))
    ensures
        entries_view(entries.push(x)) == entries_view(entries).push((x.0@, json_view(x.1))),
{
    assert(entries.push(x).drop_last() =~= entries);
}

/// Rewrites in place every namespaced type reference held by `value`.
pub fn normalize_tii_json_refs(value: &mut Json)
    ensures
        final(value)@ == normalize_json(old(value)@),
{
    let mut taken = Json::Null;
    std::mem::swap(&mut taken, value);
    *value = normalized(taken);
}

/// The core references are not namespaced ones.
pub proof fn lemma_core_refs_are_final()
    ensures
        core_ref_of(CORE_BYTES_REF@) is None,
        core_ref_of(CORE_ADDRESS_REF@) is None,
        core_ref_of(CORE_UTXO_REF@) is None,
{
    reveal_strlit("https://tx3.land/specs/v1beta0/tii#/$defs/Bytes");
    reveal_strlit("https://tx3.land/specs/v1beta0/tii#/$defs/Address");
    reveal_strlit("https://tx3.land/specs/v1beta0/tii#/$defs/UtxoRef");
    reveal_strlit("https://tx3.land/specs/v1beta0/core#Bytes");
    reveal_strlit("https://tx3.land/specs/v1beta0/core#Address");
    reveal_strlit("https://tx3.land/specs/v1beta0/core#UtxoRef");
    assert(CORE_BYTES_REF@.len() != NAMESPACED_BYTES_REF@.len());
    assert(CORE_BYTES_REF@.len() != NAMESPACED_ADDRESS_REF@.len());
    assert(CORE_BYTES_REF@.len() != NAMESPACED_UTXO_REF@.len());
    assert(CORE_ADDRESS_REF@.len() != NAMESPACED_BYTES_REF@.len());
    assert(CORE_ADDRESS_REF@.len() != NAMESPACED_ADDRESS_REF@.len());
    assert(CORE_ADDRESS_REF@.len() != NAMESPACED_UTXO_REF@.len());
    assert(CORE_UTXO_REF@.len() != NAMESPACED_BYTES_REF@.len());
    assert(CORE_UTXO_REF@.len() != NAMESPACED_ADDRESS_REF@.len());
    assert(CORE_UTXO_REF@.len() != NAMESPACED_UTXO_REF@.len());
}

/// Every reference that normalisation writes is a core one, which
/// normalisation leaves alone.
proof fn lemma_core_ref_final(s: Seq<char>)
    requires
        core_ref_of(s) is Some,
    ensures
        core_ref_of(core_ref_of(s).unwrap()) is None,
{
    lemma_core_refs_are_final();
}

/// Normalising twice gives what normalising once gives.
pub proof fn lemma_normalize_idempotent(v: JsonView)
    ensures
        normalize_json(normalize_json(v)) == normalize_json(v),
    decreases v,
{
    match v {
        JsonView::Array(items) => {
            lemma_normalize_items_idempotent(items);
        },
        JsonView::Object(entries) => {
            lemma_normalize_entries_idempotent(entries);
        },
        _ => {},
    }
}

proof fn lemma_normalize_items_idempotent(items: Seq<JsonView>)
    ensures
        normalize_items(normalize_items(items)) == normalize_items(items),
    decreases items,
{
    if items.len() > 0 {
        lemma_normalize_items_idempotent(items.drop_last());
        lemma_normalize_idempotent(items.last());
        let n = normalize_items(items);
        assert(n.drop_last() =~= normalize_items(items.drop_last()));
    }
}

proof fn lemma_normalize_entry_idempotent(e: (Seq<char>, JsonView))
    ensures
        normalize_entry(normalize_entry(e)) == normalize_entry(e),
    decreases e,
{
    if e.0 == ref_key() && e.1 is Str && core_ref_of(e.1->Str_0) is Some {
        lemma_core_ref_final(e.1->Str_0);
    } else {
        lemma_normalize_idempotent(e.1);
    }
}

proof fn lemma_normalize_entries_idempotent(entries: Seq<(Seq<char>, JsonView)>)
    ensures
        normalize_entries(normalize_entries(entries)) == normalize_entries(entries),
    decreases entries,
{
    if entries.len() > 0 {
        lemma_normalize_entries_idempotent(entries.drop_last());
        lemma_normalize_entry_idempotent(entries.last());
        let n = normalize_entries(entries);
        assert(n.drop_last() =~= normalize_entries(entries.drop_last()));
    }
}

/// Where the invocation arguments come from.
#[derive(Debug, Clone, Copy, PartialEq, Eq, Structural)]
pub enum ArgsSource {
    /// No arguments were given.
    Nothing,
    /// The inline JSON text.
    Inline,
    /// The file given.
    File,
}

/// Why invocation arguments were refused.
#[derive(Debug, Clone, Copy, PartialEq, Eq, Structural)]
pub enum ArgsError {
    /// Both inline arguments and an arguments file were given.
    BothInlineAndFile,
    /// The arguments are not a JSON object.
    NotAnObject,
    /// A value typed for an integer argument is not an unsigned integer.
    InvalidInteger,
    /// The arguments text is not JSON.
    InvalidJson,
}

impl ArgsError {
    /// The message shown for this error.
    pub fn message(&self) -> (r: &'static str)
        ensures
            *self == ArgsError::BothInlineAndFile ==> r@ == "cannot use both inline and file args"@,
            *self == ArgsError::NotAnObject ==> r@ == "json args string must be an object"@,
            *self == ArgsError::InvalidInteger ==> r@ == "invalid integer value"@,
            *self == ArgsError::InvalidJson ==> r@ == "parsing json args string"@,
    {
        match self {
            ArgsError::BothInlineAndFile => "cannot use both inline and file args",
            ArgsError::NotAnObject => "json args string must be an object",
            ArgsError::InvalidInteger => "invalid integer value",
            ArgsError::InvalidJson => "parsing json args string",
        }
    }
}

/// Chooses between inline arguments and an arguments file: one of them, or
/// nothing when neither is given; both at once are refused.
pub fn args_source(has_inline: bool, has_file: bool) -> (r: Result<ArgsSource, ArgsError>)
    ensures
        has_inline && has_file <==> r == Err::<ArgsSource, ArgsError>(ArgsError::BothInlineAndFile),
        has_inline && !has_file <==> r == Ok::<ArgsSource, ArgsError>(ArgsSource::Inline),
        !has_inline && has_file <==> r == Ok::<ArgsSource, ArgsError>(ArgsSource::File),
        !has_inline && !has_file <==> r == Ok::<ArgsSource, ArgsError>(ArgsSource::Nothing),
{
    if has_inline && has_file {
        Err(ArgsError::BothInlineAndFile)
    } else if has_inline {
        Ok(ArgsSource::Inline)
    } else if has_file {
        Ok(ArgsSource::File)
    } else {
        Ok(ArgsSource::Nothing)
    }
}

/// The entries of the arguments, which must form a JSON object.
pub fn args_object(value: Json) -> (r: Result<Vec<(String, Json)>, ArgsError>)
    ensures
        match value@ {
            JsonView::Object(entries) => r matches Ok(v) && entries_view(v@) == entries,
            _ => r == Err::<Vec<(String, Json)>, ArgsError>(ArgsError::NotAnObject),
        },
{
    match value {
        Json::Object(entries) => Ok(entries),
        _ => Err(ArgsError::NotAnObject),
    }
}

/// The JSON number for an integer argument typed as text.
pub fn integer_arg(text: &str) -> (r: Result<Json, ArgsError>)
    ensures
        match crate::numbers::unsigned_text_value(text@) {
            Some(v) => if v <= u64::MAX {
                r matches Ok(j) && j@ == JsonView::Number(crate::numbers::decimal(v))
            } else {
                r == Err::<Json, ArgsError>(ArgsError::InvalidInteger)
            },
            None => r == Err::<Json, ArgsError>(ArgsError::InvalidInteger),
        },
{
    match crate::numbers::parse_u64(text) {
        Some(v) => Ok(Json::Number(crate::numbers::u64_to_decimal(v))),
        None => Err(ArgsError::InvalidInteger),
    }
}

/// The JSON value `serde_json::from_str` reads from a text, `None` when the
/// text is not JSON.
pub uninterp spec fn json_of_text(text: Seq<char>) -> Option<JsonView>;

/// An optional JSON value as values.
pub open spec fn opt_json_view(j: Option<Json>) -> Option<JsonView> {
    match j {
        Some(v) => Some(v@),
        None => None,
    }
}

#[verifier::external_type_specification]
#[verifier::external_body]
pub struct ExJsonValue(serde_json::Value);

/// Turns a `serde_json::Value` into the library's JSON value, variant by
/// variant, numbers as the text `serde_json` writes for them. Nothing is
/// stated of it: it serves `parse_json` alone.
#[verifier::external_body]
fn json_from_value(v: serde_json::Value) -> Json {
    match v {
        serde_json::Value::Null => Json::Null,
        serde_json::Value::Bool(b) => Json::Bool(b),
        serde_json::Value::Number(n) => Json::Number(n.to_string()),
        serde_json::Value::String(t) => Json::String(t),
        serde_json::Value::Array(items) => Json::Array(items.into_iter().map(json_from_value).collect()),
        serde_json::Value::Object(map) => Json::Object(map.into_iter().map(|(k, x)| (k, json_from_value(x))).collect()),
    }
}

/// Calls `serde_json::from_str` for a `serde_json::Value`: the JSON value
/// of the text, `None` when the text is not JSON. What value a text reads
/// as is only named (`json_of_text`), not written out.
#[verifier::external_body]
pub(crate) fn parse_json(text: &str) -> (r: Option<Json>)
    ensures
        opt_json_view(r) == json_of_text(text@),
{
    serde_json::from_str::<serde_json::Value>(text).ok().map(json_from_value)
}

/// Reads the invocation arguments from their JSON text: the entries of the
/// object it holds; a text that is not JSON, or JSON that is not an object,
/// is refused.
pub fn args_from_text(text: &str) -> (r: Result<Vec<(String, Json)>, ArgsError>)
    ensures
        match json_of_text(text@) {
            None => r == Err::<Vec<(String, Json)>, ArgsError>(ArgsError::InvalidJson),
            Some(JsonView::Object(entries)) => r matches Ok(v) && entries_view(v@) == entries,
            Some(_) => r == Err::<Vec<(String, Json)>, ArgsError>(ArgsError::NotAnObject),
        },
{
    match parse_json(text) {
        None => Err(ArgsError::InvalidJson),
        Some(value) => args_object(value),
    }
}

} // verus!
