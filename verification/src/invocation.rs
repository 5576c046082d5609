//! Preparing the invocation of a transaction of a transaction-invoke
//! interface: the interface is read from its JSON text, its namespaced type
//! references are rewritten, and `tx3_sdk` gives the parameters of the
//! transaction.

use vstd::prelude::*;
use crate::signing::ParamKind;
use tx3_sdk::tii::{Error as TiiError, ParamType};
use crate::tii::{json_of_text, normalize_json, normalized, parse_json, Json, JsonView};

verus! {

/// Why `tx3_sdk` refused to invoke a transaction of an interface.
#[derive(Debug, Clone, Copy, PartialEq, Eq, Structural)]
pub enum InvocationFailure {
    /// The JSON is not an interface.
    InvalidTii,
    /// The interface has no transaction of that name.
    UnknownTx,
    /// The interface has no profile of that name.
    UnknownProfile,
    /// Any other failure.
    Other,
}

/// Why an invocation could not be prepared.
#[derive(Debug, Clone, Copy, PartialEq, Eq, Structural)]
pub enum InvocationError {
    /// The interface text is not JSON.
    InvalidJson,
    /// `tx3_sdk` refused the interface or the transaction.
    Invocation(InvocationFailure),
}

/// An optional text as values.
pub open spec fn opt_str_view(s: Option<&str>) -> Option<Seq<char>> {
    match s {
        Some(t) => Some(t@),
        None => None,
    }
}

/// The parameters as a map from name to kind.
pub open spec fn param_map(ps: Seq<(String, ParamKind)>) -> Map<Seq<char>, ParamKind>
    decreases ps.len(),
{
    if ps.len() == 0 {
        Map::empty()
    } else {
        param_map(ps.drop_last()).insert(ps.last().0@, ps.last().1)
    }
}

/// Whether no parameter name occurs twice.
pub open spec fn names_distinct(ps: Seq<(String, ParamKind)>) -> bool {
    forall|i: int, j: int| 0 <= i < j < ps.len() ==> (#[trigger] ps[i]).0@ != (#[trigger] ps[j]).0@
}

/// What `tx3_sdk` `Protocol::from_json` then `invoke` give for an interface,
/// a transaction name and an optional profile: the parameters of the
/// invocation by name, or why it was refused.
pub uninterp spec fn tii_invocation(tii: JsonView, tx: Seq<char>, profile: Option<Seq<char>>) -> Result<
    Map<Seq<char>, ParamKind>,
    InvocationFailure,
>;

/// Turns the library's JSON value into a `serde_json::Value`, variant by
/// variant; a number text that `serde_json` does not read becomes null.
/// Nothing is stated of it: it serves `invoke_tii` alone.
#[verifier::external_body]
fn value_from_json(j: &Json) -> serde_json::Value {
    match j {
        Json::Null => serde_json::Value::Null,
        Json::Bool(b) => serde_json::Value::Bool(*b),
        Json::Number(t) => t.parse::<serde_json::Number>().map_or(serde_json::Value::Null, serde_json::Value::Number),
        Json::String(t) => serde_json::Value::String(t.clone()),
        Json::Array(items) => serde_json::Value::Array(items.iter().map(value_from_json).collect()),
        Json::Object(entries) => serde_json::Value::Object(entries.iter().map(|(k, x)| (k.clone(), value_from_json(x))).collect()),
    }
}

/// Calls `tx3_sdk::tii::Protocol::from_json` and `Protocol::invoke`: the
/// parameters of the invocation, each name once with the kind of its type
/// (a type other than an address, integer, output reference, boolean or
/// bytes is `Other`), or why it was refused. What they are is only named
/// (`tii_invocation`); their order is that of a hash map and is left open.
#[verifier::external_body]
fn invoke_tii(tii: &Json, tx: &str, profile: Option<&str>) -> (r: Result<Vec<(String, ParamKind)>, InvocationFailure>)
    ensures
        match r {
            Ok(ps) => names_distinct(ps@) && tii_invocation(tii@, tx@, opt_str_view(profile)) == Ok::<
                Map<Seq<char>, ParamKind>,
                InvocationFailure,
            >(param_map(ps@)),
            Err(e) => tii_invocation(tii@, tx@, opt_str_view(profile)) == Err::<Map<Seq<char>, ParamKind>, InvocationFailure>(e),
        },
{
    match tx3_sdk::tii::Protocol::from_json(value_from_json(tii)).and_then(|p| p.invoke(tx, profile)) {
        Ok(mut inv) => Ok(inv.params().iter().map(|(k, t)| (k.clone(), match t {
            ParamType::Address => ParamKind::Address,
            ParamType::Integer => ParamKind::Integer,
            ParamType::UtxoRef => ParamKind::UtxoRef,
            ParamType::Boolean => ParamKind::Boolean,
            ParamType::Bytes => ParamKind::Bytes,
            _ => ParamKind::Other,
        })).collect()),
        Err(TiiError::InvalidJson(_)) => Err(InvocationFailure::InvalidTii),
        Err(TiiError::UnknownTx(_)) => Err(InvocationFailure::UnknownTx),
        Err(TiiError::UnknownProfile(_)) => Err(InvocationFailure::UnknownProfile),
        Err(_) => Err(InvocationFailure::Other),
    }
}

/// Prepares the invocation of transaction `tx` of the interface whose JSON
/// text is given, with an optional profile: the text must be JSON; its
/// namespaced type references are rewritten to the core ones before
/// `tx3_sdk` reads it; the result is the parameters of the invocation.
pub fn prepare_invocation(tii_text: &str, tx: &str, profile: Option<&str>) -> (r: Result<
    Vec<(String, ParamKind)>,
    InvocationError,
>)
    ensures
        json_of_text(tii_text@) is None <==> r == Err::<Vec<(String, ParamKind)>, InvocationError>(
            InvocationError::InvalidJson,
        ),
        json_of_text(tii_text@) matches Some(v) ==> match tii_invocation(normalize_json(v), tx@, opt_str_view(profile)) {
            Ok(m) => r matches Ok(ps) && names_distinct(ps@) && param_map(ps@) == m,
            Err(e) => r == Err::<Vec<(String, ParamKind)>, InvocationError>(InvocationError::Invocation(e)),
        },
{
    match parse_json(tii_text) {
        None => Err(InvocationError::InvalidJson),
        Some(value) => {
            let tii = normalized(value);
            match invoke_tii(&tii, tx, profile) {
                Ok(ps) => Ok(ps),
                Err(e) => Err(InvocationError::Invocation(e)),
            }
        },
    }
}

} // verus!
