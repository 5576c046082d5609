//! Choosing the wallets that sign a transaction, and reading the arguments
//! of a transaction that were not given.

use vstd::prelude::*;
use vstd::string::*;
use crate::store::{Store, first_where, wallet_named};
use crate::tii::{Json, JsonView, integer_arg};
use crate::utils::Name;
use crate::wallet::Wallet;

verus! {

/// Why a signer was refused; each carries the signer's name.
#[derive(Debug)]
pub enum SignerError {
    /// No wallet has this name.
    InvalidSigner(String),
    /// The wallet keeps its key without a password and its use was not
    /// confirmed.
    UnsafeRefused(String),
}

/// A text between single quotes.
pub open spec fn quoted(s: Seq<char>) -> Seq<char> {
    seq!['\''] + s + seq!['\'']
}

/// The message of a refused signer.
pub open spec fn signer_error_text(e: SignerError) -> Seq<char> {
    match e {
        SignerError::InvalidSigner(s) => "invalid signer wallet "@ + quoted(s@),
        SignerError::UnsafeRefused(s) => "wallet "@ + quoted(s@)
            + " is unsafe, use the param --unsafe to allow unsafe signatures"@,
    }
}

/// `prefix` followed by `s` between single quotes and `suffix`.
fn around_quoted(prefix: &str, s: &str, suffix: &str) -> (r: String)
    ensures
        r@ == prefix@ + quoted(s@) + suffix@,
{
    let mut out = String::from_str(prefix);
    out.append("'");
    out.append(s);
    out.append("'");
    out.append(suffix);
    proof {
        reveal_strlit("'");
    }
    assert(out@ =~= prefix@ + quoted(s@) + suffix@);
    out
}

impl SignerError {
    /// The message shown for this error.
    pub fn message(&self) -> (r: String)
        ensures
            r@ == signer_error_text(*self),
    {
        proof {
            reveal_strlit("");
        }
        match self {
            SignerError::InvalidSigner(s) => {
                let r = around_quoted("invalid signer wallet ", s.as_str(), "");
                assert(r@ =~= signer_error_text(*self));
                r
            },
            SignerError::UnsafeRefused(s) => around_quoted(
                "wallet ",
                s.as_str(),
                " is unsafe, use the param --unsafe to allow unsafe signatures",
            ),
        }
    }
}

/// The wallet that signs for `signer`: the first one of that name. The
/// boolean says whether its use must first be confirmed, which is when it
/// keeps its key without a password and such wallets were not allowed.
pub fn check_signer<'a>(store: &'a Store, signer: &str, allow_unsafe: bool) -> (r: Result<(&'a Wallet, bool), SignerError>)
    ensures
        match first_where(store@.wallets, wallet_named(signer@)) {
            Some(i) => r matches Ok((w, confirm)) && w@ == store@.wallets[i]
                && confirm == (w@.is_unsafe && !allow_unsafe),
            None => r matches Err(SignerError::InvalidSigner(s)) && s@ == signer@,
        },
{
    match store.find_wallet(signer) {
        Some(w) => Ok((w, w.is_unsafe && !allow_unsafe)),
        None => Err(SignerError::InvalidSigner(String::from_str(signer))),
    }
}

/// The answer to the confirmation asked for an unsafe signer.
pub fn confirm_unsafe(signer: &str, confirmed: bool) -> (r: Result<(), SignerError>)
    ensures
        confirmed ==> r is Ok,
        !confirmed ==> (r matches Err(SignerError::UnsafeRefused(s)) && s@ == signer@),
{
    if confirmed {
        Ok(())
    } else {
        Err(SignerError::UnsafeRefused(String::from_str(signer)))
    }
}

/// The question asked before an unsafe wallet signs.
pub fn confirm_question(signer: &str) -> (r: String)
    ensures
        r@ == "wallet "@ + quoted(signer@) + " is unsafe, confirm sign?"@,
{
    around_quoted("wallet ", signer, " is unsafe, confirm sign?")
}

/// Whether a wallet's password is asked before it signs: unless it keeps
/// its key without one.
pub fn needs_password(wallet: &Wallet) -> (r: bool)
    ensures
        r == !wallet@.is_unsafe,
{
    !wallet.is_unsafe
}

/// The help shown when asking for a wallet's password.
pub fn password_help(name: &Name) -> (r: String)
    ensures
        r@ == "The spending password for "@ + quoted(name@) + " wallet:"@,
{
    around_quoted("The spending password for ", name.as_str(), " wallet:")
}

/// The type of a transaction parameter.
#[derive(Debug, Clone, Copy, PartialEq, Eq, Structural)]
pub enum ParamKind {
    Address,
    Integer,
    UtxoRef,
    Boolean,
    Bytes,
    Other,
}

/// How a missing argument is asked for.
#[derive(Debug, Clone, Copy, PartialEq, Eq, Structural)]
pub enum ArgQuestion {
    /// Choose a wallet, or type an address.
    Address,
    /// Type a text, with a help message.
    Text,
    /// Answer yes or no.
    Confirm,
}

/// The question for a parameter of a kind, with its help message; other
/// kinds cannot be asked for.
pub fn question_for(kind: ParamKind) -> (r: Option<(ArgQuestion, &'static str)>)
    ensures
        match kind {
            ParamKind::Address => r matches Some((q, h)) && q == ArgQuestion::Address && h@ == "Enter a bech32 address"@,
            ParamKind::Integer => r matches Some((q, h)) && q == ArgQuestion::Text && h@ == "Enter an integer value"@,
            ParamKind::UtxoRef => r matches Some((q, h)) && q == ArgQuestion::Text
                && h@ == "Enter the utxo reference as hash#idx"@,
            ParamKind::Boolean => r matches Some((q, h)) && q == ArgQuestion::Confirm && h@.len() == 0,
            ParamKind::Bytes => r matches Some((q, h)) && q == ArgQuestion::Text && h@ == "Enter the bytes as hex string"@,
            ParamKind::Other => r is None,
        },
{
    proof {
        reveal_strlit("");
    }
    match kind {
        ParamKind::Address => Some((ArgQuestion::Address, "Enter a bech32 address")),
        ParamKind::Integer => Some((ArgQuestion::Text, "Enter an integer value")),
        ParamKind::UtxoRef => Some((ArgQuestion::Text, "Enter the utxo reference as hash#idx")),
        ParamKind::Boolean => Some((ArgQuestion::Confirm, "")),
        ParamKind::Bytes => Some((ArgQuestion::Text, "Enter the bytes as hex string")),
        ParamKind::Other => None,
    }
}

/// The label of the question for a parameter: its name and a colon.
pub fn question_label(key: &str) -> (r: String)
    ensures
        r@ == key@ + ":"@,
{
    let mut out = String::from_str(key);
    out.append(":");
    out
}

/// The message of a parameter that cannot be asked for.
pub fn unsupported_param_message(key: &str) -> (r: String)
    ensures
        r@ == "tx3 arg "@ + key@ + " is of a type not supported via CLI"@,
{
    let mut out = String::from_str("tx3 arg ");
    out.append(key);
    out.append(" is of a type not supported via CLI");
    out
}

/// An answer to a question for an argument.
#[derive(Debug)]
pub enum ArgAnswer {
    Text(String),
    Flag(bool),
}

/// Why an answer could not be an argument's value.
#[derive(Debug, Clone, Copy, PartialEq, Eq, Structural)]
pub enum ArgValueError {
    /// The answer to an integer question is not an unsigned 64-bit number.
    InvalidInteger,
    /// The parameter cannot be asked for, or the answer is not of its kind.
    Unsupported,
    /// The answer to an address question is not a bech32 address.
    InvalidAddress,
}

impl ArgValueError {
    /// The message shown for this error.
    pub fn message(&self) -> (r: &'static str)
        ensures
            *self == ArgValueError::InvalidInteger ==> r@ == "invalid integer value"@,
            *self == ArgValueError::Unsupported ==> r@ == "type not supported via CLI"@,
            *self == ArgValueError::InvalidAddress ==> r@ == "invalid bech32 address"@,
    {
        match self {
            ArgValueError::InvalidInteger => "invalid integer value",
            ArgValueError::Unsupported => "type not supported via CLI",
            ArgValueError::InvalidAddress => "invalid bech32 address",
        }
    }
}

/// What `pallas` gives for a typed bech32 address: `None` when
/// `Address::from_bech32` refuses it, else the address as `Address`
/// displays it, its canonical text.
pub uninterp spec fn bech32_address_shown(text: Seq<char>) -> Option<Seq<char>>;

/// Calls `pallas::ledger::addresses::Address::from_bech32` and then the
/// address's `to_string`: the canonical text of a bech32 address, `None`
/// when the text is not one.
#[verifier::external_body]
fn bech32_address_text(text: &str) -> (r: Option<String>)
    ensures
        match r {
            Some(a) => bech32_address_shown(text@) == Some(a@),
            None => bech32_address_shown(text@) is None,
        },
{
    pallas::ledger::addresses::Address::from_bech32(text).ok().map(|a| a.to_string())
}

/// The JSON value of an argument from its answer: an integer is read as
/// an unsigned 64-bit number, a flag is a boolean, a typed address must be
/// a bech32 address and is written in its canonical text, and output
/// references and bytes are kept as the text typed.
pub fn arg_value(kind: ParamKind, answer: ArgAnswer) -> (r: Result<Json, ArgValueError>)
    ensures
        match (kind, answer) {
            (ParamKind::Integer, ArgAnswer::Text(t)) => match crate::numbers::unsigned_text_value(t@) {
                Some(v) => if v <= u64::MAX {
                    r matches Ok(j) && j@ == JsonView::Number(crate::numbers::decimal(v))
                } else {
                    r == Err::<Json, ArgValueError>(ArgValueError::InvalidInteger)
                },
                None => r == Err::<Json, ArgValueError>(ArgValueError::InvalidInteger),
            },
            (ParamKind::Boolean, ArgAnswer::Flag(b)) => r matches Ok(j) && j@ == JsonView::Bool(b),
            (ParamKind::Address, ArgAnswer::Text(t)) => match bech32_address_shown(t@) {
                Some(a) => r matches Ok(j) && j@ == JsonView::Str(a),
                None => r == Err::<Json, ArgValueError>(ArgValueError::InvalidAddress),
            },
            (ParamKind::UtxoRef, ArgAnswer::Text(t)) => r matches Ok(j) && j@ == JsonView::Str(t@),
            (ParamKind::Bytes, ArgAnswer::Text(t)) => r matches Ok(j) && j@ == JsonView::Str(t@),
            _ => r == Err::<Json, ArgValueError>(ArgValueError::Unsupported),
        },
{
    match (kind, answer) {
        (ParamKind::Integer, ArgAnswer::Text(t)) => match integer_arg(t.as_str()) {
            Ok(j) => Ok(j),
            Err(_) => Err(ArgValueError::InvalidInteger),
        },
        (ParamKind::Boolean, ArgAnswer::Flag(b)) => Ok(Json::Bool(b)),
        (ParamKind::Address, ArgAnswer::Text(t)) => match bech32_address_text(t.as_str()) {
            Some(a) => Ok(Json::String(a)),
            None => Err(ArgValueError::InvalidAddress),
        },
        (ParamKind::UtxoRef, ArgAnswer::Text(t)) => Ok(Json::String(t)),
        (ParamKind::Bytes, ArgAnswer::Text(t)) => Ok(Json::String(t)),
        _ => Err(ArgValueError::Unsupported),
    }
}

/// The choices offered for an address argument: the wallets' names, then
/// a custom address; none when there is no wallet, and the address is then
/// typed.
pub fn address_choices(store: &Store) -> (r: Vec<String>)
    ensures
        store@.wallets.len() == 0 ==> r@.len() == 0,
        store@.wallets.len() > 0 ==> r@.len() == store@.wallets.len() + 1
            && (forall|i: int| 0 <= i < store@.wallets.len() ==> #[trigger] r@[i]@ == store@.wallets[i].name)
            && r@[store@.wallets.len() as int]@ == "custom address"@,
{
    let ws = store.wallets();
    let mut out: Vec<String> = Vec::new();
    if ws.len() == 0 {
        return out;
    }
    let mut i: usize = 0;
    while i < ws.len()
        invariant
            i <= ws@.len(),
            crate::store::wallet_views(ws@) == store@.wallets,
            out@.len() == i,
            forall|j: int| 0 <= j < i ==> #[trigger] out@[j]@ == store@.wallets[j].name,
        decreases ws@.len() - i,
    {
        out.push(ws[i].name.to_string());
        i += 1;
    }
    out.push(String::from_str("custom address"));
    out
}

/// The transaction to build when the interface offers only one.
pub fn only_transaction(names: &Vec<String>) -> (r: Option<String>)
    ensures
        names@.len() == 1 ==> (r matches Some(n) && n@ == names@[0]@),
        names@.len() != 1 ==> r is None,
{
    if names.len() == 1 {
        Some(names[0].clone())
    } else {
        None
    }
}

} // verus!
