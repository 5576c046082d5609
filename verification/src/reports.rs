//! Structured error reports, and how failures of the transaction resolver
//! and of the chain provider become them.

use vstd::prelude::*;
use vstd::string::*;
use crate::numbers::{decimal, signed_decimal, i64_to_decimal, u64_to_decimal};
use crate::kv::{pairs_view, KeyValues};

verus! {

/// An error report: a message, a kind, keyed details, log lines, an optional
/// help text and an optional code.
#[derive(Debug)]
pub struct ErrorReport {
    pub message: String,
    pub kind: String,
    pub details: KeyValues,
    pub logs: Vec<String>,
    pub help: Option<String>,
    pub code: Option<u32>,
}

pub struct ErrorReportView {
    pub message: Seq<char>,
    pub kind: Seq<char>,
    pub details: Map<Seq<char>, Seq<char>>,
    pub logs: Seq<Seq<char>>,
    pub help: Option<Seq<char>>,
    pub code: Option<u32>,
}

pub open spec fn opt_string_view(s: Option<String>) -> Option<Seq<char>> {
    match s {
        Some(s) => Some(s@),
        None => None,
    }
}

impl View for ErrorReport {
    type V = ErrorReportView;

    open spec fn view(&self) -> ErrorReportView {
        ErrorReportView {
            message: self.message@,
            kind: self.kind@,
            details: self.details@,
            logs: self.logs@.map_values(|l: String| l@),
            help: opt_string_view(self.help),
            code: self.code,
        }
    }
}

impl ErrorReport {
    /// A report with a message and a kind, and nothing else.
    pub fn new(message: String, kind: String) -> (r: ErrorReport)
        ensures
            r@.message == message@,
            r@.kind == kind@,
            r@.details == Map::<Seq<char>, Seq<char>>::empty(),
            r@.logs == Seq::<Seq<char>>::empty(),
            r@.help is None,
            r@.code is None,
    {
        let r = ErrorReport { message, kind, details: KeyValues::new(), logs: Vec::new(), help: None, code: None };
        assert(r.logs@.map_values(|l: String| l@) =~= Seq::empty());
        r
    }

    /// Sets the detail `key` to `value`, replacing an earlier value of that key.
    pub fn with_detail(self, key: &str, value: &str) -> (r: ErrorReport)
        ensures
            r@ == (ErrorReportView { details: self@.details.insert(key@, value@), ..self@ }),
    {
        let mut report = self;
        report.details.insert(key, value);
        report
    }

    /// Sets the help text.
    pub fn with_help(self, help: &str) -> (r: ErrorReport)
        ensures
            r@ == (ErrorReportView { help: Some(help@), ..self@ }),
    {
        let mut report = self;
        report.help = Some(String::from_str(help));
        report
    }

    /// Sets the code.
    pub fn with_code(self, code: u32) -> (r: ErrorReport)
        ensures
            r@ == (ErrorReportView { code: Some(code), ..self@ }),
    {
        let mut report = self;
        report.code = Some(code);
        report
    }

    /// Replaces the log lines.
    pub fn with_logs(self, logs: Vec<String>) -> (r: ErrorReport)
        ensures
            r@ == (ErrorReportView { logs: logs@.map_values(|l: String| l@), ..self@ }),
    {
        let mut report = self;
        report.logs = logs;
        report
    }
}

/// A detail line of a printed report.
pub open spec fn detail_line(p: (Seq<char>, Seq<char>)) -> Seq<char> {
    "   \u{2219} "@ + p.0 + ": "@ + p.1
}

/// A log line of a printed report.
pub open spec fn log_line(l: Seq<char>) -> Seq<char> {
    "   \u{2023} "@ + l
}

/// The lines a report prints, its details given in order: the message, then
/// the details under a heading when there are any, then the help when there
/// is one, then the logs under a heading when there are any, and a blank
/// line.
pub open spec fn report_lines(r: ErrorReportView, details: Seq<(Seq<char>, Seq<char>)>) -> Seq<Seq<char>> {
    seq!["\u{2757}\u{fe0f} error: "@ + r.message]
        + (if details.len() > 0 {
            seq!["   details:"@] + details.map_values(|p: (Seq<char>, Seq<char>)| detail_line(p))
        } else {
            Seq::empty()
        })
        + (match r.help {
            Some(h) => seq!["\u{1f4a1} "@ + h],
            None => Seq::empty(),
        })
        + (if r.logs.len() > 0 {
            seq!["   logs:"@] + r.logs.map_values(|l: Seq<char>| log_line(l))
        } else {
            Seq::empty()
        })
        + seq![""@]
}

/// Appends two texts to a third as a new string.
fn joined(a: &str, b: &str) -> (r: String)
    ensures
        r@ == a@ + b@,
{
    let mut t = String::from_str(a);
    t.append(b);
    t
}

impl ErrorReport {
    /// The lines the report prints, its details in the order their keys
    /// were first set.
    pub fn printed_lines(&self) -> (r: Vec<String>)
        ensures
            r@.map_values(|l: String| l@) == report_lines(self@, self.details.pairs()),
    {
        let ghost me = self@;
        let ghost dp = self.details.pairs();
        let mut lines: Vec<String> = Vec::new();
        lines.push(joined("\u{2757}\u{fe0f} error: ", self.message.as_str()));
        let entries = self.details.entries();
        let ghost head = lines@.map_values(|l: String| l@);
        assert(head =~= seq!["\u{2757}\u{fe0f} error: "@ + me.message]);
        if entries.len() > 0 {
            lines.push(String::from_str("   details:"));
            let ghost base = lines@.map_values(|l: String| l@);
            let mut i: usize = 0;
            while i < entries.len()
                invariant
                    i <= entries@.len(),
                    pairs_view(entries@) == dp,
                    base.len() + i == lines@.len(),
                    lines@.map_values(|l: String| l@) == base + dp.take(i as int).map_values(|p: (Seq<char>, Seq<char>)| detail_line(p)),
                decreases entries@.len() - i,
            {
                let mut t = joined("   \u{2219} ", entries[i].0.as_str());
                t.append(": ");
                t.append(entries[i].1.as_str());
                let ghost prev = lines@.map_values(|l: String| l@);
                lines.push(t);
                proof {
                    assert(dp[i as int] == (entries@[i as int].0@, entries@[i as int].1@));
                    assert(lines@.map_values(|l: String| l@) =~= prev.push(detail_line(dp[i as int])));
                    assert(dp.take(i + 1).map_values(|p: (Seq<char>, Seq<char>)| detail_line(p))
                        =~= dp.take(i as int).map_values(|p: (Seq<char>, Seq<char>)| detail_line(p)).push(detail_line(dp[i as int])));
                }
                i += 1;
            }
            assert(dp.take(i as int) =~= dp);
        } else {
            assert(dp.len() == 0);
        }
        let ghost part_b = if dp.len() > 0 {
            seq!["   details:"@] + dp.map_values(|p: (Seq<char>, Seq<char>)| detail_line(p))
        } else {
            Seq::<Seq<char>>::empty()
        };
        assert(lines@.map_values(|l: String| l@) =~= head + part_b);
        match &self.help {
            Some(h) => lines.push(joined("\u{1f4a1} ", h.as_str())),
            None => {},
        }
        let ghost part_c = match me.help {
            Some(h) => seq!["\u{1f4a1} "@ + h],
            None => Seq::<Seq<char>>::empty(),
        };
        assert(lines@.map_values(|l: String| l@) =~= head + part_b + part_c);
        let ghost after_help = lines@.map_values(|l: String| l@);
        if self.logs.len() > 0 {
            lines.push(String::from_str("   logs:"));
            let ghost base = lines@.map_values(|l: String| l@);
            let mut j: usize = 0;
            while j < self.logs.len()
                invariant
                    j <= self.logs@.len(),
                    me == self@,
                    base.len() + j == lines@.len(),
                    lines@.map_values(|l: String| l@) == base + me.logs.take(j as int).map_values(|l: Seq<char>| log_line(l)),
                decreases self.logs@.len() - j,
            {
                let t = joined("   \u{2023} ", self.logs[j].as_str());
                let ghost prev = lines@.map_values(|l: String| l@);
                lines.push(t);
                proof {
                    assert(me.logs[j as int] == self.logs@[j as int]@);
                    assert(lines@.map_values(|l: String| l@) =~= prev.push(log_line(me.logs[j as int])));
                    assert(me.logs.take(j + 1).map_values(|l: Seq<char>| log_line(l))
                        =~= me.logs.take(j as int).map_values(|l: Seq<char>| log_line(l)).push(log_line(me.logs[j as int])));
                }
                j += 1;
            }
            assert(me.logs.take(j as int) =~= me.logs);
        }
        let ghost part_d = if me.logs.len() > 0 {
            seq!["   logs:"@] + me.logs.map_values(|l: Seq<char>| log_line(l))
        } else {
            Seq::<Seq<char>>::empty()
        };
        assert(lines@.map_values(|l: String| l@) =~= after_help + part_d);
        let ghost before_last = lines@.map_values(|l: String| l@);
        lines.push(String::new());
        assert(lines@.map_values(|l: String| l@) =~= before_last.push(Seq::<char>::empty()));
        proof {
            reveal_strlit("");
            assert(""@ =~= Seq::<char>::empty());
            assert(report_lines(me, dp) == head + part_b + part_c + part_d + seq![""@]);
            assert(before_last =~= head + part_b + part_c + part_d);
        }
        assert(lines@.map_values(|l: String| l@) =~= report_lines(me, dp));
        lines
    }
}

/// A failure of the transaction resolver, holding as text what a report shows of it.
#[derive(Debug)]
pub enum TrpFailure {
    /// The request did not reach the server; the text of the transport error.
    NetworkError(String),
    /// The server answered with an HTTP status and a message.
    HttpError(u16, String),
    /// The answer could not be read.
    DeserializationError(String),
    /// A JSON-RPC error: its code, message and the JSON text of its data.
    GenericRpcError(i32, String, String),
    UnknownError(String),
    UnsupportedTir { expected: String, provided: String },
    InvalidTirEnvelope,
    InvalidTirBytes,
    UnsupportedTxEra,
    UnsupportedEra { era: String },
    MissingTxArg { key: String, ty: String },
    /// An input that could not be resolved, with the parts of its query as text.
    InputNotResolved {
        name: String,
        address: String,
        min_amount: String,
        refs: String,
        collateral: bool,
        support_many: bool,
    },
    TxScriptFailure(Vec<String>),
}

/// A failure of the chain provider's RPC client.
#[derive(Debug)]
pub enum RpcFailure {
    TransportError(String),
    /// A gRPC status, by its message.
    GrpcError(String),
    ParseError(String),
}

pub open spec fn bool_text(b: bool) -> Seq<char> {
    if b { "true"@ } else { "false"@ }
}

fn bool_to_text(b: bool) -> (r: String)
    ensures
        r@ == bool_text(b),
{
    if b { String::from_str("true") } else { String::from_str("false") }
}

/// The report view with only a message and a kind.
pub open spec fn plain_report(message: Seq<char>, kind: Seq<char>) -> ErrorReportView {
    ErrorReportView {
        message,
        kind,
        details: Map::empty(),
        logs: Seq::empty(),
        help: None,
        code: None,
    }
}

/// What a resolver failure reads as, in a report.
pub open spec fn trp_report(e: TrpFailure) -> ErrorReportView {
    match e {
        TrpFailure::NetworkError(m) => plain_report(m@, "network"@),
        TrpFailure::HttpError(status, m) => ErrorReportView {
            code: Some(2),
            details: map!["status"@ => decimal(status as nat)],
            ..plain_report(m@, "http"@)
        },
        TrpFailure::DeserializationError(m) => plain_report(m@, "deserialization"@),
        TrpFailure::GenericRpcError(code, m, data) => ErrorReportView {
            details: map!["code"@ => signed_decimal(code as int), "data"@ => data@],
            ..plain_report(m@, "trp"@)
        },
        TrpFailure::UnknownError(m) => ErrorReportView {
            details: map!["message"@ => m@],
            ..plain_report("Unknown error occurred"@, "unknown"@)
        },
        TrpFailure::UnsupportedTir { expected, provided } => ErrorReportView {
            details: map!["expected"@ => expected@, "provided"@ => provided@],
            help: Some("Make sure that the Tx3 version on your machine is compatible with the TRP server."@),
            ..plain_report("The TIR version is not supported by the server"@, "trp"@)
        },
        TrpFailure::InvalidTirEnvelope => plain_report("Invalid TIR envelope"@, "tir"@),
        TrpFailure::InvalidTirBytes => plain_report("Invalid TIR bytes"@, "tir"@),
        TrpFailure::UnsupportedTxEra => plain_report("Unsupported transaction era"@, "era"@),
        TrpFailure::UnsupportedEra { era } => ErrorReportView {
            details: map!["era"@ => era@],
            ..plain_report("Unsupported era"@, "era"@)
        },
        TrpFailure::MissingTxArg { key, ty } => ErrorReportView {
            details: map!["arg"@ => key@, "type"@ => ty@],
            ..plain_report("Missing transaction argument"@, "args"@)
        },
        TrpFailure::InputNotResolved { name, address, min_amount, refs, collateral, support_many } => ErrorReportView {
            details: map![
                "input"@ => name@,
                "query.address"@ => address@,
                "query.min_amount"@ => min_amount@,
                "query.refs"@ => refs@,
                "query.collateral"@ => bool_text(collateral),
                "query.support_many"@ => bool_text(support_many)
            ],
            ..plain_report("Input not resolved"@, "input"@)
        },
        TrpFailure::TxScriptFailure(logs) => ErrorReportView {
            logs: logs@.map_values(|l: String| l@),
            ..plain_report("Transaction script execution failed"@, "script"@)
        },
    }
}

/// What a provider RPC failure reads as, in a report.
pub open spec fn rpc_report(e: RpcFailure) -> ErrorReportView {
    match e {
        RpcFailure::TransportError(m) => plain_report(m@, "transport"@),
        RpcFailure::GrpcError(m) => plain_report(m@, "grpc"@),
        RpcFailure::ParseError(m) => plain_report(m@, "parse"@),
    }
}

fn text(s: &str) -> (r: String)
    ensures
        r@ == s@,
{
    String::from_str(s)
}

impl ErrorReport {
    /// The report for a resolver failure.
    pub fn from_trp(error: TrpFailure) -> (r: ErrorReport)
        ensures
            r@ == trp_report(error),
    {
        let ghost e = error;
        proof {
            reveal_strlit("network");
            reveal_strlit("http");
            reveal_strlit("status");
            reveal_strlit("deserialization");
            reveal_strlit("trp");
            reveal_strlit("code");
            reveal_strlit("data");
        }
        let r = match error {
            TrpFailure::NetworkError(m) => ErrorReport::new(m, text("network")),
            TrpFailure::HttpError(status, m) => {
                let s = u64_to_decimal(status as u64);
                ErrorReport::new(m, text("http")).with_code(2).with_detail("status", s.as_str())
            },
            TrpFailure::DeserializationError(m) => ErrorReport::new(m, text("deserialization")),
            TrpFailure::GenericRpcError(code, m, data) => {
                let c = i64_to_decimal(code as i64);
                ErrorReport::new(m, text("trp")).with_detail("code", c.as_str()).with_detail("data", data.as_str())
            },
            TrpFailure::UnknownError(m) => {
                ErrorReport::new(text("Unknown error occurred"), text("unknown")).with_detail("message", m.as_str())
            },
            TrpFailure::UnsupportedTir { expected, provided } => {
                ErrorReport::new(text("The TIR version is not supported by the server"), text("trp"))
                    .with_detail("expected", expected.as_str())
                    .with_detail("provided", provided.as_str())
                    .with_help("Make sure that the Tx3 version on your machine is compatible with the TRP server.")
            },
            TrpFailure::InvalidTirEnvelope => ErrorReport::new(text("Invalid TIR envelope"), text("tir")),
            TrpFailure::InvalidTirBytes => ErrorReport::new(text("Invalid TIR bytes"), text("tir")),
            TrpFailure::UnsupportedTxEra => ErrorReport::new(text("Unsupported transaction era"), text("era")),
            TrpFailure::UnsupportedEra { era } => {
                ErrorReport::new(text("Unsupported era"), text("era")).with_detail("era", era.as_str())
            },
            TrpFailure::MissingTxArg { key, ty } => {
                ErrorReport::new(text("Missing transaction argument"), text("args"))
                    .with_detail("arg", key.as_str())
                    .with_detail("type", ty.as_str())
            },
            TrpFailure::InputNotResolved { name, address, min_amount, refs, collateral, support_many } => {
                let c = bool_to_text(collateral);
                let m = bool_to_text(support_many);
                ErrorReport::new(text("Input not resolved"), text("input"))
                    .with_detail("input", name.as_str())
                    .with_detail("query.address", address.as_str())
                    .with_detail("query.min_amount", min_amount.as_str())
                    .with_detail("query.refs", refs.as_str())
                    .with_detail("query.collateral", c.as_str())
                    .with_detail("query.support_many", m.as_str())
            },
            TrpFailure::TxScriptFailure(logs) => {
                ErrorReport::new(text("Transaction script execution failed"), text("script")).with_logs(logs)
            },
        };
        proof {
            match e {
                TrpFailure::HttpError(status, m) => {
                    assert(r@.details =~= trp_report(e).details);
                },
                TrpFailure::GenericRpcError(code, m, data) => {
                    assert(r@.details =~= trp_report(e).details);
                },
                TrpFailure::UnknownError(m) => {
                    assert(r@.details =~= trp_report(e).details);
                },
                TrpFailure::UnsupportedTir { expected, provided } => {
                    assert(r@.details =~= trp_report(e).details);
                },
                TrpFailure::UnsupportedEra { era } => {
                    assert(r@.details =~= trp_report(e).details);
                },
                TrpFailure::MissingTxArg { key, ty } => {
                    assert(r@.details =~= trp_report(e).details);
                },
                TrpFailure::InputNotResolved { name, address, min_amount, refs, collateral, support_many } => {
                    assert(r@.details =~= trp_report(e).details);
                },
                _ => {},
            }
        }
        r
    }

    /// The report for a provider RPC failure.
    pub fn from_rpc(error: RpcFailure) -> (r: ErrorReport)
        ensures
            r@ == rpc_report(error),
    {
        match error {
            RpcFailure::TransportError(m) => ErrorReport::new(m, text("transport")),
            RpcFailure::GrpcError(m) => ErrorReport::new(m, text("grpc")),
            RpcFailure::ParseError(m) => ErrorReport::new(m, text("parse")),
        }
    }

    /// A generic report carrying a message.
    pub fn from_message(message: String) -> (r: ErrorReport)
        ensures
            r@ == plain_report(message@, "generic"@),
    {
        ErrorReport::new(message, text("generic"))
    }
}

} // verus!
