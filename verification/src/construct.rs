//! A transaction being put together in the tx3 language: its inputs and
//! outputs, and the tx3 source text written for it.

use vstd::prelude::*;
use vstd::string::*;
use crate::hexcodec::{hex_encode, hex_text};
use crate::numbers::{decimal, i64_to_decimal, signed_decimal, u64_to_decimal};
use crate::utils::{push_char, str_eq};
use crate::hexcodec::HexError;
use crate::numbers::{parse_i64, signed_text_value};
use crate::refs::{parse_utxo_ref, utxo_ref_of, RefError};

verus! {

/// The expressions that a built transaction holds.
#[derive(Debug)]
pub enum Expr {
    /// A string literal.
    Text(String),
    /// A reference to an output: transaction hash and index.
    UtxoRef { txid: Vec<u8>, index: u64 },
    /// An amount of a named asset, such as `Ada(1000000)`.
    Asset { asset_name: String, amount: Box<Expr> },
    /// An integer literal.
    Number(i64),
    /// Any other expression.
    Other,
}

/// A field of an input block.
#[derive(Debug)]
pub enum InputField {
    From(Expr),
    Ref(Expr),
    MinAmount(Expr),
    Other,
}

/// A named input of a transaction.
#[derive(Debug)]
pub struct InputBlock {
    pub name: String,
    pub fields: Vec<InputField>,
}

/// A field of an output block.
#[derive(Debug)]
pub enum OutputField {
    To(Expr),
    Amount(Expr),
    Other,
}

/// An output of a transaction, named or not.
#[derive(Debug)]
pub struct OutputBlock {
    pub name: Option<String>,
    pub fields: Vec<OutputField>,
}

/// A transaction definition.
#[derive(Debug)]
pub struct TxDef {
    pub name: String,
    pub inputs: Vec<InputBlock>,
    pub outputs: Vec<OutputBlock>,
}

/// A tx3 program: its transaction definitions.
#[derive(Debug)]
pub struct Program {
    pub txs: Vec<TxDef>,
}

pub open spec fn quoted(s: Seq<char>) -> Seq<char> {
    seq!['"'] + s + seq!['"']
}

/// How an asset amount reads: the number itself, or `unknown` for anything else.
pub open spec fn amount_text(e: Expr) -> Seq<char> {
    match e {
        Expr::Number(n) => signed_decimal(n as int),
        _ => "unknown"@,
    }
}

/// The line written for a field of an input (empty when it is not written).
pub open spec fn input_field_text(f: InputField) -> Seq<char> {
    match f {
        InputField::From(Expr::Text(v)) => "\t\tfrom: "@ + quoted(v@) + ",\n"@,
        InputField::Ref(Expr::UtxoRef { txid, index }) =>
            "\t\tref: 0x"@ + hex_text(txid@) + seq!['#'] + decimal(index as nat) + ",\n"@,
        InputField::MinAmount(Expr::Asset { asset_name, amount }) =>
            "\t\tmin_amount: "@ + asset_name@ + seq!['('] + amount_text(*amount) + "),\n"@,
        _ => Seq::empty(),
    }
}

/// The line written for a field of an output (empty when it is not written).
pub open spec fn output_field_text(f: OutputField) -> Seq<char> {
    match f {
        OutputField::To(Expr::Text(v)) => "\t\tto: "@ + quoted(v@) + ",\n"@,
        OutputField::Amount(Expr::Asset { asset_name, amount }) =>
            "\t\tamount: "@ + asset_name@ + seq!['('] + amount_text(*amount) + "),\n"@,
        _ => Seq::empty(),
    }
}

pub open spec fn input_fields_text(fs: Seq<InputField>) -> Seq<char>
    decreases fs.len(),
{
    if fs.len() == 0 { Seq::empty() } else { input_fields_text(fs.drop_last()) + input_field_text(fs.last()) }
}

pub open spec fn output_fields_text(fs: Seq<OutputField>) -> Seq<char>
    decreases fs.len(),
{
    if fs.len() == 0 { Seq::empty() } else { output_fields_text(fs.drop_last()) + output_field_text(fs.last()) }
}

/// The block written for an input.
pub open spec fn input_text(b: InputBlock) -> Seq<char> {
    "\tinput "@ + b.name@ + " {\n"@ + input_fields_text(b.fields@) + "\t}\n\n"@
}

/// The block written for an output.
pub open spec fn output_text(b: OutputBlock) -> Seq<char> {
    let head = match b.name {
        Some(n) => "\toutput "@ + n@ + " {\n"@,
        None => "\toutput {\n"@,
    };
    head + output_fields_text(b.fields@) + "\t}\n\n"@
}

pub open spec fn inputs_text(bs: Seq<InputBlock>) -> Seq<char>
    decreases bs.len(),
{
    if bs.len() == 0 { Seq::empty() } else { inputs_text(bs.drop_last()) + input_text(bs.last()) }
}

pub open spec fn outputs_text(bs: Seq<OutputBlock>) -> Seq<char>
    decreases bs.len(),
{
    if bs.len() == 0 { Seq::empty() } else { outputs_text(bs.drop_last()) + output_text(bs.last()) }
}

/// The tx3 source of a transaction definition: its inputs, then its outputs.
pub open spec fn tx_text(d: TxDef) -> Seq<char> {
    "tx "@ + d.name@ + "() {\n"@ + inputs_text(d.inputs@) + outputs_text(d.outputs@) + "}\n"@
}

fn write_amount(out: &mut String, e: &Expr)
    ensures
        final(out)@ == old(out)@ + amount_text(*e),
{
    match e {
        Expr::Number(n) => {
            let t = i64_to_decimal(*n);
            out.append(t.as_str());
        },
        _ => {
            out.append("unknown");
        },
    }
}

fn write_input_field(out: &mut String, f: &InputField)
    ensures
        final(out)@ == old(out)@ + input_field_text(*f),
{
    match f {
        InputField::From(Expr::Text(v)) => {
            out.append("\t\tfrom: ");
            push_char(out, '"');
            out.append(v.as_str());
            push_char(out, '"');
            out.append(",\n");
            assert(out@ =~= old(out)@ + input_field_text(*f));
        },
        InputField::Ref(Expr::UtxoRef { txid, index }) => {
            out.append("\t\tref: 0x");
            let h = hex_encode(txid.as_slice());
            out.append(h.as_str());
            push_char(out, '#');
            let d = u64_to_decimal(*index);
            out.append(d.as_str());
            out.append(",\n");
            assert(out@ =~= old(out)@ + input_field_text(*f));
        },
        InputField::MinAmount(Expr::Asset { asset_name, amount }) => {
            out.append("\t\tmin_amount: ");
            out.append(asset_name.as_str());
            push_char(out, '(');
            write_amount(out, amount);
            out.append("),\n");
            assert(out@ =~= old(out)@ + input_field_text(*f));
        },
        _ => {
            assert(out@ =~= old(out)@ + input_field_text(*f));
        },
    }
}

fn write_output_field(out: &mut String, f: &OutputField)
    ensures
        final(out)@ == old(out)@ + output_field_text(*f),
{
    match f {
        OutputField::To(Expr::Text(v)) => {
            out.append("\t\tto: ");
            push_char(out, '"');
            out.append(v.as_str());
            push_char(out, '"');
            out.append(",\n");
            assert(out@ =~= old(out)@ + output_field_text(*f));
        },
        OutputField::Amount(Expr::Asset { asset_name, amount }) => {
            out.append("\t\tamount: ");
            out.append(asset_name.as_str());
            push_char(out, '(');
            write_amount(out, amount);
            out.append("),\n");
            assert(out@ =~= old(out)@ + output_field_text(*f));
        },
        _ => {
            assert(out@ =~= old(out)@ + output_field_text(*f));
        },
    }
}

fn write_input(out: &mut String, b: &InputBlock)
    ensures
        final(out)@ == old(out)@ + input_text(*b),
{
    out.append("\tinput ");
    out.append(b.name.as_str());
    out.append(" {\n");
    let ghost head = out@;
    let mut i: usize = 0;
    while i < b.fields.len()
        invariant
            i <= b.fields.len(),
            out@ == head + input_fields_text(b.fields@.take(i as int)),
        decreases b.fields.len() - i,
    {
        write_input_field(out, &b.fields[i]);
        assert(b.fields@.take(i + 1).drop_last() =~= b.fields@.take(i as int));
        assert(out@ =~= head + input_fields_text(b.fields@.take(i + 1)));
        i += 1;
    }
    assert(b.fields@.take(b.fields.len() as int) =~= b.fields@);
    out.append("\t}\n\n");
    assert(out@ =~= old(out)@ + input_text(*b));
}

fn write_output(out: &mut String, b: &OutputBlock)
    ensures
        final(out)@ == old(out)@ + output_text(*b),
{
    match &b.name {
        Some(n) => {
            out.append("\toutput ");
            out.append(n.as_str());
            out.append(" {\n");
        },
        None => {
            out.append("\toutput {\n");
        },
    }
    let ghost head = out@;
    let mut i: usize = 0;
    while i < b.fields.len()
        invariant
            i <= b.fields.len(),
            out@ == head + output_fields_text(b.fields@.take(i as int)),
        decreases b.fields.len() - i,
    {
        write_output_field(out, &b.fields[i]);
        assert(b.fields@.take(i + 1).drop_last() =~= b.fields@.take(i as int));
        assert(out@ =~= head + output_fields_text(b.fields@.take(i + 1)));
        i += 1;
    }
    assert(b.fields@.take(b.fields.len() as int) =~= b.fields@);
    out.append("\t}\n\n");
    assert(out@ =~= old(out)@ + output_text(*b));
}

/// The tx3 source of a transaction definition.
pub fn tx_source(d: &TxDef) -> (r: String)
    ensures
        r@ == tx_text(*d),
{
    let mut out = String::from_str("tx ");
    out.append(d.name.as_str());
    out.append("() {\n");
    let ghost head = out@;
    let mut i: usize = 0;
    while i < d.inputs.len()
        invariant
            i <= d.inputs.len(),
            out@ == head + inputs_text(d.inputs@.take(i as int)),
        decreases d.inputs.len() - i,
    {
        write_input(&mut out, &d.inputs[i]);
        assert(d.inputs@.take(i + 1).drop_last() =~= d.inputs@.take(i as int));
        assert(out@ =~= head + inputs_text(d.inputs@.take(i + 1)));
        i += 1;
    }
    assert(d.inputs@.take(d.inputs.len() as int) =~= d.inputs@);
    let ghost mid = out@;
    let mut j: usize = 0;
    while j < d.outputs.len()
        invariant
            j <= d.outputs.len(),
            out@ == mid + outputs_text(d.outputs@.take(j as int)),
        decreases d.outputs.len() - j,
    {
        write_output(&mut out, &d.outputs[j]);
        assert(d.outputs@.take(j + 1).drop_last() =~= d.outputs@.take(j as int));
        assert(out@ =~= mid + outputs_text(d.outputs@.take(j + 1)));
        j += 1;
    }
    assert(d.outputs@.take(d.outputs.len() as int) =~= d.outputs@);
    out.append("}\n");
    assert(out@ =~= tx_text(*d));
    out
}

/// A program with one transaction definition being built.
#[derive(Debug)]
pub struct TransactionBuilder {
    pub ast: Program,
    pub def_index: usize,
}

/// The position of the first definition named `name`.
pub open spec fn def_position(txs: Seq<TxDef>, name: Seq<char>) -> Option<int> {
    crate::store::first_where(txs, |d: TxDef| d.name@ == name)
}

impl TransactionBuilder {
    /// Builds on the first definition named `name`, adding an empty one
    /// after the others when there is none.
    pub fn new(name: String, ast: Program) -> (r: TransactionBuilder)
        ensures
            r.def_index < r.ast.txs.len(),
            r.ast.txs[r.def_index as int].name@ == name@,
            match def_position(ast.txs@, name@) {
                Some(k) => r.def_index == k && r.ast.txs@ == ast.txs@,
                None => r.def_index == ast.txs.len() && r.ast.txs@.drop_last() == ast.txs@
                    && r.ast.txs@.last().inputs@.len() == 0 && r.ast.txs@.last().outputs@.len() == 0,
            },
    {
        let mut prog = ast;
        let ghost txs = prog.txs@;
        let ghost f = |d: TxDef| d.name@ == name@;
        let mut i: usize = 0;
        while i < prog.txs.len()
            invariant
                i <= prog.txs.len(),
                txs == prog.txs@,
                txs == ast.txs@,
                f == (|d: TxDef| d.name@ == name@),
                forall|j: int| 0 <= j < i ==> !f(#[trigger] txs[j]),
            decreases prog.txs.len() - i,
        {
            if str_eq(prog.txs[i].name.as_str(), name.as_str()) {
                proof {
                    crate::store::lemma_first_where(txs, f, i as int);
                    assert(def_position(txs, name@) == crate::store::first_where(txs, f)) by {
                        assert(f =~= (|d: TxDef| d.name@ == name@));
                    }
                }
                return TransactionBuilder { ast: prog, def_index: i };
            }
            i += 1;
        }
        proof {
            crate::store::lemma_first_where_none(txs, f);
            assert(def_position(txs, name@) == crate::store::first_where(txs, f)) by {
                assert(f =~= (|d: TxDef| d.name@ == name@));
            }
        }
        let index = prog.txs.len();
        prog.txs.push(TxDef { name, inputs: Vec::new(), outputs: Vec::new() });
        assert(prog.txs@.drop_last() =~= txs);
        TransactionBuilder { ast: prog, def_index: index }
    }

    /// The definition being built.
    pub open spec fn def(&self) -> TxDef {
        self.ast.txs@[self.def_index as int]
    }

    /// Adds an input to the definition being built.
    pub fn add_input(&mut self, input: InputBlock)
        requires
            old(self).def_index < old(self).ast.txs.len(),
        ensures
            final(self).def_index == old(self).def_index,
            final(self).ast.txs.len() == old(self).ast.txs.len(),
            final(self).def().name == old(self).def().name,
            final(self).def().inputs@ == old(self).def().inputs@.push(input),
            final(self).def().outputs@ == old(self).def().outputs@,
            forall|j: int| 0 <= j < final(self).ast.txs.len() && j != final(self).def_index ==>
                #[trigger] final(self).ast.txs@[j] == old(self).ast.txs@[j],
    {
        let k = self.def_index;
        let mut def = self.ast.txs.remove(k);
        def.inputs.push(input);
        self.ast.txs.insert(k, def);
    }

    /// Adds an output to the definition being built.
    pub fn add_output(&mut self, output: OutputBlock)
        requires
            old(self).def_index < old(self).ast.txs.len(),
        ensures
            final(self).def_index == old(self).def_index,
            final(self).ast.txs.len() == old(self).ast.txs.len(),
            final(self).def().name == old(self).def().name,
            final(self).def().outputs@ == old(self).def().outputs@.push(output),
            final(self).def().inputs@ == old(self).def().inputs@,
            forall|j: int| 0 <= j < final(self).ast.txs.len() && j != final(self).def_index ==>
                #[trigger] final(self).ast.txs@[j] == old(self).ast.txs@[j],
    {
        let k = self.def_index;
        let mut def = self.ast.txs.remove(k);
        def.outputs.push(output);
        self.ast.txs.insert(k, def);
    }

    /// The tx3 source of the definition being built.
    pub fn generate_tx3_content(self) -> (r: String)
        requires
            self.def_index < self.ast.txs.len(),
        ensures
            r@ == tx_text(self.def()),
    {
        tx_source(&self.ast.txs[self.def_index])
    }
}

/// An input spending an output, with a minimum amount of Ada.
pub fn ref_input(name: String, txid: Vec<u8>, index: u64, min_amount: i64) -> (r: InputBlock)
    ensures
        r.name == name,
        r.fields@.len() == 2,
        r.fields@[0] == InputField::Ref(Expr::UtxoRef { txid, index }),
        r.fields@[1] matches InputField::MinAmount(Expr::Asset { asset_name, amount })
            && asset_name@ == "Ada"@ && *amount == Expr::Number(min_amount),
{
    let mut fields = Vec::new();
    fields.push(InputField::Ref(Expr::UtxoRef { txid, index }));
    fields.push(InputField::MinAmount(Expr::Asset { asset_name: String::from_str("Ada"), amount: Box::new(Expr::Number(min_amount)) }));
    InputBlock { name, fields }
}

/// An output paying an amount of Ada to an address.
pub fn pay_output(name: Option<String>, address: String, amount: i64) -> (r: OutputBlock)
    ensures
        r.name == name,
        r.fields@.len() == 2,
        r.fields@[0] == OutputField::To(Expr::Text(address)),
        r.fields@[1] matches OutputField::Amount(Expr::Asset { asset_name, amount: a })
            && asset_name@ == "Ada"@ && *a == Expr::Number(amount),
{
    let mut fields = Vec::new();
    fields.push(OutputField::To(Expr::Text(address)));
    fields.push(OutputField::Amount(Expr::Asset { asset_name: String::from_str("Ada"), amount: Box::new(Expr::Number(amount)) }));
    OutputBlock { name, fields }
}

/// A character with ASCII upper case letters lowered.
pub open spec fn ascii_lower(c: char) -> char {
    if 'A' <= c && c <= 'Z' { ((c as u32) + 32) as char } else { c }
}

/// Whether a name typed for an input ends the list of inputs: `done` in
/// any ASCII case.
pub open spec fn is_done_text(s: Seq<char>) -> bool {
    s.len() == 4 && ascii_lower(s[0]) == 'd' && ascii_lower(s[1]) == 'o' && ascii_lower(s[2]) == 'n'
        && ascii_lower(s[3]) == 'e'
}

/// Whether a name typed for an input ends the list of inputs.
pub fn is_done(name: &str) -> (r: bool)
    ensures
        r == is_done_text(name@),
{
    if name.unicode_len() != 4 {
        return false;
    }
    let a = name.get_char(0);
    let b = name.get_char(1);
    let c = name.get_char(2);
    let d = name.get_char(3);
    (a == 'd' || a == 'D') && (b == 'o' || b == 'O') && (c == 'n' || c == 'N') && (d == 'e' || d == 'E')
}

/// Why the answers for an input were refused.
#[derive(Debug, Clone, Copy, PartialEq, Eq)]
pub enum InputAnswerError {
    /// The output reference is not `txid#index`; it is asked again.
    InvalidFormat,
    /// The transaction id is not hex.
    InvalidTxid(HexError),
    /// The index is not an unsigned 64-bit number.
    InvalidIndex,
    /// The minimum amount is not a signed 64-bit number.
    InvalidMinAmount,
}

/// The input made of the answers: its name, the output it spends typed as
/// `txid#index`, and its minimum amount of Ada.
pub fn input_from_answers(name: String, utxo_ref: &str, min_amount: &str) -> (r: Result<InputBlock, InputAnswerError>)
    ensures
        match utxo_ref_of(utxo_ref@) {
            Err(RefError::InvalidFormat) => r == Err::<InputBlock, InputAnswerError>(InputAnswerError::InvalidFormat),
            Err(RefError::InvalidIndex) => r == Err::<InputBlock, InputAnswerError>(InputAnswerError::InvalidIndex),
            Err(_) => r matches Err(InputAnswerError::InvalidTxid(_)),
            Ok((txid, index)) => match signed_text_value(min_amount@) {
                Some(v) if i64::MIN <= v <= i64::MAX => match r {
                    Ok(b) => b.name == name && b.fields@.len() == 2 && (match b.fields@[0] {
                        InputField::Ref(Expr::UtxoRef { txid: t, index: i }) => t@ == txid && i == index,
                        _ => false,
                    }) && (match b.fields@[1] {
                        InputField::MinAmount(Expr::Asset { asset_name, amount }) =>
                            asset_name@ == "Ada"@ && *amount == Expr::Number(v as i64),
                        _ => false,
                    }),
                    Err(_) => false,
                },
                _ => r == Err::<InputBlock, InputAnswerError>(InputAnswerError::InvalidMinAmount),
            },
        },
{
    let (txid, index) = match parse_utxo_ref(utxo_ref) {
        Ok(pair) => pair,
        Err(RefError::InvalidFormat) => return Err(InputAnswerError::InvalidFormat),
        Err(RefError::InvalidIndex) => return Err(InputAnswerError::InvalidIndex),
        Err(RefError::InvalidHash(e)) => return Err(InputAnswerError::InvalidTxid(e)),
        Err(RefError::BadPattern) => return Err(InputAnswerError::InvalidTxid(HexError::Other)),
    };
    match parse_i64(min_amount) {
        Some(v) => Ok(ref_input(name, txid, index, v)),
        None => Err(InputAnswerError::InvalidMinAmount),
    }
}

/// What `pallas` gives for a typed address: `None` when it is not an
/// address, `Some(None)` when it has no bech32 form, else that form.
pub uninterp spec fn address_bech32(text: Seq<char>) -> Option<Option<Seq<char>>>;

/// Calls `pallas::ledger::addresses::Address::from_str` and then
/// `Address::to_bech32`; the result is named `address_bech32`.
#[verifier::external_body]
fn bech32_of(text: &str) -> (r: Option<Option<String>>)
    ensures
        match (r, address_bech32(text@)) {
            (None, None) => true,
            (Some(None), Some(None)) => true,
            (Some(Some(a)), Some(Some(b))) => a@ == b,
            _ => false,
        },
{
    match <pallas::ledger::addresses::Address as std::str::FromStr>::from_str(text) {
        Err(_) => None,
        Ok(address) => match address.to_bech32() {
            Ok(b) => Some(Some(b)),
            Err(_) => Some(None),
        },
    }
}

/// Why the answers for an output were refused.
#[derive(Debug, Clone, Copy, PartialEq, Eq, Structural)]
pub enum OutputAnswerError {
    /// The text is not an address.
    InvalidAddress,
    /// The address has no bech32 form.
    NoBech32,
    /// The amount is not a signed 64-bit number.
    InvalidAmount,
}

/// The output made of the answers: its optional name, the address it pays
/// (kept in bech32) and its amount of Ada.
pub fn output_from_answers(name: Option<String>, to_address: &str, amount: &str) -> (r: Result<OutputBlock, OutputAnswerError>)
    ensures
        match address_bech32(to_address@) {
            None => r == Err::<OutputBlock, OutputAnswerError>(OutputAnswerError::InvalidAddress),
            Some(None) => r == Err::<OutputBlock, OutputAnswerError>(OutputAnswerError::NoBech32),
            Some(Some(b)) => match signed_text_value(amount@) {
                Some(v) if i64::MIN <= v <= i64::MAX => match r {
                    Ok(o) => o.name == name && o.fields@.len() == 2 && (match o.fields@[0] {
                        OutputField::To(Expr::Text(t)) => t@ == b,
                        _ => false,
                    }) && (match o.fields@[1] {
                        OutputField::Amount(Expr::Asset { asset_name, amount: a }) =>
                            asset_name@ == "Ada"@ && *a == Expr::Number(v as i64),
                        _ => false,
                    }),
                    Err(_) => false,
                },
                _ => r == Err::<OutputBlock, OutputAnswerError>(OutputAnswerError::InvalidAmount),
            },
        },
{
    let bech32 = match bech32_of(to_address) {
        None => return Err(OutputAnswerError::InvalidAddress),
        Some(None) => return Err(OutputAnswerError::NoBech32),
        Some(Some(b)) => b,
    };
    match parse_i64(amount) {
        Some(v) => Ok(pay_output(name, bech32, v)),
        None => Err(OutputAnswerError::InvalidAmount),
    }
}

/// The source writes a block for every input, in order: the inputs of two
/// lists together are written as the first list's, then the second's.
pub proof fn law_inputs_text_of_concat(a: Seq<InputBlock>, b: Seq<InputBlock>)
    ensures
        inputs_text(a + b) == inputs_text(a) + inputs_text(b),
    decreases b.len(),
{
    if b.len() == 0 {
        assert(a + b =~= a);
        assert(inputs_text(a) + Seq::<char>::empty() =~= inputs_text(a));
    } else {
        law_inputs_text_of_concat(a, b.drop_last());
        assert((a + b).drop_last() =~= a + b.drop_last());
        assert((a + b).last() == b.last());
    }
}

/// No inputs are written as nothing, one input as its block, and one more
/// input adds its block at the end.
pub proof fn law_inputs_text_counts_every_input(bs: Seq<InputBlock>, b: InputBlock)
    ensures
        inputs_text(Seq::<InputBlock>::empty()) == Seq::<char>::empty(),
        inputs_text(seq![b]) == input_text(b),
        inputs_text(bs.push(b)) == inputs_text(bs) + input_text(b),
{
    assert(bs.push(b).drop_last() =~= bs);
    assert(seq![b].drop_last() =~= Seq::<InputBlock>::empty());
    assert(Seq::<char>::empty() + input_text(b) =~= input_text(b));
}

/// The source writes a block for every output, in order.
pub proof fn law_outputs_text_of_concat(a: Seq<OutputBlock>, b: Seq<OutputBlock>)
    ensures
        outputs_text(a + b) == outputs_text(a) + outputs_text(b),
    decreases b.len(),
{
    if b.len() == 0 {
        assert(a + b =~= a);
        assert(outputs_text(a) + Seq::<char>::empty() =~= outputs_text(a));
    } else {
        law_outputs_text_of_concat(a, b.drop_last());
        assert((a + b).drop_last() =~= a + b.drop_last());
        assert((a + b).last() == b.last());
    }
}

/// No outputs are written as nothing, and one more output adds its block at
/// the end.
pub proof fn law_outputs_text_counts_every_output(bs: Seq<OutputBlock>, b: OutputBlock)
    ensures
        outputs_text(Seq::<OutputBlock>::empty()) == Seq::<char>::empty(),
        outputs_text(bs.push(b)) == outputs_text(bs) + output_text(b),
{
    assert(bs.push(b).drop_last() =~= bs);
}

/// The source of a definition with two inputs holds both blocks, the
/// first before the second, between the header and the outputs.
pub proof fn law_source_holds_each_input(d: TxDef)
    requires
        d.inputs@.len() == 2,
    ensures
        tx_text(d) == "tx "@ + d.name@ + "() {\n"@ + input_text(d.inputs@[0]) + input_text(d.inputs@[1])
            + outputs_text(d.outputs@) + "}\n"@,
{
    let bs = d.inputs@;
    law_inputs_text_counts_every_input(seq![bs[0]], bs[1]);
    law_inputs_text_counts_every_input(Seq::empty(), bs[0]);
    assert(seq![bs[0]].push(bs[1]) =~= bs);
    assert(tx_text(d) =~= "tx "@ + d.name@ + "() {\n"@ + input_text(bs[0]) + input_text(bs[1])
        + outputs_text(d.outputs@) + "}\n"@);
}

} // verus!
