use cshell::balance::{balance_from_utxos, detailed_balance_from_utxos, sum_coins, QueriedAsset, QueriedMultiasset, QueriedUtxo};
use cshell::construct::{input_from_answers, is_done, output_from_answers, pay_output, ref_input, Expr, InputAnswerError, InputField, OutputAnswerError, OutputField, Program, TransactionBuilder, TxDef};
use cshell::explorer::{choose_provider, ExplorerError};
use cshell::headers::{format_headers, parse_header_pairs, parse_headers, HeaderError};
use cshell::hexcodec::HexError;
use cshell::kv::KeyValues;
use cshell::provider::{edited_provider, new_provider, NetworkKind, Provider};
use cshell::refs::{parse_utxo_ref, RefError};
use cshell::reports::{ErrorReport, RpcFailure, TrpFailure};
use cshell::store::{Store, StoreError};
use cshell::tii::{args_object, args_source, integer_arg, normalize_tii_json_refs, normalize_tii_ref, normalized, ArgsError, ArgsSource, Json};
use cshell::tii::{CORE_ADDRESS_REF, CORE_BYTES_REF, CORE_UTXO_REF, NAMESPACED_ADDRESS_REF, NAMESPACED_BYTES_REF, NAMESPACED_UTXO_REF};
use cshell::utils::Name;
use cshell::types::{same_bytes, same_detailed_balance, same_utxo};
use cshell::wallet::Wallet;

fn wallet(name: &str, is_default: bool, is_unsafe: bool) -> Wallet {
    Wallet { name: Name::try_from(name).unwrap(), is_default, is_unsafe }
}

fn provider(name: &str, is_default: Option<bool>) -> Provider {
    Provider {
        name: Name::try_from(name).unwrap(),
        url: format!("https://{name}.example"),
        headers: None,
        is_default,
        is_testnet: Some(true),
        trp_url: None,
        trp_headers: None,
    }
}

#[test]
fn store_finds_added_wallets_and_providers() {
    let mut store = Store::empty();
    store.add_wallet(wallet("alice", false, false));
    store.add_wallet(wallet("bob", true, true));
    assert_eq!(store.wallets().len(), 2);
    assert_eq!(store.find_wallet("bob").unwrap().name.as_str(), "bob");
    assert!(store.find_wallet("carol").is_none());
    assert_eq!(store.default_wallet().unwrap().name.as_str(), "bob");

    store.add_provider(provider("local", None));
    store.add_provider(provider("main", Some(true)));
    assert_eq!(store.find_provider("main").unwrap().name(), "main");
    assert_eq!(store.default_provider().unwrap().name(), "main");
    assert!(store.has_provider_named("local"));
    assert!(!store.has_provider_named("other"));
}

#[test]
fn removing_a_wallet_just_added_restores_the_store() {
    let mut store = Store::empty();
    store.add_wallet(wallet("alice", false, false));
    store.add_wallet(wallet("bob", false, false));
    let added = wallet("bob", false, false);
    assert!(store.remove_wallet(&added).is_ok());
    assert_eq!(store.wallets().len(), 1);
    assert_eq!(store.wallets()[0].name.as_str(), "alice");
    assert_eq!(store.remove_wallet(&added), Err(StoreError::WalletNotFound));
    assert_eq!(StoreError::WalletNotFound.message(), "Wallet not on store.");
}

#[test]
fn removing_an_unknown_provider_is_refused() {
    let mut store = Store::empty();
    store.add_provider(provider("local", None));
    assert_eq!(store.remove_provider(&provider("other", None)), Err(StoreError::ProviderNotFound));
    assert_eq!(StoreError::ProviderNotFound.message(), "Provider not on store.");
    assert!(store.remove_provider(&provider("local", None)).is_ok());
    assert!(store.providers().is_empty());
}

#[test]
fn first_added_wallet_with_a_name_wins() {
    let mut store = Store::empty();
    store.add_wallet(wallet("same", false, false));
    store.add_wallet(wallet("same", true, false));
    assert!(!store.find_wallet("same").unwrap().is_default);
}

#[test]
fn explorer_picks_named_then_default_then_first_provider() {
    let mut store = Store::empty();
    assert_eq!(choose_provider(&store, None).unwrap_err(), ExplorerError::NoProviders);
    assert_eq!(ExplorerError::NoProviders.message(), "No providers configured");
    store.add_provider(provider("a", None));
    store.add_provider(provider("b", None));
    assert_eq!(choose_provider(&store, None).unwrap().name(), "a");
    store.add_provider(provider("c", Some(true)));
    assert_eq!(choose_provider(&store, None).unwrap().name(), "c");
    assert_eq!(choose_provider(&store, Some("b")).unwrap().name(), "b");
    assert_eq!(choose_provider(&store, Some("z")).unwrap_err(), ExplorerError::ProviderNotFound);
    assert_eq!(ExplorerError::ProviderNotFound.message(), "Provider not found.");
}

#[test]
fn new_provider_is_default_only_when_first() {
    let mut headers = KeyValues::new();
    headers.insert("dmtr-api-key", "SECRET-REDACTED");
    let p = new_provider(
        Name::try_from("demeter").unwrap(),
        true,
        None,
        NetworkKind::Testnet,
        "https://u5c".to_string(),
        headers,
        None,
        Some(KeyValues::new()),
    );
    assert!(p.is_default());
    assert!(p.is_testnet());
    assert_eq!(p.headers.as_ref().unwrap().get("dmtr-api-key").unwrap(), "SECRET-REDACTED");
    assert!(p.trp_headers.is_none());

    let q = new_provider(
        Name::try_from("other").unwrap(),
        false,
        None,
        NetworkKind::Mainnet,
        "https://u5c".to_string(),
        KeyValues::new(),
        Some("https://trp".to_string()),
        Some(KeyValues::new()),
    );
    assert!(!q.is_default());
    assert!(!q.is_testnet());
    assert!(q.headers.is_none());
    assert!(q.trp_headers.is_none());
    assert_eq!(q.trp_url.as_deref(), Some("https://trp"));

    let asked = new_provider(
        Name::try_from("asked").unwrap(),
        false,
        Some(true),
        NetworkKind::Mainnet,
        "https://u5c".to_string(),
        KeyValues::new(),
        None,
        None,
    );
    assert!(asked.is_default());
    let declined = new_provider(
        Name::try_from("declined").unwrap(),
        true,
        Some(false),
        NetworkKind::Mainnet,
        "https://u5c".to_string(),
        KeyValues::new(),
        None,
        None,
    );
    assert!(!declined.is_default());
}

#[test]
fn edited_provider_drops_empty_resolver() {
    let p = edited_provider(
        Name::try_from("x").unwrap(),
        false,
        NetworkKind::Mainnet,
        "https://u5c".to_string(),
        KeyValues::new(),
        String::new(),
        KeyValues::new(),
    );
    assert!(p.trp_url.is_none());
    assert!(p.headers.is_none());
    assert!(p.trp_headers.is_none());
}

#[test]
fn provider_parameters_hold_url_and_headers() {
    let mut p = provider("local", None);
    let mut headers = KeyValues::new();
    headers.insert("k", "v");
    p.headers = Some(headers);
    match p.parameters() {
        Some(Json::Object(fields)) => {
            assert_eq!(fields.len(), 2);
            assert_eq!(fields[0].0, "url");
            assert!(matches!(&fields[0].1, Json::String(u) if u == "https://local.example"));
            assert_eq!(fields[1].0, "headers");
        }
        _ => panic!("parameters are an object"),
    }
}

#[test]
fn headers_parse_and_format() {
    let pairs = parse_header_pairs("a:1,b:2", false).unwrap();
    assert_eq!(pairs, vec![("a".to_string(), "1".to_string()), ("b".to_string(), "2".to_string())]);
    assert_eq!(parse_header_pairs("a:1,,b:2", false), Err(HeaderError::Invalid));
    assert_eq!(parse_header_pairs("a:1,,b:2", true).unwrap().len(), 2);
    assert_eq!(parse_header_pairs("novalue", false), Err(HeaderError::Invalid));
    assert_eq!(parse_header_pairs("", false), Err(HeaderError::Invalid));
    assert_eq!(parse_header_pairs("", true).unwrap().len(), 0);
    let map = parse_headers("a:1,a:3", false).unwrap();
    assert_eq!(map.get("a").unwrap(), "3");
    assert_eq!(map.len(), 1);
}

#[test]
fn headers_round_trip() {
    let mut h = KeyValues::new();
    h.insert("x-api-key", "abc");
    h.insert("accept", "json");
    let text = format_headers(&h);
    assert_eq!(text, "x-api-key:abc,accept:json");
    let back = parse_headers(&text, false).unwrap();
    assert!(back.same(&h));
}

#[test]
fn key_values_keep_first_position_and_last_value() {
    let mut kv = KeyValues::new();
    assert!(kv.is_empty());
    kv.insert("a", "1");
    kv.insert("b", "2");
    kv.insert("a", "3");
    assert_eq!(kv.len(), 2);
    assert_eq!(kv.entries()[0], ("a".to_string(), "3".to_string()));
    let from = KeyValues::from_pairs(&vec![("k".to_string(), "1".to_string()), ("k".to_string(), "2".to_string())]);
    assert_eq!(from.get("k").unwrap(), "2");
    assert!(kv.get("c").is_none());
}

#[test]
fn report_builders() {
    let r = ErrorReport::new("boom".to_string(), "test".to_string())
        .with_detail("k", "v")
        .with_detail("k", "w")
        .with_help("try again")
        .with_code(7)
        .with_logs(vec!["l1".to_string()]);
    assert_eq!(r.message, "boom");
    assert_eq!(r.kind, "test");
    assert_eq!(r.details.get("k").unwrap(), "w");
    assert_eq!(r.help.as_deref(), Some("try again"));
    assert_eq!(r.code, Some(7));
    assert_eq!(r.logs, vec!["l1".to_string()]);
}

#[test]
fn report_of_resolver_failures() {
    let r = ErrorReport::from_trp(TrpFailure::HttpError(503, "unavailable".to_string()));
    assert_eq!(r.kind, "http");
    assert_eq!(r.code, Some(2));
    assert_eq!(r.details.get("status").unwrap(), "503");
    let r = ErrorReport::from_trp(TrpFailure::InputNotResolved {
        name: "source".to_string(),
        address: "addr1".to_string(),
        min_amount: "5".to_string(),
        refs: "[]".to_string(),
        collateral: true,
        support_many: false,
    });
    assert_eq!(r.message, "Input not resolved");
    assert_eq!(r.details.get("query.collateral").unwrap(), "true");
    assert_eq!(r.details.get("query.support_many").unwrap(), "false");
    let r = ErrorReport::from_trp(TrpFailure::UnsupportedTir { expected: "v1".to_string(), provided: "v0".to_string() });
    assert!(r.help.is_some());
    let r = ErrorReport::from_trp(TrpFailure::TxScriptFailure(vec!["trace".to_string()]));
    assert_eq!(r.logs, vec!["trace".to_string()]);
    let r = ErrorReport::from_rpc(RpcFailure::GrpcError("denied".to_string()));
    assert_eq!((r.message.as_str(), r.kind.as_str()), ("denied", "grpc"));
}

#[test]
fn tii_references_are_normalized() {
    assert_eq!(normalize_tii_ref(NAMESPACED_BYTES_REF), Some(CORE_BYTES_REF));
    assert_eq!(normalize_tii_ref(NAMESPACED_ADDRESS_REF), Some(CORE_ADDRESS_REF));
    assert_eq!(normalize_tii_ref(NAMESPACED_UTXO_REF), Some(CORE_UTXO_REF));
    assert_eq!(normalize_tii_ref(CORE_BYTES_REF), None);
    assert_eq!(normalize_tii_ref("https://tx3.land/specs/v1beta0/tii#/$defs/Unknown"), None);
}

fn reference(r: &str) -> Json {
    Json::Object(vec![("$ref".to_string(), Json::String(r.to_string()))])
}

fn params(bytes: &str, address: &str, utxo: &str) -> Json {
    Json::Object(vec![(
        "properties".to_string(),
        Json::Object(vec![
            ("payload".to_string(), reference(bytes)),
            ("recipient".to_string(), reference(address)),
            ("source_utxo".to_string(), Json::Array(vec![reference(utxo)])),
        ]),
    )])
}

fn refs_of(v: &Json, out: &mut Vec<String>) {
    match v {
        Json::Object(fields) => {
            for (k, x) in fields {
                if k == "$ref" {
                    if let Json::String(s) = x {
                        out.push(s.clone());
                    }
                }
                refs_of(x, out);
            }
        }
        Json::Array(items) => items.iter().for_each(|i| refs_of(i, out)),
        _ => {}
    }
}

#[test]
fn namespaced_interface_refs_become_core_refs() {
    let mut v = params(NAMESPACED_BYTES_REF, NAMESPACED_ADDRESS_REF, NAMESPACED_UTXO_REF);
    normalize_tii_json_refs(&mut v);
    let mut found = Vec::new();
    refs_of(&v, &mut found);
    assert_eq!(found, vec![CORE_BYTES_REF.to_string(), CORE_ADDRESS_REF.to_string(), CORE_UTXO_REF.to_string()]);
}

#[test]
fn legacy_core_refs_are_kept() {
    let v = normalized(params(CORE_BYTES_REF, CORE_ADDRESS_REF, CORE_UTXO_REF));
    let mut found = Vec::new();
    refs_of(&v, &mut found);
    assert_eq!(found, vec![CORE_BYTES_REF.to_string(), CORE_ADDRESS_REF.to_string(), CORE_UTXO_REF.to_string()]);
}

#[test]
fn unknown_refs_are_left_alone_and_normalizing_twice_changes_nothing() {
    let unknown = "https://tx3.land/specs/v1beta0/tii#/$defs/Unknown";
    let once = normalized(params(NAMESPACED_BYTES_REF, CORE_ADDRESS_REF, unknown));
    let mut first = Vec::new();
    refs_of(&once, &mut first);
    assert_eq!(first, vec![CORE_BYTES_REF.to_string(), CORE_ADDRESS_REF.to_string(), unknown.to_string()]);
    let twice = normalized(once);
    let mut second = Vec::new();
    refs_of(&twice, &mut second);
    assert_eq!(first, second);
}

#[test]
fn invocation_arguments() {
    assert_eq!(args_source(true, true), Err(ArgsError::BothInlineAndFile));
    assert_eq!(args_source(true, false), Ok(ArgsSource::Inline));
    assert_eq!(args_source(false, true), Ok(ArgsSource::File));
    assert_eq!(args_source(false, false), Ok(ArgsSource::Nothing));
    assert_eq!(ArgsError::BothInlineAndFile.message(), "cannot use both inline and file args");
    assert!(matches!(args_object(Json::Null), Err(ArgsError::NotAnObject)));
    assert_eq!(args_object(Json::Object(vec![("q".to_string(), Json::Bool(true))])).unwrap().len(), 1);
    assert!(matches!(integer_arg("12"), Ok(Json::Number(n)) if n == "12"));
    assert!(matches!(integer_arg("x"), Err(ArgsError::InvalidInteger)));
}

#[test]
fn generated_tx3_source() {
    let program = Program { txs: vec![TxDef { name: "other".to_string(), inputs: vec![], outputs: vec![] }] };
    let mut builder = TransactionBuilder::new("transfer".to_string(), program);
    assert_eq!(builder.def_index, 1);
    builder.add_input(ref_input("source".to_string(), vec![0xab, 0xcd], 2, 5000000));
    builder.add_output(pay_output(Some("dest".to_string()), "addr1xyz".to_string(), 1000000));
    builder.add_output(pay_output(None, "addr1abc".to_string(), -1));
    let text = builder.generate_tx3_content();
    assert_eq!(
        text,
        "tx transfer() {\n\tinput source {\n\t\tref: 0xabcd#2,\n\t\tmin_amount: Ada(5000000),\n\t}\n\n\toutput dest {\n\t\tto: \"addr1xyz\",\n\t\tamount: Ada(1000000),\n\t}\n\n\toutput {\n\t\tto: \"addr1abc\",\n\t\tamount: Ada(-1),\n\t}\n\n}\n"
    );
}

#[test]
fn builder_reuses_an_existing_definition() {
    let program = Program { txs: vec![TxDef { name: "transfer".to_string(), inputs: vec![], outputs: vec![] }] };
    let builder = TransactionBuilder::new("transfer".to_string(), program);
    assert_eq!(builder.def_index, 0);
    assert_eq!(builder.ast.txs.len(), 1);
}

fn utxo(tx: Vec<u8>, index: u64, coin: u64, datum: Option<Vec<u8>>) -> QueriedUtxo {
    QueriedUtxo {
        tx_hash: tx,
        index,
        coin,
        assets: vec![QueriedMultiasset {
            policy_id: vec![0x01],
            assets: vec![QueriedAsset { name: b"tok".to_vec(), output_coin: index }],
        }],
        datum_hash: datum,
    }
}

#[test]
fn balance_sums_coins_and_collects_assets_and_datums() {
    let us = vec![utxo(vec![2], 0, 1_500_000, Some(vec![9])), utxo(vec![1], 1, 500_000, Some(vec![]))];
    assert_eq!(sum_coins(&us), Some(2_000_000));
    let b = balance_from_utxos("addr1", &us);
    assert_eq!(b.address, "addr1");
    assert_eq!(b.coin, "2000000");
    assert_eq!(b.assets.len(), 2);
    assert_eq!(b.assets[1].assets[0].quantity, "1");
    assert_eq!(b.datums.len(), 1);
    assert_eq!(b.datums[0].hash, vec![9]);
}

#[test]
fn coin_sum_overflow_is_reported() {
    let us = vec![utxo(vec![1], 0, u64::MAX, None), utxo(vec![2], 0, 1, None)];
    assert_eq!(sum_coins(&us), None);
}

#[test]
fn detailed_balance_is_ordered_by_transaction_and_stable() {
    let us = vec![
        utxo(vec![2], 0, 10, None),
        utxo(vec![1, 5], 7, 20, Some(vec![3])),
        utxo(vec![1], 3, 30, None),
        utxo(vec![2], 1, 40, None),
    ];
    let d = detailed_balance_from_utxos("addr1", &us);
    let order: Vec<(Vec<u8>, u64)> = d.iter().map(|u| (u.tx.clone(), u.tx_index)).collect();
    assert_eq!(order, vec![(vec![1], 3), (vec![1, 5], 7), (vec![2], 0), (vec![2], 1)]);
    assert_eq!(d[1].coin, "20");
    assert_eq!(d[1].datum.as_ref().unwrap().hash, vec![3]);
    assert_eq!(d[0].address, "addr1");
}

#[test]
fn hex_errors_name_the_problem() {
    assert_eq!(parse_utxo_ref("a#1"), Err(RefError::InvalidHash(HexError::OddLength)));
    assert_eq!(parse_utxo_ref("0g#1"), Err(RefError::InvalidHash(HexError::InvalidHexCharacter { c: 'g', index: 1 })));
}

#[test]
fn wizard_answers_for_inputs() {
    assert!(is_done("DoNe"));
    assert!(!is_done("done!"));
    assert!(!is_done("gone"));
    let b = input_from_answers("in".to_string(), "abcd#1", "5").unwrap();
    assert_eq!(b.name, "in");
    assert!(matches!(&b.fields[0], InputField::Ref(Expr::UtxoRef { txid, index }) if *txid == vec![0xab, 0xcd] && *index == 1));
    assert!(matches!(&b.fields[1], InputField::MinAmount(Expr::Asset { asset_name, .. }) if asset_name == "Ada"));
    assert_eq!(input_from_answers("in".to_string(), "abcd", "5").unwrap_err(), InputAnswerError::InvalidFormat);
    assert!(matches!(input_from_answers("in".to_string(), "zz#1", "5"), Err(InputAnswerError::InvalidTxid(_))));
    assert_eq!(input_from_answers("in".to_string(), "ab#x", "5").unwrap_err(), InputAnswerError::InvalidIndex);
    assert_eq!(input_from_answers("in".to_string(), "ab#1", "x").unwrap_err(), InputAnswerError::InvalidMinAmount);
}

#[test]
fn wizard_answers_for_outputs() {
    let address = "addr_test1vz2fxv2umyhttkxyxp8x0dlpdt3k6cwng5pxj3jhsydzerspjrlsz";
    let o = output_from_answers(Some("pay".to_string()), address, "1000000").unwrap();
    assert_eq!(o.name.as_deref(), Some("pay"));
    assert!(matches!(&o.fields[0], OutputField::To(Expr::Text(t)) if t == address));
    assert!(matches!(&o.fields[1], OutputField::Amount(Expr::Asset { amount, .. }) if matches!(**amount, Expr::Number(1000000))));
    assert_eq!(output_from_answers(None, "nonsense", "1").unwrap_err(), OutputAnswerError::InvalidAddress);
    assert_eq!(output_from_answers(None, address, "1.5").unwrap_err(), OutputAnswerError::InvalidAmount);
    assert_eq!(
        output_from_answers(None, "Ae2tdPwUPEZFRbyhz3cpfC2CumGzNkFBN2L42rcUc2yjQpEkxDbkPodpMAi", "1").unwrap_err(),
        OutputAnswerError::NoBech32
    );
}

#[test]
fn detailed_balances_compare_by_their_outputs() {
    let us = vec![utxo(vec![2], 0, 10, None), utxo(vec![1], 3, 30, Some(vec![4]))];
    let a = detailed_balance_from_utxos("addr1", &us);
    let b = detailed_balance_from_utxos("addr1", &us);
    assert!(same_detailed_balance(&a, &b));
    assert!(same_utxo(&a[0], &b[0]));
    assert!(!same_utxo(&a[0], &b[1]));
    let other = detailed_balance_from_utxos("addr2", &us);
    assert!(!same_detailed_balance(&a, &other));
    let fewer = detailed_balance_from_utxos("addr1", &vec![utxo(vec![2], 0, 10, None)]);
    assert!(!same_detailed_balance(&a, &fewer));
    assert!(same_bytes(&vec![1, 2], &vec![1, 2]));
    assert!(!same_bytes(&vec![1, 2], &vec![1, 3]));
    assert!(!same_bytes(&vec![1], &vec![1, 2]));
}

#[test]
fn demeter_key_header_is_read() {
    let map = parse_headers("dmtr-api-key:YOUR_API_KEY", false).unwrap();
    assert_eq!(map.len(), 1);
    assert_eq!(map.get("dmtr-api-key").unwrap(), "YOUR_API_KEY");
}

#[test]
fn printed_report_lines() {
    let r = ErrorReport::new("boom".to_string(), "test".to_string())
        .with_detail("a", "1")
        .with_detail("b", "2")
        .with_help("try again")
        .with_logs(vec!["l1".to_string(), "l2".to_string()]);
    assert_eq!(
        r.printed_lines(),
        vec![
            "\u{2757}\u{fe0f} error: boom",
            "   details:",
            "   \u{2219} a: 1",
            "   \u{2219} b: 2",
            "\u{1f4a1} try again",
            "   logs:",
            "   \u{2023} l1",
            "   \u{2023} l2",
            "",
        ]
    );
    let plain = ErrorReport::new("oops".to_string(), "k".to_string());
    assert_eq!(plain.printed_lines(), vec!["\u{2757}\u{fe0f} error: oops", ""]);
}
