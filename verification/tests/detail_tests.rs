use cshell::detail::{
    build_tree_items, map_cert, map_metadatum, map_native_script, map_plutus_data, map_redeemer, map_tx_input, map_tx_output,
    AssetValue, BigIntValue, CertificateValue, CredentialValue, DRepValue, DatumValue, MetadatumValue, MultiassetValue,
    NativeScriptValue, PlutusDatum, RedeemerValue, ScriptValue, TransactionsDetail, TreeNode, TxDetail, TxInputValue, TxOutputValue,
};
use cshell::output::{asset_rows, balance_heading, block_cells, cardano_tx_rows, datum_rows, tx_cells, utxo_heading, TxCounts};
use cshell::refs::{block_ref, next_history_start};
use cshell::explorer::{ChainBlock, TxView};
use cshell::signing::{
    address_choices, arg_value, check_signer, confirm_question, confirm_unsafe, needs_password, only_transaction,
    password_help, question_for, question_label, unsupported_param_message, ArgAnswer, ArgQuestion, ArgValueError,
    ParamKind, SignerError,
};
use cshell::store::Store;
use cshell::tii::Json;
use cshell::types::{Asset, Balance, BalanceAsset, Datum, UTxO};
use cshell::utils::Name;
use cshell::wallet::Wallet;

fn ids(n: &TreeNode) -> Vec<String> {
    n.children.iter().map(|c| c.id.clone()).collect()
}

fn texts(n: &TreeNode) -> Vec<String> {
    n.children.iter().map(|c| c.text.clone()).collect()
}

#[test]
fn plutus_constructor_lines() {
    let d = PlutusDatum::Constr {
        tag: 121,
        any_constructor: 0,
        fields: vec![PlutusDatum::BigInt(BigIntValue::Int(-5)), PlutusDatum::BoundedBytes(vec![0xca, 0xfe])],
    };
    let t = map_plutus_data(&d, "r");
    assert_eq!(t.id, "plutus_constr_r");
    assert_eq!(t.text, "Constr");
    assert_eq!(ids(&t), vec!["constr_tag_r", "constr_any_r", "constr_fields_r"]);
    assert_eq!(texts(&t)[0], "Tag: 121");
    let fields = &t.children[2];
    assert_eq!(ids(fields), vec!["plutus_bigint_r_0", "plutus_bytes_r_1"]);
    assert_eq!(texts(fields), vec!["Int: -5", "Bounded Bytes: cafe"]);
}

#[test]
fn plutus_map_and_missing_lines() {
    let d = PlutusDatum::Pairs(vec![(Some(PlutusDatum::Missing), None)]);
    let t = map_plutus_data(&d, "x");
    assert_eq!(t.id, "plutus_map_x");
    let pair = &t.children[0];
    assert_eq!(pair.id, "map_pair_x_0");
    assert_eq!(pair.text, "Pair 0");
    assert_eq!(ids(pair), vec!["plutus_none_x_0_key", "x_0_value"]);
    assert_eq!(texts(pair), vec!["PlutusData: None", "Value: None"]);
    let empty = map_plutus_data(&PlutusDatum::Constr { tag: 1, any_constructor: 2, fields: vec![] }, "e");
    assert_eq!(empty.children.len(), 2);
    let big = map_plutus_data(&PlutusDatum::BigInt(BigIntValue::BigNInt(vec![1])), "b");
    assert_eq!(big.text, "BigNInt: 01");
}

#[test]
fn metadata_lines() {
    let m = MetadatumValue::Array(vec![
        MetadatumValue::Text("hi".to_string()),
        MetadatumValue::Pairs(vec![(Some(MetadatumValue::Int(3)), Some(MetadatumValue::Bytes(vec![0xff])))]),
    ]);
    let t = map_metadatum(&m, "0");
    assert_eq!(t.id, "metadatum_array_0");
    assert_eq!(ids(&t), vec!["metadatum_text_0_0", "metadatum_map_0_1"]);
    let pair = &t.children[1].children[0];
    assert_eq!(pair.id, "metadatum_pair_0_1_0");
    assert_eq!(texts(pair), vec!["Int: 3", "Bytes: ff"]);
}

#[test]
fn native_script_lines() {
    let s = NativeScriptValue::ScriptNOfK {
        k: 1,
        scripts: vec![NativeScriptValue::InvalidBefore(10), NativeScriptValue::ScriptPubkey(vec![0xab])],
    };
    let t = map_native_script(&s, "n");
    assert_eq!(t.text, "N of K");
    assert_eq!(ids(&t), vec!["n_of_k_n", "invalid_before_n_0", "script_pubkey_n_1"]);
    assert_eq!(texts(&t), vec!["K: 1", "Invalid Before: 10", "Pubkey: ab"]);
}

fn redeemer() -> RedeemerValue {
    RedeemerValue { purpose: 9, index: 2, original_cbor: vec![0x01], ex_units: Some((100, 200)), payload: None }
}

#[test]
fn redeemer_lines() {
    let t = map_redeemer(&Some(redeemer()), "q");
    assert_eq!(t.id, "redeemer_q");
    assert_eq!(texts(&t), vec!["Purpose: Unknown (9)", "Index: 2", "Original CBOR: 01", "Execution Units"]);
    assert_eq!(texts(&t.children[3]), vec!["Steps: 100", "Memory: 200"]);
    let mut spend = redeemer();
    spend.purpose = 1;
    assert_eq!(map_redeemer(&Some(spend), "s").children[0].text, "Purpose: Spend");
    assert_eq!(map_redeemer(&None, "z").text, "Redeemer: None");
}

fn output() -> TxOutputValue {
    TxOutputValue {
        address: vec![0xff, 0x00],
        coin: 42,
        assets: vec![MultiassetValue {
            policy_id: vec![0xaa],
            assets: vec![AssetValue { name: b"coin".to_vec(), mint_coin: -1, output_coin: 5 }, AssetValue { name: vec![0xff], mint_coin: 0, output_coin: 1 }],
            redeemer: None,
        }],
        datum: Some(DatumValue { hash: vec![0x0d], payload: None, original_cbor: vec![] }),
        script: Some(ScriptValue::PlutusV2(vec![0x01])),
    }
}

#[test]
fn output_lines() {
    let t = map_tx_output(&output(), 3, "tx");
    assert_eq!(t.id, "output_tx_3");
    assert_eq!(t.text, "tx#3");
    assert_eq!(ids(&t), vec!["output_tx_3_address", "output_tx_3_coin", "output_tx_3_assets", "datum_3", "script_3"]);
    assert_eq!(texts(&t)[0], "Address: decoded fail");
    assert_eq!(texts(&t)[1], "Coin: 42");
    let policy = &t.children[2].children[0];
    assert_eq!(policy.id, "output_policy_aa_0");
    assert_eq!(texts(policy), vec!["Asset: coin", "Asset:  - ", "Redeemer: None"]);
    assert_eq!(ids(&policy.children[0]), vec!["output_asset_mintcoin_aa_0_0", "output_asset_outputcoin_aa_0_0"]);
    assert_eq!(texts(&policy.children[0]), vec!["Mint Coin: -1", "Output Coin: 5"]);
    assert_eq!(texts(&t.children[3]), vec!["Datum Hash: 0d", "Original CBOR: "]);
    assert_eq!(t.children[4].text, "Plutus V2 Script");
}

#[test]
fn output_address_is_shown_when_it_decodes() {
    let mut o = output();
    o.address = vec![
        0x60, 0x94, 0x93, 0x31, 0x5c, 0xd9, 0x2e, 0xb5, 0xd8, 0xc4, 0x30, 0x4e, 0x67, 0xb7, 0xe1, 0x6a, 0xe3, 0x6d, 0x61,
        0xd3, 0x45, 0x02, 0x69, 0x46, 0x57, 0x81, 0x1a, 0x2c, 0x8e,
    ];
    let t = map_tx_output(&o, 0, "h");
    assert!(t.children[0].text.starts_with("Address: addr_test1v"));
}

#[test]
fn input_lines() {
    let i = TxInputValue { tx_hash: vec![0xab], output_index: 1, as_output: Some(output()), redeemer: None };
    let t = map_tx_input(&i, "0", "tx");
    assert_eq!(t.id, "input_tx_0");
    assert_eq!(t.text, "ab#1");
    assert_eq!(ids(&t), vec!["input_hash_0", "input_index_0", "input_as_output_tx_0", "redeemer_0"]);
    assert_eq!(t.children[2].children[0].id, "output_tx_1");
}

#[test]
fn certificate_lines() {
    let certs = vec![
        CertificateValue::StakeDelegation { credential: Some(CredentialValue::AddrKeyHash(vec![0x01])), pool_keyhash: vec![0x02] },
        CertificateValue::VoteDeleg { credential: None, drep: DRepValue::Abstain },
        CertificateValue::PoolRegistration {
            operator: vec![1],
            vrf_keyhash: vec![2],
            pledge: 3,
            cost: 4,
            reward_account: vec![5],
            margin: Some((1, 100)),
            pool_owners: vec![vec![6]],
            relays: vec!["Relay(a)".to_string()],
            pool_metadata: None,
        },
        CertificateValue::Unknown,
    ];
    let t = map_cert(&certs);
    assert_eq!(t.id, "certificates");
    assert_eq!(ids(&t), vec!["stake_delegation_0", "vote_delegation_1", "pool_registration_2", "unknown_cert_3"]);
    assert_eq!(ids(&t.children[0]), vec!["pool_keyhash_0", "Key Hash: 01"]);
    assert_eq!(texts(&t.children[1]), vec!["DRep: Abstain"]);
    assert_eq!(
        ids(&t.children[2]),
        vec!["pool_operator_2", "vrf_keyhash_2", "pledge_2", "cost_2", "reward_account_2", "margin_2", "pool_owners_2", "relays_2"]
    );
    assert_eq!(t.children[2].children[5].text, "Margin: 1/100");
    assert_eq!(t.children[2].children[6].children[0].id, "owner_2_0");
    assert_eq!(t.children[3].text, "Unknown Certificate");
}

#[test]
fn transaction_detail_lines() {
    let tx = TxDetail {
        hash: vec![0x0f],
        fee: 170000,
        inputs: vec![TxInputValue { tx_hash: vec![1], output_index: 0, as_output: None, redeemer: None }],
        outputs: vec![output()],
        reference_inputs: vec![],
        mint: vec![],
        collateral: None,
        withdrawals: vec![],
        witnesses: None,
        validity: None,
        auxiliary: None,
        certificates: vec![],
    };
    let items = build_tree_items(&tx, "ab", 5, 6);
    let names: Vec<String> = items.iter().map(|i| i.id.clone()).collect();
    assert_eq!(names, vec!["tx_hash_info", "tx_fee_info", "block_info", "inputs", "outputs", "witness_set_0", "validity_0"]);
    assert_eq!(items[0].text, "Hash: 0f");
    assert_eq!(items[1].text, "Fee: 170000");
    assert_eq!(texts(&items[2]), vec!["Hash: 6162", "Slot: 5", "Height: 6"]);
    assert_eq!(items[3].children[0].id, "input_0f_0");
    assert_eq!(items[4].children[0].id, "output_0f_0");
    assert_eq!(items[5].text, "Witness Set: None");
}

fn store_with_wallets() -> Store {
    let mut store = Store::empty();
    store.add_wallet(Wallet { name: Name::try_from("safe").unwrap(), is_default: true, is_unsafe: false });
    store.add_wallet(Wallet { name: Name::try_from("hot").unwrap(), is_default: false, is_unsafe: true });
    store
}

#[test]
fn signers_are_checked() {
    let store = store_with_wallets();
    let (w, confirm) = check_signer(&store, "safe", false).unwrap();
    assert_eq!(w.name.as_str(), "safe");
    assert!(!confirm);
    assert!(needs_password(w));
    let (w, confirm) = check_signer(&store, "hot", false).unwrap();
    assert!(confirm);
    assert!(!needs_password(w));
    let (_, confirm) = check_signer(&store, "hot", true).unwrap();
    assert!(!confirm);
    match check_signer(&store, "ghost", false) {
        Err(e @ SignerError::InvalidSigner(_)) => assert_eq!(e.message(), "invalid signer wallet 'ghost'"),
        _ => panic!("unknown signer"),
    }
    match confirm_unsafe("hot", false) {
        Err(e) => assert_eq!(e.message(), "wallet 'hot' is unsafe, use the param --unsafe to allow unsafe signatures"),
        Ok(()) => panic!("refused"),
    }
    assert!(confirm_unsafe("hot", true).is_ok());
    assert_eq!(confirm_question("hot"), "wallet 'hot' is unsafe, confirm sign?");
    assert_eq!(password_help(&Name::try_from("safe").unwrap()), "The spending password for 'safe' wallet:");
}

#[test]
fn missing_arguments_are_asked_and_read() {
    assert_eq!(question_for(ParamKind::Integer), Some((ArgQuestion::Text, "Enter an integer value")));
    assert_eq!(question_for(ParamKind::Boolean), Some((ArgQuestion::Confirm, "")));
    assert_eq!(question_for(ParamKind::Other), None);
    assert_eq!(question_label("amount"), "amount:");
    assert_eq!(unsupported_param_message("x"), "tx3 arg x is of a type not supported via CLI");
    assert!(matches!(arg_value(ParamKind::Integer, ArgAnswer::Text("10".to_string())), Ok(Json::Number(n)) if n == "10"));
    assert!(matches!(arg_value(ParamKind::Integer, ArgAnswer::Text("ten".to_string())), Err(ArgValueError::InvalidInteger)));
    assert!(matches!(arg_value(ParamKind::Boolean, ArgAnswer::Flag(true)), Ok(Json::Bool(true))));
    assert!(matches!(arg_value(ParamKind::Bytes, ArgAnswer::Text("00ff".to_string())), Ok(Json::String(s)) if s == "00ff"));
    assert!(matches!(arg_value(ParamKind::Other, ArgAnswer::Text("x".to_string())), Err(ArgValueError::Unsupported)));
    assert_eq!(ArgValueError::InvalidInteger.message(), "invalid integer value");
    assert!(matches!(
        arg_value(ParamKind::Address, ArgAnswer::Text("ADDR_TEST1VZ2FXV2UMYHTTKXYXP8X0DLPDT3K6CWNG5PXJ3JHSYDZERSPJRLSZ".to_string())),
        Ok(Json::String(s)) if s == "addr_test1vz2fxv2umyhttkxyxp8x0dlpdt3k6cwng5pxj3jhsydzerspjrlsz"
    ));
    assert!(matches!(arg_value(ParamKind::Address, ArgAnswer::Text("nope".to_string())), Err(ArgValueError::InvalidAddress)));
    assert_eq!(ArgValueError::InvalidAddress.message(), "invalid bech32 address");
    let choices = address_choices(&store_with_wallets());
    assert_eq!(choices, vec!["safe".to_string(), "hot".to_string(), "custom address".to_string()]);
    assert!(address_choices(&Store::empty()).is_empty());
    assert_eq!(only_transaction(&vec!["demo".to_string()]), Some("demo".to_string()));
    assert_eq!(only_transaction(&vec!["a".to_string(), "b".to_string()]), None);
}

#[test]
fn printed_balance_lines_and_rows() {
    let b = Balance {
        address: "addr1".to_string(),
        coin: "7".to_string(),
        assets: vec![BalanceAsset {
            policy_id: vec![0xaa],
            assets: vec![Asset { name: vec![0x61], quantity: "3".to_string() }, Asset { name: vec![0x62], quantity: "4".to_string() }],
        }],
        datums: vec![Datum { hash: vec![0x0d] }],
    };
    assert_eq!(balance_heading(&b), ("Balance for address: addr1".to_string(), "  Lovelace: 7 ADA".to_string()));
    assert_eq!(
        asset_rows(&b.assets),
        vec![("aa".to_string(), "61".to_string(), "3".to_string()), ("aa".to_string(), "62".to_string(), "4".to_string())]
    );
    assert_eq!(datum_rows(&b), vec!["0d".to_string()]);
    let u = UTxO { tx: vec![0x01], tx_index: 2, address: "addr1".to_string(), coin: "9".to_string(), assets: vec![], datum: Some(Datum { hash: vec![0xee] }) };
    assert_eq!(utxo_heading(&u), vec!["* 01#2".to_string(), "  * Lovelace: 9".to_string(), "  * Datum: ee".to_string()]);
    let blk = ChainBlock { slot: 1, hash: vec![0xff], number: 2, tx_count: 3, body: None };
    assert_eq!(block_cells(&blk), ("1".to_string(), "ff".to_string(), "2".to_string(), "3".to_string()));
    let row = TxView {
        hash: "ab".to_string(),
        certs: 1,
        assets: 2,
        amount_ada: 3,
        datum: true,
        tx: None,
        block_slot: 4,
        block_height: 5,
        block_hash: String::new(),
    };
    assert_eq!(tx_cells(&row), vec!["ab", "4", "1", "2", "3", "yes"]);
}

#[test]
fn search_table_rows() {
    let txs = vec![
        TxCounts { hash: vec![0x01], inputs: 2, output_datums: vec![None, Some(vec![])], certificates: 1, reference_inputs: 0 },
        TxCounts { hash: vec![0x02], inputs: 1, output_datums: vec![Some(vec![0x09])], certificates: 0, reference_inputs: 3 },
    ];
    let rows = cardano_tx_rows(Some(vec![0xaa, 0xbb, 0xcc, 0xdd, 0xee]), &txs);
    assert_eq!(rows[0], vec!["aabb...ddee", "0", "01", "2", "2", "1", "0", "empty"]);
    assert_eq!(rows[1], vec!["aabb...ddee", "1", "02", "1", "1", "0", "3", "contain"]);
    let plain = cardano_tx_rows(None, &txs);
    assert_eq!(plain[0][0], "");
}

#[test]
fn block_references_and_history_pages() {
    assert_eq!(block_ref(7, "ab"), (vec![0x61, 0x62], 7));
    assert_eq!(next_history_start(true, Some((vec![1], 2))), Some((vec![1], 2)));
    assert_eq!(next_history_start(false, Some((vec![1], 2))), None);
    assert_eq!(next_history_start(true, None), None);
}

#[test]
fn detail_view_of_a_table_row() {
    let tx = TxDetail {
        hash: vec![0xab, 0x01],
        fee: 2,
        inputs: vec![],
        outputs: vec![],
        reference_inputs: vec![],
        mint: vec![],
        collateral: None,
        withdrawals: vec![],
        witnesses: None,
        validity: None,
        auxiliary: None,
        certificates: vec![],
    };
    let row = TxView {
        hash: "ab01".to_string(),
        certs: 0,
        assets: 0,
        amount_ada: 0,
        datum: false,
        tx: None,
        block_slot: 77,
        block_height: 8,
        block_hash: "ff".to_string(),
    };
    let detail = TransactionsDetail::new(&tx, &row);
    assert_eq!(detail.items[0].text, "Hash: ab01");
    assert_eq!(detail.items[1].text, "Fee: 2");
    assert_eq!(texts(&detail.items[2]), vec!["Hash: 6666", "Slot: 77", "Height: 8"]);
    assert!(detail.items[3].children.is_empty());
}
