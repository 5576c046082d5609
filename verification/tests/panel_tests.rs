use cshell::explorer::{BlockTx, ChainBlock, ChainState, ExplorerWallet, TxOutputSummary};
use cshell::follow::{restart_delays, retry_step, tip_event, RetryStep, TipChange};
use cshell::followed::ExplorerWallets;
use cshell::screen::{AppEvent, ConnectionState};
use cshell::panels::{search_box, utxo_rows, AccountsTab, BlocksTab, DetailsPanel, FieldLook, TransactionsTab};
use cshell::screen::{InputField, NewViewAddress};
use cshell::tabs::{InputMode, Key};
use cshell::types::{Datum, UTxO};
use cshell::utils::Name;

fn tx(hash: Vec<u8>, certificates: usize, outputs: Vec<(u64, usize, Option<Vec<u8>>)>) -> BlockTx {
    BlockTx {
        hash,
        certificates,
        outputs: outputs
            .into_iter()
            .map(|(coin, asset_policies, datum_hash)| TxOutputSummary { coin, asset_policies, datum_hash })
            .collect(),
    }
}

fn chain() -> ChainState {
    ChainState {
        tip: Some(120),
        blocks: vec![
            ChainBlock {
                slot: 120,
                hash: vec![0xbe, 0xef],
                number: 9,
                tx_count: 2,
                body: Some(vec![
                    tx(vec![0xab, 0x01], 2, vec![(5, 1, None), (7, 2, Some(vec![0x0d]))]),
                    tx(vec![0x02], 0, vec![(1, 0, None)]),
                ]),
            },
            ChainBlock { slot: 100, hash: vec![0x01], number: 8, tx_count: 0, body: None },
            ChainBlock { slot: 90, hash: vec![0x00], number: 7, tx_count: 1, body: Some(vec![tx(vec![0xab, 0x02], 1, vec![])]) },
        ],
    }
}

fn utxo(tx: Vec<u8>, index: u64, coin: &str, datum: Option<Vec<u8>>) -> UTxO {
    UTxO {
        tx,
        tx_index: index,
        address: "addr1".to_string(),
        coin: coin.to_string(),
        assets: vec![],
        datum: datum.map(|hash| Datum { hash }),
    }
}

#[test]
fn blocks_table_rows_are_framed_and_striped() {
    let c = chain();
    let tab = BlocksTab::new(&c);
    let rows = tab.rows();
    assert_eq!(rows.len(), 3);
    assert_eq!(rows[0].cells, vec!["\n120\n", "\nbeef\n", "\n9\n", "\n2\n"]);
    assert!(rows[0].striped);
    assert!(!rows[1].striped);
    assert!(rows[2].striped);
    assert_eq!(rows[1].cells[1], "\n01\n");
}

#[test]
fn transactions_table_lists_every_transaction_without_a_search() {
    let c = chain();
    let rows = TransactionsTab::new(&c).rows("").unwrap();
    assert_eq!(rows.len(), 3);
    assert_eq!(rows[0].cells, vec!["\nab01\n", "\n120\n", "\n2\n", "\n3\n", "\n12\n", "\nyes\n"]);
    assert_eq!(rows[1].cells, vec!["\n02\n", "\n120\n", "\n0\n", "\n0\n", "\n1\n", "\nno\n"]);
    assert_eq!(rows[2].cells[0], "\nab02\n");
    assert_eq!(rows[2].cells[1], "\n90\n");
    assert_eq!(rows.iter().map(|r| r.striped).collect::<Vec<_>>(), vec![true, false, true]);
}

#[test]
fn transactions_table_search_by_hash_or_slot() {
    let c = chain();
    let tab = TransactionsTab::new(&c);
    let by_hash = tab.rows("^ab").unwrap();
    assert_eq!(by_hash.iter().map(|r| r.cells[0].clone()).collect::<Vec<_>>(), vec!["\nab01\n", "\nab02\n"]);
    assert!(by_hash[0].striped);
    assert!(!by_hash[1].striped);
    let by_slot = tab.rows("^9").unwrap();
    assert_eq!(by_slot.len(), 1);
    assert_eq!(by_slot[0].cells[0], "\nab02\n");
    assert!(tab.rows("zz").unwrap().is_empty());
    assert!(tab.rows("(").is_none());
}

#[test]
fn search_field_shows_a_cursor_while_edited() {
    assert_eq!(search_box("ab", InputMode::Normal), ("ab".to_string(), " Search | press f to filter "));
    assert_eq!(search_box("ab", InputMode::Editing), ("ab\u{2502}".to_string(), " Search | press ESC to leave "));
}

#[test]
fn outputs_table_rows() {
    let rows = utxo_rows(&vec![utxo(vec![0x0a], 3, "42", Some(vec![1, 2, 3, 4, 5, 6])), utxo(vec![0x0b], 0, "7", None)]);
    assert_eq!(rows[0].cells, vec!["\n0a\n", "\n3\n", "\n42\n", "\n0\n", "\n01...506\n"]);
    assert_eq!(rows[1].cells[4], "\n[Empty]\n");
    assert!(!rows[0].striped);
}

#[test]
fn accounts_list_and_details() {
    let mut wallets = ExplorerWallets::new();
    wallets.insert_wallet(
        "addr_test1qz2fxv2umyhttkxyxp8x0dlpdt3k6cwng5pxj3jhsydzer3n0d3vllmyqwsx5wktcd8cc3sq835lu7drv2xwl2wywfgs68faae"
            .to_string(),
        Name::try_from("alice").unwrap(),
        Some(vec![utxo(vec![1], 0, "1500000", None), utxo(vec![2], 1, "500000", None)]),
    );
    wallets.insert_wallet("addr2".to_string(), Name::try_from("bob").unwrap(), None);
    let tab = AccountsTab::new(&wallets);
    let items = tab.items();
    assert_eq!(items[0], ("alice".to_string(), "addr_tes...fgs68faae".to_string()));
    assert_eq!(items[1], ("bob".to_string(), "addr2".to_string()));
    assert!(matches!(tab.details(None), DetailsPanel::Prompt("Select a wallet to show its balance")));
    let DetailsPanel::Wallet(d) = tab.details(Some(2)) else { panic!("expected a wallet") };
    assert_eq!(d.lines[0], "alice wallet");
    assert_eq!(d.lines[2], "Balance: 2000000 Lovelace");
    assert_eq!(d.rows.len(), 2);
    let DetailsPanel::Wallet(d) = tab.details(Some(1)) else { panic!("expected a wallet") };
    assert_eq!(d.lines, vec!["bob wallet", "Address: addr2", "Balance: 0 Lovelace"]);
    assert!(d.rows.is_empty());
}

#[test]
fn new_address_popup_panel() {
    let mut p = NewViewAddress::new();
    let panel = p.panel();
    assert_eq!(panel.name_text, "\u{2502}");
    assert_eq!(panel.name_look, FieldLook::Focused);
    assert_eq!(panel.address_text, "");
    assert_eq!(panel.address_look, FieldLook::Plain);
    assert!(panel.messages.is_empty());
    assert!(!panel.success);
    p.handle_key(Key::Enter);
    let panel = p.panel();
    assert_eq!(panel.name_look, FieldLook::Refused);
    assert_eq!(panel.address_look, FieldLook::Refused);
    assert_eq!(panel.messages, vec!["Type a valid name", "Invalid bech32 address"]);
    p.handle_key(Key::Tab);
    assert_eq!(p.focused, InputField::Address);
    let panel = p.panel();
    assert_eq!(panel.address_text, "\u{2502}");
    assert_eq!(panel.name_text, "");
}

#[test]
fn followed_wallets_keep_one_entry_per_address() {
    let mut w = ExplorerWallets::new();
    w.insert_wallet("addr_a".to_string(), Name::try_from("a").unwrap(), None);
    w.insert_wallet("addr_b".to_string(), Name::try_from("b").unwrap(), Some(vec![utxo(vec![1], 0, "5", None)]));
    assert_eq!(w.len(), 2);
    assert!(w.entry(0).1.balance.is_empty());
    assert_eq!(w.find("addr_b"), Some(1));
    assert_eq!(w.find("addr_c"), None);
    w.insert_wallet("addr_a".to_string(), Name::try_from("renamed").unwrap(), Some(vec![utxo(vec![2], 1, "9", None)]));
    assert_eq!(w.len(), 2);
    assert_eq!(w.entry(0).0, "addr_a");
    assert_eq!(w.entry(0).1.name.as_str(), "renamed");
    assert_eq!(w.entry(0).1.balance[0].coin, "9");
}

#[test]
fn balances_are_refreshed_only_when_they_change() {
    let mut w = ExplorerWallets::new();
    w.insert_wallet("addr_a".to_string(), Name::try_from("a").unwrap(), Some(vec![utxo(vec![1], 0, "5", None)]));
    assert!(!w.refresh_balance("addr_a", vec![utxo(vec![1], 0, "5", None)]));
    assert!(w.refresh_balance("addr_a", vec![utxo(vec![1], 0, "6", None)]));
    assert_eq!(w.entry(0).1.balance[0].coin, "6");
    assert_eq!(w.entry(0).1.name.as_str(), "a");
    assert!(!w.refresh_balance("addr_x", vec![]));
    w.update_balance("addr_x", vec![]);
    assert_eq!(w.len(), 1);
    w.update_balance("addr_a", vec![]);
    assert!(w.entry(0).1.balance.is_empty());
    let tab = AccountsTab::new(&w);
    assert_eq!(tab.items()[0].0, "a");
}

#[test]
fn tip_stream_blocks_become_events() {
    let body = Some(vec![tx(vec![1], 0, vec![]), tx(vec![2], 0, vec![])]);
    match tip_event(TipChange::Apply, 50, vec![0xaa], 4, body) {
        AppEvent::NewTip(b) => {
            assert_eq!((b.slot, b.number, b.tx_count), (50, 4, 2));
            assert_eq!(b.hash, vec![0xaa]);
            assert_eq!(b.body.unwrap().len(), 2);
        }
        _ => panic!("expected a new tip"),
    }
    match tip_event(TipChange::Undo, 50, vec![0xaa], 4, Some(vec![tx(vec![1], 0, vec![])])) {
        AppEvent::UndoTip(b) => {
            assert_eq!(b.tx_count, 1);
            assert!(b.body.is_none());
        }
        _ => panic!("expected a rollback"),
    }
    match tip_event(TipChange::Apply, 1, vec![], 1, None) {
        AppEvent::NewTip(b) => assert_eq!(b.tx_count, 0),
        _ => panic!("expected a new tip"),
    }
}

#[test]
fn retries_after_the_stream_fails() {
    assert_eq!(restart_delays(ConnectionState::Connected), (true, ConnectionState::Retrying));
    assert_eq!(restart_delays(ConnectionState::Retrying), (false, ConnectionState::Retrying));
    assert_eq!(retry_step(Some(1500)), (RetryStep::Wait(1500), None));
    assert_eq!(retry_step(None), (RetryStep::GiveUp, Some(ConnectionState::Disconnected)));
}
