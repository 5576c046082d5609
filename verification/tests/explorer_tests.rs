use cshell::explorer::{filter_tx_views, get_last_slots, keep_flagged, BlockTx, ChainBlock, ChainState, ExplorerWallet, TxOutputSummary, TxView};
use cshell::screen::{activity_color, activity_title, header_lines, shift_activity, ActivityColor, AppEvent, ConnectionState, Explorer, Footer, HelpPopup, InputField, NewViewAddress, Popup, SelectedTab};
use cshell::tabs::{detail_tree_action, selected_wallet, KeyKind, TreeAction, AccountsTabState, BlocksTabState, InputMode, Key, KeyPress, RowCursor, TransactionsTabState, ViewMode};
use cshell::utils::Name;

fn block(slot: u64, number: u64, tx_count: usize) -> ChainBlock {
    ChainBlock { slot, hash: vec![slot as u8], number, tx_count, body: None }
}

fn press(code: Key) -> KeyPress {
    KeyPress { code, shift: false, kind: KeyKind::Press }
}

fn shifted(code: Key) -> KeyPress {
    KeyPress { code, shift: true, kind: KeyKind::Press }
}

#[test]
fn chain_keeps_newest_block_first() {
    let mut chain = ChainState::new();
    chain.handle_new_tip(block(10, 1, 0));
    chain.handle_new_tip(block(12, 2, 3));
    assert_eq!(chain.tip, Some(12));
    assert_eq!(chain.blocks.iter().map(|b| b.slot).collect::<Vec<_>>(), vec![12, 10]);
    chain.handle_reset(5);
    assert_eq!(chain.tip, Some(5));
    assert_eq!(chain.blocks.len(), 2);
}

#[test]
fn rollback_drops_lower_blocks_in_order() {
    let mut chain = ChainState::new();
    for (slot, number) in [(1, 1), (2, 2), (3, 3), (4, 4)] {
        chain.handle_new_tip(block(slot, number, 0));
    }
    chain.handle_undo_tip(block(3, 3, 0));
    assert_eq!(chain.tip, Some(3));
    assert_eq!(chain.blocks.iter().map(|b| b.number).collect::<Vec<_>>(), vec![4, 3]);
}

#[test]
fn activity_chart_places_blocks_by_slot() {
    let blocks = vec![block(10, 2, 2), block(8, 1, 0)];
    assert_eq!(get_last_slots(&blocks, 5), vec![0, 0, 1, 0, 3]);
    assert_eq!(get_last_slots(&Vec::new(), 4), vec![0, 0, 0, 0]);
}

#[test]
fn activity_chart_drops_slots_out_of_range_and_slot_zero() {
    let blocks = vec![block(3, 2, 1), block(0, 1, 5)];
    assert_eq!(get_last_slots(&blocks, 4), vec![0, 0, 0, 2]);
    let blocks = vec![block(100, 3, 0), block(50, 2, 7)];
    assert_eq!(get_last_slots(&blocks, 3), vec![0, 0, 1]);
}

#[test]
fn activity_chart_later_duplicate_wins() {
    let blocks = vec![block(5, 3, 1), block(5, 2, 4)];
    assert_eq!(get_last_slots(&blocks, 2), vec![0, 5]);
}

fn tx(hash: Vec<u8>, certificates: usize, outputs: Vec<(u64, usize, Option<Vec<u8>>)>) -> BlockTx {
    BlockTx {
        hash,
        certificates,
        outputs: outputs
            .into_iter()
            .map(|(coin, asset_policies, datum_hash)| TxOutputSummary { coin, asset_policies, datum_hash })
            .collect(),
    }
}

#[test]
fn rows_summarise_transactions() {
    let b = ChainBlock {
        slot: 77,
        hash: vec![0xbe, 0xef],
        number: 9,
        tx_count: 2,
        body: Some(vec![
            tx(vec![0x01], 2, vec![(5, 1, None), (7, 2, Some(vec![]))]),
            tx(vec![0x02], 0, vec![(1, 0, Some(vec![0xaa]))]),
        ]),
    };
    let rows = TxView::new(&b);
    assert_eq!(rows.len(), 2);
    assert_eq!(rows[0].hash, "01");
    assert_eq!(rows[0].certs, 2);
    assert_eq!(rows[0].assets, 3);
    assert_eq!(rows[0].amount_ada, 12);
    assert!(!rows[0].datum);
    assert!(rows[1].datum);
    assert_eq!(rows[1].block_hash, "beef");
    assert_eq!(rows[1].block_slot, 77);
    assert_eq!(rows[1].block_height, 9);
    assert!(rows[0].tx.is_none());
    let full = TxView::new_with_tx(&b);
    assert_eq!(full[1].tx.as_ref().unwrap().outputs[0].coin, 1);
    assert!(TxView::new(&block(1, 1, 0)).is_empty());
}

fn row(hash: &str, slot: u64) -> TxView {
    TxView {
        hash: hash.to_string(),
        certs: 0,
        assets: 0,
        amount_ada: 0,
        datum: false,
        tx: None,
        block_slot: slot,
        block_height: 0,
        block_hash: String::new(),
    }
}

#[test]
fn search_filters_by_hash_or_slot() {
    let rows = vec![row("abcd", 100), row("ef01", 205), row("9999", 300)];
    let found = filter_tx_views(rows, "^ab|05$").unwrap();
    assert_eq!(found.iter().map(|r| r.hash.clone()).collect::<Vec<_>>(), vec!["abcd".to_string(), "ef01".to_string()]);
    let all = filter_tx_views(vec![row("x", 1)], "").unwrap();
    assert_eq!(all.len(), 1);
    assert!(filter_tx_views(vec![row("x", 1)], "(").is_none());
}

#[test]
fn flags_keep_rows_in_order() {
    let rows = vec![row("a", 1), row("b", 2), row("c", 3)];
    let kept = keep_flagged(rows, &vec![true, false, true]);
    assert_eq!(kept.iter().map(|r| r.hash.clone()).collect::<Vec<_>>(), vec!["a".to_string(), "c".to_string()]);
}

#[test]
fn row_cursor_moves() {
    let mut c = RowCursor::new();
    c.next_row();
    assert_eq!((c.selected, c.position), (Some(0), 0));
    c.next_row();
    c.next_row();
    assert_eq!((c.selected, c.position), (Some(2), 6));
    c.previous_row();
    assert_eq!((c.selected, c.position), (Some(1), 3));
    c.first_row();
    c.previous_row();
    assert_eq!((c.selected, c.position), (Some(0), 0));
    c.last_row();
    assert_eq!((c.selected, c.position), (Some(usize::MAX), usize::MAX));
}

#[test]
fn previous_row_undoes_next_row() {
    let mut c = RowCursor { selected: Some(4), position: 12 };
    c.next_row();
    c.previous_row();
    assert_eq!(c, RowCursor { selected: Some(4), position: 12 });
}

#[test]
fn blocks_tab_keys() {
    let mut s = BlocksTabState::new();
    s.handle_key(press(Key::Char('j')));
    s.handle_key(press(Key::Down));
    assert_eq!(s.rows.selected, Some(1));
    s.handle_key(shifted(Key::Up));
    assert_eq!(s.rows.selected, Some(0));
    s.handle_key(shifted(Key::Char('J')));
    assert_eq!(s.rows.selected, Some(usize::MAX));
    s.handle_key(shifted(Key::Char('K')));
    s.handle_key(press(Key::Char('x')));
    assert_eq!(s.rows.selected, Some(0));
    s.update_scroll_state(4);
    assert_eq!(s.scroll_length, 10);
}

#[test]
fn search_field_editing() {
    let mut s = TransactionsTabState::new();
    s.handle_key(press(Key::Char('f')));
    assert_eq!(s.input_mode, InputMode::Editing);
    for c in "acd".chars() {
        s.handle_key(press(Key::Char(c)));
    }
    assert_eq!(s.input, "acd");
    s.handle_key(press(Key::Char('j')));
    assert_eq!(s.input, "acdj");
    assert_eq!(s.rows.selected, None);
    s.handle_key(press(Key::Backspace));
    assert_eq!(s.input, "acd");
    s.handle_key(press(Key::Enter));
    assert_eq!(s.input_mode, InputMode::Normal);
    assert_eq!(s.rows.selected, Some(0));
    s.handle_key(press(Key::Enter));
    assert_eq!(s.view_mode, ViewMode::Detail);
    s.handle_key(press(Key::Esc));
    assert_eq!(s.view_mode, ViewMode::Normal);
    s.handle_key(press(Key::Esc));
    assert_eq!(s.input, "");
}

#[test]
fn backspace_right_after_typing_restores_the_search() {
    let mut s = TransactionsTabState::new();
    s.input = "héllo".to_string();
    s.handle_key(press(Key::Char('/')));
    s.handle_key(press(Key::Char('x')));
    assert_eq!(s.input, "héllox");
    s.handle_key(press(Key::Backspace));
    assert_eq!(s.input, "héllo");
}

#[test]
fn enter_on_an_empty_search_selects_the_first_row() {
    let mut s = TransactionsTabState::new();
    s.handle_key(press(Key::Char('f')));
    s.handle_key(press(Key::Backspace));
    assert_eq!(s.input, "");
    s.handle_key(press(Key::Enter));
    assert_eq!(s.input_mode, InputMode::Normal);
    assert_eq!(s.rows.selected, Some(0));
    s.update_scroll_state(0);
    assert_eq!(s.scroll_length, 0);
    s.update_scroll_state(3);
    assert_eq!(s.scroll_length, 7);
}

#[test]
fn accounts_tab_focus() {
    let mut s = AccountsTabState::new();
    s.handle_key(press(Key::Char('l')));
    assert!(!s.focus_on_table);
    s.handle_key(press(Key::Down));
    assert_eq!(s.list_selected, Some(0));
    s.handle_key(press(Key::Right));
    assert!(s.focus_on_table);
    assert_eq!(s.table_selected, Some(0));
    s.handle_key(press(Key::Char('j')));
    assert_eq!(s.table_selected, Some(1));
    s.handle_key(press(Key::Char('h')));
    assert!(!s.focus_on_table);
    assert_eq!(s.table_selected, None);
    s.handle_key(press(Key::Up));
    assert_eq!(s.list_selected, Some(0));
    let mut t = AccountsTabState::new();
    t.handle_key(press(Key::Char('k')));
    assert_eq!(t.list_selected, Some(usize::MAX));
    assert_eq!(selected_wallet(Some(7), 3), Some(1));
    assert_eq!(selected_wallet(None, 0), None);
}

#[test]
fn tabs_cycle() {
    assert_eq!(SelectedTab::Accounts.next(), SelectedTab::Blocks);
    assert_eq!(SelectedTab::Accounts.previous(), SelectedTab::Transactions);
    for t in [SelectedTab::Accounts, SelectedTab::Blocks, SelectedTab::Transactions] {
        assert_eq!(t.next().previous(), t);
        assert_eq!(t.next().next().next(), t);
    }
    assert_eq!(SelectedTab::Transactions.title(), "Txs");
    assert_eq!(ConnectionState::Retrying.text(), "retrying");
    assert_eq!(Footer::new().text(), "Press ? for help");
    let _ = HelpPopup::new();
}

#[test]
fn new_address_popup_refuses_bad_input() {
    let mut p = NewViewAddress::new();
    assert!(p.handle_key(Key::Enter).is_none());
    assert_eq!(p.name_error.as_deref(), Some("Type a valid name"));
    assert_eq!(p.address_error.as_deref(), Some("Invalid bech32 address"));
    p.handle_key(Key::Char('w'));
    assert!(p.name_error.is_none());
    assert_eq!(p.name_input, "w");
    p.handle_key(Key::Tab);
    assert_eq!(p.focused, InputField::Address);
    for c in "nope".chars() {
        p.handle_key(Key::Char(c));
    }
    p.handle_key(Key::Backspace);
    assert_eq!(p.address_input, "nop");
    assert!(p.handle_key(Key::Enter).is_none());
    assert!(p.name_error.is_none());
    assert_eq!(p.focused, InputField::Address);
}

#[test]
fn new_address_popup_accepts_an_address() {
    let address = "addr_test1vz2fxv2umyhttkxyxp8x0dlpdt3k6cwng5pxj3jhsydzerspjrlsz";
    let mut p = NewViewAddress::new();
    p.handle_key(Key::Char('a'));
    p.handle_key(Key::Tab);
    for c in address.chars() {
        p.handle_key(Key::Char(c));
    }
    let (added, name) = p.handle_key(Key::Enter).unwrap();
    assert_eq!(added, address);
    assert_eq!(name.as_str(), "a");
    assert_eq!(p.success_message.as_deref(), Some("\u{2714} Added address: addr_tes...erspjrlsz..."));
    assert_eq!(p.name_input, "");
    assert_eq!(p.address_input, "");
    assert_eq!(p.focused, InputField::Name);
}

#[test]
fn explorer_keys_and_events() {
    let mut e = Explorer::new();
    e.handle_key(press(Key::Tab));
    assert_eq!(e.selected_tab, SelectedTab::Blocks);
    e.handle_key(press(Key::Char('j')));
    assert_eq!(e.blocks_tab.rows.selected, Some(0));
    e.handle_key(press(Key::Char('?')));
    assert!(matches!(e.popup, Some(Popup::Help(_))));
    e.handle_key(press(Key::Char('q')));
    assert!(!e.done);
    e.handle_key(press(Key::Esc));
    assert!(e.popup.is_none());
    e.handle_key(press(Key::BackTab));
    assert_eq!(e.selected_tab, SelectedTab::Accounts);
    e.handle_key(press(Key::Char('i')));
    assert!(matches!(e.popup, Some(Popup::NewViewAddress(_))));
    e.handle_key(press(Key::Char('q')));
    match &e.popup {
        Some(Popup::NewViewAddress(w)) => assert_eq!(w.name_input, "q"),
        _ => panic!("the popup stays open"),
    }
    e.handle_key(press(Key::Esc));
    e.handle_key(press(Key::Char('q')));
    assert!(e.done);

    e.handle_event(AppEvent::NewTip(block(10, 1, 0)));
    e.handle_event(AppEvent::NewTip(block(11, 2, 0)));
    assert_eq!(e.blocks_tab.scroll_length, 4);
    e.handle_event(AppEvent::UndoTip(block(11, 2, 0)));
    assert_eq!(e.chain.blocks.len(), 1);
    assert_eq!(e.blocks_tab.scroll_length, 1);
    e.handle_event(AppEvent::State(ConnectionState::Connected));
    assert_eq!(e.connection, ConnectionState::Connected);
    e.handle_event(AppEvent::Reset(3));
    assert_eq!(e.chain.tip, Some(3));
}

#[test]
fn explorer_wallet_starts_without_outputs() {
    let w = ExplorerWallet::new(Name::try_from("w").unwrap());
    assert_eq!(w.name.as_str(), "w");
    assert!(w.balance.is_empty());
}

#[test]
fn header_lines_follow_the_connection() {
    assert_eq!(header_lines(None, "demo", false), vec![" CShell Explorer "]);
    assert_eq!(header_lines(Some(1234), "demo", false), vec![" CShell Explorer ", " Tip: 1234 ", " Provider: demo "]);
    assert_eq!(header_lines(Some(1234), "demo", true), vec![" CShell Explorer ", " Disconnected ", " Provider: demo "]);
}

#[test]
fn activity_colour_and_title() {
    assert_eq!(activity_color(-3), ActivityColor::Green);
    assert_eq!(activity_color(20), ActivityColor::Green);
    assert_eq!(activity_color(21), ActivityColor::Yellow);
    assert_eq!(activity_color(30), ActivityColor::Yellow);
    assert_eq!(activity_color(31), ActivityColor::Red);
    assert_eq!(activity_title(None), "Chain Activity ");
    assert_eq!(activity_title(Some(7)), "Chain Activity | Updated 7 seconds ago");
    assert_eq!(activity_title(Some(-2)), "Chain Activity | Updated -2 seconds ago");
}

#[test]
fn activity_chart_shifts_left_by_the_elapsed_seconds() {
    let points = vec![1, 2, 3, 4];
    assert_eq!(shift_activity(&points, 0), vec![1, 2, 3, 4]);
    assert_eq!(shift_activity(&points, -5), vec![1, 2, 3, 4]);
    assert_eq!(shift_activity(&points, 1), vec![2, 3, 4, 0]);
    assert_eq!(shift_activity(&points, 3), vec![4, 0, 0, 0]);
    assert_eq!(shift_activity(&points, 9), vec![0, 0, 0, 0]);
}

#[test]
fn tab_positions() {
    assert_eq!(SelectedTab::Accounts.index(), 0);
    assert_eq!(SelectedTab::Blocks.index(), 1);
    assert_eq!(SelectedTab::Transactions.index(), 2);
}

#[test]
fn detail_tree_keys() {
    assert_eq!(detail_tree_action(Key::Enter), Some(TreeAction::Toggle));
    assert_eq!(detail_tree_action(Key::Char('h')), Some(TreeAction::Left));
    assert_eq!(detail_tree_action(Key::Right), Some(TreeAction::Right));
    assert_eq!(detail_tree_action(Key::Char('j')), Some(TreeAction::Down));
    assert_eq!(detail_tree_action(Key::Up), Some(TreeAction::Up));
    assert_eq!(detail_tree_action(Key::Char('x')), None);
    assert_eq!(detail_tree_action(Key::Esc), None);
}

#[test]
fn help_popup_text() {
    let h = HelpPopup::new();
    assert_eq!(h.title(), " Help | press ESC to go back ");
    let lines = h.lines();
    assert_eq!(lines.len(), 17);
    assert_eq!(lines[1], "  q   : Quit CShell");
    assert_eq!(lines[16], "  i   : Add a temp account address");
}

#[test]
fn only_key_presses_count() {
    let mut e = Explorer::new();
    e.handle_key(KeyPress { code: Key::Tab, shift: false, kind: KeyKind::Release });
    assert_eq!(e.selected_tab, SelectedTab::Accounts);
    e.handle_key(KeyPress { code: Key::Char('q'), shift: false, kind: KeyKind::Repeat });
    assert!(!e.done);
    e.handle_key(press(Key::Tab));
    assert_eq!(e.selected_tab, SelectedTab::Blocks);
}

#[test]
fn new_address_popup_returns_the_canonical_address() {
    let mut p = NewViewAddress::new();
    p.handle_key(Key::Char('b'));
    p.handle_key(Key::Tab);
    for c in "ADDR_TEST1VZ2FXV2UMYHTTKXYXP8X0DLPDT3K6CWNG5PXJ3JHSYDZERSPJRLSZ".chars() {
        p.handle_key(Key::Char(c));
    }
    let (added, _) = p.handle_key(Key::Enter).unwrap();
    assert_eq!(added, "addr_test1vz2fxv2umyhttkxyxp8x0dlpdt3k6cwng5pxj3jhsydzerspjrlsz");
    assert_eq!(p.success_message.as_deref(), Some("\u{2714} Added address: ADDR_TES...ERSPJRLSZ..."));
}
