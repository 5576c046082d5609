//! The explorer's screen: which tab is shown, the popups, the state of the
//! connection, and how keys and chain events change them.

use vstd::prelude::*;
use vstd::string::*;
use vstd::utf8::*;
use crate::explorer::{ChainBlock, ChainState, kept_after_undo};
use crate::tabs::{
    AccountsTabState, BlocksTabState, Key, KeyKind, KeyPress, TransactionsTabState, accounts_after_key,
    blocks_after_key, blocks_key_fits, scroll_length, transactions_after_key, transactions_key_fits,
};
use crate::utils::{Name, clip, clip_spec, push_char, take_chars, take_prefix};

verus! {

/// The tab shown.
#[derive(Debug, Clone, Copy, PartialEq, Eq, Structural)]
pub enum SelectedTab {
    Accounts,
    Blocks,
    Transactions,
}

impl SelectedTab {
    /// The tab to the left, wrapping around.
    pub fn previous(&self) -> (r: SelectedTab)
        ensures
            r == previous_tab(*self),
    {
        match self {
            SelectedTab::Accounts => SelectedTab::Transactions,
            SelectedTab::Blocks => SelectedTab::Accounts,
            SelectedTab::Transactions => SelectedTab::Blocks,
        }
    }

    /// The tab to the right, wrapping around.
    pub fn next(&self) -> (r: SelectedTab)
        ensures
            r == next_tab(*self),
    {
        match self {
            SelectedTab::Accounts => SelectedTab::Blocks,
            SelectedTab::Blocks => SelectedTab::Transactions,
            SelectedTab::Transactions => SelectedTab::Accounts,
        }
    }

    /// The tab's title.
    pub fn title(&self) -> (r: &'static str)
        ensures
            r@ == tab_title(*self),
    {
        match self {
            SelectedTab::Accounts => "Accounts",
            SelectedTab::Blocks => "Blocks",
            SelectedTab::Transactions => "Txs",
        }
    }
}

/// The tab to the right of `t`.
pub open spec fn next_tab(t: SelectedTab) -> SelectedTab {
    match t {
        SelectedTab::Accounts => SelectedTab::Blocks,
        SelectedTab::Blocks => SelectedTab::Transactions,
        SelectedTab::Transactions => SelectedTab::Accounts,
    }
}

/// The tab to the left of `t`.
pub open spec fn previous_tab(t: SelectedTab) -> SelectedTab {
    match t {
        SelectedTab::Accounts => SelectedTab::Transactions,
        SelectedTab::Blocks => SelectedTab::Accounts,
        SelectedTab::Transactions => SelectedTab::Blocks,
    }
}

/// A tab's title.
pub open spec fn tab_title(t: SelectedTab) -> Seq<char> {
    match t {
        SelectedTab::Accounts => "Accounts"@,
        SelectedTab::Blocks => "Blocks"@,
        SelectedTab::Transactions => "Txs"@,
    }
}

/// Moving one tab left undoes moving one tab right and the other way
/// round, and three moves in one direction come back to the same tab.
pub proof fn law_tab_cycle(t: SelectedTab)
    ensures
        previous_tab(next_tab(t)) == t,
        next_tab(previous_tab(t)) == t,
        next_tab(next_tab(next_tab(t))) == t,
        previous_tab(previous_tab(previous_tab(t))) == t,
{
}

/// The state of the connection to the chain.
#[derive(Debug, Clone, Copy, PartialEq, Eq, Structural)]
pub enum ConnectionState {
    Connecting,
    Connected,
    Retrying,
    Disconnected,
}

impl ConnectionState {
    /// The state as shown in the header.
    pub fn text(&self) -> (r: &'static str)
        ensures
            r@ == connection_text(*self),
    {
        match self {
            ConnectionState::Connecting => "connecting",
            ConnectionState::Connected => "connected",
            ConnectionState::Retrying => "retrying",
            ConnectionState::Disconnected => "disconnected",
        }
    }
}

/// The state of a connection as shown in the header.
pub open spec fn connection_text(s: ConnectionState) -> Seq<char> {
    match s {
        ConnectionState::Connecting => "connecting"@,
        ConnectionState::Connected => "connected"@,
        ConnectionState::Retrying => "retrying"@,
        ConnectionState::Disconnected => "disconnected"@,
    }
}

/// What the chain follower reports.
pub enum AppEvent {
    /// The chain was reset to a slot.
    Reset(u64),
    /// A block was applied.
    NewTip(ChainBlock),
    /// A block was rolled back.
    UndoTip(ChainBlock),
    /// The connection changed.
    State(ConnectionState),
}

/// The line at the bottom of the screen.
#[derive(Debug, Clone, Copy)]
pub struct Footer {}

impl Footer {
    pub fn new() -> (r: Footer) {
        Footer {}
    }

    /// The footer's text.
    pub fn text(&self) -> (r: &'static str)
        ensures
            r@ == "Press ? for help"@,
    {
        "Press ? for help"
    }
}

/// The popup listing the keys.
#[derive(Debug, Clone, Copy)]
pub struct HelpPopup {}

impl HelpPopup {
    pub fn new() -> (r: HelpPopup) {
        HelpPopup {}
    }

    /// The title of the popup.
    pub fn title(&self) -> (r: &'static str)
        ensures
            r@ == " Help | press ESC to go back "@,
    {
        " Help | press ESC to go back "
    }

    /// The lines of the popup: the general keys, then those to navigate,
    /// search and add an account, each group after a blank line.
    pub fn lines(&self) -> (r: Vec<&'static str>)
        ensures
            r@.map_values(|l: &str| l@) == help_lines(),
    {
        let lines: Vec<&'static str> = vec![
            "",
            "  q   : Quit CShell",
            "  esc : Go back or close popup",
            "  ?   : Show this help",
            "",
            "Navigation",
            "  Tab | shift + Tab     : Scroll through tabs",
            "  j | \u{1F883}         : Scroll down",
            "  k | \u{1F881}         : Scroll up",
            "  j | \u{1F883} + Shift : Scroll to bottom",
            "  k | \u{1F881} + Shift : Scroll to top",
            "",
            "Search",
            "  f | / : Focus on filter",
            "",
            "Account",
            "  i   : Add a temp account address",
        ];
        assert(lines@.map_values(|l: &str| l@) =~= help_lines());
        lines
    }
}

/// The lines of the help popup.
pub open spec fn help_lines() -> Seq<Seq<char>> {
    seq![
        ""@,
        "  q   : Quit CShell"@,
        "  esc : Go back or close popup"@,
        "  ?   : Show this help"@,
        ""@,
        "Navigation"@,
        "  Tab | shift + Tab     : Scroll through tabs"@,
        "  j | \u{1F883}         : Scroll down"@,
        "  k | \u{1F881}         : Scroll up"@,
        "  j | \u{1F883} + Shift : Scroll to bottom"@,
        "  k | \u{1F881} + Shift : Scroll to top"@,
        ""@,
        "Search"@,
        "  f | / : Focus on filter"@,
        ""@,
        "Account"@,
        "  i   : Add a temp account address"@,
    ]
}

/// The field of the new-address popup that has the focus.
#[derive(Debug, Clone, Copy, PartialEq, Eq, Structural)]
pub enum InputField {
    Name,
    Address,
}

/// What `pallas` gives for a typed address: `None` when `Address::from_str`
/// refuses it (it takes a bech32, base58 or hex address), else the address
/// as `Address` displays it, its canonical text.
pub uninterp spec fn address_shown(text: Seq<char>) -> Option<Seq<char>>;

/// Whether `pallas` reads the text as an address.
pub open spec fn address_accepted(text: Seq<char>) -> bool {
    address_shown(text) is Some
}

/// Calls `pallas::ledger::addresses::Address::from_str` and then the
/// address's `to_string`: the canonical text of the address, `None` when
/// the text is not an address.
#[verifier::external_body]
fn address_display(text: &str) -> (r: Option<String>)
    ensures
        match r {
            Some(a) => address_shown(text@) == Some(a@),
            None => address_shown(text@) is None,
        },
{
    <pallas::ledger::addresses::Address as std::str::FromStr>::from_str(text).ok().map(|a| a.to_string())
}

/// The popup in which an address is added to the explorer under a name.
#[derive(Debug)]
pub struct NewViewAddress {
    pub name_input: String,
    pub address_input: String,
    pub focused: InputField,
    pub name_error: Option<String>,
    pub address_error: Option<String>,
    pub success_message: Option<String>,
}

/// The message of a refused name.
pub open spec fn name_refused() -> Seq<char> {
    "Type a valid name"@
}

/// The message of a refused address.
pub open spec fn address_refused() -> Seq<char> {
    "Invalid bech32 address"@
}

/// The message after an address was added.
pub open spec fn added_message(address: Seq<char>) -> Seq<char> {
    "\u{2714} Added address: "@ + clip_spec(address, 20) + "..."@
}

/// A text without its last character.
pub open spec fn without_last(s: Seq<char>) -> Seq<char> {
    if s.len() == 0 { s } else { s.drop_last() }
}

/// An optional text as values.
pub open spec fn opt_text(s: Option<String>) -> Option<Seq<char>> {
    match s {
        Some(t) => Some(t@),
        None => None,
    }
}

/// The new-address popup as values.
pub struct NewViewAddressView {
    pub name_input: Seq<char>,
    pub address_input: Seq<char>,
    pub focused: InputField,
    pub name_error: Option<Seq<char>>,
    pub address_error: Option<Seq<char>>,
    pub success_message: Option<Seq<char>>,
}

impl View for NewViewAddress {
    type V = NewViewAddressView;

    open spec fn view(&self) -> NewViewAddressView {
        NewViewAddressView {
            name_input: self.name_input@,
            address_input: self.address_input@,
            focused: self.focused,
            name_error: opt_text(self.name_error),
            address_error: opt_text(self.address_error),
            success_message: opt_text(self.success_message),
        }
    }
}

/// The popup after a key: Tab moves the focus, characters are typed in the
/// focused field (clearing its error), Backspace deletes the last one, and
/// Enter checks both fields: with a name and an address, the inputs are
/// cleared and a success message shown; otherwise each refused field gets
/// its message and the focus goes to the refused one.
pub open spec fn popup_after_key(s: NewViewAddressView, k: Key) -> NewViewAddressView {
    match k {
        Key::Tab | Key::BackTab => NewViewAddressView {
            focused: if s.focused == InputField::Name { InputField::Address } else { InputField::Name },
            ..s
        },
        Key::Char(c) => if s.focused == InputField::Name {
            NewViewAddressView { name_error: None, name_input: s.name_input.push(c), ..s }
        } else {
            NewViewAddressView { address_error: None, address_input: s.address_input.push(c), ..s }
        },
        Key::Backspace => if s.focused == InputField::Name {
            NewViewAddressView { name_input: without_last(s.name_input), ..s }
        } else {
            NewViewAddressView { address_input: without_last(s.address_input), ..s }
        },
        Key::Enter => {
            let name_ok = s.name_input.len() > 0;
            let address_ok = address_accepted(s.address_input);
            if name_ok && address_ok {
                NewViewAddressView {
                    name_input: Seq::empty(),
                    address_input: Seq::empty(),
                    focused: InputField::Name,
                    name_error: None,
                    address_error: None,
                    success_message: Some(added_message(s.address_input)),
                }
            } else if name_ok {
                NewViewAddressView {
                    name_error: None,
                    address_error: Some(address_refused()),
                    success_message: None,
                    focused: InputField::Address,
                    ..s
                }
            } else if address_ok {
                NewViewAddressView {
                    name_error: Some(name_refused()),
                    address_error: None,
                    success_message: None,
                    focused: InputField::Name,
                    ..s
                }
            } else {
                NewViewAddressView {
                    name_error: Some(name_refused()),
                    address_error: Some(address_refused()),
                    success_message: None,
                    ..s
                }
            }
        },
        _ => s,
    }
}

/// Drops the last character of a string.
fn pop_char(s: &String) -> (r: String)
    ensures
        r@ == without_last(s@),
{
    let n = s.as_str().unicode_len();
    if n == 0 {
        String::new()
    } else {
        let r = take_prefix(s.as_str(), n - 1);
        assert(r@ =~= s@.drop_last());
        r
    }
}

impl NewViewAddress {
    /// Empty fields, the focus on the name.
    pub fn new() -> (r: NewViewAddress)
        ensures
            r@ == NewViewAddress::new_view(),
    {
        let r = NewViewAddress {
            name_input: String::new(),
            address_input: String::new(),
            focused: InputField::Name,
            name_error: None,
            address_error: None,
            success_message: None,
        };
        assert(r@.name_input =~= Seq::<char>::empty());
        assert(r@.address_input =~= Seq::<char>::empty());
        r
    }

    /// Handles a key; see `popup_after_key`. When Enter accepts both
    /// fields, the address in its canonical text and the name to add are
    /// returned.
    pub fn handle_key(&mut self, key: Key) -> (r: Option<(String, Name)>)
        ensures
            final(self)@ == popup_after_key(old(self)@, key),
            match r {
                Some((address, name)) => key == Key::Enter && old(self)@.name_input.len() > 0
                    && address_accepted(old(self)@.address_input)
                    && address_shown(old(self)@.address_input) == Some(address@) && name@ == old(self)@.name_input,
                None => !(key == Key::Enter && old(self)@.name_input.len() > 0
                    && address_accepted(old(self)@.address_input)),
            },
    {
        match key {
            Key::Tab | Key::BackTab => {
                self.focused = match self.focused {
                    InputField::Name => InputField::Address,
                    InputField::Address => InputField::Name,
                };
                None
            },
            Key::Char(c) => {
                match self.focused {
                    InputField::Name => {
                        self.name_error = None;
                        push_char(&mut self.name_input, c);
                    },
                    InputField::Address => {
                        self.address_error = None;
                        push_char(&mut self.address_input, c);
                    },
                }
                None
            },
            Key::Backspace => {
                match self.focused {
                    InputField::Name => {
                        self.name_input = pop_char(&self.name_input);
                    },
                    InputField::Address => {
                        self.address_input = pop_char(&self.address_input);
                    },
                }
                None
            },
            Key::Enter => {
                let name = Name::try_from(self.name_input.as_str());
                let shown = address_display(self.address_input.as_str());
                let address_ok = shown.is_some();
                match name {
                    Ok(name) => {
                        if address_ok {
                            let mut address = String::new();
                            std::mem::swap(&mut address, &mut self.address_input);
                            self.name_error = None;
                            self.address_error = None;
                            let mut message = String::from_str("\u{2714} Added address: ");
                            let byte_count = address.as_str().as_bytes().len();
                            assert(byte_count == encode_utf8(address@).len());
                            let clipped = clip(address.as_str(), 20);
                            message.append(clipped.as_str());
                            message.append("...");
                            self.success_message = Some(message);
                            self.name_input = String::new();
                            self.focused = InputField::Name;
                            proof {
                                reveal_strlit("\u{2714} Added address: ");
                                reveal_strlit("...");
                            }
                            match shown {
                                Some(canonical) => Some((canonical, name)),
                                None => None,
                            }
                        } else {
                            self.name_error = None;
                            self.address_error = Some(String::from_str("Invalid bech32 address"));
                            self.success_message = None;
                            self.focused = InputField::Address;
                            None
                        }
                    },
                    Err(_) => {
                        self.name_error = Some(String::from_str("Type a valid name"));
                        if address_ok {
                            self.address_error = None;
                            self.focused = InputField::Name;
                        } else {
                            self.address_error = Some(String::from_str("Invalid bech32 address"));
                        }
                        self.success_message = None;
                        None
                    },
                }
            },
            _ => None,
        }
    }
}

/// The popup shown over the tabs.
pub enum Popup {
    Help(HelpPopup),
    NewViewAddress(NewViewAddress),
}

/// The explorer's screen and what it knows of the chain.
pub struct Explorer {
    pub done: bool,
    pub connection: ConnectionState,
    pub selected_tab: SelectedTab,
    pub popup: Option<Popup>,
    pub chain: ChainState,
    pub accounts_tab: AccountsTabState,
    pub blocks_tab: BlocksTabState,
    pub transactions_tab: TransactionsTabState,
}

/// The tab shown after a key without a popup: Tab moves right and
/// BackTab left.
pub open spec fn tab_after_key(t: SelectedTab, k: KeyPress) -> SelectedTab {
    match k.code {
        Key::Tab => next_tab(t),
        Key::BackTab => previous_tab(t),
        _ => t,
    }
}

/// Whether a key can be handled without overflow by the tab it reaches.
pub open spec fn explorer_key_fits(e: Explorer, k: KeyPress) -> bool {
    e.popup is None ==> match tab_after_key(e.selected_tab, k) {
        SelectedTab::Blocks => blocks_key_fits(e.blocks_tab, k),
        SelectedTab::Transactions => transactions_key_fits(e.transactions_tab@, k),
        SelectedTab::Accounts => true,
    }
}

impl Explorer {
    /// The accounts tab, no popup, not yet connected, no block seen.
    pub fn new() -> (r: Explorer)
        ensures
            !r.done,
            r.connection == ConnectionState::Disconnected,
            r.selected_tab == SelectedTab::Accounts,
            r.popup is None,
            r.chain.tip is None,
            r.chain.blocks@.len() == 0,
    {
        Explorer {
            done: false,
            connection: ConnectionState::Disconnected,
            selected_tab: SelectedTab::Accounts,
            popup: None,
            chain: ChainState::new(),
            accounts_tab: AccountsTabState::new(),
            blocks_tab: BlocksTabState::new(),
            transactions_tab: TransactionsTabState::new(),
        }
    }

    /// Handles a key event; only presses count, and a repeat or release
    /// changes nothing. With a popup open, Esc closes it and other
    /// keys go to it. Otherwise `q` quits, Tab and BackTab change the tab,
    /// `?` opens the help, and the key then goes to the tab shown, where
    /// `i` on the accounts tab opens the new-address popup. When the
    /// new-address popup accepts an address and a name, they are returned.
    pub fn handle_key(&mut self, key: KeyPress) -> (r: Option<(String, Name)>)
        requires
            explorer_key_fits(*old(self), key),
        ensures
            final(self).chain == old(self).chain,
            final(self).connection == old(self).connection,
            key.kind != KeyKind::Press ==> r is None && *final(self) == *old(self),
            key.kind == KeyKind::Press && old(self).popup is Some && key.code == Key::Esc ==> {
                &&& final(self).popup is None
                &&& r is None
                &&& final(self).done == old(self).done
                &&& final(self).selected_tab == old(self).selected_tab
            },
            key.kind == KeyKind::Press && (old(self).popup matches Some(Popup::Help(_))) && key.code != Key::Esc ==> {
                &&& final(self).popup matches Some(Popup::Help(_))
                &&& r is None
                &&& final(self).done == old(self).done
                &&& final(self).selected_tab == old(self).selected_tab
            },
            key.kind == KeyKind::Press && key.code != Key::Esc ==> match old(self).popup {
                Some(Popup::NewViewAddress(w)) => {
                    &&& final(self).popup matches Some(Popup::NewViewAddress(w2))
                        && w2@ == popup_after_key(w@, key.code)
                    &&& match r {
                        Some((address, name)) => key.code == Key::Enter && w@.name_input.len() > 0
                            && address_accepted(w@.address_input)
                            && address_shown(w@.address_input) == Some(address@) && name@ == w@.name_input,
                        None => !(key.code == Key::Enter && w@.name_input.len() > 0
                            && address_accepted(w@.address_input)),
                    }
                    &&& final(self).done == old(self).done
                    &&& final(self).selected_tab == old(self).selected_tab
                },
                _ => true,
            },
            old(self).popup is Some ==> {
                &&& final(self).accounts_tab == old(self).accounts_tab
                &&& final(self).blocks_tab == old(self).blocks_tab
                &&& final(self).transactions_tab@ == old(self).transactions_tab@
            },
            key.kind == KeyKind::Press && old(self).popup is None ==> {
                let tab = tab_after_key(old(self).selected_tab, key);
                &&& r is None
                &&& final(self).done == (old(self).done || key.code == Key::Char('q'))
                &&& final(self).selected_tab == tab
                &&& (tab == SelectedTab::Accounts && key.code == Key::Char('i') ==> (
                    final(self).popup matches Some(Popup::NewViewAddress(w)) && w@ == NewViewAddress::new_view()))
                &&& (!(tab == SelectedTab::Accounts && key.code == Key::Char('i')) ==> (
                    if key.code == Key::Char('?') {
                        final(self).popup matches Some(Popup::Help(_))
                    } else {
                        final(self).popup is None
                    }))
                &&& final(self).accounts_tab == (if tab == SelectedTab::Accounts && key.code != Key::Char('i') {
                    accounts_after_key(old(self).accounts_tab, key)
                } else {
                    old(self).accounts_tab
                })
                &&& final(self).blocks_tab == (if tab == SelectedTab::Blocks {
                    blocks_after_key(old(self).blocks_tab, key)
                } else {
                    old(self).blocks_tab
                })
                &&& final(self).transactions_tab@ == (if tab == SelectedTab::Transactions {
                    transactions_after_key(old(self).transactions_tab@, key)
                } else {
                    old(self).transactions_tab@
                })
            },
    {
        if key.kind != KeyKind::Press {
            return None;
        }
        if self.popup.is_some() {
            if key.code == Key::Esc {
                self.popup = None;
                return None;
            }
            let mut popup: Option<Popup> = None;
            std::mem::swap(&mut popup, &mut self.popup);
            match popup {
                Some(Popup::NewViewAddress(mut widget)) => {
                    let added = widget.handle_key(key.code);
                    self.popup = Some(Popup::NewViewAddress(widget));
                    added
                },
                Some(Popup::Help(help)) => {
                    self.popup = Some(Popup::Help(help));
                    None
                },
                None => None,
            }
        } else {
            match key.code {
                Key::Char(c) => {
                    if c == 'q' {
                        self.done = true;
                    } else if c == '?' {
                        self.popup = Some(Popup::Help(HelpPopup::new()));
                    }
                },
                Key::Tab => self.selected_tab = self.selected_tab.next(),
                Key::BackTab => self.selected_tab = self.selected_tab.previous(),
                _ => {},
            }
            match self.selected_tab {
                SelectedTab::Accounts => {
                    if key.code == Key::Char('i') {
                        self.popup = Some(Popup::NewViewAddress(NewViewAddress::new()));
                    } else {
                        self.accounts_tab.handle_key(key);
                    }
                },
                SelectedTab::Blocks => self.blocks_tab.handle_key(key),
                SelectedTab::Transactions => self.transactions_tab.handle_key(key),
            }
            None
        }
    }

    /// Handles what the chain follower reports: a reset moves the tip, a
    /// new block is added as the newest, a rolled-back block drops the
    /// blocks below its height, and the scroll bar of the blocks tab is
    /// sized for the blocks left; a connection change is recorded.
    pub fn handle_event(&mut self, event: AppEvent)
        requires
            event matches AppEvent::NewTip(_) ==> (old(self).chain.blocks@.len() + 1) * 3 <= usize::MAX,
            event matches AppEvent::UndoTip(b) ==> kept_after_undo(old(self).chain.blocks@, b.number).len() >= 1
                && kept_after_undo(old(self).chain.blocks@, b.number).len() * 3 <= usize::MAX,
        ensures
            final(self).done == old(self).done,
            final(self).selected_tab == old(self).selected_tab,
            final(self).accounts_tab == old(self).accounts_tab,
            final(self).blocks_tab.rows == old(self).blocks_tab.rows,
            final(self).transactions_tab@ == old(self).transactions_tab@,
            match event {
                AppEvent::Reset(tip) => final(self).chain.tip == Some(tip)
                    && final(self).chain.blocks@ == old(self).chain.blocks@
                    && final(self).blocks_tab == old(self).blocks_tab
                    && final(self).connection == old(self).connection,
                AppEvent::NewTip(b) => final(self).chain.tip == Some(b.slot)
                    && final(self).chain.blocks@ == seq![b] + old(self).chain.blocks@
                    && final(self).blocks_tab.scroll_length == scroll_length(final(self).chain.blocks@.len() as int)
                    && final(self).connection == old(self).connection,
                AppEvent::UndoTip(b) => final(self).chain.tip == Some(b.slot)
                    && final(self).chain.blocks@ == kept_after_undo(old(self).chain.blocks@, b.number)
                    && final(self).blocks_tab.scroll_length == scroll_length(final(self).chain.blocks@.len() as int)
                    && final(self).connection == old(self).connection,
                AppEvent::State(c) => final(self).connection == c
                    && final(self).chain.tip == old(self).chain.tip
                    && final(self).chain.blocks@ == old(self).chain.blocks@
                    && final(self).blocks_tab == old(self).blocks_tab,
            },
    {
        match event {
            AppEvent::Reset(tip) => self.chain.handle_reset(tip),
            AppEvent::NewTip(block) => {
                self.chain.handle_new_tip(block);
                let len = self.chain.blocks.len();
                self.blocks_tab.update_scroll_state(len);
            },
            AppEvent::UndoTip(block) => {
                self.chain.handle_undo_tip(block);
                let len = self.chain.blocks.len();
                self.blocks_tab.update_scroll_state(len);
            },
            AppEvent::State(state) => self.connection = state,
        }
    }
}

impl NewViewAddress {
    /// The popup as it opens, as values.
    pub open spec fn new_view() -> NewViewAddressView {
        NewViewAddressView {
            name_input: Seq::empty(),
            address_input: Seq::empty(),
            focused: InputField::Name,
            name_error: None,
            address_error: None,
            success_message: None,
        }
    }
}

impl SelectedTab {
    /// The position of the tab among the titles.
    pub fn index(&self) -> (r: usize)
        ensures
            r == (match *self {
                SelectedTab::Accounts => 0usize,
                SelectedTab::Blocks => 1usize,
                SelectedTab::Transactions => 2usize,
            }),
    {
        match self {
            SelectedTab::Accounts => 0,
            SelectedTab::Blocks => 1,
            SelectedTab::Transactions => 2,
        }
    }
}

/// The lines of the provider panel of the header: a disconnected explorer
/// says so; a connected one shows the tip and the provider once it knows
/// the tip.
pub open spec fn header_text(tip: Option<u64>, provider: Seq<char>, disconnected: bool) -> Seq<Seq<char>> {
    if disconnected {
        seq![" CShell Explorer "@, " Disconnected "@, " Provider: "@ + provider + " "@]
    } else {
        match tip {
            Some(t) => seq![" CShell Explorer "@, " Tip: "@ + crate::numbers::decimal(t as nat) + " "@, " Provider: "@ + provider + " "@],
            None => seq![" CShell Explorer "@],
        }
    }
}

/// The lines of the provider panel of the header.
pub fn header_lines(tip: Option<u64>, provider: &str, disconnected: bool) -> (r: Vec<String>)
    ensures
        r@.map_values(|l: String| l@) == header_text(tip, provider@, disconnected),
{
    let mut lines: Vec<String> = Vec::new();
    lines.push(String::from_str(" CShell Explorer "));
    let mut provider_line = String::from_str(" Provider: ");
    provider_line.append(provider);
    provider_line.append(" ");
    if disconnected {
        lines.push(String::from_str(" Disconnected "));
        lines.push(provider_line);
    } else {
        match tip {
            Some(t) => {
                let mut tip_line = String::from_str(" Tip: ");
                let d = crate::numbers::u64_to_decimal(t);
                tip_line.append(d.as_str());
                tip_line.append(" ");
                lines.push(tip_line);
                lines.push(provider_line);
            },
            None => {},
        }
    }
    assert(lines@.map_values(|l: String| l@) =~= header_text(tip, provider@, disconnected));
    lines
}

/// The colour of the activity chart for the seconds since the last block.
#[derive(Debug, Clone, Copy, PartialEq, Eq, Structural)]
pub enum ActivityColor {
    Green,
    Yellow,
    Red,
}

/// Green up to 20 seconds since the last block, yellow up to 30, red after.
pub fn activity_color(seconds: i64) -> (r: ActivityColor)
    ensures
        seconds <= 20 ==> r == ActivityColor::Green,
        21 <= seconds <= 30 ==> r == ActivityColor::Yellow,
        seconds > 30 ==> r == ActivityColor::Red,
{
    if seconds <= 20 {
        ActivityColor::Green
    } else if seconds <= 30 {
        ActivityColor::Yellow
    } else {
        ActivityColor::Red
    }
}

/// The chart moved left by one column for each second since the last
/// block, zeros coming in on the right.
pub open spec fn shifted_points(points: Seq<u64>, seconds: int) -> Seq<u64> {
    let k = if seconds <= 0 { 0 } else if seconds >= points.len() { points.len() as int } else { seconds };
    points.skip(k) + Seq::new(k as nat, |i: int| 0u64)
}

/// The chart moved left by one column for each second since the last block.
pub fn shift_activity(points: &Vec<u64>, seconds: i64) -> (r: Vec<u64>)
    ensures
        r@ == shifted_points(points@, seconds as int),
{
    let n = points.len();
    let k: usize = if seconds <= 0 {
        0
    } else if seconds as u64 >= n as u64 {
        n
    } else {
        seconds as usize
    };
    let mut out: Vec<u64> = Vec::new();
    let mut i: usize = k;
    while i < n
        invariant
            k <= i <= n,
            n == points@.len(),
            out@ == points@.subrange(k as int, i as int),
        decreases n - i,
    {
        out.push(points[i]);
        assert(out@ =~= points@.subrange(k as int, i + 1));
        i += 1;
    }
    let mut z: usize = 0;
    while z < k
        invariant
            z <= k,
            k <= n,
            n == points@.len(),
            out@ == points@.subrange(k as int, n as int) + Seq::new(z as nat, |q: int| 0u64),
        decreases k - z,
    {
        out.push(0);
        assert(out@ =~= points@.subrange(k as int, n as int) + Seq::new((z + 1) as nat, |q: int| 0u64));
        z += 1;
    }
    proof {
        let kk = if seconds <= 0 { 0 } else if seconds >= n { n as int } else { seconds as int };
        assert(kk == k);
        assert(points@.skip(k as int) =~= points@.subrange(k as int, n as int));
    }
    out
}

/// The title of the activity chart: with the seconds since the last block
/// once a block was seen.
pub fn activity_title(seconds: Option<i64>) -> (r: String)
    ensures
        match seconds {
            Some(s) => r@ == "Chain Activity | Updated "@ + crate::numbers::signed_decimal(s as int) + " seconds ago"@,
            None => r@ == "Chain Activity "@,
        },
{
    match seconds {
        Some(s) => {
            let mut t = String::from_str("Chain Activity | Updated ");
            let d = crate::numbers::i64_to_decimal(s);
            t.append(d.as_str());
            t.append(" seconds ago");
            t
        },
        None => String::from_str("Chain Activity "),
    }
}

} // verus!
