//! Keyboard navigation of the explorer's tabs: the selected row of a table,
//! the scroll bar that follows it, and the search field of the
//! transactions tab with its cursor.

use vstd::prelude::*;
use vstd::string::*;
use crate::utils::{push_char, skip_chars, take_chars};

verus! {

/// A key as the explorer reads it.
#[derive(Debug, Clone, Copy, PartialEq, Eq, Structural)]
pub enum Key {
    Char(char),
    Up,
    Down,
    Left,
    Right,
    Enter,
    Esc,
    Backspace,
    Tab,
    BackTab,
    Other,
}

/// Whether a key event is a press, a repeat while held, or a release.
#[derive(Debug, Clone, Copy, PartialEq, Eq, Structural)]
pub enum KeyKind {
    Press,
    Repeat,
    Release,
}

/// A key event; `shift` says that Shift, and no other modifier, was held.
#[derive(Debug, Clone, Copy, PartialEq, Eq, Structural)]
pub struct KeyPress {
    pub code: Key,
    pub shift: bool,
    pub kind: KeyKind,
}

/// The selected row of a table and the position of its scroll bar, where
/// each row is three lines high.
#[derive(Debug, Clone, Copy, PartialEq, Eq, Structural)]
pub struct RowCursor {
    pub selected: Option<usize>,
    pub position: usize,
}

/// The row after the selected one, or the first row when none is selected.
pub open spec fn next_index(selected: Option<usize>) -> int {
    match selected {
        Some(i) => i + 1,
        None => 0,
    }
}

/// The row before the selected one, staying on the first row.
pub open spec fn previous_index(selected: Option<usize>) -> int {
    match selected {
        Some(i) => if i == 0 { 0 } else { i - 1 },
        None => 0,
    }
}

impl RowCursor {
    /// No row selected, the scroll bar at the top.
    pub fn new() -> (r: RowCursor)
        ensures
            r.selected is None,
            r.position == 0,
    {
        RowCursor { selected: None, position: 0 }
    }

    /// Moves to the next row.
    pub fn next_row(&mut self)
        requires
            next_index(old(self).selected) * 3 <= usize::MAX,
        ensures
            final(self).selected == Some(next_index(old(self).selected) as usize),
            final(self).position == next_index(old(self).selected) * 3,
    {
        let i: usize = match self.selected {
            Some(i) => i + 1,
            None => 0,
        };
        self.selected = Some(i);
        self.position = i * 3;
    }

    /// Moves to the previous row.
    pub fn previous_row(&mut self)
        requires
            previous_index(old(self).selected) * 3 <= usize::MAX,
        ensures
            final(self).selected == Some(previous_index(old(self).selected) as usize),
            final(self).position == previous_index(old(self).selected) * 3,
    {
        let current: usize = match self.selected {
            Some(i) => i,
            None => 0,
        };
        let i: usize = if current == 0 { 0 } else { current - 1 };
        self.selected = Some(i);
        self.position = i * 3;
    }

    /// Moves to the first row.
    pub fn first_row(&mut self)
        ensures
            final(self).selected == Some(0usize),
            final(self).position == 0,
    {
        self.selected = Some(0);
        self.position = 0;
    }

    /// Moves to the last row: the selection goes as far as it can, to be
    /// brought back to the last row of the table when it is drawn.
    pub fn last_row(&mut self)
        ensures
            final(self).selected == Some(usize::MAX),
            final(self).position == usize::MAX,
    {
        self.selected = Some(usize::MAX);
        self.position = usize::MAX;
    }
}

/// Going back a row undoes going forward a row from a selected row.
pub proof fn law_previous_undoes_next(i: usize)
    requires
        (i + 1) * 3 <= usize::MAX,
    ensures
        previous_index(Some((next_index(Some(i))) as usize)) == i,
{
}

/// The length of a scroll bar over `rows` rows of three lines, without the
/// blank lines after the last one.
pub open spec fn scroll_length(rows: int) -> int {
    rows * 3 - 2
}

/// A movement over the rows of a table, as the blocks and transactions
/// tabs bind it to keys.
pub enum RowMove {
    Next,
    Previous,
    First,
    Last,
}

/// The movement a key asks for in a table.
pub open spec fn row_move_of(k: KeyPress) -> Option<RowMove> {
    if (k.code == Key::Char('J') || k.code == Key::Down) && k.shift {
        Some(RowMove::Last)
    } else if k.code == Key::Char('j') || k.code == Key::Down {
        Some(RowMove::Next)
    } else if (k.code == Key::Char('K') || k.code == Key::Up) && k.shift {
        Some(RowMove::First)
    } else if k.code == Key::Char('k') || k.code == Key::Up {
        Some(RowMove::Previous)
    } else {
        None
    }
}

/// The movement a key asks for, computed.
pub fn row_move(k: KeyPress) -> (r: Option<RowMove>)
    ensures
        r == row_move_of(k),
{
    let down = k.code == Key::Char('J') || k.code == Key::Down;
    let up = k.code == Key::Char('K') || k.code == Key::Up;
    if down && k.shift {
        Some(RowMove::Last)
    } else if k.code == Key::Char('j') || k.code == Key::Down {
        Some(RowMove::Next)
    } else if up && k.shift {
        Some(RowMove::First)
    } else if k.code == Key::Char('k') || k.code == Key::Up {
        Some(RowMove::Previous)
    } else {
        None
    }
}

/// Whether a movement can be made without overflow.
pub open spec fn move_fits(c: RowCursor, m: RowMove) -> bool {
    match m {
        RowMove::Next => next_index(c.selected) * 3 <= usize::MAX,
        RowMove::Previous => previous_index(c.selected) * 3 <= usize::MAX,
        _ => true,
    }
}

/// The cursor after a movement.
pub open spec fn moved(c: RowCursor, m: RowMove) -> RowCursor {
    match m {
        RowMove::Next => RowCursor {
            selected: Some(next_index(c.selected) as usize),
            position: (next_index(c.selected) * 3) as usize,
        },
        RowMove::Previous => RowCursor {
            selected: Some(previous_index(c.selected) as usize),
            position: (previous_index(c.selected) * 3) as usize,
        },
        RowMove::First => RowCursor { selected: Some(0usize), position: 0 },
        RowMove::Last => RowCursor { selected: Some(usize::MAX), position: usize::MAX },
    }
}

impl RowCursor {
    /// Makes a movement.
    pub fn apply(&mut self, m: RowMove)
        requires
            move_fits(*old(self), m),
        ensures
            *final(self) == moved(*old(self), m),
    {
        match m {
            RowMove::Next => self.next_row(),
            RowMove::Previous => self.previous_row(),
            RowMove::First => self.first_row(),
            RowMove::Last => self.last_row(),
        }
    }
}

/// The state of the blocks tab.
#[derive(Debug, Clone, Copy, PartialEq, Eq, Structural)]
pub struct BlocksTabState {
    pub rows: RowCursor,
    pub scroll_length: usize,
}

/// Whether a key can be handled by the blocks tab without overflow.
pub open spec fn blocks_key_fits(s: BlocksTabState, k: KeyPress) -> bool {
    match row_move_of(k) {
        Some(m) => move_fits(s.rows, m),
        None => true,
    }
}

/// The blocks tab after a key.
pub open spec fn blocks_after_key(s: BlocksTabState, k: KeyPress) -> BlocksTabState {
    match row_move_of(k) {
        Some(m) => BlocksTabState { rows: moved(s.rows, m), ..s },
        None => s,
    }
}

impl BlocksTabState {
    /// Nothing selected, an empty scroll bar.
    pub fn new() -> (r: BlocksTabState)
        ensures
            r.rows.selected is None,
            r.rows.position == 0,
            r.scroll_length == 0,
    {
        BlocksTabState { rows: RowCursor::new(), scroll_length: 0 }
    }

    /// Moves the selection: `j` or Down to the next block, `k` or Up to the
    /// previous one, and with Shift to the last or first one.
    pub fn handle_key(&mut self, key: KeyPress)
        requires
            blocks_key_fits(*old(self), key),
        ensures
            *final(self) == blocks_after_key(*old(self), key),
    {
        match row_move(key) {
            Some(m) => self.rows.apply(m),
            None => {},
        }
    }

    /// Sizes the scroll bar for `len` blocks.
    pub fn update_scroll_state(&mut self, len: usize)
        requires
            1 <= len,
            len * 3 <= usize::MAX,
        ensures
            final(self).scroll_length == scroll_length(len as int),
            final(self).rows == old(self).rows,
    {
        self.scroll_length = len * 3 - 2;
    }
}

/// Whether the search field is being edited.
#[derive(Debug, Clone, Copy, PartialEq, Eq, Structural)]
pub enum InputMode {
    Normal,
    Editing,
}

/// Whether the transactions tab shows the table or one transaction.
#[derive(Debug, Clone, Copy, PartialEq, Eq, Structural)]
pub enum ViewMode {
    Normal,
    Detail,
}

/// The state of the transactions tab: the table's cursor, the search text,
/// whether it is being edited, and whether one transaction is shown.
#[derive(Debug)]
pub struct TransactionsTabState {
    pub rows: RowCursor,
    pub scroll_length: usize,
    pub input: String,
    pub input_mode: InputMode,
    pub view_mode: ViewMode,
}

impl TransactionsTabState {
    /// Nothing selected, nothing searched, the table shown.
    pub fn new() -> (r: TransactionsTabState)
        ensures
            r.rows.selected is None,
            r.rows.position == 0,
            r.scroll_length == 0,
            r.input@ == Seq::<char>::empty(),
            r.input_mode == InputMode::Normal,
            r.view_mode == ViewMode::Normal,
    {
        TransactionsTabState {
            rows: RowCursor::new(),
            scroll_length: 0,
            input: String::new(),
            input_mode: InputMode::Normal,
            view_mode: ViewMode::Normal,
        }
    }
}

/// The state of the transactions tab as values.
pub struct TransactionsTabView {
    pub rows: RowCursor,
    pub scroll_length: usize,
    pub input: Seq<char>,
    pub input_mode: InputMode,
    pub view_mode: ViewMode,
}

impl View for TransactionsTabState {
    type V = TransactionsTabView;

    open spec fn view(&self) -> TransactionsTabView {
        TransactionsTabView {
            rows: self.rows,
            scroll_length: self.scroll_length,
            input: self.input@,
            input_mode: self.input_mode,
            view_mode: self.view_mode,
        }
    }
}

/// A search text without its last character; an empty one stays empty.
pub open spec fn without_last_char(input: Seq<char>) -> Seq<char> {
    if input.len() == 0 { input } else { input.drop_last() }
}

/// Whether a key can be handled by the transactions tab without overflow.
pub open spec fn transactions_key_fits(s: TransactionsTabView, k: KeyPress) -> bool {
    s.view_mode == ViewMode::Normal && s.input_mode == InputMode::Normal ==> match row_move_of(k) {
        Some(m) => move_fits(s.rows, m),
        None => true,
    }
}

/// The transactions tab after a key: in the table, the row keys move the
/// selection, `f` or `/` start editing the search, Esc clears it and Enter
/// opens the selected transaction; while editing, a character is added at
/// the end of the search, Backspace removes the last one, Esc stops editing
/// and Enter selects the first row and stops editing; in the detail view,
/// Esc goes back to the table.
pub open spec fn transactions_after_key(s: TransactionsTabView, k: KeyPress) -> TransactionsTabView {
    match s.view_mode {
        ViewMode::Normal => match s.input_mode {
            InputMode::Normal => match row_move_of(k) {
                Some(m) => TransactionsTabView { rows: moved(s.rows, m), ..s },
                None => match k.code {
                    Key::Char(c) => if c == 'f' || c == '/' {
                        TransactionsTabView { input_mode: InputMode::Editing, ..s }
                    } else {
                        s
                    },
                    Key::Esc => TransactionsTabView { input: Seq::empty(), ..s },
                    Key::Enter => if s.rows.selected is Some {
                        TransactionsTabView { view_mode: ViewMode::Detail, ..s }
                    } else {
                        s
                    },
                    _ => s,
                },
            },
            InputMode::Editing => match k.code {
                Key::Char(c) => TransactionsTabView { input: s.input.push(c), ..s },
                Key::Esc => TransactionsTabView { input_mode: InputMode::Normal, ..s },
                Key::Backspace => TransactionsTabView { input: without_last_char(s.input), ..s },
                Key::Enter => TransactionsTabView {
                    rows: RowCursor { selected: Some(0usize), ..s.rows },
                    input_mode: InputMode::Normal,
                    ..s
                },
                _ => s,
            },
        },
        ViewMode::Detail => match k.code {
            Key::Esc => TransactionsTabView { view_mode: ViewMode::Normal, ..s },
            _ => s,
        },
    }
}

/// Removes the last character of a text, if it has one.
fn pop_char(s: &String) -> (r: String)
    ensures
        r@ == without_last_char(s@),
{
    let count = s.as_str().unicode_len();
    if count == 0 {
        String::new()
    } else {
        let r = crate::utils::take_prefix(s.as_str(), count - 1);
        assert(take_chars(s@, count - 1) =~= s@.drop_last());
        r
    }
}

impl TransactionsTabState {
    /// Handles a key press; see `transactions_after_key`.
    pub fn handle_key(&mut self, key: KeyPress)
        requires
            transactions_key_fits(old(self)@, key),
        ensures
            final(self)@ == transactions_after_key(old(self)@, key),
    {
        match self.view_mode {
            ViewMode::Normal => match self.input_mode {
                InputMode::Normal => match row_move(key) {
                    Some(m) => self.rows.apply(m),
                    None => match key.code {
                        Key::Char(c) => {
                            if c == 'f' || c == '/' {
                                self.input_mode = InputMode::Editing;
                            }
                        },
                        Key::Esc => {
                            if self.input.as_str().unicode_len() != 0 {
                                self.input = String::new();
                            } else {
                                assert(self.input@ =~= Seq::<char>::empty());
                            }
                        },
                        Key::Enter => {
                            if self.rows.selected.is_some() {
                                self.view_mode = ViewMode::Detail;
                            }
                        },
                        _ => {},
                    },
                },
                InputMode::Editing => match key.code {
                    Key::Char(c) => push_char(&mut self.input, c),
                    Key::Esc => self.input_mode = InputMode::Normal,
                    Key::Backspace => {
                        self.input = pop_char(&self.input);
                    },
                    Key::Enter => {
                        self.rows.selected = Some(0);
                        self.input_mode = InputMode::Normal;
                    },
                    _ => {},
                },
            },
            ViewMode::Detail => match key.code {
                Key::Esc => self.view_mode = ViewMode::Normal,
                _ => {},
            },
        }
    }

    /// Sizes the scroll bar for `len` transactions; it is empty for none.
    pub fn update_scroll_state(&mut self, len: usize)
        ensures
            final(self).scroll_length == (if len * 3 <= usize::MAX && len >= 1 { scroll_length(len as int) } else { 0 }),
            final(self).rows == old(self).rows,
            final(self).input@ == old(self).input@,
            final(self).input_mode == old(self).input_mode,
            final(self).view_mode == old(self).view_mode,
    {
        self.scroll_length = match len.checked_mul(3) {
            Some(v) => if v >= 2 { v - 2 } else { 0 },
            None => 0,
        };
    }
}

/// A list selection moved one item down, starting at the first item.
pub open spec fn selected_next(sel: Option<usize>) -> Option<usize> {
    match sel {
        Some(i) => Some(if i == usize::MAX { usize::MAX } else { (i + 1) as usize }),
        None => Some(0usize),
    }
}

/// A list selection moved one item up, starting as far down as it goes.
pub open spec fn selected_previous(sel: Option<usize>) -> Option<usize> {
    match sel {
        Some(i) => Some(if i == 0 { 0usize } else { (i - 1) as usize }),
        None => Some(usize::MAX),
    }
}

/// A selection moved one item down, saturating.
pub fn select_next(sel: Option<usize>) -> (r: Option<usize>)
    ensures
        r == selected_next(sel),
{
    match sel {
        Some(i) => Some(if i == usize::MAX { usize::MAX } else { i + 1 }),
        None => Some(0),
    }
}

/// A selection moved one item up, saturating.
pub fn select_previous(sel: Option<usize>) -> (r: Option<usize>)
    ensures
        r == selected_previous(sel),
{
    match sel {
        Some(i) => Some(if i == 0 { 0 } else { i - 1 }),
        None => Some(usize::MAX),
    }
}

/// The state of the accounts tab: the selected wallet, the selected output
/// of its balance, and whether the keys move in the outputs table.
#[derive(Debug, Clone, Copy, PartialEq, Eq, Structural)]
pub struct AccountsTabState {
    pub list_selected: Option<usize>,
    pub table_selected: Option<usize>,
    pub focus_on_table: bool,
}

/// The accounts tab after a key: `l` or Right enters the outputs table of
/// a selected wallet, `h` or Left leaves it, `j`/Down and `k`/Up move in
/// whichever has the focus.
pub open spec fn accounts_after_key(s: AccountsTabState, k: KeyPress) -> AccountsTabState {
    if k.code == Key::Char('l') || k.code == Key::Right {
        if s.list_selected is Some {
            AccountsTabState { focus_on_table: true, table_selected: selected_next(s.table_selected), ..s }
        } else {
            s
        }
    } else if k.code == Key::Char('h') || k.code == Key::Left {
        if s.focus_on_table {
            AccountsTabState { focus_on_table: false, table_selected: None, ..s }
        } else {
            s
        }
    } else if k.code == Key::Char('j') || k.code == Key::Down {
        if s.focus_on_table {
            AccountsTabState { table_selected: selected_next(s.table_selected), ..s }
        } else {
            AccountsTabState { list_selected: selected_next(s.list_selected), ..s }
        }
    } else if k.code == Key::Char('k') || k.code == Key::Up {
        if s.focus_on_table {
            AccountsTabState { table_selected: selected_previous(s.table_selected), ..s }
        } else {
            AccountsTabState { list_selected: selected_previous(s.list_selected), ..s }
        }
    } else {
        s
    }
}

impl AccountsTabState {
    /// No wallet selected, the focus on the list.
    pub fn new() -> (r: AccountsTabState)
        ensures
            r.list_selected is None,
            r.table_selected is None,
            !r.focus_on_table,
    {
        AccountsTabState { list_selected: None, table_selected: None, focus_on_table: false }
    }

    /// Handles a key press; see `accounts_after_key`.
    pub fn handle_key(&mut self, key: KeyPress)
        ensures
            *final(self) == accounts_after_key(*old(self), key),
    {
        if key.code == Key::Char('l') || key.code == Key::Right {
            if self.list_selected.is_some() {
                self.focus_on_table = true;
                self.table_selected = select_next(self.table_selected);
            }
        } else if key.code == Key::Char('h') || key.code == Key::Left {
            if self.focus_on_table {
                self.focus_on_table = false;
                self.table_selected = None;
            }
        } else if key.code == Key::Char('j') || key.code == Key::Down {
            if self.focus_on_table {
                self.table_selected = select_next(self.table_selected);
            } else {
                self.list_selected = select_next(self.list_selected);
            }
        } else if key.code == Key::Char('k') || key.code == Key::Up {
            if self.focus_on_table {
                self.table_selected = select_previous(self.table_selected);
            } else {
                self.list_selected = select_previous(self.list_selected);
            }
        }
    }
}

/// The wallet shown for a selection in a list of `count` wallets: the
/// selection wraps around the list.
pub fn selected_wallet(selected: Option<usize>, count: usize) -> (r: Option<usize>)
    requires
        selected is Some ==> count > 0,
    ensures
        match selected {
            Some(i) => r == Some((i % count) as usize),
            None => r is None,
        },
{
    match selected {
        Some(i) => Some(i % count),
        None => None,
    }
}

/// While the search is edited, Backspace right after typing a character
/// gives back the tab as it was.
pub proof fn law_backspace_undoes_typing(s: TransactionsTabView, c: char)
    requires
        s.view_mode == ViewMode::Normal,
        s.input_mode == InputMode::Editing,
    ensures
        transactions_after_key(
            transactions_after_key(s, KeyPress { code: Key::Char(c), shift: false, kind: KeyKind::Press }),
            KeyPress { code: Key::Backspace, shift: false, kind: KeyKind::Press },
        ) == s,
{
    assert(s.input.push(c).drop_last() =~= s.input);
}

/// A move in the tree of a transaction's details.
#[derive(Debug, Clone, Copy, PartialEq, Eq, Structural)]
pub enum TreeAction {
    Toggle,
    Left,
    Right,
    Down,
    Up,
}

/// The tree move of a key in the details of a transaction: Enter opens or
/// closes the selected line, `h`/`l` or the arrows go to the parent or into
/// a line, `j`/`k` or the arrows go down or up; other keys do nothing.
pub open spec fn tree_action_of(k: Key) -> Option<TreeAction> {
    match k {
        Key::Enter => Some(TreeAction::Toggle),
        Key::Char(c) => if c == 'h' {
            Some(TreeAction::Left)
        } else if c == 'l' {
            Some(TreeAction::Right)
        } else if c == 'j' {
            Some(TreeAction::Down)
        } else if c == 'k' {
            Some(TreeAction::Up)
        } else {
            None
        },
        Key::Left => Some(TreeAction::Left),
        Key::Right => Some(TreeAction::Right),
        Key::Down => Some(TreeAction::Down),
        Key::Up => Some(TreeAction::Up),
        _ => None,
    }
}

/// The tree move of a key in the details of a transaction.
pub fn detail_tree_action(key: Key) -> (r: Option<TreeAction>)
    ensures
        r == tree_action_of(key),
{
    match key {
        Key::Enter => Some(TreeAction::Toggle),
        Key::Char(c) => {
            if c == 'h' {
                Some(TreeAction::Left)
            } else if c == 'l' {
                Some(TreeAction::Right)
            } else if c == 'j' {
                Some(TreeAction::Down)
            } else if c == 'k' {
                Some(TreeAction::Up)
            } else {
                None
            }
        },
        Key::Left => Some(TreeAction::Left),
        Key::Right => Some(TreeAction::Right),
        Key::Down => Some(TreeAction::Down),
        Key::Up => Some(TreeAction::Up),
        _ => None,
    }
}

} // verus!
