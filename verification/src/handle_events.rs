//! Input and fetched data, turned into changes of the state.

use vstd::prelude::*;
use vstd::string::*;
use crate::action::{Action, ActionView, Effect};
use crate::app::{App, AppView, TABLE_ROW_HEIGHT};
use crate::input::{KeyCode, KeyEvent, MouseButton, MouseEvent, MouseEventKind};

verus! {

/// What a key stands for.
#[derive(Debug, Clone, Copy, PartialEq, Eq)]
pub enum Command {
    Quit,
    ClosePopups,
    ToggleKeybinds,
    ToggleDetails,
    Open,
    OpenComments,
    MarkRead,
    MarkUnread,
    Refresh,
    NextRow,
    PreviousRow,
    PreviousPage,
    NextPage,
    FirstRow,
    LastRow,
    NextMode,
    PrevMode,
    /// Open the post that this shortcut key stands for.
    Shortcut(char),
    Nothing,
}

/// The keys that open a post directly: the key at index `i` opens the post
/// in row `i`.
pub const SHORTCUT_KEYS: &'static str = "123456789abdefimnopstvwxyz;:$&*/|\\^`'\"[]()<>";

/// The characters of [`SHORTCUT_KEYS`].
pub open spec fn shortcut_keys() -> Seq<char> {
    SHORTCUT_KEYS@
}

/// The row that the shortcut key `c` stands for, if it is one: the first
/// index at which `c` stands among the shortcut keys.
pub open spec fn shortcut_row(c: char) -> Option<usize> {
    match shortcut_keys().index_of_first(c) {
        Some(i) => Some(i as usize),
        None => None,
    }
}

/// Finds the row that a shortcut key stands for.
pub fn shortcut_index(c: char) -> (row: Option<usize>)
    ensures
        row == shortcut_row(c),
{
    let keys = SHORTCUT_KEYS;
    let len = keys.unicode_len();
    let mut i: usize = 0;
    while i < len
        invariant
            keys@ == shortcut_keys(),
            len == keys@.len(),
            i <= len,
            forall|j: int| 0 <= j < i ==> keys@[j] != c,
        decreases len - i,
    {
        if keys.get_char(i) == c {
            proof {
                shortcut_keys().index_of_first_ensures(c);
                assert(shortcut_keys()[i as int] == c);
                assert(shortcut_keys().contains(c));
                let first = shortcut_keys().index_of_first(c)->Some_0;
                if first < i {
                    assert(keys@[first] != c);
                }
                if first > i {
                    assert(shortcut_keys()[i as int] != c);
                }
            }
            return Some(i);
        }
        i += 1;
    }
    proof {
        shortcut_keys().index_of_first_ensures(c);
        if shortcut_keys().contains(c) {
            let j = choose|j: int| 0 <= j < shortcut_keys().len() && shortcut_keys()[j] == c;
            assert(keys@[j] != c);
        }
    }
    None
}

/// The shortcut key of a row, if the row has one.
pub fn shortcut_key(row: usize) -> (key: Option<char>)
    ensures
        key == if row < shortcut_keys().len() {
            Some(shortcut_keys()[row as int])
        } else {
            None
        },
{
    let keys = SHORTCUT_KEYS;
    if row < keys.unicode_len() {
        Some(keys.get_char(row))
    } else {
        None
    }
}

/// The command of a character key.
pub open spec fn char_binding(c: char) -> Command {
    if c == 'q' {
        Command::Quit
    } else if c == '?' {
        Command::ToggleKeybinds
    } else if c == 'K' {
        Command::ToggleDetails
    } else if c == 'c' {
        Command::OpenComments
    } else if c == 'r' {
        Command::MarkRead
    } else if c == 'u' {
        Command::MarkUnread
    } else if c == 'R' {
        Command::Refresh
    } else if c == 'j' {
        Command::NextRow
    } else if c == 'k' {
        Command::PreviousRow
    } else if c == 'h' {
        Command::PreviousPage
    } else if c == 'l' {
        Command::NextPage
    } else if c == 'g' {
        Command::FirstRow
    } else if c == 'G' {
        Command::LastRow
    } else if c == 'H' {
        Command::NextMode
    } else if c == 'L' {
        Command::PrevMode
    } else {
        Command::Shortcut(c)
    }
}

/// The command of a key.
pub open spec fn key_binding(code: KeyCode) -> Command {
    match code {
        KeyCode::Esc => Command::ClosePopups,
        KeyCode::Enter => Command::Open,
        KeyCode::F(n) => if n == 5 {
            Command::Refresh
        } else {
            Command::Nothing
        },
        KeyCode::Down => Command::NextRow,
        KeyCode::Up => Command::PreviousRow,
        KeyCode::Left => Command::PreviousPage,
        KeyCode::PageUp => Command::PreviousPage,
        KeyCode::Right => Command::NextPage,
        KeyCode::PageDown => Command::NextPage,
        KeyCode::Home => Command::FirstRow,
        KeyCode::End => Command::LastRow,
        KeyCode::Tab => Command::NextMode,
        KeyCode::BackTab => Command::PrevMode,
        KeyCode::Char(c) => char_binding(c),
        KeyCode::Other => Command::Nothing,
    }
}

/// Whether a key press is the forced quit: control and `c`.
pub open spec fn is_forced_quit(ev: KeyEvent) -> bool {
    ev.control && ev.code == KeyCode::Char('c')
}

fn command_of_char(c: char) -> (command: Command)
    ensures
        command == char_binding(c),
{
    if c == 'q' {
        Command::Quit
    } else if c == '?' {
        Command::ToggleKeybinds
    } else if c == 'K' {
        Command::ToggleDetails
    } else if c == 'c' {
        Command::OpenComments
    } else if c == 'r' {
        Command::MarkRead
    } else if c == 'u' {
        Command::MarkUnread
    } else if c == 'R' {
        Command::Refresh
    } else if c == 'j' {
        Command::NextRow
    } else if c == 'k' {
        Command::PreviousRow
    } else if c == 'h' {
        Command::PreviousPage
    } else if c == 'l' {
        Command::NextPage
    } else if c == 'g' {
        Command::FirstRow
    } else if c == 'G' {
        Command::LastRow
    } else if c == 'H' {
        Command::NextMode
    } else if c == 'L' {
        Command::PrevMode
    } else {
        Command::Shortcut(c)
    }
}

/// Finds the command of a key.
pub fn command_of_key(code: KeyCode) -> (command: Command)
    ensures
        command == key_binding(code),
{
    match code {
        KeyCode::Esc => Command::ClosePopups,
        KeyCode::Enter => Command::Open,
        KeyCode::F(n) => if n == 5 {
            Command::Refresh
        } else {
            Command::Nothing
        },
        KeyCode::Down => Command::NextRow,
        KeyCode::Up => Command::PreviousRow,
        KeyCode::Left => Command::PreviousPage,
        KeyCode::PageUp => Command::PreviousPage,
        KeyCode::Right => Command::NextPage,
        KeyCode::PageDown => Command::NextPage,
        KeyCode::Home => Command::FirstRow,
        KeyCode::End => Command::LastRow,
        KeyCode::Tab => Command::NextMode,
        KeyCode::BackTab => Command::PrevMode,
        KeyCode::Char(c) => command_of_char(c),
        KeyCode::Other => Command::Nothing,
    }
}

impl AppView {
    /// The run loop is to stop.
    pub open spec fn quit(self) -> AppView {
        AppView { is_running: false, ..self }
    }

    /// The run loop is to stop, and the exit code tells that the user
    /// forced it.
    pub open spec fn force_quit(self) -> AppView {
        AppView { exit_code: 1, is_running: false, ..self }
    }

    /// Open or close the details popup, for the post at `index`. Nothing
    /// happens while no posts are on screen. The thread is asked for only
    /// when the popup opens; the comment cursor goes to the first row.
    pub open spec fn toggle_details(self, index: Option<usize>) -> AppView {
        if self.posts().len() == 0 {
            self
        } else {
            let fetched = match index {
                Some(i) => if self.show_details_popup {
                    self
                } else {
                    self.load_post_comments(i as int)
                },
                None => self,
            };
            AppView {
                show_details_popup: !self.show_details_popup,
                ..fetched.select_comment(0)
            }
        }
    }

    /// Fetch again what is in front: the thread of the post under the
    /// cursor while the details popup is open, else the listing.
    pub open spec fn refresh(self) -> AppView {
        if self.show_details_popup {
            match self.posts_list_state.selected {
                Some(i) => self.load_post_comments(i as int),
                None => self,
            }
        } else {
            self.load_posts()
        }
    }

    /// Whether `command` can be carried out: marking unread needs the
    /// cursor, if set, on a post; opening while the details popup is open
    /// needs the cursors as [`AppView::can_open_comment`] says.
    pub open spec fn accepts_command(self, command: Command) -> bool {
        match command {
            Command::MarkUnread => match self.posts_list_state.selected {
                Some(i) => i < self.posts().len(),
                None => true,
            },
            Command::Open => self.show_details_popup ==> self.can_open_comment(),
            _ => true,
        }
    }

    /// The state after `command`.
    pub open spec fn run_command(self, command: Command) -> AppView {
        let selected = self.posts_list_state.selected;
        match command {
            Command::Quit => self.quit(),
            Command::ClosePopups => AppView {
                show_details_popup: false,
                show_keybinds_popup: false,
                ..self
            },
            Command::ToggleKeybinds => AppView {
                show_keybinds_popup: !self.show_keybinds_popup,
                ..self
            },
            Command::ToggleDetails => self.toggle_details(selected),
            Command::Open => if self.show_details_popup {
                self.open_comment()
            } else {
                match selected {
                    Some(i) => self.open_post(i as int),
                    None => self,
                }
            },
            Command::OpenComments => match selected {
                Some(i) => self.open_post_comments(i as int),
                None => self,
            },
            Command::MarkRead => match selected {
                Some(i) => self.mark_post_read(i as int),
                None => self,
            },
            Command::MarkUnread => match selected {
                Some(i) => self.mark_post_unread(i as int),
                None => self,
            },
            Command::Refresh => self.refresh(),
            Command::NextRow => self.next_row(),
            Command::PreviousRow => self.previous_row(),
            Command::PreviousPage => if self.show_details_popup {
                self
            } else {
                self.previous_page()
            },
            Command::NextPage => if self.show_details_popup {
                self
            } else {
                self.next_page()
            },
            Command::FirstRow => self.first_row(),
            Command::LastRow => self.last_row(),
            Command::NextMode => self.next_mode(),
            Command::PrevMode => self.prev_mode(),
            Command::Shortcut(c) => match shortcut_row(c) {
                Some(row) => if row < self.posts().len() {
                    self.open_post(row as int)
                } else {
                    self
                },
                None => self,
            },
            Command::Nothing => self,
        }
    }

    /// Whether the key press `ev` can be handled.
    pub open spec fn accepts_key(self, ev: KeyEvent) -> bool {
        self.accepts_command(key_binding(ev.code))
    }

    /// The state after the key press `ev`. The forced quit stops the run
    /// loop with exit code 1, and its key is then handled like any other.
    /// Every key but the one that toggles the keybinds popup closes that
    /// popup.
    pub open spec fn on_key(self, ev: KeyEvent) -> AppView {
        let start = if is_forced_quit(ev) {
            self.force_quit()
        } else {
            self
        };
        let done = start.run_command(key_binding(ev.code));
        if key_binding(ev.code) == Command::ToggleKeybinds {
            done
        } else {
            AppView { show_keybinds_popup: false, ..done }
        }
    }

    /// The post in the terminal row `row`, if that row shows one.
    pub open spec fn hovered(self, row: u16) -> Option<usize> {
        let index = (row - self.table_starts_at) / (TABLE_ROW_HEIGHT as int)
            + self.posts_list_state.offset;
        if self.table_starts_at <= row <= self.table_ends_at && index < self.posts().len() {
            Some(index as usize)
        } else {
            None
        }
    }

    /// Whether the mouse event `ev` can be handled: a left click on a post
    /// while the details popup is open needs the cursors as
    /// [`AppView::can_open_comment`] says.
    pub open spec fn accepts_mouse(self, ev: MouseEvent) -> bool {
        (ev.kind == MouseEventKind::Down(MouseButton::Left) && self.hovered(ev.row) is Some
            && self.show_details_popup) ==> self.can_open_comment()
    }

    /// The state after the mouse event `ev`.
    pub open spec fn on_mouse(self, ev: MouseEvent) -> AppView {
        match ev.kind {
            MouseEventKind::ScrollDown => self.next_row(),
            MouseEventKind::ScrollUp => self.previous_row(),
            MouseEventKind::ScrollLeft => self.previous_page(),
            MouseEventKind::ScrollRight => self.next_page(),
            MouseEventKind::Moved => match self.hovered(ev.row) {
                Some(i) => if self.show_details_popup {
                    self
                } else {
                    AppView { posts_list_state: self.posts_list_state.at(i), ..self }
                },
                None => self,
            },
            MouseEventKind::Down(button) => match self.hovered(ev.row) {
                Some(i) => match button {
                    MouseButton::Left => if self.show_details_popup {
                        self.open_comment()
                    } else {
                        self.open_post(i as int)
                    },
                    MouseButton::Right => self.toggle_details(Some(i)),
                    MouseButton::Middle => self.open_post_comments(i as int),
                },
                None => self,
            },
            MouseEventKind::Other => self,
        }
    }

    /// The terminal now has `height` rows: where that is more than when it
    /// was last drawn, the cursor goes to the first row.
    pub open spec fn on_resize(self, height: u16) -> AppView {
        if height > self.prev_size.1 {
            self.first_row()
        } else {
            self
        }
    }

    /// Whether the event `action` can be handled.
    pub open spec fn accepts(self, action: ActionView) -> bool {
        match action {
            ActionView::Key(ev) => self.accepts_key(ev),
            ActionView::Mouse(ev) => self.accepts_mouse(ev),
            _ => true,
        }
    }

    /// The state after the event `action`.
    pub open spec fn on_action(self, action: ActionView) -> AppView {
        match action {
            ActionView::LoadPosts(posts) => self.on_posts_loaded(posts),
            ActionView::LoadPostDetails(id, comments) => self.on_details_loaded(id, comments),
            ActionView::Key(ev) => self.on_key(ev),
            ActionView::Mouse(ev) => self.on_mouse(ev),
            ActionView::Resize(_, height) => self.on_resize(height),
        }
    }
}

impl App {
    /// Opens or closes the details popup, for the post at `index`.
    pub fn toggle_details(&mut self, index: Option<usize>)
        ensures
            final(self)@ == old(self)@.toggle_details(index),
            old(self).wf() ==> final(self).wf(),
    {
        if self.cache.posts.len() == 0 {
            return ;
        }
        if !self.show_details_popup {
            match index {
                Some(i) => self.load_post_comments(i),
                None => {},
            }
        }
        self.comments_list_state.select(0);
        self.show_details_popup = !self.show_details_popup;
    }

    /// Fetches again what is in front.
    pub fn refresh(&mut self)
        ensures
            final(self)@ == old(self)@.refresh(),
            old(self).wf() ==> final(self).wf(),
    {
        if self.show_details_popup {
            match self.posts_list_state.selected {
                Some(i) => self.load_post_comments(i),
                None => {},
            }
        } else {
            self.load_posts();
        }
    }

    /// Opens the post that the shortcut key `c` stands for, if `c` is a
    /// shortcut key and its row shows a post.
    pub fn handle_shortcut_key(&mut self, c: char)
        ensures
            final(self)@ == old(self)@.run_command(Command::Shortcut(c)),
            old(self).wf() ==> final(self).wf(),
    {
        match shortcut_index(c) {
            Some(index) => {
                if index < self.cache.posts.len() {
                    self.open_post(index);
                }
            },
            None => {},
        }
    }

    /// Whether `command` can be carried out.
    pub fn accepts_command(&self, command: Command) -> (ok: bool)
        ensures
            ok == self@.accepts_command(command),
    {
        match command {
            Command::MarkUnread => match self.posts_list_state.selected {
                Some(i) => i < self.cache.posts.len(),
                None => true,
            },
            Command::Open => !self.show_details_popup || self.can_open_comment(),
            _ => true,
        }
    }

    /// Carries out `command`.
    pub fn run_command(&mut self, command: Command)
        requires
            old(self).wf(),
            old(self)@.accepts_command(command),
        ensures
            final(self)@ == old(self)@.run_command(command),
            final(self).wf(),
    {
        let selected = self.posts_list_state.selected;
        match command {
            Command::Quit => {
                self.is_running = false;
            },
            // POPUPS
            Command::ClosePopups => {
                self.show_details_popup = false;
                self.show_keybinds_popup = false;
            },
            Command::ToggleKeybinds => {
                self.show_keybinds_popup = !self.show_keybinds_popup;
            },
            Command::ToggleDetails => self.toggle_details(selected),
            // FUNCTIONALITY
            Command::Open => {
                if self.show_details_popup {
                    self.open_comment();
                } else {
                    match selected {
                        Some(i) => self.open_post(i),
                        None => {},
                    }
                }
            },
            Command::OpenComments => match selected {
                Some(i) => self.open_post_comments(i),
                None => {},
            },
            Command::MarkRead => match selected {
                Some(i) => self.mark_post_read(i),
                None => {},
            },
            Command::MarkUnread => match selected {
                Some(i) => self.mark_post_unread(i),
                None => {},
            },
            Command::Refresh => self.refresh(),
            // NAVIGATION
            Command::NextRow => self.next_row(),
            Command::PreviousRow => self.previous_row(),
            Command::PreviousPage => {
                if !self.show_details_popup {
                    self.previous_page();
                }
            },
            Command::NextPage => {
                if !self.show_details_popup {
                    self.next_page();
                }
            },
            Command::FirstRow => self.first_row(),
            Command::LastRow => self.last_row(),
            Command::NextMode => self.next_mode(),
            Command::PrevMode => self.prev_mode(),
            Command::Shortcut(c) => self.handle_shortcut_key(c),
            Command::Nothing => {},
        }
    }

    /// Whether the key press `ev` can be handled.
    pub fn accepts_key(&self, ev: KeyEvent) -> (ok: bool)
        ensures
            ok == self@.accepts_key(ev),
    {
        self.accepts_command(command_of_key(ev.code))
    }

    /// Handles a key press.
    pub fn handle_key_event(&mut self, ev: KeyEvent)
        requires
            old(self).wf(),
            old(self)@.accepts_key(ev),
        ensures
            final(self)@ == old(self)@.on_key(ev),
            final(self).wf(),
    {
        // Ctrl+c
        let forced = match ev.code {
            KeyCode::Char(c) => ev.control && c == 'c',
            _ => false,
        };
        if forced {
            self.exit_code = 1;
            self.is_running = false;
        }
        let command = command_of_key(ev.code);
        self.run_command(command);
        match command {
            Command::ToggleKeybinds => {},
            _ => {
                // Close popup when any (other) keybind is pressed
                self.show_keybinds_popup = false;
            },
        }
    }

    /// The post in the terminal row `row`, if that row shows one.
    pub fn hovered(&self, row: u16) -> (index: Option<usize>)
        ensures
            index == self@.hovered(row),
    {
        let len = self.cache.posts.len();
        if row >= self.table_starts_at && row <= self.table_ends_at {
            let above = ((row - self.table_starts_at) as usize) / TABLE_ROW_HEIGHT;
            assert(above == (row - self.table_starts_at) / (TABLE_ROW_HEIGHT as int)) by {
                assert(TABLE_ROW_HEIGHT == 2);
            }
            match above.checked_add(self.posts_list_state.offset) {
                Some(index) => if index < len {
                    Some(index)
                } else {
                    None
                },
                None => None,
            }
        } else {
            None
        }
    }

    /// Whether the mouse event `ev` can be handled.
    pub fn accepts_mouse(&self, ev: MouseEvent) -> (ok: bool)
        ensures
            ok == self@.accepts_mouse(ev),
    {
        match ev.kind {
            MouseEventKind::Down(MouseButton::Left) => {
                if self.show_details_popup && self.hovered(ev.row).is_some() {
                    self.can_open_comment()
                } else {
                    true
                }
            },
            _ => true,
        }
    }

    /// Handles a mouse event.
    pub fn handle_mouse_event(&mut self, ev: MouseEvent)
        requires
            old(self).wf(),
            old(self)@.accepts_mouse(ev),
        ensures
            final(self)@ == old(self)@.on_mouse(ev),
            final(self).wf(),
    {
        let hovered = self.hovered(ev.row);
        match ev.kind {
            MouseEventKind::ScrollDown => self.next_row(),
            MouseEventKind::ScrollUp => self.previous_row(),
            MouseEventKind::ScrollLeft => self.previous_page(),
            MouseEventKind::ScrollRight => self.next_page(),
            MouseEventKind::Moved => {
                match hovered {
                    Some(i) => {
                        if !self.show_details_popup {
                            self.posts_list_state.select(i);
                        }
                    },
                    None => {},
                }
            },
            MouseEventKind::Down(button) => {
                match hovered {
                    Some(i) => {
                        match button {
                            MouseButton::Left => {
                                if self.show_details_popup {
                                    self.open_comment();
                                } else {
                                    self.open_post(i);
                                }
                            },
                            MouseButton::Right => self.toggle_details(Some(i)),
                            MouseButton::Middle => self.open_post_comments(i),
                        }
                    },
                    None => {},
                }
            },
            MouseEventKind::Other => {},
        }
    }

    /// Whether the event `action` can be handled.
    pub fn accepts(&self, action: &Action) -> (ok: bool)
        ensures
            ok == self@.accepts(action@),
    {
        match action {
            Action::Key(ev) => self.accepts_key(*ev),
            Action::Mouse(ev) => self.accepts_mouse(*ev),
            _ => true,
        }
    }

    /// Handles one event.
    pub fn handle_action(&mut self, action: Action)
        requires
            old(self).wf(),
            old(self)@.accepts(action@),
        ensures
            final(self)@ == old(self)@.on_action(action@),
            final(self).wf(),
    {
        match action {
            Action::LoadPosts(posts) => self.on_posts_loaded(posts),
            Action::LoadPostDetails(details) => self.on_details_loaded(details),
            Action::Key(ev) => self.handle_key_event(ev),
            Action::Mouse(ev) => self.handle_mouse_event(ev),
            // Reset selection to first element to scroll whole
            // table into view if scaling up
            Action::Resize(_, h) => {
                if h > self.prev_size.1 {
                    self.first_row();
                }
            },
        }
    }

    /// Handles one event and hands out the work that it led to, oldest
    /// first.
    pub fn step(&mut self, action: Action) -> (effects: Vec<Effect>)
        requires
            old(self).wf(),
            old(self)@.accepts(action@),
            old(self)@.outbox.len() == 0,
        ensures
            crate::action::effects_view(effects) == old(self)@.on_action(action@).outbox,
            final(self)@ == (AppView { outbox: Seq::empty(), ..old(self)@.on_action(action@) }),
            final(self).wf(),
    {
        self.handle_action(action);
        self.take_effects()
    }
}

} // verus!
