//! Moving the cursors, the page and the mode.

use vstd::prelude::*;
use crate::action::{Effect, EffectView};
use crate::app::{App, AppView, ListState, TABLE_ROW_HEIGHT};
use crate::modes::{Mode, STARTING_PAGE};

verus! {

/// Scroll bar position of row `row`: the terminal rows above it, or the
/// largest number where those cannot be counted.
pub open spec fn row_offset(row: int) -> usize {
    if row * TABLE_ROW_HEIGHT <= usize::MAX {
        (row * TABLE_ROW_HEIGHT) as usize
    } else {
        usize::MAX
    }
}

/// The last row of a list of `len` rows; the first where the list is empty.
pub open spec fn last_index(len: int) -> usize {
    if len >= 1 {
        (len - 1) as usize
    } else {
        0
    }
}

/// The row after the selected one in a list of `len` rows: the next row, or
/// the first after the last. The first where nothing is selected.
pub open spec fn wrap_next(selected: Option<usize>, len: int) -> usize {
    match selected {
        Some(i) => if i + 1 < len {
            (i + 1) as usize
        } else {
            0
        },
        None => 0,
    }
}

/// The row before the selected one in a list of `len` rows: the previous
/// row, or the last before the first and for a selection beyond the list. The
/// first where nothing is selected.
pub open spec fn wrap_prev(selected: Option<usize>, len: int) -> usize {
    match selected {
        Some(i) => if 1 <= i < len {
            (i - 1) as usize
        } else {
            last_index(len)
        },
        None => 0,
    }
}

impl ListState {
    /// The cursor with `row` selected.
    pub open spec fn at(self, row: usize) -> ListState {
        ListState { selected: Some(row), ..self }
    }

    /// Selects `row`.
    pub fn select(&mut self, row: usize)
        ensures
            *final(self) == old(self).at(row),
    {
        self.selected = Some(row);
    }
}

fn scroll_offset(row: usize) -> (offset: usize)
    ensures
        offset == row_offset(row as int),
{
    match row.checked_mul(TABLE_ROW_HEIGHT) {
        Some(offset) => offset,
        None => usize::MAX,
    }
}

fn next_index(selected: Option<usize>, len: usize) -> (row: usize)
    ensures
        row == wrap_next(selected, len as int),
{
    match selected {
        Some(i) => if i < len && i + 1 < len {
            i + 1
        } else {
            0
        },
        None => 0,
    }
}

fn previous_index(selected: Option<usize>, len: usize) -> (row: usize)
    ensures
        row == wrap_prev(selected, len as int),
{
    match selected {
        Some(i) => if 1 <= i && i < len {
            i - 1
        } else if len >= 1 {
            len - 1
        } else {
            0
        },
        None => 0,
    }
}

impl AppView {
    /// The post under the cursor, if the cursor is on one.
    pub open spec fn selected_post(self) -> Option<int> {
        match self.posts_list_state.selected {
            Some(i) => if i < self.posts().len() {
                Some(i as int)
            } else {
                None
            },
            None => None,
        }
    }

    /// How many comments the details popup lists: those of the post under
    /// the cursor.
    pub open spec fn comment_count(self) -> int {
        match self.selected_post() {
            Some(i) => self.posts()[i].comments@.len() as int,
            None => 0,
        }
    }

    /// The state with row `row` of the comments selected.
    pub open spec fn select_comment(self, row: usize) -> AppView {
        AppView { comments_list_state: self.comments_list_state.at(row), ..self }
    }

    /// The state with row `row` of the posts selected and the scroll bar at
    /// `scroll`.
    pub open spec fn select_post(self, row: usize, scroll: usize) -> AppView {
        AppView {
            posts_list_state: self.posts_list_state.at(row),
            posts_scroll_position: scroll,
            ..self
        }
    }

    /// Jump to the first row of the list in front: the comments while the
    /// details popup is open, else the posts. Nothing moves while no posts
    /// are on screen.
    pub open spec fn first_row(self) -> AppView {
        if self.posts().len() == 0 {
            self
        } else if self.show_details_popup {
            self.select_comment(0)
        } else {
            self.select_post(0, 0)
        }
    }

    /// Jump to the last row of the list in front.
    pub open spec fn last_row(self) -> AppView {
        if self.posts().len() == 0 {
            self
        } else if self.show_details_popup {
            self.select_comment(last_index(self.comment_count()))
        } else {
            self.select_post(
                last_index(self.posts().len() as int),
                row_offset(self.posts().len() as int),
            )
        }
    }

    /// Move one row down in the list in front; after the last row comes the
    /// first.
    pub open spec fn next_row(self) -> AppView {
        if self.posts().len() == 0 {
            self
        } else if self.show_details_popup {
            self.select_comment(wrap_next(self.comments_list_state.selected, self.comment_count()))
        } else {
            let row = wrap_next(self.posts_list_state.selected, self.posts().len() as int);
            self.select_post(row, row_offset(row as int))
        }
    }

    /// Move one row up in the list in front; before the first row comes the
    /// last.
    pub open spec fn previous_row(self) -> AppView {
        if self.posts().len() == 0 {
            self
        } else if self.show_details_popup {
            self.select_comment(wrap_prev(self.comments_list_state.selected, self.comment_count()))
        } else {
            let row = wrap_prev(self.posts_list_state.selected, self.posts().len() as int);
            self.select_post(row, row_offset(row as int))
        }
    }

    /// A listing fetch for the current mode is asked for and expected.
    pub open spec fn load_posts(self) -> AppView {
        AppView { is_loading: true, ..self }.emit(EffectView::FetchPosts(self.mode))
    }

    /// The state after the mode changed from page `prev` to its current
    /// page: the cached posts of that page are on screen, or a fetch is under
    /// way; the cursor is on the first row once posts are on screen.
    pub open spec fn turn_page(self, prev: int) -> AppView {
        let turned = AppView {
            cache: self.cache.after_load_page(prev, self.page_index()),
            ..self
        };
        if turned.posts().len() > 0 {
            turned.first_row()
        } else {
            turned.load_posts().first_row()
        }
    }

    /// Go to the next page. Nothing happens while no posts are on screen, or
    /// at the largest page number.
    pub open spec fn next_page(self) -> AppView {
        if self.posts().len() == 0 || self.mode.page() >= u8::MAX {
            self
        } else {
            AppView { mode: self.mode.after_next_page(), ..self }.turn_page(self.page_index())
        }
    }

    /// Go to the previous page. Nothing happens at the starting page.
    pub open spec fn previous_page(self) -> AppView {
        if self.mode.page() <= STARTING_PAGE {
            self
        } else {
            AppView { mode: self.mode.after_prev_page(), ..self }.turn_page(self.page_index())
        }
    }

    /// The state after a change to the mode `to`: the cursor went to the
    /// first row, the mode that was left is put away, and the cached posts of
    /// `to` are on screen, or a fetch is under way.
    pub open spec fn switch_mode(self, to: Mode) -> AppView {
        let reset = self.first_row();
        let stored = reset.cache.after_store_mode(self.mode.kind().name(), self.page_index());
        let loaded = stored.after_load_mode(to.kind().name(), to.page() - 1);
        let switched = AppView { mode: to, cache: loaded, ..reset };
        if stored.has_mode(to.kind().name()) && loaded.posts.len() > 0 {
            switched
        } else {
            switched.load_posts()
        }
    }

    /// Cycle to the next mode.
    pub open spec fn next_mode(self) -> AppView {
        self.switch_mode(self.mode.after_next_mode())
    }

    /// Cycle to the previous mode.
    pub open spec fn prev_mode(self) -> AppView {
        self.switch_mode(self.mode.after_prev_mode())
    }
}

impl App {
    /// The number of comments of the post under the cursor.
    pub fn comment_count(&self) -> (n: usize)
        ensures
            n == self@.comment_count(),
    {
        match self.posts_list_state.selected {
            Some(i) => if i < self.cache.posts.len() {
                self.cache.posts[i].comments.len()
            } else {
                0
            },
            None => 0,
        }
    }

    /// Jumps to the first row of the list in front.
    pub fn first_row(&mut self)
        ensures
            final(self)@ == old(self)@.first_row(),
            old(self).wf() ==> final(self).wf(),
    {
        if self.cache.posts.len() == 0 {
            return ;
        }
        if self.show_details_popup {
            self.comments_list_state.select(0);
            return ;
        }
        self.posts_list_state.select(0);
        self.posts_scroll_position = 0;
    }

    /// Jumps to the last row of the list in front.
    pub fn last_row(&mut self)
        ensures
            final(self)@ == old(self)@.last_row(),
            old(self).wf() ==> final(self).wf(),
    {
        let len = self.cache.posts.len();
        if len == 0 {
            return ;
        }
        if self.show_details_popup {
            let n = self.comment_count();
            self.comments_list_state.select(if n >= 1 { n - 1 } else { 0 });
            return ;
        }
        self.posts_list_state.select(len - 1);
        self.posts_scroll_position = scroll_offset(len);
    }

    /// Moves one row down in the list in front, from the last row to the
    /// first.
    pub fn next_row(&mut self)
        ensures
            final(self)@ == old(self)@.next_row(),
            old(self).wf() ==> final(self).wf(),
    {
        let len = self.cache.posts.len();
        if len == 0 {
            return ;
        }
        if self.show_details_popup {
            let row = next_index(self.comments_list_state.selected, self.comment_count());
            self.comments_list_state.select(row);
            return ;
        }
        let row = next_index(self.posts_list_state.selected, len);
        self.posts_list_state.select(row);
        self.posts_scroll_position = scroll_offset(row);
    }

    /// Moves one row up in the list in front, from the first row to the
    /// last.
    pub fn previous_row(&mut self)
        ensures
            final(self)@ == old(self)@.previous_row(),
            old(self).wf() ==> final(self).wf(),
    {
        let len = self.cache.posts.len();
        if len == 0 {
            return ;
        }
        if self.show_details_popup {
            let row = previous_index(self.comments_list_state.selected, self.comment_count());
            self.comments_list_state.select(row);
            return ;
        }
        let row = previous_index(self.posts_list_state.selected, len);
        self.posts_list_state.select(row);
        self.posts_scroll_position = scroll_offset(row);
    }

    /// Asks for the listing of the current mode and marks it as expected.
    pub fn load_posts(&mut self)
        ensures
            final(self)@ == old(self)@.load_posts(),
            old(self).wf() ==> final(self).wf(),
    {
        self.is_loading = true;
        self.emit(Effect::FetchPosts(self.mode));
    }

    /// See [`crate::cache::PageCache::load_page`].
    pub fn load_page(&mut self, prev_page: usize, page: usize) -> (has_data: bool)
        requires
            page < usize::MAX,
            prev_page < old(self)@.cache.pages.len() || prev_page <= page,
        ensures
            final(self)@ == (AppView {
                cache: old(self)@.cache.after_load_page(prev_page as int, page as int),
                ..old(self)@
            }),
            has_data == (final(self)@.posts().len() > 0),
    {
        self.cache.load_page(prev_page, page)
    }

    /// See [`crate::cache::PageCache::store_mode`].
    pub fn store_mode(&mut self)
        requires
            old(self).mode.wf(),
        ensures
            final(self)@ == (AppView {
                cache: old(self)@.cache.after_store_mode(
                    old(self).mode.kind().name(),
                    old(self)@.page_index(),
                ),
                ..old(self)@
            }),
    {
        let mode = self.mode;
        self.cache.store_mode(&mode);
    }

    /// See [`crate::cache::PageCache::load_mode`].
    pub fn load_mode(&mut self) -> (has_data: bool)
        requires
            old(self).mode.wf(),
        ensures
            final(self)@ == (AppView {
                cache: old(self)@.cache.after_load_mode(
                    old(self).mode.kind().name(),
                    old(self)@.page_index(),
                ),
                ..old(self)@
            }),
            has_data == (old(self)@.cache.has_mode(old(self).mode.kind().name())
                && final(self)@.posts().len() > 0),
    {
        let mode = self.mode;
        self.cache.load_mode(&mode)
    }

    /// Goes to the next page: shows it from the cache, or asks for it.
    pub fn next_page(&mut self)
        requires
            old(self).wf(),
        ensures
            final(self)@ == old(self)@.next_page(),
            final(self).wf(),
    {
        // Wait to load the current posts - or there are no more posts so don't proceed
        if self.cache.posts.len() == 0 {
            return ;
        }
        if self.mode.next_page() {
            let page = self.mode.get_page();
            let prev_page = page - 1;
            if !self.load_page(prev_page, page) {
                self.load_posts();
            }
            self.first_row();
        }
    }

    /// Goes to the previous page: shows it from the cache, or asks for it.
    pub fn previous_page(&mut self)
        requires
            old(self).wf(),
        ensures
            final(self)@ == old(self)@.previous_page(),
            final(self).wf(),
    {
        if self.mode.prev_page() {
            let page = self.mode.get_page();
            let prev_page = page + 1;
            if !self.load_page(prev_page, page) {
                self.load_posts();
            }
            self.first_row();
        }
    }

    /// Cycles to the next mode: shows it from the cache, or asks for it.
    pub fn next_mode(&mut self)
        requires
            old(self).wf(),
        ensures
            final(self)@ == old(self)@.next_mode(),
            final(self).wf(),
    {
        self.first_row();
        self.store_mode();
        self.mode.next_mode();
        if !self.load_mode() {
            self.load_posts();
        }
    }

    /// Cycles to the previous mode: shows it from the cache, or asks for it.
    pub fn prev_mode(&mut self)
        requires
            old(self).wf(),
        ensures
            final(self)@ == old(self)@.prev_mode(),
            final(self).wf(),
    {
        self.first_row();
        self.store_mode();
        self.mode.prev_mode();
        if !self.load_mode() {
            self.load_posts();
        }
    }
}

} // verus!
