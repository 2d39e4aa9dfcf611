//! The state of the application core.

use vstd::prelude::*;
use crate::action::{Effect, EffectView, effects_view};
use crate::cache::{CacheView, PageCache, page_at};
use crate::data::Post;
use crate::mode_map::no_modes;
use crate::modes::{Mode, STARTING_PAGE};

verus! {

/// Terminal rows that one post takes in the list.
pub const TABLE_ROW_HEIGHT: usize = 2;

/// The settings that the core reads.
#[derive(Debug, Clone, Copy, PartialEq, Eq)]
pub struct CoreConfig {
    /// The mode in which the application starts.
    pub default_mode: Mode,
    pub opening_comments_marks_posts_read: bool,
    pub previewing_comments_marks_posts_read: bool,
}

/// The cursor of a list: the selected row, and the first row on screen.
#[derive(Debug, Clone, Copy, PartialEq, Eq)]
pub struct ListState {
    /// Index of the first row on screen; the renderer sets it.
    pub offset: usize,
    pub selected: Option<usize>,
}

/// The application core: everything that input and fetched data change, and
/// the work that is waiting to be handed out.
pub struct App {
    pub config: CoreConfig,
    pub mode: Mode,
    pub cache: PageCache,
    pub posts_list_state: ListState,
    pub comments_list_state: ListState,
    /// Position of the scroll bar of the post list.
    pub posts_scroll_position: usize,
    /// First and last terminal row of the post list, as last drawn.
    pub table_starts_at: u16,
    pub table_ends_at: u16,
    /// Width and height of the terminal, as last drawn.
    pub prev_size: (u16, u16),
    pub show_keybinds_popup: bool,
    pub show_details_popup: bool,
    /// A listing fetch is under way.
    pub is_loading: bool,
    /// A details fetch is under way.
    pub is_loading_comments: bool,
    /// Cleared when the run loop is to stop.
    pub is_running: bool,
    /// Work that has been decided on and not yet handed out, oldest first.
    pub outbox: Vec<Effect>,
    /// Zero unless the user forced the application to quit.
    pub exit_code: i32,
}

/// What an [`App`] holds.
pub struct AppView {
    pub config: CoreConfig,
    pub mode: Mode,
    pub cache: CacheView,
    pub posts_list_state: ListState,
    pub comments_list_state: ListState,
    pub posts_scroll_position: usize,
    pub table_starts_at: u16,
    pub table_ends_at: u16,
    pub prev_size: (u16, u16),
    pub show_keybinds_popup: bool,
    pub show_details_popup: bool,
    pub is_loading: bool,
    pub is_loading_comments: bool,
    pub is_running: bool,
    pub outbox: Seq<EffectView>,
    pub exit_code: i32,
}

impl View for App {
    type V = AppView;

    open spec fn view(&self) -> AppView {
        AppView {
            config: self.config,
            mode: self.mode,
            cache: self.cache@,
            posts_list_state: self.posts_list_state,
            comments_list_state: self.comments_list_state,
            posts_scroll_position: self.posts_scroll_position,
            table_starts_at: self.table_starts_at,
            table_ends_at: self.table_ends_at,
            prev_size: self.prev_size,
            show_keybinds_popup: self.show_keybinds_popup,
            show_details_popup: self.show_details_popup,
            is_loading: self.is_loading,
            is_loading_comments: self.is_loading_comments,
            is_running: self.is_running,
            outbox: effects_view(self.outbox),
            exit_code: self.exit_code,
        }
    }
}

impl AppView {
    /// The posts on screen.
    pub open spec fn posts(self) -> Seq<Post> {
        self.cache.posts
    }

    /// The page of the mode, counted from zero.
    pub open spec fn page_index(self) -> int {
        self.mode.page() - 1
    }

    /// The mode is at a page from the starting page on, and unless that is
    /// the starting page the cache has a slot for it. That slot is empty: the
    /// posts of the current page are on screen, not in the cache.
    pub open spec fn wf(self) -> bool {
        &&& self.mode.wf()
        &&& (self.page_index() == 0 || self.page_index() < self.cache.pages.len())
        &&& page_at(self.cache.pages, self.page_index()).len() == 0
    }

    /// The state with `effect` added to the work that is waiting.
    pub open spec fn emit(self, effect: EffectView) -> AppView {
        AppView { outbox: self.outbox.push(effect), ..self }
    }

    /// The state with `posts` on screen.
    pub open spec fn with_posts(self, posts: Seq<Post>) -> AppView {
        AppView { cache: self.cache.with_posts(posts), ..self }
    }

    /// The state in which the application starts.
    pub open spec fn initial(config: CoreConfig) -> AppView {
        AppView {
            config,
            mode: config.default_mode,
            cache: CacheView { posts: Seq::empty(), pages: Seq::empty(), modes: no_modes() },
            posts_list_state: ListState { offset: 0, selected: Some(0) },
            comments_list_state: ListState { offset: 0, selected: Some(0) },
            posts_scroll_position: 0,
            table_starts_at: 0,
            table_ends_at: 0,
            prev_size: (0, 0),
            show_keybinds_popup: false,
            show_details_popup: false,
            is_loading: true,
            is_loading_comments: false,
            is_running: true,
            outbox: Seq::empty(),
            exit_code: 0,
        }
    }
}

impl App {
    /// See [`AppView::wf`].
    pub open spec fn wf(&self) -> bool {
        self@.wf()
    }

    /// The core as it is when the application starts: nothing fetched, the
    /// first rows selected, a listing fetch expected.
    pub fn new(config: CoreConfig) -> (app: App)
        requires
            config.default_mode.page() == STARTING_PAGE,
        ensures
            app@ == AppView::initial(config),
            app.wf(),
    {
        let app = App {
            config,
            mode: config.default_mode,
            cache: PageCache::new(),
            posts_list_state: ListState { offset: 0, selected: Some(0) },
            comments_list_state: ListState { offset: 0, selected: Some(0) },
            posts_scroll_position: 0,
            table_starts_at: 0,
            table_ends_at: 0,
            prev_size: (0, 0),
            show_keybinds_popup: false,
            show_details_popup: false,
            is_loading: true,
            is_loading_comments: false,
            is_running: true,
            outbox: Vec::new(),
            exit_code: 0,
        };
        assert(effects_view(app.outbox) =~= Seq::<EffectView>::empty());
        app
    }

    /// Adds `effect` to the work that is waiting.
    pub(crate) fn emit(&mut self, effect: Effect)
        ensures
            final(self)@ == old(self)@.emit(effect@),
    {
        self.outbox.push(effect);
        assert(effects_view(self.outbox) =~= effects_view(old(self).outbox).push(effect@));
    }

    /// Hands out the work that is waiting, oldest first; none is waiting
    /// afterwards.
    pub fn take_effects(&mut self) -> (effects: Vec<Effect>)
        ensures
            effects_view(effects) == old(self)@.outbox,
            final(self)@ == (AppView { outbox: Seq::empty(), ..old(self)@ }),
    {
        let mut effects: Vec<Effect> = Vec::new();
        std::mem::swap(&mut self.outbox, &mut effects);
        assert(effects_view(self.outbox) =~= Seq::<EffectView>::empty());
        effects
    }
}

} // verus!
