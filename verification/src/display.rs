//! What the screen shows, as far as the state decides it.

use vstd::prelude::*;
use crate::app::{App, AppView};

verus! {

/// The least width of a terminal in which the application draws itself.
pub const MIN_WIDTH: u16 = 60;

/// The least height of a terminal in which the application draws itself.
pub const MIN_HEIGHT: u16 = 20;

/// What fills the screen.
#[derive(Debug, Clone, Copy, PartialEq, Eq)]
pub enum Screen {
    /// The terminal is too small; only a notice is shown.
    TooSmall,
    /// The frame, and a notice that a listing is being fetched.
    Loading,
    /// The frame, and a notice that the listing has no posts.
    NoResults,
    /// The frame and the list of posts.
    Posts,
}

/// What lies over the list of posts.
#[derive(Debug, Clone, Copy, PartialEq, Eq)]
pub enum Popup {
    Nothing,
    /// The table of keys.
    Keybinds,
    /// The details of the post at this index.
    Details(usize),
}

impl AppView {
    /// What fills a terminal of the given size. Too small a terminal comes
    /// first, then a fetch under way, then an empty listing.
    pub open spec fn screen(self, width: u16, height: u16) -> Screen {
        if width < MIN_WIDTH || height < MIN_HEIGHT {
            Screen::TooSmall
        } else if self.is_loading {
            Screen::Loading
        } else if self.posts().len() == 0 {
            Screen::NoResults
        } else {
            Screen::Posts
        }
    }

    /// Whether the popup can be told: where the details popup is the one to
    /// show and a post is selected, the cursor is on a post.
    pub open spec fn popup_in_bounds(self) -> bool {
        (!self.show_keybinds_popup && self.show_details_popup
            && self.posts_list_state.selected is Some) ==> self.selected_post() is Some
    }

    /// What lies over the list of posts: the table of keys before the
    /// details, and the details only where a post is selected.
    pub open spec fn popup(self) -> Popup {
        if self.show_keybinds_popup {
            Popup::Keybinds
        } else if self.show_details_popup {
            match self.posts_list_state.selected {
                Some(index) => Popup::Details(index),
                None => Popup::Nothing,
            }
        } else {
            Popup::Nothing
        }
    }
}

impl App {
    /// Tells what fills a terminal of the given size.
    pub fn screen(&self, width: u16, height: u16) -> (screen: Screen)
        ensures
            screen == self@.screen(width, height),
    {
        // Enforce a minimum size
        if width < MIN_WIDTH || height < MIN_HEIGHT {
            Screen::TooSmall
        } else if self.is_loading {
            Screen::Loading
        } else if self.cache.posts.len() == 0 {
            Screen::NoResults
        } else {
            Screen::Posts
        }
    }

    /// Whether the popup can be told.
    pub fn popup_in_bounds(&self) -> (ok: bool)
        ensures
            ok == self@.popup_in_bounds(),
    {
        if !self.show_keybinds_popup && self.show_details_popup {
            match self.posts_list_state.selected {
                Some(index) => index < self.cache.posts.len(),
                None => true,
            }
        } else {
            true
        }
    }

    /// Tells what lies over the list of posts.
    pub fn popup(&self) -> (popup: Popup)
        requires
            self@.popup_in_bounds(),
        ensures
            popup == self@.popup(),
            popup matches Popup::Details(index) ==> index < self@.posts().len(),
    {
        if self.show_keybinds_popup {
            Popup::Keybinds
        } else if self.show_details_popup {
            match self.posts_list_state.selected {
                Some(index) => Popup::Details(index),
                None => Popup::Nothing,
            }
        } else {
            Popup::Nothing
        }
    }
}

} // verus!
