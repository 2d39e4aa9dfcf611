//! What reaches the core, and what the core asks of its workers.

use vstd::prelude::*;
use crate::data::{Post, PostComment, PostDetails};
use crate::input::{KeyEvent, MouseEvent};
use crate::modes::Mode;

verus! {

/// An event for the core: input from the terminal or the result of a fetch.
#[derive(Debug)]
pub enum Action {
    /// The terminal was resized to this width and height.
    Resize(u16, u16),
    Key(KeyEvent),
    Mouse(MouseEvent),
    /// A listing has been fetched.
    LoadPosts(Vec<Post>),
    /// The thread of a post has been fetched.
    LoadPostDetails(PostDetails),
}

/// A change of the read status that is to be made durable.
#[derive(Debug)]
pub enum DatabaseAction {
    MarkPostRead(String),
    MarkPostUnread(String),
}

/// Work that the core hands out. The core never waits for it.
#[derive(Debug)]
pub enum Effect {
    /// Fetch the listing of this mode and page.
    FetchPosts(Mode),
    /// Fetch the thread of the post at this address.
    FetchPostDetails(String),
    /// Make a change of the read status durable.
    Database(DatabaseAction),
    /// Open this address with the system's handler.
    Open(String),
}

/// An [`Action`] with its texts and lists as sequences.
pub enum ActionView {
    Resize(u16, u16),
    Key(KeyEvent),
    Mouse(MouseEvent),
    LoadPosts(Seq<Post>),
    LoadPostDetails(Seq<char>, Vec<PostComment>),
}

/// An [`Effect`] with its texts as sequences.
pub enum EffectView {
    FetchPosts(Mode),
    FetchPostDetails(Seq<char>),
    MarkPostRead(Seq<char>),
    MarkPostUnread(Seq<char>),
    Open(Seq<char>),
}

impl View for Action {
    type V = ActionView;

    open spec fn view(&self) -> ActionView {
        match *self {
            Action::Resize(w, h) => ActionView::Resize(w, h),
            Action::Key(ev) => ActionView::Key(ev),
            Action::Mouse(ev) => ActionView::Mouse(ev),
            Action::LoadPosts(posts) => ActionView::LoadPosts(posts@),
            Action::LoadPostDetails(details) => ActionView::LoadPostDetails(
                details.short_id@,
                details.comments,
            ),
        }
    }
}

impl View for Effect {
    type V = EffectView;

    open spec fn view(&self) -> EffectView {
        match *self {
            Effect::FetchPosts(mode) => EffectView::FetchPosts(mode),
            Effect::FetchPostDetails(url) => EffectView::FetchPostDetails(url@),
            Effect::Database(DatabaseAction::MarkPostRead(id)) => EffectView::MarkPostRead(id@),
            Effect::Database(DatabaseAction::MarkPostUnread(id)) => EffectView::MarkPostUnread(id@),
            Effect::Open(url) => EffectView::Open(url@),
        }
    }
}

/// The effects of a list, in order.
pub open spec fn effects_view(effects: Vec<Effect>) -> Seq<EffectView> {
    Seq::new(effects@.len(), |i: int| effects@[i]@)
}

} // verus!
