//! What is done with a post: reading, opening, fetching its thread.

use vstd::prelude::*;
use crate::action::{DatabaseAction, Effect, EffectView};
use crate::app::{App, AppView};
use crate::data::{Post, PostComment, PostDetails};

verus! {

/// `post`, read or unread.
pub open spec fn with_read(post: Post, is_read: bool) -> Post {
    Post { is_read, ..post }
}

/// `post` with `comments` as its thread.
pub open spec fn with_comments(post: Post, comments: Vec<PostComment>) -> Post {
    Post { comments, ..post }
}

/// Whether `posts` holds a post with the identifier `id`.
pub open spec fn has_post(posts: Seq<Post>, id: Seq<char>) -> bool {
    exists|i: int| 0 <= i < posts.len() && (#[trigger] posts[i]).short_id@ == id
}

/// The index of the first post of `posts` with the identifier `id`; the
/// length of `posts` where there is none.
pub open spec fn position_of(posts: Seq<Post>, id: Seq<char>) -> int
    decreases posts.len(),
{
    if posts.len() == 0 {
        0
    } else if posts[0].short_id@ == id {
        0
    } else {
        1 + position_of(posts.drop_first(), id)
    }
}

/// [`position_of`] is the least index with the identifier, and the length
/// exactly where no post has it.
pub proof fn lemma_position_of(posts: Seq<Post>, id: Seq<char>)
    ensures
        0 <= position_of(posts, id) <= posts.len(),
        position_of(posts, id) < posts.len() ==> posts[position_of(posts, id)].short_id@ == id,
        forall|i: int| 0 <= i < position_of(posts, id) ==> (#[trigger] posts[i]).short_id@ != id,
        position_of(posts, id) < posts.len() <==> has_post(posts, id),
    decreases posts.len(),
{
    if posts.len() > 0 && posts[0].short_id@ != id {
        let rest = posts.drop_first();
        lemma_position_of(rest, id);
        assert forall|i: int| 0 <= i < position_of(posts, id) implies (#[trigger] posts[i]).short_id@
            != id by {
            if i > 0 {
                assert(posts[i] == rest[i - 1]);
            }
        }
        if has_post(posts, id) {
            let i = choose|i: int| 0 <= i < posts.len() && (#[trigger] posts[i]).short_id@ == id;
            assert(rest[i - 1] == posts[i]);
        }
        if position_of(posts, id) < posts.len() {
            assert(posts[position_of(posts, id)] == rest[position_of(rest, id)]);
        }
    }
}

impl AppView {
    /// Mark the post at `index` as read. A post that is read already stays
    /// as it is and nothing is written; so does everything where `index` is
    /// no post. Else the post is read at once, and the write is asked for.
    pub open spec fn mark_post_read(self, index: int) -> AppView {
        if 0 <= index < self.posts().len() && !self.posts()[index].is_read {
            self.with_posts(self.posts().update(index, with_read(self.posts()[index], true))).emit(
                EffectView::MarkPostRead(self.posts()[index].short_id@),
            )
        } else {
            self
        }
    }

    /// Mark the post at `index` as unread: it is unread at once, and the
    /// write is asked for whether or not the post was read.
    pub open spec fn mark_post_unread(self, index: int) -> AppView
        recommends
            0 <= index < self.posts().len(),
    {
        self.with_posts(self.posts().update(index, with_read(self.posts()[index], false))).emit(
            EffectView::MarkPostUnread(self.posts()[index].short_id@),
        )
    }

    /// Open the comments page of the post at `index`, and mark the post read
    /// where the settings say so. Nothing happens where `index` is no post.
    pub open spec fn open_post_comments(self, index: int) -> AppView {
        if 0 <= index < self.posts().len() {
            let opened = self.emit(EffectView::Open(self.posts()[index].comments_url@));
            if self.config.opening_comments_marks_posts_read {
                opened.mark_post_read(index)
            } else {
                opened
            }
        } else {
            self
        }
    }

    /// Open the post at `index`: what it points to, or its comments page
    /// where it points to nothing. Either way the post is marked read.
    /// Nothing happens where `index` is no post.
    pub open spec fn open_post(self, index: int) -> AppView {
        if 0 <= index < self.posts().len() {
            if self.posts()[index].url@.len() == 0 {
                self.open_post_comments(index).mark_post_read(index)
            } else {
                self.emit(EffectView::Open(self.posts()[index].url@)).mark_post_read(index)
            }
        } else {
            self
        }
    }

    /// Whether the cursors allow opening a comment: the post cursor, if set,
    /// is on a post, and the comment cursor, if set too, on one of its
    /// comments.
    pub open spec fn can_open_comment(self) -> bool {
        match (self.posts_list_state.selected, self.comments_list_state.selected) {
            (Some(post), Some(comment)) => post < self.posts().len() && comment
                < self.posts()[post as int].comments@.len(),
            (Some(post), None) => post < self.posts().len(),
            (None, _) => true,
        }
    }

    /// Open the comment under the cursor. Nothing happens unless both
    /// cursors are set.
    pub open spec fn open_comment(self) -> AppView
        recommends
            self.can_open_comment(),
    {
        match (self.posts_list_state.selected, self.comments_list_state.selected) {
            (Some(post), Some(comment)) => self.emit(
                EffectView::Open(self.posts()[post as int].comments@[comment as int].url@),
            ),
            _ => self,
        }
    }

    /// Ask for the thread of the post at `index`; where the settings say so
    /// the post is marked read first. Nothing happens where `index` is no
    /// post.
    pub open spec fn load_post_comments(self, index: int) -> AppView {
        let marked = if self.config.previewing_comments_marks_posts_read {
            self.mark_post_read(index)
        } else {
            self
        };
        if 0 <= index < self.posts().len() {
            AppView { is_loading_comments: true, ..marked }.emit(
                EffectView::FetchPostDetails(self.posts()[index].short_id_url@),
            )
        } else {
            marked
        }
    }

    /// A listing has arrived: it is on screen, no listing is expected any
    /// more, and the cursor is on the first row.
    pub open spec fn on_posts_loaded(self, posts: Seq<Post>) -> AppView {
        AppView { is_loading: false, ..self.with_posts(posts) }.first_row()
    }

    /// A thread has arrived for the post `id`: the first post on screen with
    /// that identifier gets it, and no thread is expected any more. Where no
    /// post on screen has the identifier, nothing changes.
    pub open spec fn on_details_loaded(self, id: Seq<char>, comments: Vec<PostComment>) -> AppView {
        let at = position_of(self.posts(), id);
        if at < self.posts().len() {
            AppView {
                is_loading_comments: false,
                ..self.with_posts(self.posts().update(at, with_comments(self.posts()[at], comments)))
            }
        } else {
            self
        }
    }
}

impl App {
    /// Marks the post at `index` as read and asks for the write, unless the
    /// post is read already.
    pub fn mark_post_read(&mut self, index: usize)
        ensures
            final(self)@ == old(self)@.mark_post_read(index as int),
            old(self).wf() ==> final(self).wf(),
    {
        if index >= self.cache.posts.len() {
            return ;
        }
        // Already marked as read

        if self.cache.posts[index].is_read {
            return ;
        }
        // Mark read straight away - the stored status will only matter the
        // next time the program is launched

        self.cache.posts[index].is_read = true;
        let id = self.cache.posts[index].short_id.clone();
        assert(self.cache.posts@ =~= old(self).cache.posts@.update(
            index as int,
            with_read(old(self).cache.posts@[index as int], true),
        ));
        self.emit(Effect::Database(DatabaseAction::MarkPostRead(id)));
    }

    /// Marks the post at `index` as unread and asks for the write.
    pub fn mark_post_unread(&mut self, index: usize)
        requires
            index < old(self)@.posts().len(),
        ensures
            final(self)@ == old(self)@.mark_post_unread(index as int),
            old(self).wf() ==> final(self).wf(),
    {
        self.cache.posts[index].is_read = false;
        let id = self.cache.posts[index].short_id.clone();
        assert(self.cache.posts@ =~= old(self).cache.posts@.update(
            index as int,
            with_read(old(self).cache.posts@[index as int], false),
        ));
        self.emit(Effect::Database(DatabaseAction::MarkPostUnread(id)));
    }

    /// Opens the comments page of the post at `index`.
    pub fn open_post_comments(&mut self, index: usize)
        ensures
            final(self)@ == old(self)@.open_post_comments(index as int),
            old(self).wf() ==> final(self).wf(),
    {
        if index >= self.cache.posts.len() {
            return ;
        }
        let url = self.cache.posts[index].comments_url.clone();
        self.emit(Effect::Open(url));
        if self.config.opening_comments_marks_posts_read {
            self.mark_post_read(index);
        }
    }

    /// Opens the post at `index` and marks it read.
    pub fn open_post(&mut self, index: usize)
        ensures
            final(self)@ == old(self)@.open_post(index as int),
            old(self).wf() ==> final(self).wf(),
    {
        if index >= self.cache.posts.len() {
            return ;
        }
        if self.cache.posts[index].url.as_str().unicode_len() == 0 {
            self.open_post_comments(index);
        } else {
            let url = self.cache.posts[index].url.clone();
            self.emit(Effect::Open(url));
        }
        self.mark_post_read(index);
    }

    /// Whether the cursors allow opening a comment.
    pub fn can_open_comment(&self) -> (ok: bool)
        ensures
            ok == self@.can_open_comment(),
    {
        match self.posts_list_state.selected {
            Some(post) => {
                if post >= self.cache.posts.len() {
                    false
                } else {
                    match self.comments_list_state.selected {
                        Some(comment) => comment < self.cache.posts[post].comments.len(),
                        None => true,
                    }
                }
            },
            None => true,
        }
    }

    /// Opens the comment under the cursor.
    pub fn open_comment(&mut self)
        requires
            old(self)@.can_open_comment(),
        ensures
            final(self)@ == old(self)@.open_comment(),
            old(self).wf() ==> final(self).wf(),
    {
        match (self.posts_list_state.selected, self.comments_list_state.selected) {
            (Some(post), Some(comment)) => {
                let url = self.cache.posts[post].comments[comment].url.clone();
                self.emit(Effect::Open(url));
            },
            _ => {},
        }
    }

    /// The post under the cursor, if the cursor is set.
    pub fn current_post(&self) -> (post: Option<&Post>)
        requires
            self.posts_list_state.selected is Some ==> self@.selected_post() is Some,
        ensures
            post == match self.posts_list_state.selected {
                Some(i) => Some(&self.cache.posts@[i as int]),
                None => None,
            },
    {
        match self.posts_list_state.selected {
            Some(index) => Some(&self.cache.posts[index]),
            None => None,
        }
    }

    /// Asks for the thread of the post at `index`.
    pub fn load_post_comments(&mut self, index: usize)
        ensures
            final(self)@ == old(self)@.load_post_comments(index as int),
            old(self).wf() ==> final(self).wf(),
    {
        if self.config.previewing_comments_marks_posts_read {
            self.mark_post_read(index);
        }
        if index >= self.cache.posts.len() {
            return ;
        }
        self.is_loading_comments = true;
        let url = self.cache.posts[index].short_id_url.clone();
        self.emit(Effect::FetchPostDetails(url));
    }

    /// Takes a fetched listing on screen.
    pub fn on_posts_loaded(&mut self, posts: Vec<Post>)
        ensures
            final(self)@ == old(self)@.on_posts_loaded(posts@),
            old(self).wf() ==> final(self).wf(),
    {
        self.cache.posts = posts;
        self.is_loading = false;
        self.first_row();
    }

    /// Gives a fetched thread to the post it belongs to, if that post is on
    /// screen.
    pub fn on_details_loaded(&mut self, details: PostDetails)
        ensures
            final(self)@ == old(self)@.on_details_loaded(details.short_id@, details.comments),
            old(self).wf() ==> final(self).wf(),
    {
        let mut i: usize = 0;
        proof {
            lemma_position_of(self.cache.posts@, details.short_id@);
        }
        while i < self.cache.posts.len()
            invariant
                *self == *old(self),
                0 <= i <= self.cache.posts@.len(),
                forall|k: int| 0 <= k < i ==> (#[trigger] self.cache.posts@[k]).short_id@
                    != details.short_id@,
                i <= position_of(self.cache.posts@, details.short_id@) <= self.cache.posts@.len(),
            decreases self.cache.posts@.len() - i,
        {
            if self.cache.posts[i].short_id == details.short_id {
                proof {
                    lemma_position_of(self.cache.posts@, details.short_id@);
                }
                self.cache.posts[i].comments = details.comments;
                self.is_loading_comments = false;
                assert(self.cache.posts@ =~= old(self).cache.posts@.update(
                    i as int,
                    with_comments(old(self).cache.posts@[i as int], details.comments),
                ));
                return ;
            }
            proof {
                lemma_position_of(self.cache.posts@, details.short_id@);
            }
            i += 1;
        }
    }
}

} // verus!
