//! Posts and comments as the core holds them.

use vstd::prelude::*;

verus! {

/// One comment of a post's thread.
#[derive(Debug, Clone)]
pub struct PostComment {
    /// When the comment was written, in seconds since the Unix epoch.
    pub created_at: i64,
    pub score: i32,
    pub comment_plain: String,
    /// Nesting depth; zero is the top level.
    pub depth: usize,
    pub commenting_user: String,
    pub url: String,
}

/// One entry of a listing.
#[derive(Debug, Clone)]
pub struct Post {
    pub short_id: String,
    /// When the post was submitted, in seconds since the Unix epoch.
    pub created_at: i64,
    /// Offset of the submitter's clock from UTC, in seconds east.
    pub created_offset: i32,
    pub title: String,
    /// Where the post points; empty for a text post.
    pub url: String,
    pub score: i32,
    pub comment_count: u32,
    pub submitter_user: String,
    pub tags: Vec<String>,
    pub short_id_url: String,
    pub comments_url: String,
    /// Whether the post has been read; kept locally.
    pub is_read: bool,
    /// The thread, empty until the details have been fetched.
    pub comments: Vec<PostComment>,
}

/// The thread of one post, as a details fetch returns it.
#[derive(Debug, Clone)]
pub struct PostDetails {
    pub short_id: String,
    pub comments: Vec<PostComment>,
}

/// The pages of one mode as sequences of posts.
pub open spec fn pages_view(pages: Vec<Vec<Post>>) -> Seq<Seq<Post>> {
    Seq::new(pages@.len(), |i: int| pages@[i]@)
}

} // verus!
