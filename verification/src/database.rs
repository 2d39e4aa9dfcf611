//! The store of read posts: its schema and its statements.
//!
//! The store holds the identifier of every post that was read, and nothing
//! else. Each statement takes the identifier of a post as its one parameter.

use vstd::prelude::*;

verus! {

/// The steps that bring a store to the current schema, oldest first.
pub fn migrations() -> (steps: Vec<&'static str>)
    ensures
        steps@.len() == 1,
        steps@[0]@ == "CREATE TABLE read_posts (short_id TEXT PRIMARY KEY NOT NULL);"@,
{
    let mut steps: Vec<&'static str> = Vec::new();
    steps.push("CREATE TABLE read_posts (short_id TEXT PRIMARY KEY NOT NULL);");
    steps
}

/// Records a post as read. Recording it twice is the same as once.
pub const INSERT_POST: &'static str = "INSERT OR IGNORE INTO read_posts (short_id) VALUES (?1);";

/// Forgets that a post was read.
pub const DELETE_POST: &'static str = "DELETE FROM read_posts WHERE short_id = ?1;";

/// Yields one row where the post was read, none where it was not.
pub const GET_POST: &'static str = "SELECT short_id FROM read_posts WHERE short_id = ?1;";

} // verus!
