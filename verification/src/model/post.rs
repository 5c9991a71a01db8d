//! Posts users write.

use vstd::prelude::*;

verus! {

/// A stored post.
pub struct Post {
    pub id: i32,
    pub user_id: i32,
    pub content: String,
}

impl Post {
    /// The text of the post.
    pub fn content(&self) -> (s: &str)
        ensures
            s@ == self.content@,
    {
        self.content.as_str()
    }
}

/// A post to be stored.
pub struct NewPost<'a> {
    pub user_id: i32,
    pub content: &'a str,
}

impl<'a> NewPost<'a> {
    pub fn new(user_id: i32, content: &'a str) -> (p: Self)
        ensures
            p.user_id == user_id,
            p.content == content,
    {
        NewPost { user_id, content }
    }
}

/// A post row as an older schema stored it, with its author's identifier.
pub struct PostRow {
    pub id: i64,
    pub author_id: i64,
    pub content: String,
}

} // verus!
