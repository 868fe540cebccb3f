use vstd::prelude::*;

use crate::error::ApiError;

verus! {

/// A post as stored in the `posts` table. `parent_id == 0` marks a post
/// that answers the board itself; `author_id == 0` marks the built-in admin.
#[derive(Debug)]
pub struct Post {
    pub id: i32,
    pub content: String,
    pub author_id: i32,
    pub parent_id: i32,
}

/// The input of a post to create.
#[derive(Debug)]
pub struct NewPost {
    pub content: String,
    pub author_id: i32,
    pub parent_id: i32,
}

impl NewPost {
    /// The statement that inserts a new post; its parameters are the
    /// content, the author id and the parent id.
    pub fn insert_sql() -> (q: &'static str)
        ensures
            q@ == "INSERT INTO posts (content, author_id, parent_id) VALUES (?1, ?2, ?3)"@,
    {
        "INSERT INTO posts (content, author_id, parent_id) VALUES (?1, ?2, ?3)"
    }
}

/// The post that stands for the board itself.
pub open spec fn is_root_post(p: Post) -> bool {
    &&& p.id == 0
    &&& p.content@ == "ROOT"@
    &&& p.author_id == 0
    &&& p.parent_id == 0
}

/// Where a post comes from: it is known without the database, or it is
/// the row of the `posts` table with the given id.
#[derive(Debug)]
pub enum PostLookup {
    Resolved(Post),
    Fetch(i32),
}

impl Post {
    pub fn id(&self) -> (r: i32)
        ensures
            r == self.id,
    {
        self.id
    }

    pub fn content(&self) -> (r: &str)
        ensures
            r@ == self.content@,
    {
        self.content.as_str()
    }

    pub fn author_id(&self) -> (r: i32)
        ensures
            r == self.author_id,
    {
        self.author_id
    }

    pub fn parent_id(&self) -> (r: i32)
        ensures
            r == self.parent_id,
    {
        self.parent_id
    }

    /// The post that stands for the board itself: id 0, content `ROOT`.
    pub fn root() -> (p: Post)
        ensures
            is_root_post(p),
    {
        Post { id: 0, content: "ROOT".to_owned(), author_id: 0, parent_id: 0 }
    }

    /// Where the parent of this post comes from: the root post when
    /// `parent_id` is 0, else the row with id `parent_id`.
    pub fn parent(&self) -> (r: PostLookup)
        ensures
            self.parent_id == 0 ==> (r matches PostLookup::Resolved(p) && is_root_post(p)),
            self.parent_id != 0 ==> r == PostLookup::Fetch(self.parent_id),
    {
        if self.parent_id == 0 {
            PostLookup::Resolved(Post::root())
        } else {
            PostLookup::Fetch(self.parent_id)
        }
    }
}

/// Finishes the lookup of the post with id `post_id`, given the first row
/// that the query by id returned: that row, or the error that no post has
/// this id.
pub fn get_post(post_id: i32, found: Option<Post>) -> (r: Result<Post, ApiError>)
    ensures
        found matches Some(p) ==> r == Ok::<Post, ApiError>(p),
        found is None ==> r == Err::<Post, ApiError>(ApiError::PostNotFound(post_id)),
{
    match found {
        Some(p) => Ok(p),
        None => Err(ApiError::PostNotFound(post_id)),
    }
}

} // verus!
