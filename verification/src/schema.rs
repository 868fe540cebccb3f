use vstd::prelude::*;

use crate::crypto::{hs256_signed, jwt_claims};
use crate::error::ApiError;
use crate::post::{is_root_post, NewPost, Post, PostLookup};
use crate::user::{is_admin_user, User, UserKey, UserLookup};
use crate::walk::{get_recursive, RecursivePosts};

verus! {

/// How many levels below the direct replies `deletePostsRecursive` reaches.
pub const DELETE_DEPTH: i32 = 3;

/// Which posts a `posts` query lists.
#[derive(Debug)]
pub enum PostsQuery {
    /// The replies to the post with this id.
    RepliesTo(i32),
    /// Every post.
    All,
}

impl PostsQuery {
    /// The SQL text of the query.
    pub fn sql(&self) -> (q: &'static str)
        ensures
            self is RepliesTo ==> q@ == "SELECT * FROM posts WHERE parent_id = (?1)"@,
            self is All ==> q@ == "SELECT * FROM posts"@,
    {
        match self {
            PostsQuery::RepliesTo(_) => "SELECT * FROM posts WHERE parent_id = (?1)",
            PostsQuery::All => "SELECT * FROM posts",
        }
    }
}

impl Post {
    /// Where the author of this post comes from: the built-in admin when
    /// `author_id` is 0, else the user row with that id.
    pub fn author(&self) -> (r: UserLookup)
        ensures
            self.author_id == 0 ==> (r matches UserLookup::Resolved(u) && is_admin_user(u)),
            self.author_id != 0 ==> r == UserLookup::Fetch(UserKey::Id(self.author_id)),
    {
        if self.author_id == 0 {
            UserLookup::Resolved(User::admin())
        } else {
            UserLookup::Fetch(UserKey::Id(self.author_id))
        }
    }
}

/// The queries of the board.
pub struct QueryRoot;

impl QueryRoot {
    /// The claims of the session token, if the request carries one: the
    /// token is checked with `key` (`User::from_token`), and a refusal is
    /// the token library's error.
    pub fn is_logged_in(token: &Option<String>, key: &str) -> (r: Result<String, ApiError>)
        ensures
            token is None <==> r == Err::<String, ApiError>(ApiError::MissingToken),
            token matches Some(t) ==> (
                (r matches Ok(c) ==> c@ == jwt_claims(t@) && hs256_signed(t@, key@))
                && (r matches Err(e) ==> e is Token)),
    {
        match token {
            Some(t) => User::from_token(t.as_str(), key),
            None => Err(ApiError::MissingToken),
        }
    }

    /// The replies to `parent_id`, or every post when none is given.
    pub fn posts(parent_id: Option<i32>) -> (q: PostsQuery)
        ensures
            parent_id matches Some(p) ==> q == PostsQuery::RepliesTo(p),
            parent_id is None ==> q == PostsQuery::All,
    {
        match parent_id {
            Some(p) => PostsQuery::RepliesTo(p),
            None => PostsQuery::All,
        }
    }

    /// The post with id `post_id`; id 0 is the root post.
    pub fn post(post_id: i32) -> (r: PostLookup)
        ensures
            post_id == 0 ==> (r matches PostLookup::Resolved(p) && is_root_post(p)),
            post_id != 0 ==> r == PostLookup::Fetch(post_id),
    {
        if post_id == 0 {
            PostLookup::Resolved(Post::root())
        } else {
            PostLookup::Fetch(post_id)
        }
    }
}

/// The mutations of the board.
pub struct MutationRoot;

impl MutationRoot {
    /// The post that `createPost` inserts for a logged-in request: the
    /// given post, as one row of `posts` (see `NewPost::insert_sql`).
    /// Without a session token the mutation is refused.
    pub fn create_post(token: &Option<String>, new_post: NewPost) -> (r: Result<NewPost, ApiError>)
        ensures
            token is None ==> r == Err::<NewPost, ApiError>(ApiError::NotLoggedIn),
            token is Some ==> r == Ok::<NewPost, ApiError>(new_post),
    {
        if token.is_none() {
            return Err(ApiError::NotLoggedIn);
        }
        Ok(new_post)
    }

    /// Starts collecting the posts below `post_id` that
    /// `deletePostsRecursive` removes.
    pub fn deletion_walk(post_id: i32) -> (walk: RecursivePosts)
        ensures
            walk.found() == Seq::<Post>::empty(),
            walk.stack() == seq![(post_id, DELETE_DEPTH as u32)],
    {
        get_recursive(post_id, DELETE_DEPTH)
    }

    /// The ids that `deletePostsRecursive` deletes, in order: those of the
    /// collected posts below the target, then the target's own.
    pub fn delete_posts_recursive(descendants: Vec<Post>, target: Post) -> (ids: Vec<i32>)
        ensures
            ids@.len() == descendants@.len() + 1,
            forall|k: int| 0 <= k < descendants@.len() ==> ids@[k] == descendants@[k].id,
            ids@.last() == target.id,
    {
        let mut ids: Vec<i32> = Vec::new();
        let n = descendants.len();
        let mut k: usize = 0;
        while k < n
            invariant
                k <= n,
                n == descendants@.len(),
                ids@.len() == k,
                forall|j: int| 0 <= j < k ==> ids@[j] == descendants@[j].id,
            decreases n - k,
        {
            ids.push(descendants[k].id);
            k = k + 1;
        }
        ids.push(target.id);
        ids
    }
}

/// The posts that a fresh board starts with, as (content, author, parent).
pub open spec fn seed_post(k: int) -> (Seq<char>, i32, i32) {
    if k == 0 { ("1"@, 0, 1) }
    else if k == 1 { ("1.1"@, 1, 1) }
    else if k == 2 { ("1.2"@, 1, 1) }
    else if k == 3 { ("1.3"@, 1, 1) }
    else if k == 4 { ("1.2.1"@, 3, 1) }
    else { ("1.2.2"@, 3, 1) }
}

fn new_post(content: &str, author_id: i32, parent_id: i32) -> (p: NewPost)
    ensures
        p.content@ == content@,
        p.author_id == author_id,
        p.parent_id == parent_id,
{
    NewPost { content: content.to_owned(), author_id, parent_id }
}

/// The posts inserted when the board starts.
pub fn seed_posts() -> (posts: Vec<NewPost>)
    ensures
        posts@.len() == 6,
        forall|k: int| 0 <= k < 6 ==> (#[trigger] posts@[k]).content@ == seed_post(k).0
            && posts@[k].author_id == seed_post(k).1 && posts@[k].parent_id == seed_post(k).2,
{
    let mut posts: Vec<NewPost> = Vec::new();
    posts.push(new_post("1", 0, 1));
    posts.push(new_post("1.1", 1, 1));
    posts.push(new_post("1.2", 1, 1));
    posts.push(new_post("1.3", 1, 1));
    posts.push(new_post("1.2.1", 3, 1));
    posts.push(new_post("1.2.2", 3, 1));
    posts
}

} // verus!
