use vstd::prelude::*;

use crate::post::Post;

verus! {

/// The posts that `get_recursive(id, depth)` collects when `children(x)`
/// is the list of replies to post `x`: the replies to `id`, then, unless
/// `depth` is 0, the collection for each reply in turn with one level less.
pub open spec fn subtree(children: spec_fn(i32) -> Seq<Post>, id: i32, depth: nat) -> Seq<Post>
    decreases depth, 0nat, 0nat,
{
    children(id) + if depth == 0 {
        Seq::empty()
    } else {
        forest(children, children(id), (depth - 1) as nat)
    }
}

/// The collections for each post of `posts` in turn, each to `depth` levels.
pub open spec fn forest(children: spec_fn(i32) -> Seq<Post>, posts: Seq<Post>, depth: nat) -> Seq<Post>
    decreases depth, 1nat, posts.len(),
{
    if posts.len() == 0 {
        Seq::empty()
    } else {
        subtree(children, posts[0].id, depth) + forest(children, posts.drop_first(), depth)
    }
}

/// What a stack of pending requests (post id, levels below it) will still
/// collect, the top of the stack (its last element) first.
pub open spec fn pending_output(children: spec_fn(i32) -> Seq<Post>, stack: Seq<(i32, u32)>) -> Seq<Post>
    decreases stack.len(),
{
    if stack.len() == 0 {
        Seq::empty()
    } else {
        subtree(children, stack.last().0, stack.last().1 as nat)
            + pending_output(children, stack.drop_last())
    }
}

/// The requests pushed for the replies `posts`, each with `depth` levels,
/// so that the first reply ends on top.
pub open spec fn reply_requests(posts: Seq<Post>, depth: u32) -> Seq<(i32, u32)> {
    Seq::new(posts.len(), |k: int| (posts[posts.len() - 1 - k].id, depth))
}

/// The stack after the replies `posts` to its top request were received.
pub open spec fn next_stack(stack: Seq<(i32, u32)>, posts: Seq<Post>) -> Seq<(i32, u32)> {
    let depth = stack.last().1;
    if depth == 0 {
        stack.drop_last()
    } else {
        stack.drop_last() + reply_requests(posts, (depth - 1) as u32)
    }
}

/// The replies below a post, to a given depth, collected one database
/// query at a time: the walk asks for the replies to one post, is handed
/// them, and asks for the next, until it has nothing left to ask.
pub struct RecursivePosts {
    found: Vec<Post>,
    stack: Vec<(i32, u32)>,
}

impl RecursivePosts {
    /// The posts collected so far, in order.
    pub closed spec fn found(&self) -> Seq<Post> {
        self.found@
    }

    /// The requests still to make; the last one is made next.
    pub closed spec fn stack(&self) -> Seq<(i32, u32)> {
        self.stack@
    }

    /// The walk, answered by `children`, ends with the collection of post
    /// `root` to `depth` levels.
    pub open spec fn tracks(&self, children: spec_fn(i32) -> Seq<Post>, root: i32, depth: nat) -> bool {
        self.found() + pending_output(children, self.stack()) == subtree(children, root, depth)
    }

    /// The post whose replies the walk needs next, if any.
    pub fn next_request(&self) -> (r: Option<i32>)
        ensures
            self.stack().len() == 0 ==> r is None,
            self.stack().len() > 0 ==> r == Some(self.stack().last().0),
    {
        let n = self.stack.len();
        if n == 0 {
            None
        } else {
            Some(self.stack[n - 1].0)
        }
    }

    /// Whether the walk has nothing left to ask.
    pub fn is_finished(&self) -> (r: bool)
        ensures
            r == (self.stack().len() == 0),
    {
        self.stack.len() == 0
    }

    /// Hands the walk the replies to the post it asked for; returns the
    /// post it needs next, if any.
    pub fn supply_children(&mut self, children: Vec<Post>) -> (r: Option<i32>)
        requires
            old(self).stack().len() > 0,
        ensures
            final(self).found() == old(self).found() + children@,
            final(self).stack() == next_stack(old(self).stack(), children@),
            final(self).stack().len() == 0 ==> r is None,
            final(self).stack().len() > 0 ==> r == Some(final(self).stack().last().0),
    {
        let mut children = children;
        let ghost replies = children@;
        let ghost start = self.stack@;
        let ghost found0 = self.found@;
        let top = self.stack.pop();
        let (_, depth) = top.unwrap();
        if depth > 0 {
            let n = children.len();
            let mut i = n;
            while i > 0
                invariant
                    i <= n,
                    n == replies.len(),
                    children@ == replies,
                    depth > 0,
                    start.len() > 0,
                    self.found@ == found0,
                    self.stack@ == start.drop_last() + reply_requests(replies, (depth - 1) as u32).take((n - i) as int),
                decreases i,
            {
                i = i - 1;
                self.stack.push((children[i].id, depth - 1));
                assert(reply_requests(replies, (depth - 1) as u32).take((n - i) as int)
                    =~= reply_requests(replies, (depth - 1) as u32).take((n - i - 1) as int)
                        .push((replies[i as int].id, (depth - 1) as u32)));
            }
            assert(reply_requests(replies, (depth - 1) as u32).take(n as int)
                =~= reply_requests(replies, (depth - 1) as u32));
        }
        assert(self.stack@ =~= next_stack(start, replies));
        self.found.append(&mut children);
        self.next_request()
    }

    /// The posts collected.
    pub fn into_posts(self) -> (posts: Vec<Post>)
        ensures
            posts@ == self.found(),
    {
        self.found
    }
}

/// The levels below the direct replies that a walk with `depth` reaches:
/// `depth` itself, or none for a negative depth (which collects the
/// direct replies only).
pub open spec fn levels(depth: int) -> u32 {
    if depth < 0 { 0 } else { depth as u32 }
}

/// Starts collecting the replies below post `post_id`, to `depth` levels
/// below its direct replies (none when `depth` is negative). The first
/// request is for `post_id` itself.
pub fn get_recursive(post_id: i32, depth: i32) -> (walk: RecursivePosts)
    ensures
        walk.found() == Seq::<Post>::empty(),
        walk.stack() == seq![(post_id, levels(depth as int))],
{
    let below: u32 = if depth < 0 { 0 } else { depth as u32 };
    let mut stack: Vec<(i32, u32)> = Vec::new();
    stack.push((post_id, below));
    RecursivePosts { found: Vec::new(), stack }
}

proof fn lemma_pending_replies(
    children: spec_fn(i32) -> Seq<Post>,
    stack: Seq<(i32, u32)>,
    posts: Seq<Post>,
    depth: u32,
)
    ensures
        pending_output(children, stack + reply_requests(posts, depth))
            == forest(children, posts, depth as nat) + pending_output(children, stack),
    decreases posts.len(),
{
    let reqs = reply_requests(posts, depth);
    if posts.len() == 0 {
        assert(stack + reqs =~= stack);
        assert(forest(children, posts, depth as nat) =~= Seq::<Post>::empty());
    } else {
        let rest = posts.drop_first();
        lemma_pending_replies(children, stack, rest, depth);
        assert((stack + reqs).drop_last() =~= stack + reply_requests(rest, depth));
        assert((stack + reqs).last() == (posts[0].id, depth));
        assert(pending_output(children, stack + reqs)
            == subtree(children, posts[0].id, depth as nat)
                + pending_output(children, (stack + reqs).drop_last()));
        assert(forest(children, posts, depth as nat)
            == subtree(children, posts[0].id, depth as nat) + forest(children, rest, depth as nat));
        assert(pending_output(children, stack + reqs)
            =~= forest(children, posts, depth as nat) + pending_output(children, stack));
    }
}

/// A walk just started on `post_id` with `depth` levels will collect
/// exactly the collection of `post_id` to `depth` levels, whatever the
/// replies are.
pub proof fn lemma_walk_starts_on_target(
    children: spec_fn(i32) -> Seq<Post>,
    walk: RecursivePosts,
    post_id: i32,
    depth: u32,
)
    requires
        walk.found() == Seq::<Post>::empty(),
        walk.stack() == seq![(post_id, depth)],
    ensures
        walk.tracks(children, post_id, depth as nat),
{
    let s = walk.stack();
    assert(s.drop_last() =~= Seq::<(i32, u32)>::empty());
    assert(pending_output(children, s)
        == subtree(children, post_id, depth as nat) + pending_output(children, s.drop_last()));
    assert(walk.found() + pending_output(children, s) =~= subtree(children, post_id, depth as nat));
}

/// Handing a walk the true replies to the post it asked for keeps it on
/// course: it still ends with the same collection.
pub proof fn lemma_walk_step_keeps_target(
    children: spec_fn(i32) -> Seq<Post>,
    before: RecursivePosts,
    replies: Seq<Post>,
    after: RecursivePosts,
    root: i32,
    depth: nat,
)
    requires
        before.tracks(children, root, depth),
        before.stack().len() > 0,
        replies == children(before.stack().last().0),
        after.found() == before.found() + replies,
        after.stack() == next_stack(before.stack(), replies),
    ensures
        after.tracks(children, root, depth),
{
    let s = before.stack();
    let (id, d) = s.last();
    let rest = s.drop_last();
    assert(pending_output(children, s) == subtree(children, id, d as nat) + pending_output(children, rest));
    if d == 0 {
        assert(subtree(children, id, d as nat) =~= replies);
        assert(after.found() + pending_output(children, after.stack())
            =~= before.found() + pending_output(children, s));
    } else {
        lemma_pending_replies(children, rest, replies, (d - 1) as u32);
        assert(subtree(children, id, d as nat)
            == replies + forest(children, replies, (d - 1) as nat));
        assert(after.found() + pending_output(children, after.stack())
            =~= before.found() + pending_output(children, s));
    }
}

/// A walk with nothing left to ask, kept on course, has collected exactly
/// the collection of its post.
pub proof fn lemma_finished_walk_is_exact(
    children: spec_fn(i32) -> Seq<Post>,
    walk: RecursivePosts,
    root: i32,
    depth: nat,
)
    requires
        walk.tracks(children, root, depth),
        walk.stack().len() == 0,
    ensures
        walk.found() == subtree(children, root, depth),
{
    assert(walk.found() + pending_output(children, walk.stack()) =~= walk.found());
}

/// How many requests the walk for post `id` to `depth` levels makes when
/// `children` answers them: one for `id`, then those for each reply.
pub open spec fn subtree_requests(children: spec_fn(i32) -> Seq<Post>, id: i32, depth: nat) -> nat
    decreases depth, 0nat, 0nat,
{
    1 + if depth == 0 {
        0nat
    } else {
        forest_requests(children, children(id), (depth - 1) as nat)
    }
}

/// The requests of the walks for each post of `posts`, to `depth` levels.
pub open spec fn forest_requests(children: spec_fn(i32) -> Seq<Post>, posts: Seq<Post>, depth: nat) -> nat
    decreases depth, 1nat, posts.len(),
{
    if posts.len() == 0 {
        0nat
    } else {
        subtree_requests(children, posts[0].id, depth) + forest_requests(children, posts.drop_first(), depth)
    }
}

/// The requests that a stack of pending requests will still make.
pub open spec fn pending_requests(children: spec_fn(i32) -> Seq<Post>, stack: Seq<(i32, u32)>) -> nat
    decreases stack.len(),
{
    if stack.len() == 0 {
        0nat
    } else {
        subtree_requests(children, stack.last().0, stack.last().1 as nat)
            + pending_requests(children, stack.drop_last())
    }
}

proof fn lemma_pending_reply_requests(
    children: spec_fn(i32) -> Seq<Post>,
    stack: Seq<(i32, u32)>,
    posts: Seq<Post>,
    depth: u32,
)
    ensures
        pending_requests(children, stack + reply_requests(posts, depth))
            == forest_requests(children, posts, depth as nat) + pending_requests(children, stack),
    decreases posts.len(),
{
    let reqs = reply_requests(posts, depth);
    if posts.len() == 0 {
        assert(stack + reqs =~= stack);
    } else {
        let rest = posts.drop_first();
        lemma_pending_reply_requests(children, stack, rest, depth);
        assert((stack + reqs).drop_last() =~= stack + reply_requests(rest, depth));
        assert((stack + reqs).last() == (posts[0].id, depth));
    }
}

/// A walk answered truthfully makes exactly one request fewer after each
/// answer; so it ends, after `subtree_requests(children, root, depth)`
/// requests in all.
pub proof fn lemma_walk_step_counts_down(
    children: spec_fn(i32) -> Seq<Post>,
    before: RecursivePosts,
    replies: Seq<Post>,
    after: RecursivePosts,
)
    requires
        before.stack().len() > 0,
        replies == children(before.stack().last().0),
        after.stack() == next_stack(before.stack(), replies),
    ensures
        pending_requests(children, after.stack()) + 1 == pending_requests(children, before.stack()),
{
    let s = before.stack();
    let (id, d) = s.last();
    let rest = s.drop_last();
    if d != 0 {
        lemma_pending_reply_requests(children, rest, replies, (d - 1) as u32);
    }
}

/// A walk just started on `post_id` will make `subtree_requests` requests.
pub proof fn lemma_walk_request_count(
    children: spec_fn(i32) -> Seq<Post>,
    walk: RecursivePosts,
    post_id: i32,
    depth: u32,
)
    requires
        walk.stack() == seq![(post_id, depth)],
    ensures
        pending_requests(children, walk.stack()) == subtree_requests(children, post_id, depth as nat),
{
    assert(walk.stack().drop_last() =~= Seq::<(i32, u32)>::empty());
    assert(pending_requests(children, walk.stack())
        == subtree_requests(children, post_id, depth as nat)
            + pending_requests(children, walk.stack().drop_last()));
}

/// Whatever the depth, the collection of a post begins with its direct
/// replies, in order.
pub proof fn lemma_direct_replies_first(children: spec_fn(i32) -> Seq<Post>, id: i32, depth: nat)
    ensures
        subtree(children, id, depth).len() >= children(id).len(),
        subtree(children, id, depth).subrange(0, children(id).len() as int) == children(id),
{
    assert(subtree(children, id, depth).subrange(0, children(id).len() as int) =~= children(id));
}

/// A walk reaches exactly the depth it was asked for: for every
/// non-negative `depth`, the walk that `get_recursive(post_id, depth)`
/// starts ends, answered truthfully, with the collection of `post_id` to
/// `depth` levels; for a negative depth, with the direct replies only.
pub proof fn lemma_walk_reaches_requested_depth(
    children: spec_fn(i32) -> Seq<Post>,
    walk: RecursivePosts,
    post_id: i32,
    depth: i32,
)
    requires
        walk.found() == Seq::<Post>::empty(),
        walk.stack() == seq![(post_id, levels(depth as int))],
    ensures
        depth >= 0 ==> levels(depth as int) as int == depth as int,
        depth >= 0 ==> walk.tracks(children, post_id, depth as nat),
        depth < 0 ==> walk.tracks(children, post_id, 0),
        depth < 0 ==> subtree(children, post_id, 0) == children(post_id),
{
    lemma_walk_starts_on_target(children, walk, post_id, levels(depth as int));
    assert(subtree(children, post_id, 0) =~= children(post_id));
}

} // verus!
