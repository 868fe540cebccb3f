use postboard::db::db_schema;
use postboard::error::ApiError;
use postboard::post::{get_post, NewPost, Post, PostLookup};
use postboard::schema::{seed_posts, MutationRoot, PostsQuery, QueryRoot};
use postboard::walk::get_recursive;

fn post(id: i32, parent_id: i32) -> Post {
    Post { id, content: format!("post {}", id), author_id: 1, parent_id }
}

#[test]
fn schema_script_creates_both_tables() {
    let s = db_schema();
    assert!(s.starts_with("\n                BEGIN TRANSACTION;\n"));
    assert!(s.contains("DROP TABLE IF EXISTS posts;"));
    assert!(s.contains("CREATE TABLE IF NOT EXISTS posts( \n                    id INTEGER NOT NULL PRIMARY KEY, \n"));
    assert!(s.contains("                    username VARCHAR (255) UNIQUE, \n"));
    assert!(s.ends_with("                COMMIT;\n            "));
    assert_eq!(s.len(), 841);
}

#[test]
fn root_post_is_id_zero() {
    let r = Post::root();
    assert_eq!((r.id, r.content.as_str(), r.author_id, r.parent_id), (0, "ROOT", 0, 0));
}

#[test]
fn parent_of_top_level_post_is_root() {
    match post(7, 0).parent() {
        PostLookup::Resolved(p) => assert_eq!((p.id, p.content.as_str()), (0, "ROOT")),
        PostLookup::Fetch(_) => panic!("expected the root post"),
    }
    match post(7, 3).parent() {
        PostLookup::Fetch(id) => assert_eq!(id, 3),
        PostLookup::Resolved(_) => panic!("expected a lookup"),
    }
}

#[test]
fn parent_of_root_is_root() {
    match Post::root().parent() {
        PostLookup::Resolved(p) => assert_eq!((p.id, p.parent_id), (0, 0)),
        PostLookup::Fetch(_) => panic!("expected the root post"),
    }
}

#[test]
fn post_query_zero_is_root() {
    assert!(matches!(QueryRoot::post(0), PostLookup::Resolved(p) if p.content == "ROOT"));
    assert!(matches!(QueryRoot::post(12), PostLookup::Fetch(12)));
    assert!(matches!(QueryRoot::post(-1), PostLookup::Fetch(-1)));
}

#[test]
fn posts_query_by_parent_or_all() {
    let q = QueryRoot::posts(Some(4));
    assert!(matches!(q, PostsQuery::RepliesTo(4)));
    assert_eq!(q.sql(), "SELECT * FROM posts WHERE parent_id = (?1)");
    let all = QueryRoot::posts(None);
    assert!(matches!(all, PostsQuery::All));
    assert_eq!(all.sql(), "SELECT * FROM posts");
}

#[test]
fn get_post_found_and_missing() {
    let found = get_post(5, Some(post(5, 1))).unwrap();
    assert_eq!(found.id, 5);
    let err = get_post(42, None).unwrap_err();
    assert!(matches!(err, ApiError::PostNotFound(42)));
    assert_eq!(err.message(), "No posts found with id 42");
    assert_eq!(get_post(-3, None).unwrap_err().message(), "No posts found with id -3");
}

#[test]
fn getters_return_fields() {
    let p = Post { id: 3, content: "hello".to_string(), author_id: 9, parent_id: 2 };
    assert_eq!((p.id(), p.content(), p.author_id(), p.parent_id()), (3, "hello", 9, 2));
}

fn new_post() -> NewPost {
    NewPost { content: "hello".to_string(), author_id: 2, parent_id: 5 }
}

#[test]
fn create_post_needs_token() {
    let err = MutationRoot::create_post(&None, new_post()).unwrap_err();
    assert!(matches!(err, ApiError::NotLoggedIn));
    assert_eq!(err.message(), "Not logged in");
}

#[test]
fn create_post_inserts_given_post() {
    let p = MutationRoot::create_post(&Some("t".to_string()), new_post()).unwrap();
    assert_eq!((p.content.as_str(), p.author_id, p.parent_id), ("hello", 2, 5));
    assert_eq!(NewPost::insert_sql(), "INSERT INTO posts (content, author_id, parent_id) VALUES (?1, ?2, ?3)");
}

fn run_walk(children: &dyn Fn(i32) -> Vec<Post>, root: i32, depth: i32) -> (Vec<i32>, Vec<i32>) {
    let mut walk = get_recursive(root, depth);
    let mut asked = Vec::new();
    let mut next = walk.next_request();
    while let Some(id) = next {
        asked.push(id);
        next = walk.supply_children(children(id));
    }
    assert!(walk.is_finished());
    (asked, walk.into_posts().iter().map(|p| p.id).collect())
}

fn tree(id: i32) -> Vec<Post> {
    match id {
        1 => vec![post(2, 1), post(3, 1)],
        2 => vec![post(4, 2)],
        3 => vec![post(5, 3), post(6, 3)],
        4 => vec![post(7, 4)],
        7 => vec![post(8, 7)],
        _ => vec![],
    }
}

#[test]
fn walk_depth_zero_is_direct_replies() {
    let (asked, ids) = run_walk(&tree, 1, 0);
    assert_eq!(asked, vec![1]);
    assert_eq!(ids, vec![2, 3]);
}

#[test]
fn walk_collects_replies_depth_first() {
    let (asked, ids) = run_walk(&tree, 1, 1);
    assert_eq!(asked, vec![1, 2, 3]);
    assert_eq!(ids, vec![2, 3, 4, 5, 6]);
    let (_, deeper) = run_walk(&tree, 1, 3);
    assert_eq!(deeper, vec![2, 3, 4, 7, 8, 5, 6]);
}

#[test]
fn walk_stops_at_depth_on_cycle() {
    // Post 1 answers itself, as the seeded board does.
    let selfish = |id: i32| if id == 1 { vec![post(1, 1), post(2, 1)] } else { vec![] };
    let (asked, ids) = run_walk(&selfish, 1, 2);
    assert_eq!(asked, vec![1, 1, 1, 2, 2]);
    assert_eq!(ids, vec![1, 2, 1, 2, 1, 2]);
}

#[test]
fn deletion_walk_reaches_three_levels() {
    let mut walk = MutationRoot::deletion_walk(1);
    let mut next = walk.next_request();
    while let Some(id) = next {
        next = walk.supply_children(tree(id));
    }
    let posts = walk.into_posts();
    let ids = MutationRoot::delete_posts_recursive(posts, post(1, 0));
    assert_eq!(ids, vec![2, 3, 4, 7, 8, 5, 6, 1]);
}

#[test]
fn delete_posts_recursive_ends_with_target() {
    assert_eq!(MutationRoot::delete_posts_recursive(vec![], post(9, 0)), vec![9]);
    assert_eq!(MutationRoot::delete_posts_recursive(vec![post(4, 9), post(5, 4)], post(9, 0)), vec![4, 5, 9]);
}

#[test]
fn seed_posts_match_startup_data() {
    let seeds: Vec<(String, i32, i32)> =
        seed_posts().into_iter().map(|p| (p.content, p.author_id, p.parent_id)).collect();
    let expected = vec![
        ("1", 0, 1), ("1.1", 1, 1), ("1.2", 1, 1), ("1.3", 1, 1), ("1.2.1", 3, 1), ("1.2.2", 3, 1),
    ];
    let expected: Vec<(String, i32, i32)> =
        expected.into_iter().map(|(c, a, p)| (c.to_string(), a, p)).collect();
    assert_eq!(seeds, expected);
}

#[test]
fn negative_depth_collects_direct_replies() {
    let (asked, ids) = run_walk(&tree, 1, -4);
    assert_eq!(asked, vec![1]);
    assert_eq!(ids, vec![2, 3]);
}
