//! Verified core of a small GraphQL post board: the table schema, the
//! rules that decide which post or user a query resolves to, the
//! password check and token issuing of the login flow, and the
//! depth-bounded walk that collects the replies below a post.

pub mod db;
pub mod text;
pub mod crypto;
pub mod error;
pub mod post;
pub mod user;
pub mod walk;
pub mod schema;
pub mod json;
