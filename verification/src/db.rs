use vstd::prelude::*;

use crate::text::push_str;

verus! {

/// The indentation of a column definition in the script.
pub open spec fn column_indent() -> Seq<char> {
    "                    "@
}

/// The columns of the `posts` table, in order: each name with the rest of
/// its definition line.
pub open spec fn posts_columns() -> Seq<(Seq<char>, Seq<char>)> {
    seq![
        ("id"@, " INTEGER NOT NULL PRIMARY KEY, \n"@),
        ("content"@, " TEXT, \n"@),
        ("author_id"@, " INTEGER NOT NULL REFERENCES users (id) NOT NULL,\n"@),
        ("parent_id"@, " INTEGER REFERENCES posts (id) NOT NULL\n"@),
    ]
}

/// The columns of the `users` table, in order: each name with the rest of
/// its definition line.
pub open spec fn users_columns() -> Seq<(Seq<char>, Seq<char>)> {
    seq![
        ("id"@, " INTEGER NOT NULL PRIMARY KEY, \n"@),
        ("username"@, " VARCHAR (255) UNIQUE, \n"@),
        ("email"@, " VARCHAR (255) UNIQUE, \n"@),
        ("hash"@, " VARCHAR (255), \n"@),
        ("firstname"@, " VARCHAR (255), \n"@),
        ("lastname"@, " VARCHAR (255)\n"@),
    ]
}

/// The definition lines of `columns`.
pub open spec fn column_lines(columns: Seq<(Seq<char>, Seq<char>)>) -> Seq<char>
    decreases columns.len(),
{
    if columns.len() == 0 {
        Seq::empty()
    } else {
        column_lines(columns.drop_last()) + column_indent() + columns.last().0 + columns.last().1
    }
}

/// The names of `columns`, in order.
pub open spec fn column_names(columns: Seq<(Seq<char>, Seq<char>)>) -> Seq<Seq<char>> {
    columns.map_values(|c: (Seq<char>, Seq<char>)| c.0)
}

/// The fields of `Post`, in declaration order.
pub open spec fn post_fields() -> Seq<Seq<char>> {
    seq!["id"@, "content"@, "author_id"@, "parent_id"@]
}

/// The fields of `User`, in declaration order.
pub open spec fn user_fields() -> Seq<Seq<char>> {
    seq!["id"@, "email"@, "hash"@, "username"@, "firstname"@, "lastname"@]
}

/// The SQL script that (re)creates the `posts` and `users` tables.
pub open spec fn schema_script() -> Seq<char> {
    "\n                BEGIN TRANSACTION;\n                DROP TABLE IF EXISTS posts;\n                DROP TABLE IF EXISTS users;\n                \n                CREATE TABLE IF NOT EXISTS posts( \n"@ + column_lines(posts_columns()) + "                );\n\n                CREATE TABLE IF NOT EXISTS users ( \n"@ + column_lines(users_columns()) + "                );\n                COMMIT;\n            "@
}

proof fn lemma_lines_step(columns: Seq<(Seq<char>, Seq<char>)>, k: int)
    requires
        0 < k <= columns.len(),
    ensures
        column_lines(columns.take(k))
            == column_lines(columns.take(k - 1)) + column_indent() + columns[k - 1].0 + columns[k - 1].1,
{
    assert(columns.take(k).drop_last() =~= columns.take(k - 1));
}

fn push_column(s: &mut String, name: &str, rest: &str)
    ensures
        final(s)@ == old(s)@ + column_indent() + name@ + rest@,
{
    push_str(s, "                    ");
    push_str(s, name);
    push_str(s, rest);
    assert(final(s)@ =~= old(s)@ + column_indent() + name@ + rest@);
}

/// Returns the SQL script that drops and recreates the `posts` and `users`
/// tables inside one transaction.
#[verifier::rlimit(20)]
pub fn db_schema() -> (script: String)
    ensures
        script@ == schema_script(),
{
    let mut s = "\n                BEGIN TRANSACTION;\n                DROP TABLE IF EXISTS posts;\n                DROP TABLE IF EXISTS users;\n                \n                CREATE TABLE IF NOT EXISTS posts( \n".to_owned();
    let ghost head = s@;
    assert(column_lines(posts_columns().take(0)) =~= Seq::<char>::empty());
    push_column(&mut s, "id", " INTEGER NOT NULL PRIMARY KEY, \n");
    proof {
        lemma_lines_step(posts_columns(), 1);
        assert(s@ =~= head + column_lines(posts_columns().take(1)));
    }
    push_column(&mut s, "content", " TEXT, \n");
    proof {
        lemma_lines_step(posts_columns(), 2);
        assert(s@ =~= head + column_lines(posts_columns().take(2)));
    }
    push_column(&mut s, "author_id", " INTEGER NOT NULL REFERENCES users (id) NOT NULL,\n");
    proof {
        lemma_lines_step(posts_columns(), 3);
        assert(s@ =~= head + column_lines(posts_columns().take(3)));
    }
    push_column(&mut s, "parent_id", " INTEGER REFERENCES posts (id) NOT NULL\n");
    proof {
        lemma_lines_step(posts_columns(), 4);
        assert(s@ =~= head + column_lines(posts_columns().take(4)));
    }
    assert(posts_columns().take(4) =~= posts_columns());
    push_str(&mut s, "                );\n\n                CREATE TABLE IF NOT EXISTS users ( \n");
    let ghost mid_part = s@;
    assert(column_lines(users_columns().take(0)) =~= Seq::<char>::empty());
    push_column(&mut s, "id", " INTEGER NOT NULL PRIMARY KEY, \n");
    proof {
        lemma_lines_step(users_columns(), 1);
        assert(s@ =~= mid_part + column_lines(users_columns().take(1)));
    }
    push_column(&mut s, "username", " VARCHAR (255) UNIQUE, \n");
    proof {
        lemma_lines_step(users_columns(), 2);
        assert(s@ =~= mid_part + column_lines(users_columns().take(2)));
    }
    push_column(&mut s, "email", " VARCHAR (255) UNIQUE, \n");
    proof {
        lemma_lines_step(users_columns(), 3);
        assert(s@ =~= mid_part + column_lines(users_columns().take(3)));
    }
    push_column(&mut s, "hash", " VARCHAR (255), \n");
    proof {
        lemma_lines_step(users_columns(), 4);
        assert(s@ =~= mid_part + column_lines(users_columns().take(4)));
    }
    push_column(&mut s, "firstname", " VARCHAR (255), \n");
    proof {
        lemma_lines_step(users_columns(), 5);
        assert(s@ =~= mid_part + column_lines(users_columns().take(5)));
    }
    push_column(&mut s, "lastname", " VARCHAR (255)\n");
    proof {
        lemma_lines_step(users_columns(), 6);
        assert(s@ =~= mid_part + column_lines(users_columns().take(6)));
    }
    assert(users_columns().take(6) =~= users_columns());
    push_str(&mut s, "                );\n                COMMIT;\n            ");
    assert(s@ =~= schema_script());
    s
}

/// The tables hold the rows the board reads: the columns of `posts` are
/// the fields of `Post` in the same order, and the columns of `users` are
/// the fields of `User` (the same names, each once), so every row that
/// `SELECT *` returns has exactly the fields of the row type.
pub proof fn lemma_tables_hold_rows()
    ensures
        column_names(posts_columns()) == post_fields(),
        column_names(users_columns()).len() == user_fields().len(),
        column_names(users_columns()).to_set() == user_fields().to_set(),
{
    assert(column_names(posts_columns()) =~= post_fields());
    let names = column_names(users_columns());
    assert(names =~= seq!["id"@, "username"@, "email"@, "hash"@, "firstname"@, "lastname"@]);
    assert forall|x: Seq<char>| names.to_set().contains(x) implies user_fields().to_set().contains(x) by {
        let i = choose|i: int| 0 <= i < names.len() && names[i] == x;
        if i == 0 { assert(user_fields()[0] == x); }
        else if i == 1 { assert(user_fields()[3] == x); }
        else if i == 2 { assert(user_fields()[1] == x); }
        else if i == 3 { assert(user_fields()[2] == x); }
        else if i == 4 { assert(user_fields()[4] == x); }
        else { assert(user_fields()[5] == x); }
    }
    assert forall|x: Seq<char>| user_fields().to_set().contains(x) implies names.to_set().contains(x) by {
        let i = choose|i: int| 0 <= i < user_fields().len() && user_fields()[i] == x;
        if i == 0 { assert(names[0] == x); }
        else if i == 1 { assert(names[2] == x); }
        else if i == 2 { assert(names[3] == x); }
        else if i == 3 { assert(names[1] == x); }
        else if i == 4 { assert(names[4] == x); }
        else { assert(names[5] == x); }
    }
    assert(names.to_set() =~= user_fields().to_set());
}

/// The definition of the column called `name` among `columns`, if any.
pub open spec fn column_definition(columns: Seq<(Seq<char>, Seq<char>)>, name: Seq<char>) -> Option<Seq<char>>
    decreases columns.len(),
{
    if columns.len() == 0 {
        None
    } else if columns[0].0 == name {
        Some(columns[0].1)
    } else {
        column_definition(columns.drop_first(), name)
    }
}

/// Whether the text `def` holds `word` somewhere.
pub open spec fn declares(def: Seq<char>, word: Seq<char>) -> bool {
    exists|i: int| 0 <= i && i + word.len() <= def.len() && #[trigger] def.subrange(i, i + word.len()) == word
}

proof fn lemma_declares_at(def: Seq<char>, word: Seq<char>, i: int)
    requires
        0 <= i,
        i + word.len() <= def.len(),
        def.subrange(i, i + word.len()) =~= word,
    ensures
        declares(def, word),
{
}

/// The constraints of the `users` table: `id` is its primary key,
/// `username` and `email` are unique, and `hash`, `firstname` and
/// `lastname` are plain text columns of up to 255 characters.
pub proof fn lemma_users_constraints()
    ensures
        column_definition(users_columns(), "id"@) matches Some(d) && declares(d, "PRIMARY KEY"@),
        column_definition(users_columns(), "username"@) matches Some(d) && declares(d, "UNIQUE"@),
        column_definition(users_columns(), "email"@) matches Some(d) && declares(d, "UNIQUE"@),
        column_definition(users_columns(), "hash"@) == Some(" VARCHAR (255), \n"@),
        column_definition(users_columns(), "firstname"@) == Some(" VARCHAR (255), \n"@),
        column_definition(users_columns(), "lastname"@) == Some(" VARCHAR (255)\n"@),
{
    reveal_strlit("id");
    reveal_strlit("username");
    reveal_strlit("email");
    reveal_strlit("hash");
    reveal_strlit("firstname");
    reveal_strlit("lastname");
    reveal_strlit(" INTEGER NOT NULL PRIMARY KEY, \n");
    reveal_strlit(" VARCHAR (255) UNIQUE, \n");
    reveal_strlit("PRIMARY KEY");
    reveal_strlit("UNIQUE");
    let c0 = users_columns();
    let c1 = c0.drop_first();
    let c2 = c1.drop_first();
    let c3 = c2.drop_first();
    let c4 = c3.drop_first();
    let c5 = c4.drop_first();
    assert(c0[0].0 == "id"@);
    assert("id"@.len() == 2);
    assert("username"@.len() == 8 && "email"@.len() == 5 && "hash"@.len() == 4);
    assert("firstname"@.len() == 9 && "lastname"@.len() == 8);
    assert(c0[0].0 != "username"@ && c0[0].0 != "email"@ && c0[0].0 != "hash"@);
    assert(c0[0].0 != "firstname"@ && c0[0].0 != "lastname"@);
    assert(c1[0].0 == "username"@);
    assert("username"@[0] == 'u' && "lastname"@[0] == 'l');
    assert(c1[0].0 != "email"@ && c1[0].0 != "hash"@ && c1[0].0 != "firstname"@ && c1[0].0 != "lastname"@);
    assert(c2[0].0 != "hash"@ && c2[0].0 != "firstname"@ && c2[0].0 != "lastname"@);
    assert(c3[0].0 != "firstname"@ && c3[0].0 != "lastname"@);
    assert(c4[0].0 != "lastname"@);
    assert(column_definition(c0, "id"@) == Some(c0[0].1));
    assert(column_definition(c0, "username"@) == column_definition(c1, "username"@));
    assert(column_definition(c1, "username"@) == Some(c1[0].1));
    assert(column_definition(c0, "email"@) == column_definition(c1, "email"@));
    assert(column_definition(c1, "email"@) == column_definition(c2, "email"@));
    assert(column_definition(c2, "email"@) == Some(c2[0].1));
    assert(column_definition(c0, "hash"@) == column_definition(c1, "hash"@));
    assert(column_definition(c1, "hash"@) == column_definition(c2, "hash"@));
    assert(column_definition(c2, "hash"@) == column_definition(c3, "hash"@));
    assert(column_definition(c3, "hash"@) == Some(c3[0].1));
    assert(column_definition(c0, "firstname"@) == column_definition(c1, "firstname"@));
    assert(column_definition(c1, "firstname"@) == column_definition(c2, "firstname"@));
    assert(column_definition(c2, "firstname"@) == column_definition(c3, "firstname"@));
    assert(column_definition(c3, "firstname"@) == column_definition(c4, "firstname"@));
    assert(column_definition(c4, "firstname"@) == Some(c4[0].1));
    assert(column_definition(c0, "lastname"@) == column_definition(c1, "lastname"@));
    assert(column_definition(c1, "lastname"@) == column_definition(c2, "lastname"@));
    assert(column_definition(c2, "lastname"@) == column_definition(c3, "lastname"@));
    assert(column_definition(c3, "lastname"@) == column_definition(c4, "lastname"@));
    assert(column_definition(c4, "lastname"@) == column_definition(c5, "lastname"@));
    assert(column_definition(c5, "lastname"@) == Some(c5[0].1));
    lemma_declares_at(" INTEGER NOT NULL PRIMARY KEY, \n"@, "PRIMARY KEY"@, 18);
    lemma_declares_at(" VARCHAR (255) UNIQUE, \n"@, "UNIQUE"@, 15);
}

/// The constraints of the `posts` table: `id` is its primary key, and
/// every post has an author and a parent.
pub proof fn lemma_posts_constraints()
    ensures
        column_definition(posts_columns(), "id"@) matches Some(d) && declares(d, "PRIMARY KEY"@),
        column_definition(posts_columns(), "author_id"@) matches Some(d) && declares(d, "NOT NULL"@),
        column_definition(posts_columns(), "parent_id"@) matches Some(d) && declares(d, "NOT NULL"@),
{
    reveal_strlit("id");
    reveal_strlit("content");
    reveal_strlit("author_id");
    reveal_strlit("parent_id");
    reveal_strlit(" INTEGER NOT NULL PRIMARY KEY, \n");
    reveal_strlit(" INTEGER NOT NULL REFERENCES users (id) NOT NULL,\n");
    reveal_strlit(" INTEGER REFERENCES posts (id) NOT NULL\n");
    reveal_strlit("PRIMARY KEY");
    reveal_strlit("NOT NULL");
    let c0 = posts_columns();
    let c1 = c0.drop_first();
    let c2 = c1.drop_first();
    let c3 = c2.drop_first();
    assert(c0[0].0 == "id"@);
    assert("id"@.len() == 2);
    assert("author_id"@.len() == 9 && "parent_id"@.len() == 9);
    assert(c0[0].0 != "author_id"@ && c0[0].0 != "parent_id"@);
    assert(c1[0].0 == "content"@);
    assert("content"@.len() == 7);
    assert(c1[0].0 != "author_id"@ && c1[0].0 != "parent_id"@);
    assert(c2[0].0 == "author_id"@);
    assert("author_id"@[0] == 'a' && "parent_id"@[0] == 'p');
    assert(c2[0].0 != "parent_id"@);
    assert(column_definition(c0, "id"@) == Some(c0[0].1));
    assert(column_definition(c0, "author_id"@) == column_definition(c1, "author_id"@));
    assert(column_definition(c1, "author_id"@) == column_definition(c2, "author_id"@));
    assert(column_definition(c2, "author_id"@) == Some(c2[0].1));
    assert(column_definition(c0, "parent_id"@) == column_definition(c1, "parent_id"@));
    assert(column_definition(c1, "parent_id"@) == column_definition(c2, "parent_id"@));
    assert(column_definition(c2, "parent_id"@) == column_definition(c3, "parent_id"@));
    assert(column_definition(c3, "parent_id"@) == Some(c3[0].1));
    lemma_declares_at(" INTEGER NOT NULL PRIMARY KEY, \n"@, "PRIMARY KEY"@, 18);
    lemma_declares_at(" INTEGER NOT NULL REFERENCES users (id) NOT NULL,\n"@, "NOT NULL"@, 9);
    lemma_declares_at(" INTEGER REFERENCES posts (id) NOT NULL\n"@, "NOT NULL"@, 31);
}

} // verus!
