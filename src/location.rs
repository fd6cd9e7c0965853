use vstd::prelude::*;

verus! {

/// Directory, under the user's home directory, that holds the database.
pub const DATABASE_DIR: &'static str = "doit-db";

/// Name of the database file inside that directory.
pub const DATABASE_FILE: &'static str = "db.sqlite";

/// `s` with every backslash turned into a forward slash.
pub open spec fn forward_slashes(s: Seq<char>) -> Seq<char> {
    s.map_values(|c: char| if c == '\\' { '/' } else { c })
}

/// The connection string of the database file in directory `dir`.
pub open spec fn database_url_of(dir: Seq<char>) -> Seq<char> {
    "sqlite://"@ + forward_slashes(dir) + "/"@ + "db.sqlite"@
}

/// The greeting that carries the connection string `url`.
pub open spec fn greeting_of(url: Seq<char>) -> Seq<char> {
    "Hello, "@ + url + "! You've been greeted from Rust!"@
}

/// A connection string of the SQLite scheme whose path holds no backslash.
pub open spec fn is_sqlite_url(u: Seq<char>) -> bool {
    &&& u.len() >= 9
    &&& u.subrange(0, 9) == "sqlite://"@
    &&& forall|i: int| 0 <= i < u.len() ==> u[i] != '\\'
}

/// `s` with every backslash turned into a forward slash.
pub fn forward_slashed(s: &str) -> (r: String)
    ensures
        r@ == forward_slashes(s@),
{
    let n = s.unicode_len();
    let mut r = String::new();
    let mut start: usize = 0;
    let mut i: usize = 0;
    while i < n
        invariant
            n == s@.len(),
            start <= i <= n,
            r@ == forward_slashes(s@.subrange(0, start as int)),
            forall|k: int| start <= k < i ==> s@[k] != '\\',
        decreases n - i,
    {
        let c = s.get_char(i);
        if c == '\\' {
            let part = s.substring_char(start, i);
            r.append(part);
            r.append("/");
            proof {
                reveal_strlit("/");
                assert(forward_slashes(s@.subrange(0, i + 1)) =~= forward_slashes(
                    s@.subrange(0, start as int),
                ) + s@.subrange(start as int, i as int) + "/"@);
            }
            start = i + 1;
        }
        i = i + 1;
    }
    let rest = s.substring_char(start, n);
    r.append(rest);
    assert(s@.subrange(0, n as int) =~= s@);
    assert(forward_slashes(s@) =~= forward_slashes(s@.subrange(0, start as int))
        + s@.subrange(start as int, n as int));
    r
}

/// The connection string of the database file in directory `dir`:
/// `sqlite://`, the directory with forward slashes, `/db.sqlite`.
pub fn database_url(dir: &str) -> (r: String)
    ensures
        r@ == database_url_of(dir@),
{
    let mut r = String::from_str("sqlite://");
    let path = forward_slashed(dir);
    r.append(path.as_str());
    r.append("/");
    r.append(DATABASE_FILE);
    r
}

/// The message of the diagnostic command for the connection string `url`.
pub fn greeting(url: &str) -> (r: String)
    ensures
        r@ == greeting_of(url@),
{
    let mut r = String::from_str("Hello, ");
    r.append(url);
    r.append("! You've been greeted from Rust!");
    r
}

/// The greeting built from any directory starts with `Hello, ` and goes on
/// with a SQLite connection string free of backslashes.
pub proof fn lemma_greeting_carries_url(dir: Seq<char>)
    ensures
        greeting_of(database_url_of(dir)).subrange(0, 7) == "Hello, "@,
        is_sqlite_url(database_url_of(dir)),
        greeting_of(database_url_of(dir)).subrange(7, 7 + database_url_of(dir).len() as int)
            == database_url_of(dir),
{
    reveal_strlit("Hello, ");
    reveal_strlit("sqlite://");
    reveal_strlit("/");
    reveal_strlit("db.sqlite");
    let u = database_url_of(dir);
    let g = greeting_of(u);
    assert(g.subrange(0, 7) =~= "Hello, "@);
    assert(g.subrange(7, 7 + u.len() as int) =~= u);
    assert(u.subrange(0, 9) =~= "sqlite://"@);
    assert forall|i: int| 0 <= i < u.len() implies u[i] != '\\' by {
        if 9 <= i < 9 + dir.len() {
            assert(u[i] == forward_slashes(dir)[i - 9]);
        }
    }
}

} // verus!
