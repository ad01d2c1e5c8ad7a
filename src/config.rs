use vstd::prelude::*;

verus! {

/// The connection string used when none is configured.
pub const DEFAULT_DATABASE_URL: &'static str = "sqlite:///./data/read_status.db";

/// The foreign-framework form of a relative SQLite location.
pub open spec fn foreign_sqlite_prefix() -> Seq<char> {
    seq!['s', 'q', 'l', 'i', 't', 'e', ':', '/', '/', '/']
}

/// The scheme that the native driver expects.
pub open spec fn sqlite_scheme() -> Seq<char> {
    seq!['s', 'q', 'l', 'i', 't', 'e', ':']
}

/// The marker of an in-memory database.
pub open spec fn memory_marker() -> Seq<char> {
    seq![':', 'm', 'e', 'm', 'o', 'r', 'y', ':']
}

pub open spec fn starts_with(s: Seq<char>, p: Seq<char>) -> bool {
    p.len() <= s.len() && s.subrange(0, p.len() as int) == p
}

pub open spec fn occurs_in(s: Seq<char>, p: Seq<char>) -> bool {
    exists|i: int| 0 <= i && i + p.len() <= s.len() && #[trigger] s.subrange(i, i + p.len()) == p
}

/// `scheme:///path` becomes `scheme:path`; any other string is kept.
pub open spec fn normalized_url(u: Seq<char>) -> Seq<char> {
    if starts_with(u, foreign_sqlite_prefix()) {
        sqlite_scheme() + u.subrange(foreign_sqlite_prefix().len() as int, u.len() as int)
    } else {
        u
    }
}

/// `s` with every leading copy of `p` removed.
pub open spec fn strip_leading(s: Seq<char>, p: Seq<char>) -> Seq<char>
    decreases s.len(),
{
    if p.len() > 0 && starts_with(s, p) {
        strip_leading(s.subrange(p.len() as int, s.len() as int), p)
    } else {
        s
    }
}

/// The file behind a SQLite connection string, if it names one rather than
/// an in-memory database or another scheme.
pub open spec fn sqlite_file_of(u: Seq<char>) -> Option<Seq<char>> {
    if starts_with(u, sqlite_scheme()) && !occurs_in(u, memory_marker()) {
        Some(strip_leading(u, sqlite_scheme()))
    } else {
        None
    }
}

/// Whether `p` occurs in `s` starting at character `at`.
fn occurs_at(s: &str, n: usize, p: &str, m: usize, at: usize) -> (r: bool)
    requires
        n == s@.len(),
        m == p@.len(),
        at <= n,
    ensures
        r == (at + m <= n && s@.subrange(at as int, at + m) == p@),
{
    if m > n - at {
        return false;
    }
    let mut j: usize = 0;
    while j < m
        invariant
            n == s@.len(),
            m == p@.len(),
            at + m <= n,
            j <= m,
            forall|k: int| 0 <= k < j ==> s@[at + k] == p@[k],
        decreases m - j,
    {
        if s.get_char(at + j) != p.get_char(j) {
            assert(s@.subrange(at as int, at + m)[j as int] != p@[j as int]);
            return false;
        }
        j = j + 1;
    }
    assert(s@.subrange(at as int, at + m) =~= p@);
    true
}

fn has_prefix(s: &str, p: &str) -> (r: bool)
    ensures
        r == starts_with(s@, p@),
{
    occurs_at(s, s.unicode_len(), p, p.unicode_len(), 0)
}

fn contains_text(s: &str, p: &str) -> (r: bool)
    ensures
        r == occurs_in(s@, p@),
{
    let n = s.unicode_len();
    let m = p.unicode_len();
    if m > n {
        return false;
    }
    if m == 0 {
        assert(s@.subrange(0, 0 + p@.len() as int) =~= p@);
        return true;
    }
    let mut i: usize = 0;
    while i <= n - m
        invariant
            n == s@.len(),
            m == p@.len(),
            0 < m <= n,
            i <= n - m + 1,
            forall|k: int| 0 <= k < i ==> #[trigger] s@.subrange(k, k + m) != p@,
        decreases n - m + 1 - i,
    {
        if occurs_at(s, n, p, m, i) {
            return true;
        }
        i = i + 1;
    }
    false
}

/// Rewrites the foreign `sqlite:///relative/path` form into the driver's
/// `sqlite:relative/path`; other strings come back unchanged.
pub fn normalize_database_url(url: &str) -> (r: String)
    ensures
        r@ == normalized_url(url@),
{
    let foreign = "sqlite:///";
    let scheme = "sqlite:";
    proof {
        reveal_strlit("sqlite:///");
        reveal_strlit("sqlite:");
        assert(foreign@ =~= foreign_sqlite_prefix());
        assert(scheme@ =~= sqlite_scheme());
    }
    if has_prefix(url, foreign) {
        let n = url.unicode_len();
        let rest = url.substring_char(10, n);
        String::from_str(scheme).concat(rest)
    } else {
        String::from_str(url)
    }
}

/// The connection string to use: the configured one, or the default, in the
/// driver's form.
pub fn resolve_database_url(configured: Option<&str>) -> (r: String)
    ensures
        r@ == normalized_url(
            match configured {
                Some(u) => u@,
                None => DEFAULT_DATABASE_URL@,
            },
        ),
{
    match configured {
        Some(u) => normalize_database_url(u),
        None => normalize_database_url(DEFAULT_DATABASE_URL),
    }
}

/// The file path of a file-backed SQLite store, whose parent directory has to
/// exist before connecting; `None` for an in-memory store or another scheme.
pub fn sqlite_file_path(url: &str) -> (r: Option<String>)
    ensures
        r matches Some(p) ==> sqlite_file_of(url@) == Some(p@),
        r is None ==> sqlite_file_of(url@) is None,
{
    let scheme = "sqlite:";
    let marker = ":memory:";
    proof {
        reveal_strlit("sqlite:");
        reveal_strlit(":memory:");
        assert(scheme@ =~= sqlite_scheme());
        assert(marker@ =~= memory_marker());
    }
    if !has_prefix(url, scheme) || contains_text(url, marker) {
        return None;
    }
    let mut rest: &str = url;
    while has_prefix(rest, scheme)
        invariant
            scheme@ == sqlite_scheme(),
            strip_leading(rest@, sqlite_scheme()) == strip_leading(url@, sqlite_scheme()),
        decreases rest@.len(),
    {
        let n = rest.unicode_len();
        rest = rest.substring_char(7, n);
    }
    Some(String::from_str(rest))
}

} // verus!
