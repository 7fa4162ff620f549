//! Text helpers: exact comparison of strings and joining of path components.

use vstd::prelude::*;

verus! {

/// The path `name` adjoined to `base`, with `/` between them unless `base` is
/// empty or already ends with a separator.
pub open spec fn joined(base: Seq<char>, name: Seq<char>) -> Seq<char> {
    if base.len() == 0 {
        name
    } else if base.last() == '/' {
        base + name
    } else {
        base + seq!['/'] + name
    }
}

/// `path` lies strictly below `base`: it starts with `base`, goes on past a
/// separator boundary, and is longer.
pub open spec fn nested_under(path: Seq<char>, base: Seq<char>) -> bool {
    &&& path.len() > base.len()
    &&& path.subrange(0, base.len() as int) == base
    &&& (base.len() == 0 || base.last() == '/' || path[base.len() as int] == '/')
}

/// Joining a non-empty name gives a path nested under the base.
pub proof fn lemma_joined_nested(base: Seq<char>, name: Seq<char>)
    requires
        name.len() > 0,
    ensures
        nested_under(joined(base, name), base),
{
    let p = joined(base, name);
    if base.len() == 0 {
        assert(p.subrange(0, 0) =~= base);
    } else if base.last() == '/' {
        assert(p.subrange(0, base.len() as int) =~= base);
    } else {
        assert(p.subrange(0, base.len() as int) =~= base);
        assert(p[base.len() as int] == '/');
    }
}

/// A path nested under one that is nested under `base` is nested under `base`.
pub proof fn lemma_nested_transitive(path: Seq<char>, mid: Seq<char>, base: Seq<char>)
    requires
        nested_under(path, mid),
        nested_under(mid, base),
    ensures
        nested_under(path, base),
{
    let prefix = path.subrange(0, mid.len() as int);
    assert(path.subrange(0, base.len() as int) =~= prefix.subrange(0, base.len() as int));
    if base.len() > 0 && base.last() != '/' {
        assert(path[base.len() as int] == prefix[base.len() as int]);
    }
}

/// Whether two strings hold the same characters.
pub fn same_text(a: &str, b: &str) -> (r: bool)
    ensures
        r == (a@ == b@),
{
    let n = a.unicode_len();
    if n != b.unicode_len() {
        return false;
    }
    let mut i: usize = 0;
    while i < n
        invariant
            n == a@.len(),
            n == b@.len(),
            i <= n,
            a@.subrange(0, i as int) == b@.subrange(0, i as int),
        decreases n - i,
    {
        if a.get_char(i) != b.get_char(i) {
            assert(a@[i as int] != b@[i as int]);
            return false;
        }
        assert(a@.subrange(0, i + 1) =~= a@.subrange(0, i as int).push(a@[i as int]));
        assert(b@.subrange(0, i + 1) =~= b@.subrange(0, i as int).push(b@[i as int]));
        i = i + 1;
    }
    assert(a@ =~= a@.subrange(0, n as int));
    assert(b@ =~= b@.subrange(0, n as int));
    true
}

/// `base` with the component `name` adjoined.
pub fn join_path(base: &str, name: &str) -> (r: String)
    ensures
        r@ == joined(base@, name@),
{
    let n = base.unicode_len();
    if n == 0 {
        String::from_str(name)
    } else if base.get_char(n - 1) == '/' {
        String::from_str(base).concat(name)
    } else {
        proof {
            reveal_strlit("/");
        }
        String::from_str(base).concat("/").concat(name)
    }
}

} // verus!
