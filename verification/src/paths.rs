//! Path arithmetic on `/`-separated path strings.
//!
//! The supervisor locates the backend's working directory and module
//! directory relative to the path of its entry script. Paths are plain
//! strings whose components are separated by `'/'`.

use vstd::prelude::*;

verus! {

/// The index of the last `'/'` in `s`, or `-1` when `s` holds none.
pub open spec fn last_sep(s: Seq<char>) -> int
    decreases s.len(),
{
    if s.len() == 0 {
        -1
    } else if s[s.len() - 1] == '/' {
        s.len() - 1
    } else {
        last_sep(s.drop_last())
    }
}

/// Everything before the last `'/'` of `s`; meaningful when `s` has one.
pub open spec fn parent_of(s: Seq<char>) -> Seq<char> {
    s.subrange(0, last_sep(s))
}

/// `last_sep` ignores a separator-free suffix: it is decided by the
/// first `i` characters alone.
proof fn lemma_last_sep_take(s: Seq<char>, i: int)
    requires
        0 <= i <= s.len(),
        forall|j: int| i <= j < s.len() ==> s[j] != '/',
    ensures
        last_sep(s) == last_sep(s.take(i)),
    decreases s.len() - i,
{
    if i == s.len() {
        assert(s.take(i) =~= s);
    } else {
        assert(s[s.len() - 1] != '/');
        assert(s.drop_last() =~= s.take(s.len() - 1));
        lemma_last_sep_take(s.drop_last(), i);
        assert(s.drop_last().take(i) =~= s.take(i));
    }
}

/// The parent directory of `path`: the prefix before the last `'/'`, or
/// `None` when the path holds no separator at all.
pub fn parent_dir(path: &str) -> (r: Option<String>)
    ensures
        r is Some <==> last_sep(path@) >= 0,
        r matches Some(p) ==> p@ == parent_of(path@),
{
    let n: usize = path.unicode_len();
    let mut i: usize = n;
    while i > 0
        invariant
            i <= n,
            n == path@.len(),
            forall|j: int| i <= j < n ==> path@[j] != '/',
        decreases i,
    {
        let c = path.get_char(i - 1);
        if c == '/' {
            proof {
                lemma_last_sep_take(path@, i as int);
                let t = path@.take(i as int);
                assert(t.len() == i);
                assert(t[i - 1] == path@[i - 1]);
                assert(last_sep(t) == i - 1);
            }
            let p = path.substring_char(0, i - 1);
            return Some(String::from_str(p));
        }
        i = i - 1;
    }
    proof {
        lemma_last_sep_take(path@, 0);
        assert(path@.take(0).len() == 0);
    }
    None
}

/// `dir` and `name` joined with a single `'/'` between them.
pub fn join(dir: &str, name: &str) -> (r: String)
    ensures
        r@ == dir@ + seq!['/'] + name@,
{
    let mut r = String::from_str(dir);
    r.append("/");
    r.append(name);
    proof {
        reveal_strlit("/");
        assert(("/")@ =~= seq!['/']);
        assert(r@ =~= dir@ + seq!['/'] + name@);
    }
    r
}

} // verus!
