//! A small path model: a path is a string whose components are separated by
//! `/`. The shell only ever joins a directory with a child name and steps
//! from a directory up to its parent, so those two operations are all the
//! model provides.

use vstd::prelude::*;

verus! {

/// The separator that joins path components.
pub open spec fn sep() -> char {
    '/'
}

/// `base` extended with the child component `name`.
pub open spec fn join_path(base: Seq<char>, name: Seq<char>) -> Seq<char> {
    base + "/"@ + name
}

/// Index of the last separator in `s`, or `-1` when `s` has none.
pub open spec fn last_sep_index(s: Seq<char>) -> int
    decreases s.len(),
{
    if s.len() == 0 {
        -1
    } else if s[s.len() - 1] == sep() {
        s.len() - 1
    } else {
        last_sep_index(s.drop_last())
    }
}

/// Whether `s` has a parent directory in this model: it contains a separator.
pub open spec fn has_parent(s: Seq<char>) -> bool {
    last_sep_index(s) >= 0
}

/// Everything before the last separator: the parent directory of `s`.
pub open spec fn parent_path(s: Seq<char>) -> Seq<char>
    recommends
        has_parent(s),
{
    s.subrange(0, last_sep_index(s))
}

/// The last separator lies within the string.
proof fn lemma_last_sep_index_in_range(s: Seq<char>)
    ensures
        last_sep_index(s) < s.len(),
        has_parent(s) ==> s[last_sep_index(s)] == sep(),
    decreases s.len(),
{
    if s.len() > 0 && s[s.len() - 1] != sep() {
        lemma_last_sep_index_in_range(s.drop_last());
    }
}

/// Join a directory and a child name with a separator.
pub fn join(base: &str, name: &str) -> (r: String)
    ensures
        r@ == join_path(base@, name@),
{
    let mut s = String::from_str(base);
    s.append("/");
    s.append(name);
    s
}

/// The parent directory of `path`: everything before its last separator.
pub fn parent_dir(path: &str) -> (r: String)
    requires
        has_parent(path@),
    ensures
        r@ == parent_path(path@),
{
    let len = path.unicode_len();
    let mut i = len;
    proof {
        assert(path@.subrange(0, len as int) =~= path@);
    }
    loop
        invariant
            i <= len,
            len == path@.len(),
            has_parent(path@),
            last_sep_index(path@.subrange(0, i as int)) == last_sep_index(path@),
        decreases i,
    {
        proof {
            if i == 0 {
                assert(path@.subrange(0, 0) =~= Seq::<char>::empty());
            }
            lemma_last_sep_index_in_range(path@);
        }
        let c = path.get_char(i - 1);
        if c == '/' {
            let p = path.substring_char(0, i - 1);
            return String::from_str(p);
        }
        proof {
            assert(path@.subrange(0, i as int).drop_last() =~= path@.subrange(0, i - 1));
        }
        i = i - 1;
    }
}

} // verus!
