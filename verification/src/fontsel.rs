use vstd::prelude::*;
use vstd::string::StrSliceExecFns;

verus! {

/// `needle` occurs in `hay` starting at position `i`.
pub open spec fn occurs_at(hay: Seq<char>, needle: Seq<char>, i: int) -> bool {
    0 <= i && i + needle.len() <= hay.len() && hay.subrange(i, i + needle.len()) == needle
}

/// `needle` occurs somewhere in `hay`.
pub open spec fn occurs_in(hay: Seq<char>, needle: Seq<char>) -> bool {
    exists|i: int| occurs_at(hay, needle, i)
}

/// Whether `needle` occurs in `hay` starting at `i`, by comparing characters.
fn occurs_at_exec(hay: &str, needle: &str, i: usize, n_len: usize) -> (r: bool)
    requires
        n_len == needle@.len(),
        i + n_len <= hay@.len(),
        hay@.len() <= usize::MAX,
    ensures
        r == occurs_at(hay@, needle@, i as int),
{
    let mut j: usize = 0;
    while j < n_len
        invariant
            j <= n_len,
            n_len == needle@.len(),
            i + n_len <= hay@.len(),
            hay@.len() <= usize::MAX,
            forall|k: int| 0 <= k < j ==> hay@[i + k] == needle@[k],
        decreases n_len - j,
    {
        if hay.get_char(i + j) != needle.get_char(j) {
            proof {
                assert(!occurs_at(hay@, needle@, i as int)) by {
                    if hay@.subrange(i as int, i + needle@.len()) == needle@ {
                        assert(hay@.subrange(i as int, i + needle@.len())[j as int] == hay@[i + j]);
                    }
                }
            }
            return false;
        }
        j = j + 1;
    }
    proof {
        assert(hay@.subrange(i as int, i + needle@.len()) =~= needle@);
    }
    true
}

/// Whether `needle` occurs in `hay` as a contiguous run of characters.
/// An empty `needle` occurs in every `hay`.
pub fn contains_str(hay: &str, needle: &str) -> (r: bool)
    ensures
        r == occurs_in(hay@, needle@),
{
    let h_len = hay.unicode_len();
    let n_len = needle.unicode_len();
    if n_len == 0 {
        proof {
            assert(occurs_at(hay@, needle@, 0)) by {
                assert(hay@.subrange(0, 0) =~= needle@);
            }
        }
        return true;
    }
    if n_len > h_len {
        proof {
            assert(forall|i: int| !occurs_at(hay@, needle@, i));
        }
        return false;
    }
    let bound = h_len - n_len;
    let mut i: usize = 0;
    while i <= bound
        invariant
            h_len == hay@.len(),
            n_len == needle@.len(),
            0 < n_len <= h_len,
            bound == h_len - n_len,
            i <= bound + 1,
            forall|k: int| 0 <= k < i ==> !occurs_at(hay@, needle@, k),
        decreases bound + 1 - i,
    {
        if occurs_at_exec(hay, needle, i, n_len) {
            return true;
        }
        i = i + 1;
    }
    proof {
        assert(forall|k: int| !occurs_at(hay@, needle@, k));
    }
    false
}

/// The first of `names` in which `pattern` occurs: its index, or `None` when
/// `pattern` occurs in none of them. This is how a font file is picked from a
/// directory listing: the first file whose name mentions the wanted font.
pub fn find_matching_name(names: &Vec<String>, pattern: &str) -> (r: Option<usize>)
    ensures
        match r {
            Some(i) => i < names@.len() && occurs_in(names@[i as int]@, pattern@) && forall|j: int|
                0 <= j < i ==> !occurs_in(names@[j]@, pattern@),
            None => forall|j: int| 0 <= j < names@.len() ==> !occurs_in(names@[j]@, pattern@),
        },
{
    let mut i: usize = 0;
    while i < names.len()
        invariant
            i <= names@.len(),
            forall|j: int| 0 <= j < i ==> !occurs_in(names@[j]@, pattern@),
        decreases names@.len() - i,
    {
        if contains_str(names[i].as_str(), pattern) {
            return Some(i);
        }
        i = i + 1;
    }
    None
}

} // verus!
