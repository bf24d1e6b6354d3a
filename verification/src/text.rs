use vstd::prelude::*;
use vstd::string::StrSliceExecFns;

verus! {

/// The needle occurs in the haystack starting at character position `i`.
pub open spec fn match_at(hay: Seq<char>, needle: Seq<char>, i: int) -> bool {
    &&& 0 <= i
    &&& i + needle.len() <= hay.len()
    &&& forall|j: int| 0 <= j < needle.len() ==> hay[i + j] == needle[j]
}

/// The needle occurs somewhere in the haystack.
pub open spec fn contains_str(hay: Seq<char>, needle: Seq<char>) -> bool {
    exists|i: int| match_at(hay, needle, i)
}

/// Decides whether `needle` occurs in `hay`, comparing character by
/// character.
pub fn str_contains(hay: &str, needle: &str) -> (r: bool)
    ensures
        r == contains_str(hay@, needle@),
{
    let hay_len: usize = hay.unicode_len();
    let needle_len: usize = needle.unicode_len();
    if needle_len == 0 {
        assert(match_at(hay@, needle@, 0));
        return true;
    }
    if needle_len > hay_len {
        assert(forall|k: int| !match_at(hay@, needle@, k));
        return false;
    }
    let mut i: usize = 0;
    while i <= hay_len - needle_len
        invariant
            hay_len == hay@.len(),
            needle_len == needle@.len(),
            1 <= needle_len <= hay_len,
            i <= hay_len - needle_len + 1,
            forall|k: int| 0 <= k < i ==> !match_at(hay@, needle@, k),
        decreases hay_len - needle_len + 1 - i,
    {
        let mut j: usize = 0;
        let mut matched: bool = true;
        while matched && j < needle_len
            invariant
                hay_len == hay@.len(),
                needle_len == needle@.len(),
                1 <= needle_len <= hay_len,
                i <= hay_len - needle_len,
                j <= needle_len,
                matched ==> forall|t: int| 0 <= t < j ==> hay@[i + t] == needle@[t],
                !matched ==> !match_at(hay@, needle@, i as int),
            decreases needle_len - j,
        {
            let hc = hay.get_char(i + j);
            let nc = needle.get_char(j);
            if hc != nc {
                assert(hay@[i + j] != needle@[j as int]);
                matched = false;
                j = needle_len;
            } else {
                j = j + 1;
            }
        }
        if matched {
            assert(match_at(hay@, needle@, i as int));
            return true;
        }
        i = i + 1;
    }
    assert(forall|k: int| !match_at(hay@, needle@, k));
    false
}

} // verus!
