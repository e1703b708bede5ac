//! Final path component.  A canonical path string carries the file name as
//! everything after its last separator; the empty suffix (a root path, or a
//! path ending in a separator) has no file name.

use vstd::prelude::*;
use vstd::string::StrSliceExecFns;

verus! {

/// The suffix of `s` after its last `'/'`; the whole of `s` if it holds no
/// `'/'`.  Empty exactly when `s` is empty or ends in `'/'`.
pub open spec fn final_component(s: Seq<char>) -> Seq<char>
    decreases s.len(),
{
    if s.len() == 0 {
        Seq::empty()
    } else if s[s.len() - 1] == '/' {
        Seq::empty()
    } else {
        final_component(s.drop_last()).push(s[s.len() - 1])
    }
}

/// A suffix of `s` that starts right after a `'/'` (or at the start of `s`)
/// and holds no further `'/'` is the final component.
proof fn lemma_final_component_from(s: Seq<char>, cut: int)
    requires
        0 <= cut <= s.len(),
        forall|j: int| cut <= j < s.len() ==> s[j] != '/',
        cut > 0 ==> s[cut - 1] == '/',
    ensures
        final_component(s) == s.subrange(cut, s.len() as int),
    decreases s.len(),
{
    if cut == s.len() {
        assert(s.subrange(cut, s.len() as int) =~= Seq::empty());
    } else {
        let last = s[s.len() - 1];
        assert(last != '/');
        let head = s.drop_last();
        assert(forall|j: int| cut <= j < head.len() ==> head[j] == s[j]);
        lemma_final_component_from(head, cut);
        assert(final_component(s) == head.subrange(cut, head.len() as int).push(last));
        assert(head.subrange(cut, head.len() as int).push(last) =~= s.subrange(
            cut,
            s.len() as int,
        ));
    }
}

/// The final path component as the response's file name: `None` where the
/// path has none (it is empty, or ends in a separator, as a filesystem root
/// does).
pub fn file_name_of(path: &str) -> (r: Option<String>)
    ensures
        r matches Some(n) ==> n@ == final_component(path@) && final_component(path@).len() > 0,
        r is None ==> final_component(path@).len() == 0,
{
    let len = path.unicode_len();
    let mut cut: usize = len;
    loop
        invariant
            cut <= len,
            len == path@.len(),
            forall|j: int| cut <= j < len ==> path@[j] != '/',
        ensures
            cut <= len,
            forall|j: int| cut <= j < len ==> path@[j] != '/',
            cut > 0 ==> path@[cut - 1] == '/',
        decreases cut,
    {
        if cut == 0 {
            break;
        }
        if path.get_char(cut - 1) == '/' {
            break;
        }
        cut = cut - 1;
    }
    proof {
        lemma_final_component_from(path@, cut as int);
    }
    if cut == len {
        None
    } else {
        let name = path.substring_char(cut, len);
        Some(name.to_owned())
    }
}

} // verus!
