use vstd::prelude::*;
use vstd::string::*;

use crate::node::NodeError;

verus! {

/// A well-formed path begins with `/`.
pub open spec fn starts_with_slash(s: Seq<char>) -> bool {
    s.len() > 0 && s[0] == '/'
}

/// `i` is the offset of the last `/` in `s`.
pub open spec fn is_last_slash(s: Seq<char>, i: int) -> bool {
    &&& 0 <= i < s.len()
    &&& s[i] == '/'
    &&& forall|j: int| i < j < s.len() ==> s[j] != '/'
}

/// The substring after the offset `slash`: the trailing name of a path once
/// `slash` is the offset of its last `/`.
pub open spec fn path_name(s: Seq<char>, slash: int) -> Seq<char> {
    s.subrange(slash + 1, s.len() as int)
}

/// The child path under `parent` named `id`: a `/` separator is added only
/// when `parent` does not already end with one.
pub open spec fn spec_compose_child(parent: Seq<char>, id: Seq<char>) -> Seq<char> {
    if parent.len() > 0 && parent.last() == '/' {
        parent + id
    } else {
        parent + seq!['/'] + id
    }
}

/// Path construction rejects a path that does not start with `/` or that
/// contains no `/` at all; the two conditions are one, since a path that
/// contains no `/` in particular does not start with one. Constructors state
/// their error condition in the one-sided form.
pub proof fn lemma_rejection_condition(s: Seq<char>)
    ensures
        (!starts_with_slash(s) || (forall|j: int| 0 <= j < s.len() ==> s[j] != '/'))
            <==> !starts_with_slash(s),
{
}

/// Offset of the last `/` in `s`, or `None` when `s` contains no `/`.
pub fn find_last_slash(s: &str) -> (r: Option<usize>)
    ensures
        match r {
            Some(i) => is_last_slash(s@, i as int),
            None => forall|j: int| 0 <= j < s@.len() ==> s@[j] != '/',
        },
{
    let len = s.unicode_len();
    let mut i = len;
    while i > 0
        invariant
            i <= len,
            len == s@.len(),
            forall|j: int| i <= j < s@.len() ==> s@[j] != '/',
        decreases i,
    {
        i = i - 1;
        if s.get_char(i) == '/' {
            return Some(i);
        }
    }
    None
}

/// Composes the path of a child named `id` under `parent`, and returns it
/// together with the offset of its last `/`, so that the caller can split
/// the name back off without re-scanning.
///
/// Fails with `InvalidPath` exactly when `parent` does not start with `/`.
pub fn compose_child(parent: &str, id: &str) -> (r: Result<(String, usize), NodeError>)
    requires
        forall|j: int| 0 <= j < id@.len() ==> id@[j] != '/',
    ensures
        r is Ok <==> starts_with_slash(parent@),
        r matches Ok((p, slash)) ==> {
            &&& p@ == spec_compose_child(parent@, id@)
            &&& is_last_slash(p@, slash as int)
            &&& path_name(p@, slash as int) == id@
        },
        r is Err ==> r == Err::<(String, usize), NodeError>(NodeError::InvalidPath),
{
    let plen = parent.unicode_len();
    if plen == 0 || parent.get_char(0) != '/' {
        return Err(NodeError::InvalidPath);
    }
    let mut p = parent.to_owned();
    let slash: usize;
    if parent.get_char(plen - 1) == '/' {
        slash = plen - 1;
    } else {
        p.append("/");
        slash = plen;
    }
    p.append(id);
    proof {
        reveal_strlit("/");
        if parent@.last() == '/' {
            assert(p@ =~= spec_compose_child(parent@, id@));
        } else {
            assert(parent@ + "/"@ + id@ =~= parent@ + seq!['/'] + id@);
            assert(p@ =~= spec_compose_child(parent@, id@));
        }
        assert(p@[slash as int] == '/');
        assert forall|j: int| slash < j < p@.len() implies p@[j] != '/' by {
            assert(p@[j] == id@[j - slash - 1]);
        }
        assert(path_name(p@, slash as int) =~= id@);
    }
    Ok((p, slash))
}

} // verus!
