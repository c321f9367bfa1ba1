//! Path-based selection: parse a path, absolute or relative, into an anchor
//! cell plus the traversal path relative to it. Resolution of the traversal
//! against the live tree is a collaborator's job; the parse is verified here.

use vstd::prelude::*;
use crate::msg::InvalidPath;
use crate::refs::BasicActorRef;

verus! {

/// A selection: traverse `path` starting at `anchor`.
#[derive(Debug)]
pub struct ActorSelection {
    pub anchor: BasicActorRef,
    pub path: String,
}

/// A usable traversal path: non-empty, and every `/`-separated segment
/// non-empty (no leading, trailing or doubled slash).
pub open spec fn valid_rel_path(s: Seq<char>) -> bool {
    &&& s.len() > 0
    &&& s[0] != '/'
    &&& s[s.len() - 1] != '/'
    &&& forall|i: int| 0 <= i < s.len() - 1 ==> !((#[trigger] s[i]) == '/' && s[i + 1] == '/')
}

/// Is `p` a prefix of `s`?
pub open spec fn is_prefix(p: Seq<char>, s: Seq<char>) -> bool {
    p.len() <= s.len() && s.subrange(0, p.len() as int) == p
}

/// What an absolute path selects relative to the user root: the user root's
/// own path prefix (with the joining slash) is stripped; a path that does not
/// carry that prefix is left as it stands.
pub open spec fn strip_anchor_prefix(path: Seq<char>, anchor_path: Seq<char>) -> Seq<char> {
    if is_prefix(anchor_path + "/"@, path) {
        path.subrange(anchor_path.len() as int + 1, path.len() as int)
    } else {
        path
    }
}

/// The anchor and traversal a selection of `path` resolves to, from a cell
/// `myself` under the user root `user_root`: an absolute path (leading `/`)
/// anchors at the user root with the root's path prefix stripped; any other
/// anchors at `myself` unchanged.
pub open spec fn selection_parts(
    path: Seq<char>,
    myself: crate::refs::RefView,
    user_root: crate::refs::RefView,
) -> (crate::refs::RefView, Seq<char>) {
    if path.len() > 0 && path[0] == '/' {
        (user_root, strip_anchor_prefix(path, user_root.uri.path))
    } else {
        (myself, path)
    }
}

/// Does `s` start with `p`? (Checked character by character.)
fn starts_with(s: &str, p: &str) -> (r: bool)
    ensures
        r == is_prefix(p@, s@),
{
    let plen = p.unicode_len();
    let slen = s.unicode_len();
    if plen > slen {
        proof {
            assert(!is_prefix(p@, s@));
        }
        return false;
    }
    let mut i: usize = 0;
    while i < plen
        invariant
            plen == p@.len(),
            slen == s@.len(),
            plen <= slen,
            0 <= i <= plen,
            forall|j: int| 0 <= j < i ==> s@[j] == p@[j],
        decreases plen - i,
    {
        if s.get_char(i) != p.get_char(i) {
            proof {
                assert(s@.subrange(0, p@.len() as int)[i as int] != p@[i as int]);
            }
            return false;
        }
        i = i + 1;
    }
    proof {
        assert(s@.subrange(0, p@.len() as int) =~= p@);
    }
    true
}

/// Checks [`valid_rel_path`].
fn is_valid_rel_path(s: &str) -> (r: bool)
    ensures
        r == valid_rel_path(s@),
{
    let n = s.unicode_len();
    if n == 0 {
        return false;
    }
    if s.get_char(0) == '/' {
        return false;
    }
    if s.get_char(n - 1) == '/' {
        return false;
    }
    let mut i: usize = 0;
    while i + 1 < n
        invariant
            n == s@.len(),
            n > 0,
            0 <= i < n,
            forall|j: int| 0 <= j < i ==> !((#[trigger] s@[j]) == '/' && s@[j + 1] == '/'),
        decreases n - i,
    {
        if s.get_char(i) == '/' && s.get_char(i + 1) == '/' {
            return false;
        }
        i = i + 1;
    }
    true
}

/// Parses `path` into a selection as seen from the cell `myself` whose user
/// root is `user_root` (see [`selection_parts`]). Returns `InvalidPath`
/// exactly when the traversal that results is not a [`valid_rel_path`] —
/// in particular for the empty path.
pub fn select(myself: &BasicActorRef, user_root: &BasicActorRef, path: &str) -> (r: Result<
    ActorSelection,
    InvalidPath,
>)
    ensures
        ({
            let (anchor, rel) = selection_parts(path@, myself@, user_root@);
            &&& valid_rel_path(rel) <==> r is Ok
            &&& r matches Ok(sel) ==> sel.anchor@ == anchor && sel.path@ == rel
            &&& r matches Err(e) ==> e.path@ == path@
        }),
{
    let plen = path.unicode_len();
    if plen > 0 && path.get_char(0) == '/' {
        let anchor_path = user_root.uri.path.clone().concat("/");
        proof {
            reveal_strlit("/");
            assert(anchor_path@ == user_root@.uri.path + "/"@);
            assert(anchor_path@.len() == user_root@.uri.path.len() + 1);
        }
        let rel: String = if starts_with(path, anchor_path.as_str()) {
            let alen = anchor_path.as_str().unicode_len();
            let stripped = String::from_str(path.substring_char(alen, plen));
            proof {
                assert(stripped@ =~= strip_anchor_prefix(path@, user_root@.uri.path));
            }
            stripped
        } else {
            proof {
                assert(path@ == strip_anchor_prefix(path@, user_root@.uri.path));
            }
            String::from_str(path)
        };
        proof {
            assert(rel@ == strip_anchor_prefix(path@, user_root@.uri.path));
        }
        if is_valid_rel_path(rel.as_str()) {
            Ok(ActorSelection { anchor: user_root.clone(), path: rel })
        } else {
            Err(InvalidPath { path: String::from_str(path) })
        }
    } else {
        if is_valid_rel_path(path) {
            Ok(ActorSelection { anchor: myself.clone(), path: String::from_str(path) })
        } else {
            Err(InvalidPath { path: String::from_str(path) })
        }
    }
}

} // verus!
