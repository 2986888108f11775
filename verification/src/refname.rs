//! Textual work on branch reference names: stripping the `refs/heads/`
//! prefix that turns a full ref path into a short branch name, and building
//! the push refspec that deletes a ref on the remote.

use vstd::prelude::*;

verus! {

/// The prefix that marks a local branch reference in a full ref path.
pub open spec fn heads_prefix() -> Seq<char> {
    "refs/heads/"@
}

/// The short form of a default-branch name: a remote advertises its default
/// branch as a full ref path such as `refs/heads/main`, and local branch
/// names are compared against that path with a leading `refs/heads/`
/// stripped. A name that does not start with the prefix is left unchanged.
pub open spec fn strip_heads_prefix(s: Seq<char>) -> Seq<char> {
    if s.len() >= 11 && s.subrange(0, 11) == heads_prefix() {
        s.subrange(11, s.len() as int)
    } else {
        s
    }
}

/// Strips a leading `refs/heads/` from a ref path, yielding the short
/// branch name used for default-branch comparison.
pub fn strip_refs_heads(name: &str) -> (r: String)
    ensures
        r@ == strip_heads_prefix(name@),
{
    proof {
        reveal_strlit("refs/heads/");
    }
    let prefix = "refs/heads/";
    let n = name.unicode_len();
    if n < 11 {
        return name.to_owned();
    }
    let mut i: usize = 0;
    while i < 11
        invariant
            11 <= n == name@.len(),
            i <= 11,
            prefix@ == heads_prefix(),
            prefix@.len() == 11,
            forall|j: int| 0 <= j < i ==> name@[j] == heads_prefix()[j],
        decreases 11 - i,
    {
        if name.get_char(i) != prefix.get_char(i) {
            proof {
                assert(name@.subrange(0, 11) != heads_prefix()) by {
                    if name@.subrange(0, 11) == heads_prefix() {
                        assert(name@.subrange(0, 11)[i as int] == name@[i as int]);
                    }
                }
            }
            return name.to_owned();
        }
        i += 1;
    }
    proof {
        assert(name@.subrange(0, 11) =~= heads_prefix());
    }
    let rest = name.substring_char(11, n);
    rest.to_owned()
}

/// Builds the push refspec that deletes a ref on the remote: an empty
/// source side, a `:`, then the full ref path of the branch to remove.
pub fn build_deletion_refspec(ref_name: &str) -> (r: String)
    ensures
        r@ == seq![':'] + ref_name@,
{
    proof {
        reveal_strlit(":");
    }
    let mut r = String::from_str(":");
    r.append(ref_name);
    proof {
        assert(r@ =~= seq![':'] + ref_name@);
    }
    r
}

} // verus!
