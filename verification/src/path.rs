//! Paths inside a directory: every path handed to the file system is
//! rooted, that is, it starts with `/`.
use vstd::prelude::*;

verus! {

/// Whether a path (as characters) starts with the root separator.
pub open spec fn is_rooted(p: Seq<char>) -> bool {
    p.len() > 0 && p[0] == '/'
}

/// The rooted form of a path: unchanged when it already starts with `/`,
/// otherwise `/` followed by the path.
pub open spec fn slashified(p: Seq<char>) -> Seq<char> {
    if is_rooted(p) {
        p
    } else {
        seq!['/'] + p
    }
}

/// Turns `path` into its rooted form, in place.
pub fn slashify(path: &mut String)
    ensures
        final(path)@ == slashified(old(path)@),
{
    let mut chars = path.as_str().chars();
    let first = chars.next();
    let rooted: bool = match first {
        Some(c) => c == '/',
        None => false,
    };
    if !rooted {
        let mut rooted_path = String::from_str("/");
        proof {
            reveal_strlit("/");
        }
        rooted_path.append(path.as_str());
        *path = rooted_path;
    }
}

/// A rooted path is rooted, whatever it was before.
pub proof fn lemma_slashified_is_rooted(p: Seq<char>)
    ensures
        is_rooted(slashified(p)),
{
}

/// Rooting a path twice is the same as rooting it once.
pub proof fn lemma_slashified_idempotent(p: Seq<char>)
    ensures
        slashified(slashified(p)) == slashified(p),
{
}

/// A relative path and the same path with `/` put in front of it are
/// rooted alike, so every operation that roots its path treats them alike.
pub proof fn lemma_relative_and_rooted_agree(p: Seq<char>)
    requires
        !is_rooted(p),
    ensures
        slashified(seq!['/'] + p) == slashified(p),
{
}

/// Rooting keeps the path's own characters: they follow the root that was
/// added, if any, and the result is at most one character longer.
pub proof fn lemma_slashified_keeps_path(p: Seq<char>)
    ensures
        slashified(p).len() == p.len() || slashified(p).len() == p.len() + 1,
        slashified(p).subrange(slashified(p).len() - p.len(), slashified(p).len() as int) == p,
{
    if !is_rooted(p) {
        assert(slashified(p).subrange(1, slashified(p).len() as int) =~= p);
    } else {
        assert(slashified(p).subrange(0, p.len() as int) =~= p);
    }
}

/// The parent that std's `Path::parent` gives for a path (as characters):
/// the path without its final component, nothing when there is none.
pub uninterp spec fn path_parent_of(p: Seq<char>) -> Option<Seq<char>>;

/// `Path::parent` (std): the path without its final component, `None`
/// when there is no final component (the path is empty or ends in a root).
/// The parent is the path cut short before that component, so it is a
/// strictly shorter prefix of the path.
#[verifier::external_body]
pub(crate) fn path_parent(p: &str) -> (r: Option<String>)
    ensures
        match r {
            Some(q) => path_parent_of(p@) == Some(q@),
            None => path_parent_of(p@) is None,
        },
        r matches Some(q) ==> q@.len() < p@.len() && q@ == p@.subrange(0, q@.len() as int),
{
    match std::path::Path::new(p).parent() {
        Some(q) => Some(q.to_string_lossy().into_owned()),
        None => None,
    }
}

/// The paths met from `p` by taking parents, at most `fuel` of them,
/// starting with `p` itself.
pub open spec fn parent_chain(p: Seq<char>, fuel: nat) -> Seq<Seq<char>>
    decreases fuel,
{
    if fuel == 0 {
        seq![]
    } else {
        seq![p] + match path_parent_of(p) {
            Some(q) => parent_chain(q, (fuel - 1) as nat),
            None => Seq::empty(),
        }
    }
}

/// The ancestors of `p`: `p`, its parent, the parent's parent, and so on
/// until there is none. Parents are strictly shorter, so `p.len() + 1`
/// steps reach the end of the chain.
pub open spec fn ancestor_chain(p: Seq<char>) -> Seq<Seq<char>> {
    parent_chain(p, p.len() + 1)
}

/// The chain of paths obtained from `path` by taking parents until there is
/// none, starting with `path` itself: `/a/b` gives `/a/b`, `/a`, `/`.
/// Each is a prefix of `path`, and each is shorter than the one before.
pub fn ancestors(path: &str) -> (r: Vec<String>)
    ensures
        r@.len() == ancestor_chain(path@).len(),
        forall|i: int| 0 <= i < r@.len() ==> (#[trigger] r@[i])@ == ancestor_chain(path@)[i],
        r@.len() >= 1,
        r@[0]@ == path@,
        forall|i: int| 0 <= i < r@.len() ==> (#[trigger] r@[i])@.is_prefix_of(path@),
        forall|i: int| 0 < i < r@.len() ==> (#[trigger] r@[i])@.len() < r@[i - 1]@.len(),
{
    let mut chain: Vec<String> = Vec::new();
    let mut cur = String::from_str(path);
    loop
        invariant_except_break
            cur@.is_prefix_of(path@),
            cur@.len() + chain@.len() <= path@.len(),
            chain@.len() == 0 ==> cur@ == path@,
            chain@.len() > 0 ==> chain@[0]@ == path@,
            chain@.len() > 0 ==> cur@.len() < chain@[chain@.len() - 1]@.len(),
            forall|i: int| 0 <= i < chain@.len() ==> (#[trigger] chain@[i])@.is_prefix_of(path@),
            forall|i: int| 0 < i < chain@.len() ==> (#[trigger] chain@[i])@.len() < chain@[i - 1]@.len(),
            forall|i: int| 0 <= i < chain@.len() ==> (#[trigger] chain@[i])@ == ancestor_chain(path@)[i],
            ancestor_chain(path@).len() == chain@.len() + parent_chain(cur@, (path@.len() + 1 - chain@.len()) as nat).len(),
            forall|k: int| 0 <= k < parent_chain(cur@, (path@.len() + 1 - chain@.len()) as nat).len() ==>
                ancestor_chain(path@)[chain@.len() + k] == #[trigger] parent_chain(cur@, (path@.len() + 1 - chain@.len()) as nat)[k],
        ensures
            chain@.len() == ancestor_chain(path@).len(),
            forall|i: int| 0 <= i < chain@.len() ==> (#[trigger] chain@[i])@ == ancestor_chain(path@)[i],
            chain@.len() >= 1,
            chain@[0]@ == path@,
            forall|i: int| 0 <= i < chain@.len() ==> (#[trigger] chain@[i])@.is_prefix_of(path@),
            forall|i: int| 0 < i < chain@.len() ==> (#[trigger] chain@[i])@.len() < chain@[i - 1]@.len(),
        decreases cur@.len(),
    {
        let parent = path_parent(cur.as_str());
        let ghost fuel: nat = (path@.len() + 1 - chain@.len()) as nat;
        let ghost rest = parent_chain(cur@, fuel);
        assert(fuel >= 1);
        assert(rest[0] == cur@);
        chain.push(cur.clone());
        match parent {
            Some(q) => {
                assert(q@.is_prefix_of(path@)) by {
                    assert forall|k: int| 0 <= k < q@.len() implies q@[k] == path@[k] by {
                        assert(q@[k] == cur@[k]);
                    }
                }
                let ghost next = parent_chain(q@, (fuel - 1) as nat);
                assert(rest =~= seq![cur@] + next);
                assert forall|k: int| 0 <= k < next.len() implies
                    ancestor_chain(path@)[chain@.len() + k] == #[trigger] next[k] by {
                    assert(next[k] == rest[k + 1]);
                }
                cur = q;
            },
            None => {
                assert(rest =~= seq![cur@]);
                break;
            },
        }
    }
    chain
}

} // verus!
