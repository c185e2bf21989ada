//! Stale-version cleanup: which working-directory entries to remove once the
//! current version's install path is confirmed present.

use vstd::prelude::*;

verus! {

/// The views of a list of entry names.
pub open spec fn names_of(entries: Seq<String>) -> Seq<Seq<char>> {
    entries.map_values(|s: String| s@)
}

/// The stale entries of a directory listing: every name other than `keep`,
/// in listing order.
pub open spec fn stale_of(entries: Seq<Seq<char>>, keep: Seq<char>) -> Seq<Seq<char>>
    decreases entries.len(),
{
    if entries.len() == 0 {
        Seq::<Seq<char>>::empty()
    } else {
        let rest = stale_of(entries.drop_last(), keep);
        if entries.last() == keep {
            rest
        } else {
            rest.push(entries.last())
        }
    }
}

/// A name is stale exactly when it occurs in the listing and is not the one
/// to keep.
pub proof fn lemma_stale_membership(entries: Seq<Seq<char>>, keep: Seq<char>, n: Seq<char>)
    ensures
        stale_of(entries, keep).contains(n) <==> (entries.contains(n) && n != keep),
    decreases entries.len(),
{
    if entries.len() > 0 {
        lemma_stale_membership(entries.drop_last(), keep, n);
        assert(entries.contains(n) <==> (entries.drop_last().contains(n) || entries.last() == n))
            by {
            if entries.contains(n) {
                let i = choose|i: int| 0 <= i < entries.len() && entries[i] == n;
                if i < entries.len() - 1 {
                    assert(entries.drop_last()[i] == n);
                }
            }
            if entries.drop_last().contains(n) {
                let i = choose|i: int|
                    0 <= i < entries.drop_last().len() && entries.drop_last()[i] == n;
                assert(entries[i] == n);
            }
            if entries.last() == n {
                assert(entries[entries.len() - 1] == n);
            }
        };
        let rest = stale_of(entries.drop_last(), keep);
        if entries.last() != keep {
            assert(stale_of(entries, keep).contains(n) <==> (rest.contains(n) || entries.last()
                == n)) by {
                if rest.contains(n) {
                    let i = choose|i: int| 0 <= i < rest.len() && rest[i] == n;
                    assert(rest.push(entries.last())[i] == n);
                }
                if entries.last() == n {
                    assert(rest.push(entries.last())[rest.len() as int] == n);
                }
                if stale_of(entries, keep).contains(n) {
                    let i = choose|i: int|
                        0 <= i < rest.push(entries.last()).len() && rest.push(entries.last())[i]
                            == n;
                    if i < rest.len() {
                        assert(rest[i] == n);
                    }
                }
            }
        }
    }
}

/// Cleanup invariant: when the listing contains the install path, removing
/// every stale entry leaves exactly that one name — an entry of the listing
/// survives the cleanup if and only if it is the install path.
pub proof fn lemma_cleanup_invariant(entries: Seq<Seq<char>>, keep: Seq<char>)
    requires
        entries.contains(keep),
    ensures
        forall|n: Seq<char>|
            (entries.contains(n) && !stale_of(entries, keep).contains(n)) <==> n == keep,
{
    assert forall|n: Seq<char>|
        (entries.contains(n) && !stale_of(entries, keep).contains(n)) <==> n == keep by {
        lemma_stale_membership(entries, keep, n);
    }
}

/// Collects the stale entries of a directory listing: every entry whose name
/// is not exactly `keep`, in listing order. These are the entries a successful
/// provisioning cycle removes, best-effort.
pub fn stale_entries(entries: &Vec<String>, keep: &String) -> (r: Vec<String>)
    ensures
        names_of(r@) == stale_of(names_of(entries@), keep@),
{
    let n = entries.len();
    let mut r: Vec<String> = Vec::new();
    let mut i: usize = 0;
    while i < n
        invariant
            n == entries@.len(),
            i <= n,
            names_of(r@) == stale_of(names_of(entries@.take(i as int)), keep@),
        decreases n - i,
    {
        let ghost pre = names_of(entries@.take(i as int));
        let ghost post = names_of(entries@.take(i as int + 1));
        proof {
            assert(post.drop_last() =~= pre);
            assert(post.last() == entries@[i as int]@);
        }
        if entries[i] != *keep {
            let ghost old_r = r@;
            r.push(entries[i].clone());
            proof {
                assert(names_of(r@) =~= names_of(old_r).push(entries@[i as int]@));
            }
        }
        i += 1;
    }
    proof {
        assert(entries@.take(n as int) =~= entries@);
    }
    r
}

} // verus!
