//! Duplicate-free vectors used as sets, and the facts that tie them to `Set`.

use vstd::prelude::*;

use near_sdk::AccountId;


verus! {

/// Taking an element out of a duplicate-free sequence takes it out of the
/// set of its elements, and keeps the sequence free of duplicates.
pub proof fn lemma_remove_to_set<T>(s: Seq<T>, k: int)
    requires
        0 <= k < s.len(),
        s.no_duplicates(),
    ensures
        s.remove(k).to_set() =~= s.to_set().remove(s[k]),
        s.remove(k).no_duplicates(),
{
    let r = s.remove(k);
    assert forall|x: T| r.contains(x) <==> (s.contains(x) && x != s[k]) by {
        if r.contains(x) {
            let j = choose|j: int| 0 <= j < r.len() && r[j] == x;
            if j < k {
                assert(s[j] == x);
            } else {
                assert(s[j + 1] == x);
            }
        }
        if s.contains(x) && x != s[k] {
            let j = choose|j: int| 0 <= j < s.len() && s[j] == x;
            if j < k {
                assert(r[j] == x);
            } else {
                assert(r[j - 1] == x);
            }
        }
    }
    assert forall|i: int, j: int| 0 <= i < r.len() && 0 <= j < r.len() && i != j implies r[i]
        != r[j] by {
        let si = if i < k { i } else { i + 1 };
        let sj = if j < k { j } else { j + 1 };
        assert(r[i] == s[si] && r[j] == s[sj]);
    }
}

/// Appending an element that is not there yet keeps a sequence free of
/// duplicates and adds the element to its set.
pub proof fn lemma_push_to_set<T>(s: Seq<T>, x: T)
    requires
        s.no_duplicates(),
        !s.contains(x),
    ensures
        s.push(x).to_set() =~= s.to_set().insert(x),
        s.push(x).no_duplicates(),
{
    let r = s.push(x);
    assert forall|y: T| r.contains(y) <==> (s.contains(y) || y == x) by {
        if r.contains(y) {
            let j = choose|j: int| 0 <= j < r.len() && r[j] == y;
            if j < s.len() {
                assert(s[j] == y);
            }
        }
        if s.contains(y) {
            let j = choose|j: int| 0 <= j < s.len() && s[j] == y;
            assert(r[j] == y);
        }
        if y == x {
            assert(r[s.len() as int] == y);
        }
    }
    assert forall|i: int, j: int| 0 <= i < r.len() && 0 <= j < r.len() && i != j implies r[i]
        != r[j] by {
        if i == s.len() {
            assert(s[j] == r[j]);
        } else if j == s.len() {
            assert(s[i] == r[i]);
        }
    }
}

/// Takes `id` out of a duplicate-free vector of ids.
pub(crate) fn remove_id(v: &mut Vec<u16>, id: u16)
    requires
        old(v)@.no_duplicates(),
    ensures
        final(v)@.no_duplicates(),
        final(v)@.to_set() == old(v)@.to_set().remove(id),
{
    let mut k: usize = 0;
    while k < v.len()
        invariant
            k <= v@.len(),
            v@ == old(v)@,
            v@.no_duplicates(),
            forall|j: int| 0 <= j < k ==> v@[j] != id,
        decreases v@.len() - k,
    {
        if v[k] == id {
            proof {
                lemma_remove_to_set(v@, k as int);
            }
            v.remove(k);
            return;
        }
        k += 1;
    }
    assert(v@.to_set() =~= v@.to_set().remove(id));
}

/// Takes `a` out of a duplicate-free vector of accounts.
pub(crate) fn remove_account(v: &mut Vec<AccountId>, a: &AccountId)
    requires
        old(v)@.no_duplicates(),
    ensures
        final(v)@.no_duplicates(),
        final(v)@.to_set() == old(v)@.to_set().remove(*a),
{
    let mut k: usize = 0;
    while k < v.len()
        invariant
            k <= v@.len(),
            v@ == old(v)@,
            v@.no_duplicates(),
            forall|j: int| 0 <= j < k ==> v@[j] != *a,
        decreases v@.len() - k,
    {
        if v[k] == *a {
            proof {
                lemma_remove_to_set(v@, k as int);
            }
            v.remove(k);
            return;
        }
        k += 1;
    }
    assert(v@.to_set() =~= v@.to_set().remove(*a));
}

} // verus!
