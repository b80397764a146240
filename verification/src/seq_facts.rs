//! Facts about sequences and a helper on vectors that the other modules
//! share.

use vstd::prelude::*;

verus! {

/// What `push` does to membership.
pub proof fn lemma_push_contains<T>(s: Seq<T>, x: T, p: T)
    ensures
        s.push(x).contains(p) <==> (s.contains(p) || p == x),
{
    let pushed = s.push(x);
    if s.contains(p) {
        let k = choose|k: int| 0 <= k < s.len() && s[k] == p;
        assert(pushed[k] == p);
    }
    if p == x {
        assert(pushed[s.len() as int] == p);
    }
}

/// Membership in a sequence by its last entry and the entries before it.
pub proof fn lemma_last_contains<T>(s: Seq<T>, p: T)
    requires
        s.len() > 0,
    ensures
        s.contains(p) <==> (s.drop_last().contains(p) || p == s.last()),
{
    assert(s =~= s.drop_last().push(s.last()));
    lemma_push_contains(s.drop_last(), s.last(), p);
}

/// The entries of `items` from the last to the first, so that `pop` hands
/// them out from the first to the last.
pub fn reversed<T>(items: Vec<T>) -> (res: Vec<T>)
    ensures
        res.len() == items.len(),
        forall|k: int| 0 <= k < res.len() ==> res[k] == items[items.len() - 1 - k],
{
    let mut rest = items;
    let mut out: Vec<T> = Vec::new();
    while rest.len() > 0
        invariant
            rest.len() + out.len() == items.len(),
            forall|k: int| 0 <= k < rest.len() ==> rest[k] == items[k],
            forall|k: int| 0 <= k < out.len() ==> out[k] == items[items.len() - 1 - k],
        decreases rest.len(),
    {
        let item = rest.pop().unwrap();
        out.push(item);
    }
    out
}

} // verus!
