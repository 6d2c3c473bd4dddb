//! Lists put together from shorter ones.

use vstd::prelude::*;

use crate::text::texts;

verus! {

/// `f(0)`, `f(1)`, ..., `f(n - 1)` one after the other.
pub open spec fn gather<T>(n: nat, f: spec_fn(int) -> Seq<T>) -> Seq<T>
    decreases n,
{
    if n == 0 {
        Seq::empty()
    } else {
        gather((n - 1) as nat, f) + f(n - 1)
    }
}

/// A list put together from shorter ones is empty exactly when all of them are.
pub proof fn lemma_gather_empty<T>(n: nat, f: spec_fn(int) -> Seq<T>)
    ensures
        gather(n, f).len() == 0 <==> forall|i: int| 0 <= i < n ==> (#[trigger] f(i)).len() == 0,
    decreases n,
{
    if n > 0 {
        lemma_gather_empty((n - 1) as nat, f);
        if forall|i: int| 0 <= i < n ==> (#[trigger] f(i)).len() == 0 {
            assert(f(n - 1).len() == 0);
        }
        if gather(n, f).len() == 0 {
            assert forall|i: int| 0 <= i < n implies (#[trigger] f(i)).len() == 0 by {
                if i == n - 1 {
                    assert(f(n - 1).len() == 0);
                }
            }
        }
    }
}

/// A list put together from shorter ones holds exactly what one of them holds.
pub proof fn lemma_gather_contains<T>(n: nat, f: spec_fn(int) -> Seq<T>, x: T)
    ensures
        gather(n, f).contains(x) <==> exists|i: int| 0 <= i < n && (#[trigger] f(i)).contains(x),
    decreases n,
{
    if n > 0 {
        let m = (n - 1) as nat;
        lemma_gather_contains(m, f, x);
        let front = gather(m, f);
        let back = f(n - 1);
        let all = gather(n, f);
        if all.contains(x) {
            let i = choose|i: int| 0 <= i < all.len() && all[i] == x;
            if i < front.len() {
                assert(front[i] == x);
            } else {
                assert(back[i - front.len()] == x);
                assert(f(n - 1).contains(x));
            }
        }
        if front.contains(x) {
            let i = choose|i: int| 0 <= i < front.len() && front[i] == x;
            assert(all[i] == x);
        }
        if back.contains(x) {
            let i = choose|i: int| 0 <= i < back.len() && back[i] == x;
            assert(all[front.len() + i] == x);
        }
    }
}

/// A list put together from `n` shorter ones and then from `m` others is what the first give and
/// then what the others give.
pub proof fn lemma_gather_split<T>(
    n: nat,
    m: nat,
    f: spec_fn(int) -> Seq<T>,
    g: spec_fn(int) -> Seq<T>,
    h: spec_fn(int) -> Seq<T>,
)
    requires
        forall|i: int| 0 <= i < n ==> #[trigger] f(i) == g(i),
        forall|i: int| 0 <= i < m ==> f(n + i) == #[trigger] h(i),
    ensures
        gather(n + m, f) == gather(n, g) + gather(m, h),
    decreases n + m,
{
    if m > 0 {
        lemma_gather_split(n, (m - 1) as nat, f, g, h);
        assert(f(n + (m - 1)) == h(m - 1));
        assert(gather(n + m, f) =~= gather(n, g) + gather(m, h));
    } else if n > 0 {
        lemma_gather_split((n - 1) as nat, 0, f, g, h);
        assert(f(n - 1) == g(n - 1));
        assert(gather(n + m, f) =~= gather(n, g) + gather(m, h));
    }
}

/// Appends a text to a list.
pub(crate) fn note(out: &mut Vec<String>, s: String)
    ensures
        texts(final(out)@) == texts(old(out)@).push(s@),
{
    out.push(s);
    assert(texts(out@) =~= texts(old(out)@).push(s@));
}

} // verus!
