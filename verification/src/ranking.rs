//! Picking the entries with the largest scores.

use vstd::prelude::*;

verus! {

/// The positions of the `min(limit, n)` largest scores, largest first; on
/// equal scores the earlier position comes first.
pub fn top_indices(scores: &Vec<u128>, limit: usize) -> (res: Vec<usize>)
    ensures
        res@.len() == if limit < scores@.len() { limit as int } else { scores@.len() as int },
        res@.no_duplicates(),
        forall|a: int| 0 <= a < res@.len() ==> #[trigger] res@[a] < scores@.len(),
        forall|a: int, b: int| 0 <= a < b < res@.len()
            ==> scores@[#[trigger] res@[a] as int] >= scores@[#[trigger] res@[b] as int],
        forall|j: int, a: int| 0 <= j < scores@.len() && !res@.contains(j as usize) && 0 <= a < res@.len()
            ==> #[trigger] scores@[j] <= scores@[#[trigger] res@[a] as int],
{
    let n = scores.len();
    let want = if limit < n { limit } else { n };
    let mut taken: Vec<bool> = Vec::new();
    let mut k: usize = 0;
    while k < n
        invariant
            k <= n,
            taken@.len() == k,
            forall|t: int| 0 <= t < k ==> !taken@[t],
        decreases n - k,
    {
        taken.push(false);
        k = k + 1;
    }
    let mut res: Vec<usize> = Vec::new();
    while res.len() < want
        invariant
            n == scores@.len(),
            want <= n,
            res@.len() <= want,
            taken@.len() == n,
            forall|t: int| 0 <= t < n ==> (taken@[t] <==> res@.contains(t as usize)),
            res@.no_duplicates(),
            forall|a: int| 0 <= a < res@.len() ==> #[trigger] res@[a] < n,
            forall|a: int, b: int| 0 <= a < b < res@.len()
                ==> scores@[#[trigger] res@[a] as int] >= scores@[#[trigger] res@[b] as int],
            forall|j: int, a: int| 0 <= j < n && !res@.contains(j as usize) && 0 <= a < res@.len()
                ==> #[trigger] scores@[j] <= scores@[#[trigger] res@[a] as int],
        decreases want - res@.len(),
    {
        // some position is still free, since fewer than n were taken
        proof {
            lemma_some_free(res@, n as int);
            let t = choose|t: int| 0 <= t < n && !#[trigger] res@.contains(t as usize);
            assert(!taken@[t]);
        }
        let mut best: usize = n;
        let mut j: usize = 0;
        while j < n
            invariant
                n == scores@.len(),
                taken@.len() == n,
                j <= n,
                best == n || (best < j && !taken@[best as int]),
                best == n ==> forall|t: int| 0 <= t < j ==> taken@[t],
                best < n ==> forall|t: int| 0 <= t < j && !taken@[t] ==> scores@[t] <= scores@[best as int],
            decreases n - j,
        {
            if !taken[j] {
                if best == n || scores[best] < scores[j] {
                    best = j;
                }
            }
            j = j + 1;
        }
        assert(best < n) by {
            if best == n {
                let t = choose|t: int| 0 <= t < n && !taken@[t];
            }
        }
        let ghost before = res@;
        res.push(best);
        taken.set(best, true);
        proof {
            assert(!before.contains(best));
            assert forall|t: int| 0 <= t < n implies (taken@[t] <==> res@.contains(t as usize)) by {
                if t == best as int {
                    assert(res@[before.len() as int] == best);
                } else {
                    if before.contains(t as usize) {
                        let a = choose|a: int| 0 <= a < before.len() && before[a] == t as usize;
                        assert(res@[a] == t as usize);
                    }
                    if res@.contains(t as usize) {
                        let a = choose|a: int| 0 <= a < res@.len() && res@[a] == t as usize;
                        assert(a < before.len());
                        assert(before[a] == t as usize);
                    }
                }
            }
            assert forall|a: int, b: int| 0 <= a < b < res@.len()
                implies scores@[#[trigger] res@[a] as int] >= scores@[#[trigger] res@[b] as int] by {
                if b == before.len() {
                    assert(!before.contains(best));
                    assert(res@[a] == before[a]);
                }
            }
            assert forall|x: int, y: int| 0 <= x < res@.len() && 0 <= y < res@.len() && x != y
                implies res@[x] != res@[y] by {
                if x == before.len() {
                    assert(before.contains(res@[y]) || y == before.len());
                    assert(res@[y] == before[y]);
                } else if y == before.len() {
                    assert(res@[x] == before[x]);
                }
            }
            assert forall|q: int, a: int| 0 <= q < n && !res@.contains(q as usize) && 0 <= a < res@.len()
                implies #[trigger] scores@[q] <= scores@[#[trigger] res@[a] as int] by {
                if !before.contains(q as usize) {
                    assert(!taken@[q] || q == best as int);
                    if a < before.len() {
                        assert(res@[a] == before[a]);
                    }
                } else {
                    assert(res@.contains(q as usize)) by {
                        let c = choose|c: int| 0 <= c < before.len() && before[c] == q as usize;
                        assert(res@[c] == q as usize);
                    }
                }
            }
        }
    }
    res
}

/// Fewer than `n` positions below `n` leave some position out.
proof fn lemma_some_free(res: Seq<usize>, n: int)
    requires
        res.no_duplicates(),
        res.len() < n,
        forall|a: int| 0 <= a < res.len() ==> #[trigger] res[a] < n,
        n <= usize::MAX,
    ensures
        exists|t: int| 0 <= t < n && !#[trigger] res.contains(t as usize),
{
    if forall|t: int| 0 <= t < n ==> #[trigger] res.contains(t as usize) {
    let s = res.to_set();
    let full = Set::new(|t: usize| (t as int) < n);
    res.unique_seq_to_set();
    assert(s =~= full) by {
        assert forall|t: usize| s.contains(t) <==> full.contains(t) by {
            if full.contains(t) {
                assert(res.contains((t as int) as usize));
            }
        }
    }
    lemma_prefix_set_len(n);
    }
}

/// The set of `usize` values below `n` has `n` elements.
proof fn lemma_prefix_set_len(n: int)
    requires
        0 <= n <= usize::MAX,
    ensures
        Set::new(|t: usize| (t as int) < n).finite(),
        Set::new(|t: usize| (t as int) < n).len() == n,
    decreases n,
{
    let full = Set::new(|t: usize| (t as int) < n);
    if n == 0 {
        assert(full =~= Set::<usize>::empty());
    } else {
        let smaller = Set::new(|t: usize| (t as int) < n - 1);
        lemma_prefix_set_len(n - 1);
        assert(full =~= smaller.insert((n - 1) as usize));
    }
}

} // verus!
