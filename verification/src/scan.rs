//! Runs: how far a sequence goes on before something else comes.

use vstd::prelude::*;

verus! {

/// The length of the longest prefix of `s` all of whose entries satisfy `p`.
pub open spec fn run_len<T>(s: Seq<T>, p: spec_fn(T) -> bool) -> int
    decreases s.len(),
{
    if s.len() == 0 || !p(s[0]) {
        0
    } else {
        1 + run_len(s.drop_first(), p)
    }
}

/// A run ends at `k` where the first `k` entries satisfy `p` and the entry
/// at `k`, if there is one, does not.
pub proof fn lemma_run_ends<T>(s: Seq<T>, p: spec_fn(T) -> bool, k: int)
    requires
        0 <= k <= s.len(),
        forall|j: int| 0 <= j < k ==> p(#[trigger] s[j]),
        k == s.len() || !p(s[k]),
    ensures
        run_len(s, p) == k,
    decreases k,
{
    if k > 0 {
        let rest = s.drop_first();
        assert forall|j: int| 0 <= j < k - 1 implies p(#[trigger] rest[j]) by {
            assert(rest[j] == s[j + 1]);
        }
        lemma_run_ends(rest, p, k - 1);
    }
}

/// A run lies within its sequence, every entry of it satisfies `p`, and the
/// entry after it, if there is one, does not.
pub proof fn lemma_run_len<T>(s: Seq<T>, p: spec_fn(T) -> bool)
    ensures
        0 <= run_len(s, p) <= s.len(),
        forall|j: int| 0 <= j < run_len(s, p) ==> p(#[trigger] s[j]),
        run_len(s, p) < s.len() ==> !p(s[run_len(s, p)]),
    decreases s.len(),
{
    if s.len() > 0 && p(s[0]) {
        let rest = s.drop_first();
        lemma_run_len(rest, p);
        assert forall|j: int| 0 <= j < run_len(s, p) implies p(#[trigger] s[j]) by {
            if j > 0 {
                assert(s[j] == rest[j - 1]);
            }
        }
        assert(run_len(s, p) < s.len() ==> s[run_len(s, p)] == rest[run_len(rest, p)]);
    }
}

/// A run does not change where entries are appended after an entry that ends
/// it.
pub proof fn lemma_run_of_longer<T>(s: Seq<T>, more: Seq<T>, p: spec_fn(T) -> bool)
    requires
        run_len(s, p) < s.len(),
    ensures
        run_len(s + more, p) == run_len(s, p),
{
    lemma_run_len(s, p);
    let k = run_len(s, p);
    assert forall|j: int| 0 <= j < k implies p(#[trigger] (s + more)[j]) by {
        assert((s + more)[j] == s[j]);
    }
    assert((s + more)[k] == s[k]);
    lemma_run_ends(s + more, p, k);
}

/// Where every entry of `s` satisfies `p`, the run of `s + more` is all of
/// `s` and then the run of `more`.
pub proof fn lemma_run_through<T>(s: Seq<T>, more: Seq<T>, p: spec_fn(T) -> bool)
    requires
        run_len(s, p) == s.len(),
    ensures
        run_len(s + more, p) == s.len() + run_len(more, p),
{
    lemma_run_len(s, p);
    lemma_run_len(more, p);
    let k = s.len() + run_len(more, p);
    let all = s + more;
    assert forall|j: int| 0 <= j < k implies p(#[trigger] all[j]) by {
        if j < s.len() {
            assert(all[j] == s[j]);
        } else {
            assert(all[j] == more[j - s.len()]);
        }
    }
    if k < all.len() {
        assert(all[k] == more[run_len(more, p)]);
    }
    lemma_run_ends(all, p, k);
}

} // verus!
