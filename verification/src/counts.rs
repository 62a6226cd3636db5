//! Counting blocks by a predicate, and point updates of vectors. The
//! simulation's bookkeeping — score owed per destroyed block, balls spawned
//! per destroyed special block — is stated with these counts.

use vstd::prelude::*;
use crate::entities::Block;

verus! {

/// Number of elements of `s` satisfying `p`.
pub open spec fn cnt(s: Seq<Block>, p: spec_fn(Block) -> bool) -> int
    decreases s.len(),
{
    if s.len() == 0 {
        0
    } else {
        cnt(s.drop_last(), p) + if p(s.last()) { 1int } else { 0int }
    }
}

/// A block still standing.
pub open spec fn alive(b: Block) -> bool {
    b.lives >= 1
}

/// A block that spawns a ball when destroyed.
pub open spec fn special(b: Block) -> bool {
    b.block_type is SpawnBallOnDeath
}

/// A special block still standing.
pub open spec fn special_alive(b: Block) -> bool {
    special(b) && alive(b)
}

/// The predicates above as closure values, so every count and lemma speaks of
/// one and the same function term.
pub open spec fn alivef() -> spec_fn(Block) -> bool {
    |b: Block| alive(b)
}

pub open spec fn specialf() -> spec_fn(Block) -> bool {
    |b: Block| special(b)
}

pub open spec fn regularf() -> spec_fn(Block) -> bool {
    |b: Block| !special(b)
}

pub open spec fn special_alivef() -> spec_fn(Block) -> bool {
    |b: Block| special_alive(b)
}

pub proof fn lemma_cnt_push(s: Seq<Block>, p: spec_fn(Block) -> bool, x: Block)
    ensures
        cnt(s.push(x), p) == cnt(s, p) + if p(x) { 1int } else { 0int },
{
    assert(s.push(x).drop_last() =~= s);
}

pub proof fn lemma_cnt_le_len(s: Seq<Block>, p: spec_fn(Block) -> bool)
    ensures
        0 <= cnt(s, p) <= s.len(),
    decreases s.len(),
{
    if s.len() > 0 {
        lemma_cnt_le_len(s.drop_last(), p);
    }
}

/// Replacing one element changes the count exactly by how the predicate's
/// verdict changes on it.
pub proof fn lemma_cnt_update(s: Seq<Block>, p: spec_fn(Block) -> bool, i: int, x: Block)
    requires
        0 <= i < s.len(),
    ensures
        cnt(s.update(i, x), p) == cnt(s, p)
            + (if p(x) { 1int } else { 0int })
            - (if p(s[i]) { 1int } else { 0int }),
    decreases s.len(),
{
    if i == s.len() - 1 {
        assert(s.update(i, x).drop_last() =~= s.drop_last());
    } else {
        assert(s.update(i, x).drop_last() =~= s.drop_last().update(i, x));
        lemma_cnt_update(s.drop_last(), p, i, x);
        assert(s.update(i, x).last() == s.last());
    }
}

/// On a sequence where the predicate holds nowhere the count is zero.
pub proof fn lemma_cnt_none(s: Seq<Block>, p: spec_fn(Block) -> bool)
    requires
        forall|i: int| 0 <= i < s.len() ==> !p(#[trigger] s[i]),
    ensures
        cnt(s, p) == 0,
    decreases s.len(),
{
    if s.len() > 0 {
        lemma_cnt_none(s.drop_last(), p);
    }
}

/// On a sequence where the predicate holds everywhere the count is the
/// length.
pub proof fn lemma_cnt_all(s: Seq<Block>, p: spec_fn(Block) -> bool)
    requires
        forall|i: int| 0 <= i < s.len() ==> p(#[trigger] s[i]),
    ensures
        cnt(s, p) == s.len(),
    decreases s.len(),
{
    if s.len() > 0 {
        lemma_cnt_all(s.drop_last(), p);
    }
}

/// Two predicates that agree on every element of the sequence count alike.
pub proof fn lemma_cnt_agree(s: Seq<Block>, p: spec_fn(Block) -> bool, q: spec_fn(Block) -> bool)
    requires
        forall|i: int| 0 <= i < s.len() ==> (p(#[trigger] s[i]) <==> q(s[i])),
    ensures
        cnt(s, p) == cnt(s, q),
    decreases s.len(),
{
    if s.len() > 0 {
        lemma_cnt_agree(s.drop_last(), p, q);
    }
}

/// Replaces the element of `v` at `idx`.
pub fn vec_set<T>(v: &mut Vec<T>, idx: usize, x: T)
    requires
        idx < old(v)@.len(),
    ensures
        final(v)@ == old(v)@.update(idx as int, x),
{
    let _replaced = v.remove(idx);
    v.insert(idx, x);
    proof {
        assert(v@ =~= old(v)@.update(idx as int, x));
    }
}

} // verus!
