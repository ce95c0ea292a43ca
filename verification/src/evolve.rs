//! The evolutionary search step: evaluate a population, pick the single
//! fittest machine, and either stop (perfect score) or breed the next
//! population from it.
//!
//! Ties on the top score are broken deterministically in favour of the
//! earliest machine in the current population order.

use vstd::prelude::*;

use crate::fitness::{score_spec, test_half_add, PERFECT_SCORE};
use crate::machine::{
    point_mutated, replicated, rotated_left, rotated_right, shift_mutated, Machine,
};
use crate::randomness::shuffle_machines;

verus! {

/// How many machines a population holds.
pub const POPULATION_SIZE: usize = 32;

/// Whether position `i` holds the elite of the population: no machine
/// scores higher, and every earlier machine scores strictly lower (the
/// first of the top scorers wins a tie).
pub open spec fn is_best_at(pop: Seq<Machine>, i: int) -> bool {
    &&& 0 <= i < pop.len()
    &&& forall|k: int| 0 <= k < pop.len() ==> score_spec(pop[k].genome@) <= score_spec(
        pop[i].genome@,
    )
    &&& forall|k: int| 0 <= k < i ==> score_spec(pop[k].genome@) < score_spec(pop[i].genome@)
}

/// Whether `child` can come out of `parent` by one of the five breeding
/// operators: elitism copy, point, shift, rotate, or duplicate mutation.
pub open spec fn derived_from(parent: Seq<u8>, child: Seq<u8>) -> bool {
    ||| child == parent
    ||| exists|i: int, mask: u8| 0 <= i < 16 && child == point_mutated(parent, i, mask)
    ||| exists|i: int| 0 <= i < 16 && child == shift_mutated(parent, i)
    ||| child == rotated_right(parent)
    ||| child == rotated_left(parent)
    ||| exists|i: int, j: int| 0 <= i < 16 && 0 <= j < 16 && child == replicated(parent, i, j)
}

/// A fresh population of independently random machines.
pub fn random_population(rng: &mut rand::rngs::StdRng) -> (pop: Vec<Machine>)
    ensures
        pop@.len() == POPULATION_SIZE,
{
    let mut pop: Vec<Machine> = Vec::new();
    for n in 0..POPULATION_SIZE
        invariant
            pop@.len() == n,
    {
        pop.push(Machine::new_random(rng));
    }
    pop
}

/// The position of the population's elite: the first machine with the
/// highest fitness.
pub fn best_index(pop: &Vec<Machine>) -> (i: usize)
    requires
        pop@.len() > 0,
    ensures
        is_best_at(pop@, i as int),
{
    let mut best_i: usize = 0;
    let mut best_score = test_half_add(&pop[0]);
    for n in 1..pop.len()
        invariant
            best_i < n <= pop@.len(),
            best_score as int == score_spec(pop@[best_i as int].genome@),
            forall|k: int| 0 <= k < n ==> score_spec(pop@[k].genome@) <= best_score as int,
            forall|k: int| 0 <= k < best_i ==> score_spec(pop@[k].genome@) < best_score as int,
    {
        let score = test_half_add(&pop[n]);
        if score > best_score {
            best_i = n;
            best_score = score;
        }
    }
    best_i
}

/// Breed the next population from the elite: the position slots are cut
/// into five contiguous buckets of proportional size, one per operator —
/// copy, point, shift, rotate, duplicate — and the result is shuffled.
/// Every member derives from the elite by one operator, and at least one
/// is an exact copy of it.
pub fn next_generation(best: &Machine, rng: &mut rand::rngs::StdRng) -> (pop: Vec<Machine>)
    ensures
        pop@.len() == POPULATION_SIZE,
        forall|k: int| 0 <= k < pop@.len() ==> derived_from(best.genome@, pop@[k].genome@),
        exists|k: int| 0 <= k < pop@.len() && pop@[k].genome@ == best.genome@,
{
    let mut pop: Vec<Machine> = Vec::new();
    for i in 0..POPULATION_SIZE
        invariant
            pop@.len() == i,
            forall|k: int| 0 <= k < i ==> derived_from(best.genome@, pop@[k].genome@),
            i > 0 ==> pop@[0].genome@ == best.genome@,
    {
        let bucket = (i * 5) / POPULATION_SIZE;
        let child = if bucket == 0 {
            best.pure()
        } else if bucket == 1 {
            best.mutate_copy_error(rng)
        } else if bucket == 2 {
            best.mutate_shift(rng)
        } else if bucket == 3 {
            best.mutate_rotate(rng)
        } else {
            best.mutate_replicate(rng)
        };
        pop.push(child);
    }
    let ghost pre = pop@;
    shuffle_machines(rng, &mut pop);
    proof {
        broadcast use vstd::seq_lib::group_to_multiset_ensures;

        assert forall|k: int| 0 <= k < pop@.len() implies derived_from(
            best.genome@,
            pop@[k].genome@,
        ) by {
            let m = pop@[k];
            assert(pop@.contains(m));
            assert(pre.to_multiset().count(m) > 0);
            assert(pre.contains(m));
            let j = choose|j: int| 0 <= j < pre.len() && pre[j] == m;
            assert(derived_from(best.genome@, pre[j].genome@));
        }
        assert(pre.contains(pre[0]));
        assert(pop@.to_multiset().count(pre[0]) > 0);
        assert(pop@.contains(pre[0]));
        let j = choose|j: int| 0 <= j < pop@.len() && pop@[j] == pre[0];
        assert(pop@[j].genome@ == best.genome@);
    }
    pop
}

/// The identity order on the first `n` positions.
pub open spec fn identity_order(n: int) -> Seq<usize> {
    Seq::new(n as nat, |i: int| i as usize)
}

/// The population's ranked order, for reports: a rearrangement of the
/// positions `0..len`, sorted by descending fitness.  The sort is stable —
/// machines with equal scores keep their population order — so the ranking
/// is deterministic.
pub fn rank_indices(pop: &Vec<Machine>) -> (perm: Vec<usize>)
    ensures
        perm@.len() == pop@.len(),
        forall|k: int| 0 <= k < perm@.len() ==> perm@[k] < pop@.len(),
        perm@.to_multiset() == identity_order(pop@.len() as int).to_multiset(),
        forall|a: int, b: int|
            0 <= a <= b < perm@.len() ==> score_spec(pop@[perm@[b] as int].genome@) <= score_spec(
                pop@[perm@[a] as int].genome@,
            ),
        forall|a: int, b: int|
            0 <= a < b < perm@.len() && score_spec(pop@[perm@[a] as int].genome@) == score_spec(
                pop@[perm@[b] as int].genome@,
            ) ==> perm@[a] < perm@[b],
{
    let mut perm: Vec<usize> = Vec::new();
    proof {
        assert(perm@ =~= identity_order(0));
    }
    for n in 0..pop.len()
        invariant
            perm@.len() == n,
            n <= pop@.len(),
            forall|k: int| 0 <= k < n ==> perm@[k] < n,
            perm@.to_multiset() == identity_order(n as int).to_multiset(),
            forall|a: int, b: int|
                0 <= a <= b < n ==> score_spec(pop@[perm@[b] as int].genome@) <= score_spec(
                    pop@[perm@[a] as int].genome@,
                ),
            forall|a: int, b: int|
                0 <= a < b < n && score_spec(pop@[perm@[a] as int].genome@) == score_spec(
                    pop@[perm@[b] as int].genome@,
                ) ==> perm@[a] < perm@[b],
    {
        let score = test_half_add(&pop[n]);
        let mut pos: usize = 0;
        while pos < perm.len()
            invariant
                pos <= perm@.len(),
                perm@.len() == n < pop@.len(),
                forall|k: int| 0 <= k < n ==> perm@[k] < n,
                score as int == score_spec(pop@[n as int].genome@),
                forall|k: int|
                    0 <= k < pos ==> score as int <= score_spec(pop@[perm@[k] as int].genome@),
            ensures
                pos <= perm@.len(),
                pos == perm@.len() || score_spec(pop@[perm@[pos as int] as int].genome@) < score as int,
                forall|k: int|
                    0 <= k < pos ==> score as int <= score_spec(pop@[perm@[k] as int].genome@),
            decreases perm@.len() - pos,
        {
            let q = test_half_add(&pop[perm[pos]]);
            if q < score {
                break ;
            }
            pos = pos + 1;
        }
        let ghost old_perm = perm@;
        perm.insert(pos, n);
        proof {
            old_perm.insert_ensures(pos as int, n);
            vstd::seq_lib::to_multiset_insert(old_perm, pos as int, n);
            vstd::seq_lib::to_multiset_build(identity_order(n as int), n);
            assert(identity_order(n as int + 1) =~= identity_order(n as int).push(n as usize));
            assert forall|a: int, b: int| 0 <= a <= b < n + 1 implies score_spec(
                pop@[perm@[b] as int].genome@,
            ) <= score_spec(pop@[perm@[a] as int].genome@) by {
                if pos < old_perm.len() {
                    assert(score_spec(pop@[old_perm[pos as int] as int].genome@) < score as int);
                }
            }
        }
    }
    perm
}

/// What one generation step ends in: either a machine that reproduces the
/// half-adder exactly, or the population to evaluate next.
pub enum GenerationOutcome {
    Solved(Machine),
    Evolved(Vec<Machine>),
}

/// Whether `next` was bred from the elite at position `i` of `pop`: every
/// member derives from it by one breeding operator, and at least one is an
/// exact copy of it.
pub open spec fn bred_from(pop: Seq<Machine>, i: int, next: Seq<Machine>) -> bool {
    &&& is_best_at(pop, i)
    &&& forall|k: int| 0 <= k < next.len() ==> derived_from(pop[i].genome@, next[k].genome@)
    &&& exists|k: int| 0 <= k < next.len() && next[k].genome@ == pop[i].genome@
}

/// One generation of the search: evaluate every machine, pick the elite,
/// and stop with a copy of it when it is perfect; otherwise breed the next
/// population from it.  The step is `Solved` exactly when the population
/// holds a perfect machine.
pub fn step_generation(pop: &Vec<Machine>, rng: &mut rand::rngs::StdRng) -> (r: GenerationOutcome)
    requires
        pop@.len() == POPULATION_SIZE,
    ensures
        match r {
            GenerationOutcome::Solved(m) => {
                &&& score_spec(m.genome@) == PERFECT_SCORE
                &&& exists|i: int| #[trigger] is_best_at(pop@, i) && m.genome@ == pop@[i].genome@
            },
            GenerationOutcome::Evolved(next) => {
                &&& forall|k: int|
                    0 <= k < pop@.len() ==> score_spec(pop@[k].genome@) < PERFECT_SCORE
                &&& next@.len() == POPULATION_SIZE
                &&& exists|i: int| #[trigger] bred_from(pop@, i, next@)
            },
        },
{
    let b = best_index(pop);
    let best = &pop[b];
    let score = test_half_add(best);
    proof {
        assert(is_best_at(pop@, b as int));
    }
    if score == PERFECT_SCORE {
        GenerationOutcome::Solved(best.pure())
    } else {
        let next = next_generation(best, rng);
        proof {
            assert(bred_from(pop@, b as int, next@));
        }
        GenerationOutcome::Evolved(next)
    }
}

} // verus!
