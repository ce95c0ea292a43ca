//! Fitness of a genome against the half-adder truth table.
//!
//! The score is kept in sixteenths of the full mark, so it stays exact
//! integer arithmetic: a matching `sum` output earns 3 sixteenths per case
//! and a matching `carry` output 1 sixteenth, over the four input cases.
//! (That is the 0.75 and 0.25 per case of the normalized [0, 1] score,
//! divided by the four cases.)  A score of 16 is the perfect 1.0.

use vstd::prelude::*;

use crate::machine::{run_spec, Machine};

verus! {

/// The top score, in sixteenths: the perfect normalized 1.0.
pub const PERFECT_SCORE: u8 = 16;

/// The half-adder itself: `sum` is the XOR of the inputs and `carry`
/// their AND.
pub open spec fn half_adder(in0: bool, in1: bool) -> (bool, bool) {
    (in0 != in1, in0 && in1)
}

/// What one truth-table case contributes, in sixteenths: 3 when the
/// computed `sum` matches the half-adder's, plus 1 when the computed
/// `carry` does.
pub open spec fn case_score(g: Seq<u8>, in0: bool, in1: bool) -> int {
    (if run_spec(g, in0, in1).0 == half_adder(in0, in1).0 {
        3int
    } else {
        0int
    }) + (if run_spec(g, in0, in1).1 == half_adder(in0, in1).1 {
        1int
    } else {
        0int
    })
}

/// A genome's fitness in sixteenths, summed over the four input cases.
pub open spec fn score_spec(g: Seq<u8>) -> int {
    case_score(g, false, false) + case_score(g, false, true) + case_score(g, true, false)
        + case_score(g, true, true)
}

/// Whether a genome reproduces the half-adder exactly, on every input pair
/// and both outputs.
pub open spec fn is_perfect(g: Seq<u8>) -> bool {
    forall|in0: bool, in1: bool| #[trigger]
        run_spec(g, in0, in1) == half_adder(in0, in1)
}

/// Score a machine against the half-adder truth table, in sixteenths of
/// the full mark.  Deterministic: the result is a function of the genome
/// bytes alone.
pub fn test_half_add(machine: &Machine) -> (score: u8)
    ensures
        score as int == score_spec(machine.genome@),
        score <= PERFECT_SCORE,
{
    let mut score: u8 = 0;

    let (s, c) = machine.run(false, false);
    if s == false {
        score = score + 3;
    }
    if c == false {
        score = score + 1;
    }

    let (s, c) = machine.run(false, true);
    if s == true {
        score = score + 3;
    }
    if c == false {
        score = score + 1;
    }

    let (s, c) = machine.run(true, false);
    if s == true {
        score = score + 3;
    }
    if c == false {
        score = score + 1;
    }

    let (s, c) = machine.run(true, true);
    if s == false {
        score = score + 3;
    }
    if c == true {
        score = score + 1;
    }

    score
}

/// The score always lies between 0 and 16 sixteenths, and it is 16 — the
/// normalized 1.0 — exactly when the genome reproduces the half-adder
/// truth table on every input pair and both outputs.
pub proof fn lemma_score_range_and_perfect(g: Seq<u8>)
    ensures
        0 <= score_spec(g) <= PERFECT_SCORE,
        score_spec(g) == PERFECT_SCORE <==> is_perfect(g),
{
    if score_spec(g) == PERFECT_SCORE {
        assert forall|in0: bool, in1: bool| #[trigger]
            run_spec(g, in0, in1) == half_adder(in0, in1) by {
            if in0 {
                if in1 {
                    assert(case_score(g, true, true) == 4);
                } else {
                    assert(case_score(g, true, false) == 4);
                }
            } else {
                if in1 {
                    assert(case_score(g, false, true) == 4);
                } else {
                    assert(case_score(g, false, false) == 4);
                }
            }
        }
    }
    if is_perfect(g) {
        assert(run_spec(g, false, false) == half_adder(false, false));
        assert(run_spec(g, false, true) == half_adder(false, true));
        assert(run_spec(g, true, false) == half_adder(true, false));
        assert(run_spec(g, true, true) == half_adder(true, true));
    }
}

/// Fitness is a function of the genome bytes alone: machines with equal
/// genomes score equally, whatever their display labels.
pub proof fn lemma_score_deterministic(m1: Machine, m2: Machine)
    requires
        m1.genome@ == m2.genome@,
    ensures
        score_spec(m1.genome@) == score_spec(m2.genome@),
{
}

} // verus!
