//! The candidate machines and the interpreter that gives them meaning.
//!
//! A `Machine` is a fixed 16-byte instruction tape (its genome) plus a
//! short pronounceable label used only for reports.  The label is not part
//! of the machine's identity: every contract here speaks of the genome
//! bytes alone.
//!
//! The interpreter is a straight-line stack machine: three boolean
//! registers (`in0`, `in1`, `scratch`) and a boolean stack.  Only the low
//! three bits of each byte matter; all eight opcodes are defined and every
//! pop is underflow-safe, so execution is total.

use vstd::prelude::*;

use crate::randomness::{ambient_index, rand_byte, rand_index};
use crate::stack::{pop_default, BoolStack};

verus! {

broadcast use vstd::array::group_array_axioms;

/// The ephemeral execution state of the little machine: the three boolean
/// registers and the boolean stack.
#[verifier::ext_equal]
pub ghost struct MachState {
    pub in0: bool,
    pub in1: bool,
    pub scratch: bool,
    pub stack: Seq<bool>,
}

/// The state a run starts from: registers loaded from the two arguments,
/// scratch cleared, stack empty.
pub open spec fn init_state(arg0: bool, arg1: bool) -> MachState {
    MachState { in0: arg0, in1: arg1, scratch: false, stack: Seq::empty() }
}

/// What one instruction byte does to the machine state.  The opcode is the
/// byte's low three bits:
/// 0 no-op; 1 pop `a` then `b`, push NAND; 2 push `in0`; 3 pop into `in0`;
/// 4 push `in1`; 5 pop into `in1`; 6 push `scratch`; 7 pop into `scratch`.
pub open spec fn step_spec(st: MachState, byte: u8) -> MachState {
    let op = byte & 0b0111;
    if op == 0 {
        st
    } else if op == 1 {
        let (s1, a) = pop_default(st.stack);
        let (s2, b) = pop_default(s1);
        MachState { stack: s2.push(!(a && b)), ..st }
    } else if op == 2 {
        MachState { stack: st.stack.push(st.in0), ..st }
    } else if op == 3 {
        let (s1, v) = pop_default(st.stack);
        MachState { in0: v, stack: s1, ..st }
    } else if op == 4 {
        MachState { stack: st.stack.push(st.in1), ..st }
    } else if op == 5 {
        let (s1, v) = pop_default(st.stack);
        MachState { in1: v, stack: s1, ..st }
    } else if op == 6 {
        MachState { stack: st.stack.push(st.scratch), ..st }
    } else {
        let (s1, v) = pop_default(st.stack);
        MachState { scratch: v, stack: s1, ..st }
    }
}

/// The state after executing the tape from position `i` to its end.
pub open spec fn run_from(genome: Seq<u8>, i: int, st: MachState) -> MachState
    decreases genome.len() - i,
{
    if i < 0 || i >= genome.len() {
        st
    } else {
        run_from(genome, i + 1, step_spec(st, genome[i]))
    }
}

/// The `(sum, carry)` pair a genome computes on the given inputs: run the
/// whole tape, then pop once for `carry` and once more for `sum` (in that
/// order), underflow-safe.
pub open spec fn run_spec(genome: Seq<u8>, arg0: bool, arg1: bool) -> (bool, bool) {
    let fin = run_from(genome, 0, init_state(arg0, arg1));
    let (s1, c) = pop_default(fin.stack);
    let (s2, s) = pop_default(s1);
    (s, c)
}

/// A point mutation: the byte at `i` XORed with `mask`, all others kept.
pub open spec fn point_mutated(g: Seq<u8>, i: int, mask: u8) -> Seq<u8> {
    g.update(i, g[i] ^ mask)
}

/// A shift mutation: the byte at `i` logically shifted right by one bit,
/// all others kept.
pub open spec fn shift_mutated(g: Seq<u8>, i: int) -> Seq<u8> {
    g.update(i, g[i] >> 1u8)
}

/// The sequence rotated one position to the right (circular).
pub open spec fn rotated_right(g: Seq<u8>) -> Seq<u8>
    recommends
        g.len() > 0,
{
    g.subrange(g.len() - 1, g.len() as int) + g.subrange(0, g.len() - 1)
}

/// The sequence rotated one position to the left (circular).
pub open spec fn rotated_left(g: Seq<u8>) -> Seq<u8>
    recommends
        g.len() > 0,
{
    g.subrange(1, g.len() as int) + g.subrange(0, 1)
}

/// A duplicate mutation: the byte at `j` replaced by the byte at `i`
/// (a no-op when `i == j`), all others kept.
pub open spec fn replicated(g: Seq<u8>, i: int, j: int) -> Seq<u8> {
    g.update(j, g[i])
}

/// One candidate machine: a 16-byte genome and a cosmetic display label.
#[derive(Debug)]
pub struct Machine {
    pub name: String,
    pub genome: [u8; 16],
}

impl Machine {
    /// Build a machine over the given genome, with a fresh random label.
    pub fn from(genome: [u8; 16]) -> (m: Self)
        ensures
            m.genome@ == genome@,
            m.name@.len() == 3,
    {
        Machine { genome, name: random_name() }
    }

    /// Build a machine whose 16 genome bytes are drawn independently and
    /// uniformly over the full 8-bit range.
    pub fn new_random(rng: &mut rand::rngs::StdRng) -> (m: Self)
        ensures
            m.name@.len() == 3,
    {
        let mut genome: [u8; 16] = [0; 16];
        for i in 0..16usize {
            genome[i] = rand_byte(rng);
        }
        Machine::from(genome)
    }

    /// Interpret the genome on the two inputs and return `(sum, carry)`.
    /// Total and deterministic: the result is a function of the genome
    /// bytes and the inputs alone.
    pub fn run(&self, arg0: bool, arg1: bool) -> (r: (bool, bool))
        ensures
            r == run_spec(self.genome@, arg0, arg1),
    {
        let mut reg0 = arg0;
        let mut reg1 = arg1;
        let mut reg2 = false;
        let mut stack = BoolStack::new();
        for i in 0..16usize
            invariant
                run_from(
                    self.genome@,
                    i as int,
                    MachState { in0: reg0, in1: reg1, scratch: reg2, stack: stack@ },
                ) == run_from(self.genome@, 0, init_state(arg0, arg1)),
        {
            let ghost st = MachState { in0: reg0, in1: reg1, scratch: reg2, stack: stack@ };
            let byte = self.genome[i];
            let op = byte & 0b0111;
            if op == 0 {
            } else if op == 1 {
                let a = stack.pop();
                let b = stack.pop();
                stack.push(!(a && b));
            } else if op == 2 {
                stack.push(reg0);
            } else if op == 3 {
                reg0 = stack.pop();
            } else if op == 4 {
                stack.push(reg1);
            } else if op == 5 {
                reg1 = stack.pop();
            } else if op == 6 {
                stack.push(reg2);
            } else {
                reg2 = stack.pop();
            }
            proof {
                assert(MachState { in0: reg0, in1: reg1, scratch: reg2, stack: stack@ }
                    == step_spec(st, self.genome@[i as int]));
            }
        }
        let c = stack.pop();
        let s = stack.pop();
        (s, c)
    }

    /// An elitism copy: same genome, same label, a fresh value.
    pub fn pure(&self) -> (m: Self)
        ensures
            m.genome@ == self.genome@,
            m.name@ == self.name@,
    {
        Machine { name: self.name.clone(), genome: self.genome }
    }

    /// The point mutation at a chosen position with a chosen mask.
    pub fn point_mutation(&self, i: usize, mask: u8) -> (m: Self)
        requires
            i < 16,
        ensures
            m.genome@ == point_mutated(self.genome@, i as int, mask),
            m.name@.len() == 3,
    {
        let mut genome = self.genome;
        let b = genome[i];
        genome[i] = b ^ mask;
        Machine::from(genome)
    }

    /// The shift mutation at a chosen position.
    pub fn shift_mutation(&self, i: usize) -> (m: Self)
        requires
            i < 16,
        ensures
            m.genome@ == shift_mutated(self.genome@, i as int),
            m.name@.len() == 3,
    {
        let mut genome = self.genome;
        let b = genome[i];
        genome[i] = b >> 1u8;
        Machine::from(genome)
    }

    /// The rotate mutation in a chosen direction.
    pub fn rotate_mutation(&self, right: bool) -> (m: Self)
        ensures
            m.genome@ == if right {
                rotated_right(self.genome@)
            } else {
                rotated_left(self.genome@)
            },
            m.name@.len() == 3,
    {
        let mut genome: [u8; 16] = [0; 16];
        if right {
            for j in 0..16usize
                invariant
                    forall|k: int| 0 <= k < j ==> genome@[k] == rotated_right(self.genome@)[k],
            {
                genome[j] = self.genome[if j == 0 { 15 } else { j - 1 }];
            }
            proof {
                assert(genome@ =~= rotated_right(self.genome@));
            }
        } else {
            for j in 0..16usize
                invariant
                    forall|k: int| 0 <= k < j ==> genome@[k] == rotated_left(self.genome@)[k],
            {
                genome[j] = self.genome[if j == 15 { 0 } else { j + 1 }];
            }
            proof {
                assert(genome@ =~= rotated_left(self.genome@));
            }
        }
        Machine::from(genome)
    }

    /// The duplicate mutation for a chosen source and target position.
    pub fn replicate_mutation(&self, i: usize, j: usize) -> (m: Self)
        requires
            i < 16,
            j < 16,
        ensures
            m.genome@ == replicated(self.genome@, i as int, j as int),
            m.name@.len() == 3,
    {
        let mut genome = self.genome;
        let b = genome[i];
        genome[j] = b;
        Machine::from(genome)
    }

    /// Point-mutate at a uniformly random position with a uniformly random
    /// mask.  Whatever was drawn, the child differs from the parent by one
    /// point mutation.
    pub fn mutate_copy_error(&self, rng: &mut rand::rngs::StdRng) -> (m: Self)
        ensures
            exists|i: int, mask: u8|
                0 <= i < 16 && m.genome@ == point_mutated(self.genome@, i, mask),
    {
        let i = rand_index(rng, 16);
        let mask = rand_byte(rng);
        self.point_mutation(i, mask)
    }

    /// Shift-mutate at a uniformly random position.
    pub fn mutate_shift(&self, rng: &mut rand::rngs::StdRng) -> (m: Self)
        ensures
            exists|i: int| 0 <= i < 16 && m.genome@ == shift_mutated(self.genome@, i),
    {
        let i = rand_index(rng, 16);
        self.shift_mutation(i)
    }

    /// Rotate the genome one position, to the right or to the left with
    /// equal probability.
    pub fn mutate_rotate(&self, rng: &mut rand::rngs::StdRng) -> (m: Self)
        ensures
            m.genome@ == rotated_right(self.genome@) || m.genome@ == rotated_left(self.genome@),
    {
        let right = rand_index(rng, 2) == 0;
        self.rotate_mutation(right)
    }

    /// Duplicate a uniformly random byte over another uniformly random
    /// position.
    pub fn mutate_replicate(&self, rng: &mut rand::rngs::StdRng) -> (m: Self)
        ensures
            exists|i: int, j: int|
                0 <= i < 16 && 0 <= j < 16 && m.genome@ == replicated(self.genome@, i, j),
    {
        let i = rand_index(rng, 16);
        let j = rand_index(rng, 16);
        self.replicate_mutation(i, j)
    }
}

/// Every mutation operator keeps the genome length at 16, and a point or
/// duplicate mutation touches at most the chosen target byte.
pub proof fn lemma_mutations_local(g: Seq<u8>, i: int, j: int, mask: u8)
    requires
        g.len() == 16,
        0 <= i < 16,
        0 <= j < 16,
    ensures
        point_mutated(g, i, mask).len() == 16,
        shift_mutated(g, i).len() == 16,
        rotated_right(g).len() == 16,
        rotated_left(g).len() == 16,
        replicated(g, i, j).len() == 16,
        forall|k: int| 0 <= k < 16 && k != i ==> point_mutated(g, i, mask)[k] == g[k],
        forall|k: int| 0 <= k < 16 && k != i ==> shift_mutated(g, i)[k] == g[k],
        forall|k: int| 0 <= k < 16 && k != j ==> replicated(g, i, j)[k] == g[k],
{
}

/// Rotation is a bijection on genomes: the two directions are mutual
/// inverses, and neither loses nor duplicates a byte.
pub proof fn lemma_rotate_bijective(g: Seq<u8>)
    requires
        g.len() > 0,
    ensures
        rotated_left(rotated_right(g)) == g,
        rotated_right(rotated_left(g)) == g,
        rotated_right(g).to_multiset() == g.to_multiset(),
        rotated_left(g).to_multiset() == g.to_multiset(),
{
    broadcast use vstd::multiset::group_multiset_axioms;

    assert(rotated_left(rotated_right(g)) =~= g);
    assert(rotated_right(rotated_left(g)) =~= g);
    let head = g.subrange(0, g.len() - 1);
    let last = g.subrange(g.len() - 1, g.len() as int);
    assert(g =~= head + last);
    vstd::seq_lib::lemma_multiset_commutative(head, last);
    vstd::seq_lib::lemma_multiset_commutative(last, head);
    assert(head.to_multiset().add(last.to_multiset())
        =~= last.to_multiset().add(head.to_multiset()));
    let first = g.subrange(0, 1);
    let tail = g.subrange(1, g.len() as int);
    assert(g =~= first + tail);
    vstd::seq_lib::lemma_multiset_commutative(first, tail);
    vstd::seq_lib::lemma_multiset_commutative(tail, first);
    assert(first.to_multiset().add(tail.to_multiset())
        =~= tail.to_multiset().add(first.to_multiset()));
}

/// Relies on std's `format!`: the result is exactly the three characters
/// in order.
#[verifier::external_body]
fn join_chars(a: char, b: char, c: char) -> (r: String)
    ensures
        r@ == seq![a, b, c],
{
    format!("{}{}{}", a, b, c)
}

/// The `i`th letter of the consonant alphabet used for display labels.
fn consonant(i: usize) -> char
    requires
        i < 21,
{
    if i == 0 { 'b' }
    else if i == 1 { 'c' }
    else if i == 2 { 'd' }
    else if i == 3 { 'f' }
    else if i == 4 { 'g' }
    else if i == 5 { 'h' }
    else if i == 6 { 'j' }
    else if i == 7 { 'k' }
    else if i == 8 { 'l' }
    else if i == 9 { 'm' }
    else if i == 10 { 'n' }
    else if i == 11 { 'p' }
    else if i == 12 { 'q' }
    else if i == 13 { 'r' }
    else if i == 14 { 's' }
    else if i == 15 { 't' }
    else if i == 16 { 'v' }
    else if i == 17 { 'w' }
    else if i == 18 { 'x' }
    else if i == 19 { 'y' }
    else { 'z' }
}

/// The `i`th letter of the vowel alphabet used for display labels.
fn vowel(i: usize) -> char
    requires
        i < 5,
{
    if i == 0 { 'a' }
    else if i == 1 { 'e' }
    else if i == 2 { 'i' }
    else if i == 3 { 'o' }
    else { 'u' }
}

/// A fresh pronounceable three-letter label: consonant, vowel, consonant,
/// each drawn uniformly from the ambient generator.  Labels are cosmetic
/// and carry no meaning.
pub fn random_name() -> (r: String)
    ensures
        r@.len() == 3,
{
    let c1 = consonant(ambient_index(21));
    let v = vowel(ambient_index(5));
    let c2 = consonant(ambient_index(21));
    join_chars(c1, v, c2)
}

} // verus!
