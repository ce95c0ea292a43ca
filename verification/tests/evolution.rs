use adder_evolution::evolve::{
    best_index, next_generation, random_population, rank_indices, step_generation,
    GenerationOutcome, POPULATION_SIZE,
};
use adder_evolution::fitness::test_half_add;
use adder_evolution::machine::Machine;
use rand::SeedableRng;

fn rng(seed: u64) -> rand::rngs::StdRng {
    rand::rngs::StdRng::seed_from_u64(seed)
}

const REFERENCE_GENOME: [u8; 16] = [
    0b0010, 0b0100, 0b0001, 0b0111, 0b0010, 0b0110, 0b0001, 0b0100, 0b0110, 0b0001, 0b0001,
    0b0110, 0b0110, 0b0001, 0, 0,
];

// Scores nine sixteenths: the stack stays empty, both outputs are false.
const ZERO_GENOME: [u8; 16] = [0; 16];

// Scores six sixteenths: the carry is the NAND of the two inputs.
const NAND_GENOME: [u8; 16] = [0b0010, 0b0100, 0b0001, 0, 0, 0, 0, 0, 0, 0, 0, 0, 0, 0, 0, 0];

#[test]
fn random_population_has_thirty_two_machines() {
    assert_eq!(random_population(&mut rng(1)).len(), POPULATION_SIZE);
}

#[test]
fn seeded_search_is_reproducible() {
    let p1 = random_population(&mut rng(42));
    let p2 = random_population(&mut rng(42));
    for k in 0..POPULATION_SIZE {
        assert_eq!(p1[k].genome, p2[k].genome);
    }
    let best = Machine::from(REFERENCE_GENOME);
    let n1 = next_generation(&best, &mut rng(7));
    let n2 = next_generation(&best, &mut rng(7));
    for k in 0..POPULATION_SIZE {
        assert_eq!(n1[k].genome, n2[k].genome);
    }
}

#[test]
fn best_index_picks_the_highest_score() {
    let pop = vec![
        Machine::from(NAND_GENOME),
        Machine::from(ZERO_GENOME),
        Machine::from(REFERENCE_GENOME),
        Machine::from(ZERO_GENOME),
    ];
    assert_eq!(best_index(&pop), 2);
}

#[test]
fn best_index_breaks_ties_towards_the_front() {
    let pop = vec![
        Machine::from(NAND_GENOME),
        Machine::from(ZERO_GENOME),
        Machine::from(ZERO_GENOME),
    ];
    assert_eq!(best_index(&pop), 1);
}

#[test]
fn rank_indices_sorts_descending_and_stably() {
    let pop = vec![
        Machine::from(ZERO_GENOME),
        Machine::from(NAND_GENOME),
        Machine::from(REFERENCE_GENOME),
        Machine::from(ZERO_GENOME),
    ];
    assert_eq!(rank_indices(&pop), vec![2, 0, 3, 1]);
}

#[test]
fn next_generation_keeps_the_elite() {
    let best = Machine::from(REFERENCE_GENOME);
    let next = next_generation(&best, &mut rng(5));
    assert_eq!(next.len(), POPULATION_SIZE);
    // The first of the five buckets holds seven exact copies; mutations may
    // add more by chance, never fewer.
    let copies = next
        .iter()
        .filter(|m| m.genome == REFERENCE_GENOME)
        .count();
    assert!(copies >= 7);
}

#[test]
fn seeded_population_terminates_in_one_step() {
    let mut pop: Vec<Machine> = Vec::new();
    for n in 0..POPULATION_SIZE {
        if n == 17 {
            pop.push(Machine::from(REFERENCE_GENOME));
        } else {
            pop.push(Machine::from(ZERO_GENOME));
        }
    }
    match step_generation(&pop, &mut rng(3)) {
        GenerationOutcome::Solved(m) => {
            assert_eq!(m.genome, REFERENCE_GENOME);
            assert_eq!(test_half_add(&m), 16);
        }
        GenerationOutcome::Evolved(_) => panic!("a perfect machine was not recognised"),
    }
}

#[test]
fn imperfect_population_evolves() {
    let mut pop: Vec<Machine> = Vec::new();
    for n in 0..POPULATION_SIZE {
        if n % 2 == 0 {
            pop.push(Machine::from(ZERO_GENOME));
        } else {
            pop.push(Machine::from(NAND_GENOME));
        }
    }
    match step_generation(&pop, &mut rng(4)) {
        GenerationOutcome::Solved(_) => panic!("no machine here is perfect"),
        GenerationOutcome::Evolved(next) => {
            assert_eq!(next.len(), POPULATION_SIZE);
            // The elite is the first zero machine; every child derives from
            // it, and at least the copy bucket keeps its genome.
            let copies = next.iter().filter(|m| m.genome == ZERO_GENOME).count();
            assert!(copies >= 7);
        }
    }
}
