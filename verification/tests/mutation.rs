use adder_evolution::machine::Machine;
use rand::SeedableRng;

fn rng(seed: u64) -> rand::rngs::StdRng {
    rand::rngs::StdRng::seed_from_u64(seed)
}

const PARENT: [u8; 16] = [
    0x00, 0x11, 0x22, 0x33, 0x44, 0x55, 0x66, 0x77, 0x88, 0x99, 0xaa, 0xbb, 0xcc, 0xdd, 0xee,
    0xff,
];

#[test]
fn point_mutation_changes_one_byte() {
    let m = Machine::from(PARENT);
    let c = m.point_mutation(3, 0b1010_0001);
    assert_eq!(c.genome.len(), 16);
    assert_eq!(c.genome[3], 0x33 ^ 0b1010_0001);
    for k in 0..16 {
        if k != 3 {
            assert_eq!(c.genome[k], PARENT[k]);
        }
    }
    // The parent is untouched.
    assert_eq!(m.genome, PARENT);
}

#[test]
fn shift_mutation_halves_one_byte() {
    let m = Machine::from(PARENT);
    let c = m.shift_mutation(15);
    assert_eq!(c.genome[15], 0xff >> 1);
    for k in 0..15 {
        assert_eq!(c.genome[k], PARENT[k]);
    }
    assert_eq!(m.genome, PARENT);
}

#[test]
fn rotate_mutation_moves_every_byte() {
    let m = Machine::from(PARENT);
    let right = m.rotate_mutation(true);
    let left = m.rotate_mutation(false);
    for k in 0..16 {
        assert_eq!(right.genome[(k + 1) % 16], PARENT[k]);
        assert_eq!(left.genome[k], PARENT[(k + 1) % 16]);
    }
    assert_eq!(m.genome, PARENT);
}

#[test]
fn rotate_directions_are_inverse() {
    let m = Machine::from(PARENT);
    let back = m.rotate_mutation(true).rotate_mutation(false);
    assert_eq!(back.genome, PARENT);
    let forth = m.rotate_mutation(false).rotate_mutation(true);
    assert_eq!(forth.genome, PARENT);
}

#[test]
fn rotate_keeps_all_bytes() {
    let m = Machine::from(PARENT);
    let mut rotated = m.rotate_mutation(true).genome.to_vec();
    let mut parent = PARENT.to_vec();
    rotated.sort();
    parent.sort();
    assert_eq!(rotated, parent);
}

#[test]
fn replicate_mutation_copies_one_byte() {
    let m = Machine::from(PARENT);
    let c = m.replicate_mutation(2, 9);
    assert_eq!(c.genome[9], PARENT[2]);
    for k in 0..16 {
        if k != 9 {
            assert_eq!(c.genome[k], PARENT[k]);
        }
    }
    let same = m.replicate_mutation(5, 5);
    assert_eq!(same.genome, PARENT);
}

#[test]
fn random_point_mutation_touches_at_most_one_byte() {
    let m = Machine::from(PARENT);
    let r = &mut rng(11);
    for _ in 0..50 {
        let c = m.mutate_copy_error(r);
        assert_eq!(c.genome.len(), 16);
        let diffs = (0..16).filter(|&k| c.genome[k] != PARENT[k]).count();
        assert!(diffs <= 1);
    }
}

#[test]
fn random_shift_mutation_shifts_one_byte() {
    let m = Machine::from(PARENT);
    let r = &mut rng(12);
    for _ in 0..50 {
        let c = m.mutate_shift(r);
        let diffs: Vec<usize> = (0..16).filter(|&k| c.genome[k] != PARENT[k]).collect();
        assert!(diffs.len() <= 1);
        if let Some(&k) = diffs.first() {
            assert_eq!(c.genome[k], PARENT[k] >> 1);
        }
    }
}

#[test]
fn random_rotate_mutation_is_a_rotation() {
    let m = Machine::from(PARENT);
    let right = m.rotate_mutation(true).genome;
    let left = m.rotate_mutation(false).genome;
    let r = &mut rng(13);
    for _ in 0..50 {
        let c = m.mutate_rotate(r);
        assert!(c.genome == right || c.genome == left);
    }
}

#[test]
fn random_replicate_mutation_copies_within_the_genome() {
    let m = Machine::from(PARENT);
    let r = &mut rng(14);
    for _ in 0..50 {
        let c = m.mutate_replicate(r);
        let diffs: Vec<usize> = (0..16).filter(|&k| c.genome[k] != PARENT[k]).collect();
        assert!(diffs.len() <= 1);
        if let Some(&j) = diffs.first() {
            assert!(PARENT.contains(&c.genome[j]));
        }
    }
}
