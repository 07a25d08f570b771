use flowfield::permutation::{check_permutation, identity_permutation, PERM_SIZE};
use flowfield::random::random_permutation;

fn reversed() -> Vec<usize> {
    (0..256usize).map(|i| 255 - i).collect()
}

fn occurrences(values: &[usize]) -> Vec<usize> {
    let mut counts: Vec<usize> = vec![0; 256];
    for &v in values {
        assert!(v < 256, "entry {} is not below 256", v);
        counts[v] += 1;
    }
    counts
}

#[test]
fn perm_size_is_256() {
    assert_eq!(PERM_SIZE, 256);
}

#[test]
fn identity_permutation_counts_up() {
    let v: Vec<usize> = identity_permutation();
    assert_eq!(v.len(), 256);
    for i in 0..256usize {
        assert_eq!(v[i], i);
    }
}

#[test]
fn check_permutation_accepts_identity() {
    assert!(check_permutation(&identity_permutation()));
}

#[test]
fn check_permutation_accepts_reversed() {
    assert!(check_permutation(&reversed()));
}

#[test]
fn check_permutation_accepts_one_swap() {
    let mut v: Vec<usize> = identity_permutation();
    v.swap(0, 255);
    assert!(check_permutation(&v));
}

#[test]
fn check_permutation_rejects_empty() {
    let v: Vec<usize> = Vec::new();
    assert!(!check_permutation(&v));
}

#[test]
fn check_permutation_rejects_short() {
    let mut v: Vec<usize> = identity_permutation();
    v.pop();
    assert_eq!(v.len(), 255);
    assert!(!check_permutation(&v));
}

#[test]
fn check_permutation_rejects_long() {
    let mut v: Vec<usize> = identity_permutation();
    v.push(0);
    assert!(!check_permutation(&v));
    let mut w: Vec<usize> = identity_permutation();
    w.push(256);
    assert!(!check_permutation(&w));
}

#[test]
fn check_permutation_rejects_value_out_of_range() {
    let mut v: Vec<usize> = identity_permutation();
    v[17] = 256;
    assert!(!check_permutation(&v));
    v[17] = usize::MAX;
    assert!(!check_permutation(&v));
}

#[test]
fn check_permutation_rejects_duplicate() {
    let mut v: Vec<usize> = identity_permutation();
    v[0] = 1;
    assert!(!check_permutation(&v));
    let mut w: Vec<usize> = identity_permutation();
    w[255] = 254;
    assert!(!check_permutation(&w));
}

#[test]
fn check_permutation_rejects_constant() {
    let v: Vec<usize> = vec![0; 256];
    assert!(!check_permutation(&v));
}

#[test]
fn random_permutation_holds_every_value_once() {
    for _ in 0..20 {
        let v: Vec<usize> = random_permutation();
        assert_eq!(v.len(), 256);
        let counts = occurrences(&v);
        for value in 0..256usize {
            assert_eq!(counts[value], 1, "value {} occurs {} times", value, counts[value]);
        }
        assert!(check_permutation(&v));
    }
}

#[test]
fn random_permutation_is_shuffled() {
    let v: Vec<usize> = random_permutation();
    assert_ne!(v, identity_permutation());
}

#[test]
fn random_permutations_differ() {
    let a: Vec<usize> = random_permutation();
    let b: Vec<usize> = random_permutation();
    assert_ne!(a, b);
}
