use can_sandwich::algebraic::klein::{coset_order, coset_representatives};
use can_sandwich::permutations::perms24;

#[test]
fn klein_cosets_cover_every_order_once() {
    let reps = coset_representatives();
    let mut seen = Vec::new();
    for (rep, odd) in reps {
        assert_eq!(rep[0], 0);
        let inversions = (0..4).flat_map(|i| (i + 1..4).map(move |j| (i, j))).filter(|&(i, j)| rep[i] > rep[j]).count();
        assert_eq!(odd, inversions % 2 == 1);
        for m in 0..4 {
            let order = coset_order(&rep, m);
            assert_eq!(order[0], m);
            assert!(!seen.contains(&order));
            seen.push(order);
        }
    }
    assert_eq!(seen.len(), 24);
    for p in perms24() {
        assert!(seen.contains(&p));
    }
    assert_eq!(coset_order(&[0, 2, 3, 1], 3), [3, 1, 0, 2]);
}
