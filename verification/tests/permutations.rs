use can_sandwich::permutations::{heap, perm_code, perms24, position_of_order, same_order, signed_perm};

#[test]
fn heap_lists_the_24_orders_once_each() {
    let perms = perms24();
    assert_eq!(perms.len(), 24);
    assert_eq!(perms[0], [0, 1, 2, 3]);
    assert_eq!(perms[1], [1, 0, 2, 3]);
    assert_eq!(perms[9], [3, 2, 1, 0]);
    assert_eq!(perms[23], [1, 0, 3, 2]);
    for i in 0..24 {
        let mut sorted = perms[i];
        sorted.sort();
        assert_eq!(sorted, [0, 1, 2, 3]);
        for j in 0..i {
            assert_ne!(perms[i], perms[j]);
        }
    }
}

#[test]
fn heap_of_two_swaps_the_last_pair() {
    let mut a = [0usize, 1, 2, 3];
    let mut out = Vec::new();
    heap(&mut a, 2, &mut out);
    assert_eq!(out, vec![[0, 1, 2, 3], [1, 0, 2, 3]]);
    let mut b = [0usize, 1, 2, 3];
    let mut single = Vec::new();
    heap(&mut b, 1, &mut single);
    assert_eq!(single, vec![[0, 1, 2, 3]]);
}

fn det(m: [[i8; 4]; 4]) -> i64 {
    let perms = perms24();
    let mut total = 0i64;
    for p in perms {
        let mut inversions = 0;
        for i in 0..4 {
            for j in i + 1..4 {
                if p[i] > p[j] {
                    inversions += 1;
                }
            }
        }
        let sign = if inversions % 2 == 0 { 1 } else { -1 };
        total += sign * (0..4).map(|i| m[i][p[i]] as i64).product::<i64>();
    }
    total
}

#[test]
fn signed_perm_frames_are_special_orthogonal() {
    assert_eq!(signed_perm([0, 1, 2, 3]), [[1, 0, 0, 0], [0, 1, 0, 0], [0, 0, 1, 0], [0, 0, 0, 1]]);
    assert_eq!(signed_perm([1, 0, 2, 3]), [[0, -1, 0, 0], [1, 0, 0, 0], [0, 0, 1, 0], [0, 0, 0, 1]]);
    for p in perms24() {
        let m = signed_perm(p);
        assert_eq!(det(m), 1);
        for i in 0..4 {
            for k in 0..4 {
                let dot: i64 = (0..4).map(|j| m[i][j] as i64 * m[k][j] as i64).sum();
                assert_eq!(dot, if i == k { 1 } else { 0 });
            }
        }
    }
}

#[test]
fn perm_codes_are_base_four_and_distinct() {
    assert_eq!(perm_code([0, 1, 2, 3]), 0 + 4 + 32 + 192);
    assert_eq!(perm_code([3, 2, 1, 0]), 3 + 8 + 16);
    let codes: Vec<u8> = perms24().into_iter().map(perm_code).collect();
    for i in 0..24 {
        for j in 0..i {
            assert_ne!(codes[i], codes[j]);
        }
    }
}

#[test]
fn orders_are_found_by_position() {
    let perms = perms24();
    assert!(same_order(&[2, 0, 1, 3], &[2, 0, 1, 3]));
    assert!(!same_order(&[2, 0, 1, 3], &[2, 1, 0, 3]));
    assert_eq!(position_of_order(&perms, &[0, 1, 2, 3]), Some(0));
    assert_eq!(position_of_order(&perms, &[3, 2, 1, 0]), Some(9));
    assert_eq!(position_of_order(&perms, &[0, 0, 1, 2]), None);
}
