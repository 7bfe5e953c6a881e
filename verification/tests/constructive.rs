use can_sandwich::complete::{
    constructive_profile, count_event, label_sets_of, mask_positions, new_constructive_profile, pair_index_sign, qlr_eig_mask,
    reducing_candidates, reducing_split, reset_constructive_profile,
};
use can_sandwich::masks::{count_ones, with_bit};

#[test]
fn eigenphase_order_swaps_the_coordinate_pairs() {
    assert_eq!(qlr_eig_mask(1), 2);
    assert_eq!(qlr_eig_mask(2), 1);
    assert_eq!(qlr_eig_mask(4), 8);
    assert_eq!(qlr_eig_mask(8), 4);
    assert_eq!(qlr_eig_mask(12), 12);
    assert_eq!(qlr_eig_mask(0xf5), 10);
    for m in 0..=255u8 {
        assert_eq!(qlr_eig_mask(qlr_eig_mask(m)), m & 15);
    }
}

#[test]
fn masks_count_and_extend() {
    assert_eq!(count_ones(0), 0);
    assert_eq!(count_ones(0b1011_0001), 4);
    assert_eq!(count_ones(255), 8);
    assert_eq!(with_bit(0b0001, 3), 0b1001);
    assert_eq!(with_bit(0b1001, 3), 0b1001);
}

#[test]
fn reducing_split_gates_and_complements() {
    assert_eq!(reducing_split(4, 0b0011, 0b0101, 0b1100), Some((0b1100, 0b1010, 0b0011)));
    assert_eq!(reducing_split(3, 0b001, 0b100, 0b010), Some((0b110, 0b011, 0b101)));
    assert_eq!(reducing_split(4, 0, 0, 0), None);
    assert_eq!(reducing_split(4, 0b1111, 0b1111, 0b1111), None);
    assert_eq!(reducing_split(4, 0b0011, 0b0001, 0b0011), None);
    assert_eq!(reducing_split(4, 0b0011, 0b0011, 0b0111), None);
    assert_eq!(reducing_split(2, 0b01, 0b10, 0b01), Some((0b10, 0b01, 0b10)));
}

#[test]
fn label_sets_are_listed_by_mask() {
    assert_eq!(label_sets_of(4, 2), vec![3, 5, 6, 9, 10, 12]);
    assert_eq!(label_sets_of(4, 1), vec![1, 2, 4, 8]);
    assert_eq!(label_sets_of(3, 1), vec![1, 2, 4]);
    assert_eq!(label_sets_of(4, 4), Vec::<u8>::new());
}

#[test]
fn reducing_candidates_follow_the_solver_schedule() {
    let strata4 = reducing_candidates(4, true);
    assert_eq!(strata4.len(), 216 + 64);
    assert_eq!(strata4[0], (3, 3, 3));
    assert_eq!(strata4[1], (3, 3, 5));
    assert_eq!(strata4[216], (1, 1, 1));
    assert_eq!(strata4[279], (8, 8, 8));
    let strata3 = reducing_candidates(3, true);
    assert_eq!(strata3.len(), 27);
    let regular3 = reducing_candidates(3, false);
    assert_eq!(regular3, strata3);
    assert_eq!(regular3[1], (1, 1, 2));
    let regular4 = reducing_candidates(4, false);
    assert_eq!(regular4.len(), 72);
    assert_eq!(regular4[0], (12, 12, 12));
    assert_eq!(regular4[40], (4, 4, 4));
    assert_eq!(regular4[56], (2, 2, 2));
    for n in [3usize, 4] {
        for repeated in [false, true] {
            for (r, c, v) in reducing_candidates(n, repeated) {
                assert!(reducing_split(n, r, c, v).is_some());
            }
        }
    }
}

#[test]
fn mask_positions_lists_selected_labels() {
    assert_eq!(mask_positions(0b1010, 4), vec![1, 3]);
    assert_eq!(mask_positions(0b1010, 2), vec![1]);
    assert_eq!(mask_positions(0xff, 0), Vec::<usize>::new());
    let (rows, _, _) = reducing_split(4, 0b0101, 0b0011, 0b0110).unwrap();
    assert_eq!(mask_positions(0b0101, 4), vec![0, 2]);
    assert_eq!(mask_positions(rows, 4), vec![1, 3]);
}

#[test]
fn constructive_profile_reports_ranks_one_to_four() {
    let mut profile = new_constructive_profile(true);
    assert_eq!(
        constructive_profile(&profile),
        "path [0, 0, 0, 0] correct [0, 0, 0, 0] iterations [0, 0, 0, 0] face_equal [0, 0, 0, 0] face_hit [0, 0, 0, 0]"
    );
    count_event(&mut profile, 0, 4);
    count_event(&mut profile, 0, 4);
    count_event(&mut profile, 2, 1);
    count_event(&mut profile, 4, 3);
    count_event(&mut profile, 0, 0);
    assert_eq!(
        constructive_profile(&profile),
        "path [0, 0, 0, 2] correct [0, 0, 0, 0] iterations [1, 0, 0, 0] face_equal [0, 0, 0, 0] face_hit [0, 0, 1, 0]"
    );
    reset_constructive_profile(&mut profile);
    assert_eq!(
        constructive_profile(&profile),
        "path [0, 0, 0, 0] correct [0, 0, 0, 0] iterations [0, 0, 0, 0] face_equal [0, 0, 0, 0] face_hit [0, 0, 0, 0]"
    );
    let mut off = new_constructive_profile(false);
    count_event(&mut off, 1, 2);
    assert!(constructive_profile(&off).starts_with("path [0, 0, 0, 0] correct [0, 0, 0, 0]"));
}

#[test]
fn plane_pairs_are_indexed_with_orientation() {
    let planes = can_sandwich::atlas::planes();
    for (k, (a, b)) in planes.into_iter().enumerate() {
        assert_eq!(pair_index_sign(a, b), Some((k, 1)));
        assert_eq!(pair_index_sign(b, a), Some((k, -1)));
    }
    assert_eq!(pair_index_sign(2, 2), None);
    assert_eq!(pair_index_sign(0, 5), None);
}
