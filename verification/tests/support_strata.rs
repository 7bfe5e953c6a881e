use can_sandwich::algebraic::support_strata::{
    branch_mask, complement, edge_branches, face_order, routed_support, spans_edge, EntryFlags,
};
use can_sandwich::algebraic::Rung;
use can_sandwich::atlas::planes;

#[test]
fn complement_lists_the_two_fixed_labels() {
    assert_eq!(complement(0, 1), (2, 3));
    assert_eq!(complement(1, 3), (0, 2));
    assert_eq!(complement(2, 0), (1, 3));
    assert_eq!(complement(3, 3), (0, 1));
    assert_eq!(complement(7, 9), (0, 1));
}

#[test]
fn plane_five_minus_t_is_the_complement_of_plane_t() {
    let all = planes();
    for t in 0..6 {
        assert_eq!(complement(all[t].0, all[t].1), all[5 - t]);
    }
}

#[test]
fn face_orders_are_permutations() {
    assert_eq!(face_order(0, 0, false, false), [0, 1, 2, 3]);
    assert_eq!(face_order(0, 0, true, false), [1, 0, 2, 3]);
    assert_eq!(face_order(1, 2, false, true), [0, 2, 3, 1]);
    for p6 in 0..6 {
        for q6 in 0..6 {
            for s1 in [false, true] {
                for s2 in [false, true] {
                    let mut order = face_order(p6, q6, s1, s2);
                    order.sort();
                    assert_eq!(order, [0, 1, 2, 3]);
                }
            }
        }
    }
}

fn flags(entries: &[(usize, usize)]) -> EntryFlags {
    let mut f = [[false; 4]; 4];
    for &(k, m) in entries {
        f[k][m] = true;
    }
    f
}

#[test]
fn an_edge_needs_two_rows_and_two_columns() {
    assert!(spans_edge(&flags(&[(0, 1), (2, 3)])));
    assert!(!spans_edge(&flags(&[(0, 1), (0, 3)])));
    assert!(!spans_edge(&flags(&[(0, 1), (2, 1)])));
    assert!(!spans_edge(&flags(&[])));
}

#[test]
fn routed_support_masks_branches_per_entry() {
    let near = vec![flags(&[(0, 1), (0, 3)]), flags(&[(0, 1), (2, 2), (3, 0)])];
    let coincident = vec![flags(&[(0, 1)]), flags(&[])];
    assert_eq!(branch_mask(&near, 0, 1), 0b11);
    assert_eq!(branch_mask(&near, 2, 2), 0b10);
    assert_eq!(branch_mask(&near, 1, 1), 0);
    let support = routed_support(&near, &coincident);
    let viable = support.edge.unwrap();
    assert_eq!(viable[0][1], 0b11);
    assert_eq!(viable[0][3], 0b01);
    assert_eq!(viable[3][0], 0b10);
    assert_eq!(support.exact[0][1], 0b01);
    assert_eq!(support.exact[2][2], 0);
    let closed = routed_support(&vec![flags(&[(0, 1), (0, 3)])], &vec![flags(&[])]);
    assert!(closed.edge.is_none());
    assert!(routed_support(&vec![], &vec![]).edge.is_none());
}

#[test]
fn edge_branches_need_both_fixed_entries() {
    let mut viable = [[0u8; 4]; 4];
    viable[2][2] = 0b0110;
    viable[3][3] = 0b0011;
    assert_eq!(edge_branches(&viable, &[0, 1, 2, 3], 0, 1), 0b0010);
    assert_eq!(edge_branches(&viable, &[0, 1, 3, 2], 0, 1), 0);
    assert_eq!(edge_branches(&viable, &[0, 1, 2, 3], 2, 3), 0);
}

#[test]
fn algebraic_rungs_are_ordered_by_declaration() {
    assert!(Rung::Vertex < Rung::Edge);
    assert!(Rung::Chart < Rung::Numerical);
    assert!(Rung::Numerical < Rung::Unsolved);
}
