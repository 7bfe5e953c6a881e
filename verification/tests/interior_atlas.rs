use can_sandwich::atlas::{
    corner, corner_codes, corner_index, init_tables, interior_planes, interior_quotient, planes, same_word,
    signature, table_less,
};
use can_sandwich::can_sandwich::{
    boundary_head, count_interior_try, count_refine_step, new_refine_counter, refine_iters, interior_class_map, interior_class_root, interior_hot_classes, interior_instr,
    interior_scan, interior_valid_classes, marked, new_interior_instr, order_indices, record_interior_hit, reset_interior_instr,
    CAND_K, INTERIOR_CLASSES,
};

#[test]
fn planes_are_the_six_transpositions() {
    assert_eq!(planes(), [(0, 1), (0, 2), (0, 3), (1, 2), (1, 3), (2, 3)]);
}

#[test]
fn interior_atlas_has_96_ordered_spanning_tree_words() {
    let words = interior_planes();
    assert_eq!(words.len(), 96);
    assert_eq!(words[0], [(0, 1), (1, 2), (2, 3)]);
    assert_eq!(words[15], [(0, 3), (1, 3), (2, 3)]);
    assert_eq!(words[16], [(0, 1), (0, 3), (0, 2)]);
    for i in 0..words.len() {
        let w = words[i];
        assert!(w[0] != w[1] && w[0] != w[2] && w[1] != w[2]);
        let mut touched = [false; 4];
        for (a, b) in w {
            touched[a] = true;
            touched[b] = true;
        }
        assert!(touched.iter().all(|&t| t));
        for j in 0..i {
            assert!(!same_word(&words[i], &words[j]));
        }
    }
}

#[test]
fn cube_corners_and_their_positions() {
    let expected = [[0, 0, 0], [1, 0, 0], [0, 1, 0], [0, 0, 1], [1, 1, 0], [1, 0, 1], [0, 1, 1], [1, 1, 1]];
    for k in 0..8 {
        let bits = [corner(k, 0), corner(k, 1), corner(k, 2)];
        assert_eq!(bits, expected[k]);
        assert_eq!(corner_index(bits), k);
    }
}

#[test]
fn chart_signature_of_the_first_word() {
    let word = [(0, 1), (1, 2), (2, 3)];
    assert_eq!(corner_codes(&word, &[0, 1, 2, 3]), [57, 120, 177, 201, 180, 216, 225, 228]);
    assert_eq!(signature(&word, &[0, 1, 2, 3]), [57, 120, 177, 201, 180, 216, 225, 228]);
    assert!(table_less(&[1, 2, 3, 4, 5, 6, 7, 8], &[1, 2, 3, 5, 0, 0, 0, 0]));
    assert!(!table_less(&[1, 2, 3, 4, 5, 6, 7, 8], &[1, 2, 3, 4, 5, 6, 7, 8]));
}

#[test]
fn interior_quotient_has_216_classes_102_hot() {
    let quotient = interior_quotient();
    assert_eq!(quotient.class.len(), 96);
    assert_eq!(quotient.hot.len(), INTERIOR_CLASSES);
    assert_eq!(quotient.hot.iter().filter(|&&h| h).count(), 102);
    assert_eq!(quotient.class[0][..4], [0, 0, 1, 1]);
    assert_eq!(quotient.class[1][0], 12);
    assert_eq!(quotient.class[16][0], 102);
    let hot = interior_hot_classes(&quotient);
    assert_eq!(hot, (0..102).collect::<Vec<u16>>());
    let map = interior_class_map(&quotient);
    assert_eq!(map.len(), 16 * 24);
    assert_eq!(map[24], 12);
    assert_eq!(map[23], 11);
}

#[test]
fn same_class_exactly_when_same_signature() {
    let tables = init_tables();
    assert_eq!(tables.perms.len(), CAND_K);
    for w in [0usize, 7, 16, 50, 95] {
        for v in [1usize, 16, 60] {
            for p in 0..24 {
                for q in [0usize, 5, 17] {
                    let same_class = tables.quotient.class[w][p] == tables.quotient.class[v][q];
                    let same_sig = signature(&tables.words[w], &tables.perms[p]) == signature(&tables.words[v], &tables.perms[q]);
                    assert_eq!(same_class, same_sig);
                }
            }
        }
    }
}

#[test]
fn interior_instrumentation_records_the_last_winner() {
    let mut instr = new_interior_instr();
    assert_eq!(interior_instr(&instr), (0, -1, 0));
    assert_eq!(interior_class_root(&instr), (-1, -1));
    assert!(interior_valid_classes(&instr).is_empty());
    count_interior_try(&mut instr);
    count_interior_try(&mut instr);
    record_interior_hit(&mut instr, 17, 3, 9, 2);
    record_interior_hit(&mut instr, 5, 1, 4, 0);
    assert_eq!(interior_instr(&instr), (2, 1, 4));
    assert_eq!(interior_class_root(&instr), (5, 0));
    assert_eq!(interior_valid_classes(&instr), vec![5, 17]);
    reset_interior_instr(&mut instr);
    assert_eq!(interior_instr(&instr), (0, -1, 0));
    assert_eq!(interior_class_root(&instr), (-1, -1));
    assert!(interior_valid_classes(&instr).is_empty());
}

#[test]
fn marked_lists_set_flags_in_order() {
    assert_eq!(marked(&vec![false, true, true, false, true]), vec![1, 2, 4]);
    assert!(marked(&vec![]).is_empty());
}

#[test]
fn hot_scan_tries_each_of_the_102_hot_classes_once() {
    let quotient = interior_quotient();
    let all: Vec<usize> = (0..24).collect();
    let tried = interior_scan(&quotient, &all, 16, 0, None, true);
    assert_eq!(tried.len(), 102);
    assert_eq!(tried[..3], [(0, 0), (0, 1), (0, 2)]);
    let cold = interior_scan(&quotient, &all, 80, 16, None, true);
    assert_eq!(cold.len(), 114);
    assert_eq!(cold[..4], [(0, 0), (0, 3), (0, 4), (0, 5)]);
}

#[test]
fn resumed_scan_covers_the_rest_of_the_hot_classes() {
    let quotient = interior_quotient();
    let all: Vec<usize> = (0..24).collect();
    let head = interior_scan(&quotient, &all, 5, 0, None, true);
    let tail = interior_scan(&quotient, &all, 11, 5, None, true);
    assert_eq!(head.len(), 54);
    assert_eq!(tail.len(), 48);
    let mut classes: Vec<u16> = head.iter().map(|&(p, w)| quotient.class[w][p]).collect();
    classes.extend(tail.iter().map(|&(p, w)| quotient.class[5 + w][p]));
    classes.sort();
    classes.dedup();
    assert_eq!(classes.len(), 102);
}

#[test]
fn scan_without_deduplication_tries_every_chart() {
    let quotient = interior_quotient();
    let perms = vec![0usize, 1];
    assert_eq!(interior_scan(&quotient, &perms, 3, 0, None, false), vec![(0, 0), (0, 1), (0, 2), (1, 0), (1, 1), (1, 2)]);
    assert_eq!(interior_scan(&quotient, &perms, 3, 0, None, true), vec![(0, 0), (0, 1), (0, 2)]);
}

#[test]
fn boundary_cover_order_is_scanned_as_given() {
    let quotient = interior_quotient();
    let order = boundary_head();
    assert_eq!(order.len(), 16);
    assert_eq!(order[0], (14, 7));
    let tried = interior_scan(&quotient, &vec![], 16, 0, Some(&order), true);
    assert_eq!(tried, order);
}

#[test]
fn refine_counter_counts_steps() {
    let mut counter = new_refine_counter();
    assert_eq!(refine_iters(&counter), 0);
    count_refine_step(&mut counter);
    count_refine_step(&mut counter);
    assert_eq!(refine_iters(&counter), 2);
}

#[test]
fn order_indices_locate_orders_in_the_heap_table() {
    let tables = init_tables();
    let perms = vec![[3, 2, 1, 0], [0, 1, 2, 3], [1, 0, 3, 2]];
    assert_eq!(order_indices(&tables.perms, &perms), vec![9, 0, 23]);
    assert!(order_indices(&tables.perms, &vec![]).is_empty());
}

#[test]
fn commuting_planes_reparameterize_the_cube() {
    let perms = init_tables().perms;
    let a = [(0, 1), (2, 3), (0, 2)];
    let b = [(2, 3), (0, 1), (0, 2)];
    for p in perms.iter() {
        assert_eq!(signature(&a, p), signature(&b, p));
        let ca = corner_codes(&a, p);
        let cb = corner_codes(&b, p);
        assert_eq!([ca[0], ca[1], ca[2], ca[3]], [cb[0], cb[2], cb[1], cb[3]]);
    }
}
