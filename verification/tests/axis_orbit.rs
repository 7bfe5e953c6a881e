use can_sandwich::axis_quartic::{core_rows, face_vertices, orbit_chart, Chart, ORBIT_LEN};
use can_sandwich::permutations::perms24;

#[test]
fn finite_axis_orbit_has_24_distinct_valid_charts() {
    let charts: [Chart; ORBIT_LEN] = std::array::from_fn(orbit_chart);
    for index in 0..charts.len() {
        assert!(!charts[..index].contains(&charts[index]));
        let (axis, pair, pendant, reference) = charts[index];
        assert!(axis < 4);
        assert_ne!(pair.0, pair.1);
        assert!(![pair.0, pair.1].contains(&pendant));
        assert!(![pair.0, pair.1].contains(&reference));
        assert_ne!(pendant, reference);
    }
}

#[test]
fn orbit_chart_labels_axis_then_pair() {
    assert_eq!(orbit_chart(0), (0, (0, 1), 2, 3));
    assert_eq!(orbit_chart(5), (0, (2, 3), 0, 1));
    assert_eq!(orbit_chart(8), (1, (0, 3), 1, 2));
    assert_eq!(orbit_chart(23), (3, (2, 3), 0, 1));
}

#[test]
fn axis_chart_faces_have_twelve_vertices_and_zero_weight_faces_eight() {
    let orders = perms24();
    for index in 0..ORBIT_LEN {
        let chart = orbit_chart(index);
        let (axis, pair, _, _) = chart;
        let face = face_vertices(&orders, chart, None);
        assert_eq!(face.len(), 12);
        assert!(face.iter().all(|p| p[axis] != pair.0 && p[axis] != pair.1));
        for row in 0..4 {
            if row == axis {
                continue;
            }
            for column in [pair.0, pair.1] {
                let zero_face = face_vertices(&orders, chart, Some((row, column)));
                assert_eq!(zero_face.len(), 8);
                assert!(zero_face.iter().all(|p| p[row] != column));
            }
        }
    }
    assert_eq!(face_vertices(&orders, orbit_chart(0), None)[0], [2, 0, 1, 3]);
}

#[test]
fn core_rows_skip_the_axis_row() {
    assert_eq!(core_rows(0), [1, 2, 3]);
    assert_eq!(core_rows(2), [0, 1, 3]);
    assert_eq!(core_rows(3), [0, 1, 2]);
}
