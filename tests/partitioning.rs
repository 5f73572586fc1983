use sensor_data_analyzer::partition::{patch_id_ranges, sequential_id_offsets, IdRange, PATCH_STEP_SIZE};
use sensor_data_analyzer::sphere::UnitSphericalCellIndex3;

#[test]
fn cell_index_keeps_its_coordinates() {
    let c = UnitSphericalCellIndex3::new(-3, 7);
    assert_eq!(c.azimuth(), -3);
    assert_eq!(c.elevation(), 7);
}

#[test]
fn patches_cover_ids_with_shorter_last_patch() {
    let r = patch_id_ranges(0, 249_999, PATCH_STEP_SIZE);
    assert_eq!(
        r,
        vec![
            IdRange { min: 0, max: 99_999 },
            IdRange { min: 100_000, max: 199_999 },
            IdRange { min: 200_000, max: 249_999 },
        ]
    );
}

#[test]
fn patches_cover_last_id_on_exact_multiple() {
    let r = patch_id_ranges(0, 200_000, PATCH_STEP_SIZE);
    assert_eq!(r.len(), 3);
    assert_eq!(r[2], IdRange { min: 200_000, max: 200_000 });
}

#[test]
fn patches_cover_each_id_exactly_once() {
    let n: u64 = 23;
    let s: u64 = 5;
    let r = patch_id_ranges(0, n - 1, s);
    for id in 0..n {
        let holders = r.iter().filter(|p| p.min <= id && id <= p.max).count();
        assert_eq!(holders, 1);
    }
    for w in r.windows(2) {
        assert_eq!(w[0].max + 1, w[1].min);
        assert_eq!(w[0].max - w[0].min + 1, s);
    }
    assert_eq!(r.last().unwrap().max, n - 1);
}

#[test]
fn single_id_is_one_patch() {
    assert_eq!(patch_id_ranges(7, 7, PATCH_STEP_SIZE), vec![IdRange { min: 7, max: 7 }]);
}

#[test]
fn patches_reach_the_largest_id() {
    let r = patch_id_ranges(u64::MAX - 4, u64::MAX, 2);
    assert_eq!(
        r,
        vec![
            IdRange { min: u64::MAX - 4, max: u64::MAX - 3 },
            IdRange { min: u64::MAX - 2, max: u64::MAX - 1 },
            IdRange { min: u64::MAX, max: u64::MAX },
        ]
    );
}

#[test]
fn id_offsets_run_on_across_clouds() {
    assert_eq!(sequential_id_offsets(&vec![3, 0, 5, 2]), vec![0, 3, 3, 8]);
    assert_eq!(sequential_id_offsets(&vec![]), Vec::<u64>::new());
}
