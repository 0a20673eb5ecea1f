use robot_boilerplate::subsystems::vision::Vision;

#[test]
fn new_vision_sees_nothing() {
    let v = Vision::new();
    assert_eq!(v.get_id(), -1);
    assert_eq!(v.saved_id(), 0);
    assert_eq!(v.get_last_results(), Vec::<i32>::new());
}

#[test]
fn update_targets_first_fiducial() {
    let mut v = Vision::new();
    v.update(Some(vec![7, 3]));
    assert_eq!(v.get_id(), 7);
    assert_eq!(v.saved_id(), 7);
    assert_eq!(v.get_last_results(), Vec::<i32>::new());
}

#[test]
fn failed_fetch_keeps_results() {
    let mut v = Vision::new();
    v.update(Some(vec![4]));
    v.update(None);
    assert_eq!(v.get_id(), 4);
    assert_eq!(v.saved_id(), 4);
    assert_eq!(v.get_last_results(), vec![4]);
}

#[test]
fn invalid_or_missing_tag_keeps_saved_id() {
    let mut v = Vision::new();
    v.update(Some(vec![12]));
    v.update(Some(vec![-1, 5]));
    assert_eq!(v.get_id(), -1);
    assert_eq!(v.saved_id(), 12);
    v.update(Some(vec![]));
    assert_eq!(v.get_id(), -1);
    assert_eq!(v.saved_id(), 12);
    assert_eq!(v.get_last_results(), vec![-1, 5]);
    v.update(Some(vec![2]));
    assert_eq!(v.saved_id(), 2);
}

#[test]
fn tag_index_from_id() {
    assert_eq!(Vision::tag_index(1), Some(0));
    assert_eq!(Vision::tag_index(16), Some(15));
    assert_eq!(Vision::tag_index(0), None);
    assert_eq!(Vision::tag_index(-1), None);
    assert_eq!(Vision::tag_index(i32::MAX), Some(i32::MAX as usize - 1));
}

use robot_boilerplate::subsystems::vision::{fusion_source, FusionSource, WeightSign};

#[test]
fn fusion_neither_sees_a_tag() {
    assert_eq!(fusion_source(WeightSign::NotPositive, true, WeightSign::NotPositive, true), FusionSource::NoPose);
}

#[test]
fn fusion_single_limelight() {
    assert_eq!(fusion_source(WeightSign::Positive, true, WeightSign::NotPositive, false), FusionSource::First);
    assert_eq!(fusion_source(WeightSign::NotPositive, true, WeightSign::Positive, true), FusionSource::Second);
    // a positive weight without a pose cannot be used alone
    assert_eq!(fusion_source(WeightSign::Positive, false, WeightSign::NotPositive, true), FusionSource::NoPose);
    assert_eq!(fusion_source(WeightSign::Positive, false, WeightSign::NotPositive, false), FusionSource::NoPose);
}

#[test]
fn fusion_both_limelights() {
    assert_eq!(fusion_source(WeightSign::Positive, true, WeightSign::Positive, true), FusionSource::Weighted);
    assert_eq!(fusion_source(WeightSign::Positive, true, WeightSign::Positive, false), FusionSource::NoPose);
    assert_eq!(fusion_source(WeightSign::Unordered, true, WeightSign::NotPositive, true), FusionSource::Weighted);
}

#[test]
fn fusion_is_symmetric() {
    let signs = [WeightSign::Positive, WeightSign::NotPositive, WeightSign::Unordered];
    for &a in signs.iter() {
        for &b in signs.iter() {
            for pa in [false, true] {
                for pb in [false, true] {
                    let forward = fusion_source(a, pa, b, pb);
                    let backward = fusion_source(b, pb, a, pa);
                    let swapped = match forward {
                        FusionSource::First => FusionSource::Second,
                        FusionSource::Second => FusionSource::First,
                        other => other,
                    };
                    assert_eq!(backward, swapped);
                }
            }
        }
    }
}
