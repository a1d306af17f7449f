use stocks::chart::{
    grid_offsets, plan_set_points, points_from_chart, ChartError, QuotePoint, MAX_TIMESTAMP,
    MIN_TIMESTAMP,
};

#[test]
fn points_pair_timestamps_with_closes() {
    let ts = vec![1_700_000_000i64, 1_700_000_060];
    let closes = vec![Some(10.5f64), Some(11.0)];
    let points = points_from_chart(&ts, Some(&closes)).unwrap();
    assert_eq!(
        points,
        vec![QuotePoint::new(1_700_000_000, 10.5), QuotePoint::new(1_700_000_060, 11.0)]
    );
}

#[test]
fn no_timestamps_give_no_points() {
    let ts: Vec<i64> = vec![];
    assert_eq!(points_from_chart::<f64>(&ts, None).unwrap(), vec![]);
}

#[test]
fn chart_errors() {
    let ts = vec![0i64, 60, 120];
    assert_eq!(points_from_chart::<f64>(&ts, None), Err(ChartError::NoIndicators));
    let short = vec![Some(1.0f64), Some(2.0)];
    assert_eq!(points_from_chart(&ts, Some(&short)), Err(ChartError::MissingClose { index: 2 }));
    let gap = vec![Some(1.0f64), None, Some(3.0)];
    assert_eq!(points_from_chart(&ts, Some(&gap)), Err(ChartError::NoClose { index: 1 }));
}

#[test]
fn timestamps_at_the_edges_of_chrono() {
    let closes = vec![Some(1u32), Some(2)];
    let ok = vec![MIN_TIMESTAMP, MAX_TIMESTAMP];
    assert_eq!(points_from_chart(&ok, Some(&closes)).unwrap().len(), 2);
    let late = vec![0, MAX_TIMESTAMP + 1];
    assert_eq!(points_from_chart(&late, Some(&closes)), Err(ChartError::InvalidTimestamp { index: 1 }));
    let early = vec![MIN_TIMESTAMP - 1, 0];
    assert_eq!(points_from_chart(&early, Some(&closes)), Err(ChartError::InvalidTimestamp { index: 0 }));
}

#[test]
fn timestamp_checked_before_close() {
    let ts = vec![i64::MAX];
    let closes: Vec<Option<f64>> = vec![None];
    assert_eq!(points_from_chart(&ts, Some(&closes)), Err(ChartError::InvalidTimestamp { index: 0 }));
}

#[test]
fn grid_offsets_step_by_a_quarter() {
    assert_eq!(grid_offsets(6), vec![0, 1, 2, 3, 4, 5]);
    assert_eq!(grid_offsets(10), vec![0, 2, 4, 6, 8]);
    assert_eq!(grid_offsets(100), vec![0, 24, 48, 72, 96]);
    assert_eq!(grid_offsets(102), vec![0, 25, 50, 75, 100]);
    assert_eq!(grid_offsets(-7), Vec::<i32>::new());
}

#[test]
fn grid_offsets_match_step_by() {
    for w in 6..300 {
        let step = ((w - 2) / 4) as usize;
        let expected: Vec<i32> = (0..w).step_by(step).collect();
        assert_eq!(grid_offsets(w), expected);
    }
}

#[test]
fn set_points_plans() {
    let p = plan_set_points(true, false);
    assert!(p.remove_tick && p.store_points && p.queue_resize);
    let q = plan_set_points(false, true);
    assert!(!q.remove_tick && !q.store_points && !q.queue_resize);
}
