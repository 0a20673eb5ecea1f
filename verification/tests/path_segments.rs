use robot_boilerplate::auto::path::{segment_bounds, PathError};

#[test]
fn first_segment_starts_at_path_start() {
    let waypoints = vec![1.5f64, 3.0, 4.25];
    assert_eq!(segment_bounds(&waypoints, 0, 0.0), Ok((0.0, 1.5)));
}

#[test]
fn later_segment_starts_at_previous_waypoint() {
    let waypoints = vec![1.5f64, 3.0, 4.25];
    assert_eq!(segment_bounds(&waypoints, 2, 0.0), Ok((3.0, 4.25)));
}

#[test]
fn index_past_end_is_error() {
    let waypoints = vec![1.5f64, 3.0, 4.25];
    assert_eq!(segment_bounds(&waypoints, 3, 0.0), Err(PathError::WaypointIndexOutOfBounds));
    let none: Vec<f64> = vec![];
    assert_eq!(segment_bounds(&none, 0, 0.0), Err(PathError::WaypointIndexOutOfBounds));
}
