use vstd::prelude::*;

verus! {

/// Why a path segment could not be selected.
#[derive(Clone, Copy, Debug, PartialEq, Eq, Structural)]
pub enum PathError {
    WaypointIndexOutOfBounds,
}

/// The start and end of the segment that ends at waypoint `waypoint_index`:
/// the segment starts at the previous waypoint, or at `path_start` for the
/// first one; an index past the last waypoint is an error.
pub fn segment_bounds<T: Copy>(waypoints: &Vec<T>, waypoint_index: usize, path_start: T) -> (r: Result<(T, T), PathError>)
    ensures
        waypoint_index >= waypoints@.len() ==> r == Err::<(T, T), PathError>(PathError::WaypointIndexOutOfBounds),
        waypoint_index < waypoints@.len() ==> r == Ok::<(T, T), PathError>((
            if waypoint_index == 0 { path_start } else { waypoints@[waypoint_index - 1] },
            waypoints@[waypoint_index as int],
        )),
{
    if waypoint_index >= waypoints.len() {
        return Err(PathError::WaypointIndexOutOfBounds);
    }
    let start = if waypoint_index == 0 {
        path_start
    } else {
        waypoints[waypoint_index - 1]
    };
    let end = waypoints[waypoint_index];
    Ok((start, end))
}

} // verus!
