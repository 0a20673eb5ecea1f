//! Decision logic of a swerve-drive competition robot: the autonomous
//! routine chooser, the main loop's mode handling and watchdog, vision target
//! tracking, and path segment selection.

pub mod auto;
pub mod robot_loop;
pub mod subsystems;
