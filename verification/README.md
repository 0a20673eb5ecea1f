# robot_boilerplate

Control code for a swerve-drive competition robot, split in two:

- `src/` is the verified library (Verus): the autonomous routine chooser
  (`auto::auto`), path segment selection (`auto::path`), the main loop's
  mode handling and watchdog (`robot_loop`), and limelight tag tracking and
  the choice of poses when fusing two limelights (`subsystems::vision`).
  Every public function has a contract, and the properties that span
  functions are proved as `lemma_*` proof functions.
- `app/` is the robot program around it: hardware access through `frcrs`,
  the async runtime, telemetry, and everything that computes on
  floating-point numbers (kinematics, odometry, vision geometry, path
  following), which the library does not hold.
