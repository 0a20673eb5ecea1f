use vstd::prelude::*;
use crate::auto::auto::Auto;

verus! {

/// The longest gap, in milliseconds, allowed between two passes of the main
/// loop before the watchdog stops the motors.
pub const WATCHDOG_TIMEOUT_MILLIS: u64 = 150;

/// What the driver station reports at the start of a pass of the main loop.
#[derive(Clone, Copy, Debug, PartialEq, Eq, Structural)]
pub struct RobotStatus {
    pub enabled: bool,
    pub teleop: bool,
    pub autonomous: bool,
}

/// What one pass of the main loop does, in this order.
#[derive(Clone, Copy, Debug, PartialEq, Eq, Structural)]
pub struct LoopActions {
    /// Stop every motor.
    pub stop_motors: bool,
    /// Run the teleoperated control pass.
    pub run_teleop: bool,
    /// Refresh the camera and the pose estimate before running autonomous.
    pub update_localization: bool,
    /// Start the routine selected on the dashboard.
    pub start_auto: bool,
    /// Abort the autonomous routine that was started.
    pub abort_auto: bool,
}

/// What the main loop remembers between passes: whether an autonomous
/// routine has been started and not aborted since.
#[derive(Clone, Copy, Debug, PartialEq, Eq, Structural)]
pub struct LoopState {
    pub auto_started: bool,
}

/// One pass of the main loop: the actions taken for `status` and the state
/// that follows.
pub open spec fn loop_step(state: LoopState, status: RobotStatus) -> (LoopState, LoopActions) {
    let in_auto = status.enabled && status.autonomous;
    let actions = LoopActions {
        stop_motors: !status.enabled,
        run_teleop: status.enabled && status.teleop,
        update_localization: in_auto,
        start_auto: in_auto && !state.auto_started,
        abort_auto: !in_auto && state.auto_started,
    };
    (LoopState { auto_started: in_auto }, actions)
}

/// The routine to start: the one selected on the dashboard, or `Nothing`
/// when no selection could be read.
pub open spec fn selected_auto(selection: Option<Seq<char>>) -> Auto {
    match selection {
        Some(s) => Auto::chosen_by(s),
        None => Auto::Nothing,
    }
}

impl LoopState {
    /// The state before the first pass: no routine started.
    pub fn new() -> (s: LoopState)
        ensures
            !s.auto_started,
    {
        LoopState { auto_started: false }
    }

    /// Decides one pass of the main loop.
    pub fn step(&self, status: RobotStatus) -> (r: (LoopState, LoopActions))
        ensures
            r == loop_step(*self, status),
            r.1.stop_motors == !status.enabled,
            r.1.run_teleop == (status.enabled && status.teleop),
            r.1.update_localization == (status.enabled && status.autonomous),
            r.1.start_auto == (status.enabled && status.autonomous && !self.auto_started),
            r.1.abort_auto == (!(status.enabled && status.autonomous) && self.auto_started),
            r.0.auto_started == (status.enabled && status.autonomous),
    {
        let in_auto = status.enabled && status.autonomous;
        let actions = LoopActions {
            stop_motors: !status.enabled,
            run_teleop: status.enabled && status.teleop,
            update_localization: in_auto,
            start_auto: in_auto && !self.auto_started,
            abort_auto: !in_auto && self.auto_started,
        };
        (LoopState { auto_started: in_auto }, actions)
    }
}

/// Chooses the routine to start from the dashboard selection, if one could
/// be read.
pub fn choose_auto(selection: Option<String>) -> (a: Auto)
    ensures
        a == selected_auto(match selection {
            Some(s) => Some(s@),
            None => None,
        }),
{
    match selection {
        Some(s) => Auto::from_dashboard(s.as_str()),
        None => Auto::Nothing,
    }
}

/// Whether the main loop has overrun: a pass has been recorded (`last_loop_millis`
/// is not 0) and more than the watchdog timeout has passed since.
pub fn loop_overrun(last_loop_millis: u64, now_millis: u64) -> (overrun: bool)
    requires
        last_loop_millis != 0 ==> last_loop_millis <= now_millis,
    ensures
        overrun == (last_loop_millis != 0 && now_millis - last_loop_millis > WATCHDOG_TIMEOUT_MILLIS),
{
    last_loop_millis != 0 && now_millis - last_loop_millis > WATCHDOG_TIMEOUT_MILLIS
}

/// While the robot is disabled the loop only stops the motors: it neither
/// drives nor starts a routine, and it leaves no routine running.
pub proof fn lemma_disabled_robot_stays_still(state: LoopState, status: RobotStatus)
    requires
        !status.enabled,
    ensures
        loop_step(state, status).1.stop_motors,
        !loop_step(state, status).1.run_teleop,
        !loop_step(state, status).1.update_localization,
        !loop_step(state, status).1.start_auto,
        !loop_step(state, status).0.auto_started,
{
}

/// The teleop control pass runs exactly when the robot is enabled in teleop
/// mode; in particular a pass in enabled autonomous mode that is not teleop
/// never runs it.
pub proof fn lemma_teleop_only_in_teleop(state: LoopState, status: RobotStatus)
    ensures
        loop_step(state, status).1.run_teleop == (status.enabled && status.teleop),
        status.enabled && status.autonomous && !status.teleop ==> !loop_step(
            state,
            status,
        ).1.run_teleop,
{
}

/// An enabled robot never has its motors stopped by the loop.
pub proof fn lemma_enabled_robot_not_stopped(state: LoopState, status: RobotStatus)
    requires
        status.enabled,
    ensures
        !loop_step(state, status).1.stop_motors,
{
}

/// A routine is started at most once per autonomous period: after a pass in
/// enabled autonomous mode, a following pass in that mode starts nothing.
pub proof fn lemma_auto_started_once(state: LoopState, first: RobotStatus, second: RobotStatus)
    requires
        first.enabled && first.autonomous,
        second.enabled && second.autonomous,
    ensures
        !loop_step(loop_step(state, first).0, second).1.start_auto,
        loop_step(state, first).0.auto_started,
{
}

/// The routine runs exactly while the robot is enabled in autonomous mode:
/// after every pass the state records a started routine exactly then, a
/// routine is started only when none was, and a started routine is aborted
/// as soon as the robot leaves enabled autonomous mode.
pub proof fn lemma_auto_runs_only_in_autonomous(state: LoopState, status: RobotStatus)
    ensures
        loop_step(state, status).0.auto_started == (status.enabled && status.autonomous),
        loop_step(state, status).1.start_auto ==> !state.auto_started,
        loop_step(state, status).1.abort_auto ==> state.auto_started,
        state.auto_started && !(status.enabled && status.autonomous) ==> loop_step(
            state,
            status,
        ).1.abort_auto,
        !(loop_step(state, status).1.start_auto && loop_step(state, status).1.abort_auto),
{
}

} // verus!
