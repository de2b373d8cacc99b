//! The control loop's decisions: when sensors are read, when an
//! announcement is due, and what follows a submission.

use vstd::prelude::*;
use crate::audio::SubmitOutcome;

verus! {

/// Seconds between two readings of the humidity sensor.
pub const DHT22_PERIOD_SECS: u64 = 5;

/// Seconds between two readings of the pressure sensor.
pub const BMP280_PERIOD_SECS: u64 = 10;

/// Seconds after a triggered announcement during which the button is
/// not looked at.
pub const BUTTON_HOLD_OFF_SECS: u64 = 1;

/// Milliseconds to sleep between two turns of the control loop.
pub const TICK_MILLIS: u64 = 100;

/// Seconds between automatic announcements unless set otherwise.
pub const DEFAULT_INTERVAL_AUDIO: u64 = 300;

/// The settings of a run.
#[derive(Clone, Copy, Debug, PartialEq, Eq, Structural)]
pub struct Cli {
    /// Seconds between automatic announcements.
    pub interval_audio: u64,
    /// Whether announcements are made automatically.
    pub auto_audio: bool,
}

/// What the control loop does after a submission.
#[derive(Clone, Copy, Debug, PartialEq, Eq, Structural)]
pub enum FollowUp {
    /// The request was taken: the interval of automatic announcements
    /// starts anew.
    Restart,
    /// The worker was occupied: nothing to do, the next trigger tries
    /// again.
    Retry,
    /// The worker is gone: the process must end abnormally.
    Abort,
}

impl Cli {
    /// Whether an announcement is due: the automatic interval has passed
    /// while automatic announcements are on, or the button is pressed
    /// after its hold-off.
    pub open spec fn due(&self, since_auto: u64, since_trigger: u64, button_pressed: bool) -> bool {
        (self.auto_audio && since_auto >= self.interval_audio) || (since_trigger
            >= BUTTON_HOLD_OFF_SECS && button_pressed)
    }

    /// The settings without any argument given: no automatic
    /// announcements, an interval of `DEFAULT_INTERVAL_AUDIO` seconds.
    pub fn new() -> (cli: Cli)
        ensures
            cli == (Cli { interval_audio: DEFAULT_INTERVAL_AUDIO, auto_audio: false }),
    {
        Cli { interval_audio: DEFAULT_INTERVAL_AUDIO, auto_audio: false }
    }

    /// Whether an announcement is to be submitted now, given the whole
    /// seconds since the last accepted announcement, the whole seconds
    /// since the last trigger, and whether the button is pressed.
    pub fn triggered(&self, since_auto: u64, since_trigger: u64, button_pressed: bool) -> (due: bool)
        ensures
            due == self.due(since_auto, since_trigger, button_pressed),
    {
        (self.auto_audio && since_auto >= self.interval_audio) || (since_trigger
            >= BUTTON_HOLD_OFF_SECS && button_pressed)
    }
}

/// Whether a sensor that is read every `period` seconds is to be read
/// again, `since` whole seconds after its last reading.
pub fn reading_due(since: u64, period: u64) -> (due: bool)
    ensures
        due == (since >= period),
{
    since >= period
}

/// What follows a submission: an accepted one restarts the automatic
/// interval, a rejected one is no error and is simply tried again at the
/// next trigger, a fatal one ends the process.
pub fn follow_up(outcome: SubmitOutcome) -> (next: FollowUp)
    ensures
        outcome == SubmitOutcome::Accepted <==> next == FollowUp::Restart,
        outcome is Rejected <==> next == FollowUp::Retry,
        outcome is Fatal <==> next == FollowUp::Abort,
{
    match outcome {
        SubmitOutcome::Accepted => FollowUp::Restart,
        SubmitOutcome::Rejected(_) => FollowUp::Retry,
        SubmitOutcome::Fatal(_) => FollowUp::Abort,
    }
}

} // verus!
