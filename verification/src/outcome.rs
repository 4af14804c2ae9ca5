//! What an operation of a detector or of the session ends with.

use vstd::prelude::*;
use crate::breathing::BreathingMeasurement;
use crate::distance::DistanceMeasurement;
use crate::error::RadarError;
use crate::host::Request;
use crate::presence::PresenceMeasurement;
use crate::runner::Progress;

verus! {

/// A distance and a presence measurement taken together. Either may be
/// missing when its detector failed.
#[derive(Clone, Copy, Debug, PartialEq, Eq, Structural)]
pub struct CombinedMeasurement {
    pub distance: Option<DistanceMeasurement>,
    pub presence: Option<PresenceMeasurement>,
}

/// The result of an operation that ended well.
#[derive(Clone, Copy, Debug, PartialEq, Eq, Structural)]
pub enum Outcome {
    /// The operation has no result beyond having succeeded.
    Done,
    Distance { distance: DistanceMeasurement },
    Presence { presence: PresenceMeasurement },
    Breathing { breathing: BreathingMeasurement },
    Combined { combined: CombinedMeasurement },
    /// The detector status word.
    Status { word: u32 },
    /// The application id.
    ApplicationId { id: u32 },
    /// The level of a pin.
    Level { level: crate::gpio::GpioValue },
    /// The version register and the application id.
    Info { version: u32, application_id: u32 },
}

/// What an operation wants next, or how it ended.
#[derive(Clone, Copy, Debug, PartialEq, Eq, Structural)]
pub enum Step {
    /// The host is to carry out the request and hand the reply to
    /// `resume`.
    Ask { request: Request },
    Finished { outcome: Outcome },
    Failed { error: RadarError },
}

/// The step of an operation that is one sequence and has no result.
#[verifier::allow_in_spec]
pub fn plain_step(progress: Progress) -> Step
    returns
        match progress {
            Progress::Ask { request } => Step::Ask { request },
            Progress::Complete => Step::Finished { outcome: Outcome::Done },
            Progress::Failed { error } => Step::Failed { error },
        },
{
    match progress {
        Progress::Ask { request } => Step::Ask { request },
        Progress::Complete => Step::Finished { outcome: Outcome::Done },
        Progress::Failed { error } => Step::Failed { error },
    }
}

} // verus!
