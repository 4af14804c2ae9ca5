//! Session-wide settings and their validation.
//!
//! All quantities are integers in device units: distances in millimetres,
//! thresholds and sensitivities in thousandths, frame rates in millihertz.

use vstd::prelude::*;
use vstd::slice::slice_subrange;
use vstd::string::StringSliceAdditionalSpecFns;
use crate::decimal::find_first;
use crate::decimal::first_index;
use crate::decimal::parse_thousandths;
use crate::decimal::spec_parse_thousandths;
use crate::error::ParameterFault;
use crate::error::RadarError;

verus! {

/// Which detector a session drives.
#[derive(Clone, Copy, Debug, PartialEq, Eq, Structural)]
pub enum DetectorMode {
    Distance,
    Presence,
    Combined,
    Breathing,
}

/// The range presets of the presence detector.
#[derive(Clone, Copy, Debug, PartialEq, Eq, Structural)]
pub enum PresenceRange {
    /// 6 cm to 70 cm.
    Short,
    /// 20 cm to 2 m.
    Medium,
    /// 30 cm to 5.5 m.
    Long,
}

impl PresenceRange {
    /// First millimetre of the preset.
    #[verifier::allow_in_spec]
    pub fn start_mm(self) -> u32
        returns
            match self {
                PresenceRange::Short => 60u32,
                PresenceRange::Medium => 200u32,
                PresenceRange::Long => 300u32,
            },
    {
        match self {
            PresenceRange::Short => 60,
            PresenceRange::Medium => 200,
            PresenceRange::Long => 300,
        }
    }

    /// Last millimetre of the preset.
    #[verifier::allow_in_spec]
    pub fn end_mm(self) -> u32
        returns
            match self {
                PresenceRange::Short => 700u32,
                PresenceRange::Medium => 2000u32,
                PresenceRange::Long => 5500u32,
            },
    {
        match self {
            PresenceRange::Short => 700,
            PresenceRange::Medium => 2000,
            PresenceRange::Long => 5500,
        }
    }
}

/// Whether the presence detector picks its profile itself.
#[derive(Clone, Copy, Debug, PartialEq, Eq, Structural)]
pub enum ProfileMode {
    Auto,
    Manual,
}

/// Lowest sensitivity accepted, 0.1 in thousandths.
pub const SENSITIVITY_MIN: u32 = 100;

/// Highest sensitivity accepted, 5.0 in thousandths.
pub const SENSITIVITY_MAX: u32 = 5000;

/// Lowest frame rate accepted, 1 Hz in millihertz.
pub const FRAME_RATE_MIN: u32 = 1000;

/// Highest frame rate accepted, 60 Hz in millihertz.
pub const FRAME_RATE_MAX: u32 = 60000;

/// The settings of a session.
#[derive(Clone, Copy, Debug, PartialEq, Eq, Structural)]
pub struct XM125Config {
    pub detector_mode: DetectorMode,
    /// Start of the detection range in millimetres; 0 leaves it to the
    /// detector's default or preset.
    pub start_mm: u32,
    /// Length of the detection range in millimetres; 0 leaves it to the
    /// detector's default or preset.
    pub length_mm: u32,
    pub max_step_length: u32,
    pub max_profile: u32,
    /// Threshold sensitivity of the distance detector, in thousandths.
    pub threshold_sensitivity: u32,
    pub presence_range: PresenceRange,
    /// Fast-motion threshold of the presence detector, in thousandths.
    pub intra_detection_threshold: u32,
    /// Slow-motion threshold of the presence detector, in thousandths.
    pub inter_detection_threshold: u32,
    /// Frame rate in millihertz.
    pub frame_rate: u32,
    pub sweeps_per_frame: u32,
    pub auto_profile_enabled: bool,
    pub auto_reconnect: bool,
    pub measurement_interval_ms: u64,
}

impl XM125Config {
    /// The documented defaults: distance mode, 0.1 m to 3.0 m, sensitivity
    /// 0.1, long presence range, thresholds 1.3 and 1.0, 12 Hz, automatic
    /// profile, reconnecting.
    pub open spec fn spec_default() -> XM125Config {
        XM125Config {
            detector_mode: DetectorMode::Distance,
            start_mm: 100,
            length_mm: 2900,
            max_step_length: 24,
            max_profile: 5,
            threshold_sensitivity: 100,
            presence_range: PresenceRange::Long,
            intra_detection_threshold: 1300,
            inter_detection_threshold: 1000,
            frame_rate: 12000,
            sweeps_per_frame: 16,
            auto_profile_enabled: true,
            auto_reconnect: true,
            measurement_interval_ms: 1000,
        }
    }

    /// End of the configured range in millimetres, capped at the largest
    /// register value.
    #[verifier::allow_in_spec]
    pub fn end_mm(&self) -> u32
        returns
            (if self.start_mm + self.length_mm > u32::MAX {
                u32::MAX
            } else {
                (self.start_mm + self.length_mm) as u32
            }),
    {
        if self.length_mm > u32::MAX - self.start_mm {
            u32::MAX
        } else {
            self.start_mm + self.length_mm
        }
    }

    /// Whether the configured range overrides the presence preset: it does
    /// when both its start and its length are set.
    #[verifier::allow_in_spec]
    pub fn has_custom_range(&self) -> bool
        returns
            self.start_mm > 0 && self.length_mm > 0,
    {
        self.start_mm > 0 && self.length_mm > 0
    }

    /// Start of the range the presence detector is given.
    #[verifier::allow_in_spec]
    pub fn presence_start_mm(&self) -> u32
        returns
            (if self.has_custom_range() {
                self.start_mm
            } else {
                self.presence_range.start_mm()
            }),
    {
        if self.has_custom_range() {
            self.start_mm
        } else {
            self.presence_range.start_mm()
        }
    }

    /// End of the range the presence detector is given.
    #[verifier::allow_in_spec]
    pub fn presence_end_mm(&self) -> u32
        returns
            (if self.has_custom_range() {
                self.end_mm()
            } else {
                self.presence_range.end_mm()
            }),
    {
        if self.has_custom_range() {
            self.end_mm()
        } else {
            self.presence_range.end_mm()
        }
    }
}

impl Default for XM125Config {
    fn default() -> (config: XM125Config)
        ensures
            config == XM125Config::spec_default(),
    {
        XM125Config {
            detector_mode: DetectorMode::Distance,
            start_mm: 100,
            length_mm: 2900,
            max_step_length: 24,
            max_profile: 5,
            threshold_sensitivity: 100,
            presence_range: PresenceRange::Long,
            intra_detection_threshold: 1300,
            inter_detection_threshold: 1000,
            frame_rate: 12000,
            sweeps_per_frame: 16,
            auto_profile_enabled: true,
            auto_reconnect: true,
            measurement_interval_ms: 1000,
        }
    }
}

/// The configuration after a distance range from `start_mm` to `end_mm`
/// has been set.
pub open spec fn with_distance_range(config: XM125Config, start_mm: u32, end_mm: u32) -> XM125Config {
    XM125Config { start_mm, length_mm: (end_mm - start_mm) as u32, ..config }
}

/// The range that `text` denotes: two decimal numbers of metres with a
/// colon between them, the first less than the second, as `0.1:3.0`. Each
/// is taken to the nearest millimetre.
pub open spec fn spec_parse_range(text: Seq<u8>) -> Result<(u32, u32), ParameterFault> {
    let colon = first_index(text, 58);
    let rest = text.skip(colon + 1);
    if colon >= text.len() || first_index(rest, 58) < rest.len() {
        Err(ParameterFault::RangeFormat)
    } else {
        match spec_parse_thousandths(text.take(colon)) {
            None => Err(ParameterFault::RangeStart),
            Some(start_mm) => match spec_parse_thousandths(rest) {
                None => Err(ParameterFault::RangeEnd),
                Some(end_mm) => if start_mm < end_mm {
                    Ok((start_mm, end_mm))
                } else {
                    Err(ParameterFault::RangeOrder { start_mm, end_mm })
                },
            },
        }
    }
}

/// Parses a range written as `start:end` in metres into millimetres.
pub fn parse_range(text: &str) -> (range: Result<(u32, u32), ParameterFault>)
    ensures
        range == spec_parse_range(text.spec_bytes()),
{
    let bytes = text.as_bytes();
    let colon = find_first(bytes, 58);
    if colon >= bytes.len() {
        return Err(ParameterFault::RangeFormat);
    }
    let first = slice_subrange(bytes, 0, colon);
    let rest = slice_subrange(bytes, colon + 1, bytes.len());
    proof {
        assert(first@ =~= bytes@.take(colon as int));
        assert(rest@ =~= bytes@.skip(colon + 1));
    }
    if find_first(rest, 58) < rest.len() {
        return Err(ParameterFault::RangeFormat);
    }
    match parse_thousandths(first) {
        None => Err(ParameterFault::RangeStart),
        Some(start_mm) => match parse_thousandths(rest) {
            None => Err(ParameterFault::RangeEnd),
            Some(end_mm) => {
                if start_mm < end_mm {
                    Ok((start_mm, end_mm))
                } else {
                    Err(ParameterFault::RangeOrder { start_mm, end_mm })
                }
            },
        },
    }
}

/// Sets the distance range from text written as `start:end` in metres. A
/// text that denotes no range is rejected, and the configuration stays as
/// it was.
pub fn configure_distance_range(config: &mut XM125Config, range_str: &str) -> (r: Result<
    (),
    RadarError,
>)
    ensures
        match spec_parse_range(range_str.spec_bytes()) {
            Ok(range) => r is Ok && *final(config) == with_distance_range(
                *old(config),
                range.0,
                range.1,
            ),
            Err(reason) => r == Err::<(), RadarError>(RadarError::InvalidParameters { reason })
                && *final(config) == *old(config),
        },
{
    match parse_range(range_str) {
        Ok((start_mm, end_mm)) => set_distance_range(config, start_mm, end_mm),
        Err(reason) => Err(RadarError::InvalidParameters { reason }),
    }
}

/// Sets the distance range in millimetres. A range that does not start
/// before it ends is rejected, and the configuration stays as it was.
pub fn set_distance_range(config: &mut XM125Config, start_mm: u32, end_mm: u32) -> (r: Result<
    (),
    RadarError,
>)
    ensures
        start_mm < end_mm ==> r is Ok && *final(config) == with_distance_range(
            *old(config),
            start_mm,
            end_mm,
        ),
        start_mm >= end_mm ==> r == Err::<(), RadarError>(
            RadarError::InvalidParameters { reason: ParameterFault::RangeOrder { start_mm, end_mm } },
        ) && *final(config) == *old(config),
{
    if start_mm >= end_mm {
        return Err(
            RadarError::InvalidParameters { reason: ParameterFault::RangeOrder { start_mm, end_mm } },
        );
    }
    config.start_mm = start_mm;
    config.length_mm = end_mm - start_mm;
    Ok(())
}

/// The first fault among the presence parameters, if there is one: a range
/// given by both its ends that does not start before it ends, then a
/// sensitivity outside 0.1 to 5.0, then a frame rate outside 1 to 60 Hz.
pub open spec fn presence_parameter_fault(
    min_range_mm: Option<u32>,
    max_range_mm: Option<u32>,
    sensitivity: Option<u32>,
    frame_rate: Option<u32>,
) -> Option<ParameterFault> {
    if min_range_mm is Some && max_range_mm is Some && min_range_mm->0 >= max_range_mm->0 {
        Some(ParameterFault::RangeOrder { start_mm: min_range_mm->0, end_mm: max_range_mm->0 })
    } else if sensitivity is Some && !(SENSITIVITY_MIN <= sensitivity->0 <= SENSITIVITY_MAX) {
        Some(ParameterFault::Sensitivity { milli: sensitivity->0 })
    } else if frame_rate is Some && !(FRAME_RATE_MIN <= frame_rate->0 <= FRAME_RATE_MAX) {
        Some(ParameterFault::FrameRate { millihertz: frame_rate->0 })
    } else {
        None
    }
}

/// The configuration after valid presence parameters have been applied.
/// Parameters that are not given leave their settings as they were. The
/// sensitivity becomes the fast-motion threshold, and four fifths of it
/// the slow-motion threshold.
pub open spec fn with_presence_parameters(
    config: XM125Config,
    presence_range: Option<PresenceRange>,
    min_range_mm: Option<u32>,
    max_range_mm: Option<u32>,
    sensitivity: Option<u32>,
    frame_rate: Option<u32>,
    profile: ProfileMode,
) -> XM125Config {
    let custom = min_range_mm is Some && max_range_mm is Some;
    XM125Config {
        presence_range: if presence_range is Some {
            presence_range->0
        } else {
            config.presence_range
        },
        start_mm: if custom {
            min_range_mm->0
        } else {
            config.start_mm
        },
        length_mm: if custom {
            (max_range_mm->0 - min_range_mm->0) as u32
        } else {
            config.length_mm
        },
        intra_detection_threshold: if sensitivity is Some {
            sensitivity->0
        } else {
            config.intra_detection_threshold
        },
        inter_detection_threshold: if sensitivity is Some {
            (sensitivity->0 * 4 / 5) as u32
        } else {
            config.inter_detection_threshold
        },
        frame_rate: if frame_rate is Some {
            frame_rate->0
        } else {
            config.frame_rate
        },
        auto_profile_enabled: profile == ProfileMode::Auto,
        ..config
    }
}

/// Validates the presence parameters and applies them. On any fault
/// nothing is applied: the configuration stays as it was.
pub fn configure_presence_parameters(
    config: &mut XM125Config,
    presence_range: Option<PresenceRange>,
    min_range_mm: Option<u32>,
    max_range_mm: Option<u32>,
    sensitivity: Option<u32>,
    frame_rate: Option<u32>,
    profile: ProfileMode,
) -> (r: Result<(), RadarError>)
    ensures
        match presence_parameter_fault(min_range_mm, max_range_mm, sensitivity, frame_rate) {
            Some(reason) => r == Err::<(), RadarError>(RadarError::InvalidParameters { reason })
                && *final(config) == *old(config),
            None => r is Ok && *final(config) == with_presence_parameters(
                *old(config),
                presence_range,
                min_range_mm,
                max_range_mm,
                sensitivity,
                frame_rate,
                profile,
            ),
        },
{
    let mut next = *config;
    if let Some(range) = presence_range {
        next.presence_range = range;
    }
    if let (Some(min), Some(max)) = (min_range_mm, max_range_mm) {
        if min >= max {
            return Err(
                RadarError::InvalidParameters {
                    reason: ParameterFault::RangeOrder { start_mm: min, end_mm: max },
                },
            );
        }
        next.start_mm = min;
        next.length_mm = max - min;
    }
    if let Some(s) = sensitivity {
        if s < SENSITIVITY_MIN || s > SENSITIVITY_MAX {
            return Err(
                RadarError::InvalidParameters { reason: ParameterFault::Sensitivity { milli: s } },
            );
        }
        next.intra_detection_threshold = s;
        next.inter_detection_threshold = s * 4 / 5;
    }
    if let Some(rate) = frame_rate {
        if rate < FRAME_RATE_MIN || rate > FRAME_RATE_MAX {
            return Err(
                RadarError::InvalidParameters {
                    reason: ParameterFault::FrameRate { millihertz: rate },
                },
            );
        }
        next.frame_rate = rate;
    }
    next.auto_profile_enabled = match profile {
        ProfileMode::Auto => true,
        ProfileMode::Manual => false,
    };
    *config = next;
    Ok(())
}

} // verus!
