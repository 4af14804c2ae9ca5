use xm125_radar_monitor::config::configure_distance_range;
use xm125_radar_monitor::config::configure_presence_parameters;
use xm125_radar_monitor::config::parse_range;
use xm125_radar_monitor::config::set_distance_range;
use xm125_radar_monitor::config::DetectorMode;
use xm125_radar_monitor::config::PresenceRange;
use xm125_radar_monitor::config::ProfileMode;
use xm125_radar_monitor::config::XM125Config;
use xm125_radar_monitor::error::ParameterFault;
use xm125_radar_monitor::error::RadarError;

#[test]
fn the_defaults_are_the_documented_ones() {
    let config = XM125Config::default();
    assert_eq!(config.detector_mode, DetectorMode::Distance);
    assert_eq!(config.start_mm, 100);
    assert_eq!(config.length_mm, 2900);
    assert_eq!(config.end_mm(), 3000);
    assert_eq!(config.max_step_length, 24);
    assert_eq!(config.max_profile, 5);
    assert_eq!(config.threshold_sensitivity, 100);
    assert_eq!(config.presence_range, PresenceRange::Long);
    assert_eq!(config.intra_detection_threshold, 1300);
    assert_eq!(config.inter_detection_threshold, 1000);
    assert_eq!(config.frame_rate, 12000);
    assert_eq!(config.sweeps_per_frame, 16);
    assert!(config.auto_profile_enabled);
    assert!(config.auto_reconnect);
    assert_eq!(config.measurement_interval_ms, 1000);
}

#[test]
fn the_presets_are_fixed_intervals() {
    assert_eq!((PresenceRange::Short.start_mm(), PresenceRange::Short.end_mm()), (60, 700));
    assert_eq!((PresenceRange::Medium.start_mm(), PresenceRange::Medium.end_mm()), (200, 2000));
    assert_eq!((PresenceRange::Long.start_mm(), PresenceRange::Long.end_mm()), (300, 5500));
}

#[test]
fn a_custom_range_overrides_the_preset() {
    let mut config = XM125Config::default();
    assert!(config.has_custom_range());
    assert_eq!((config.presence_start_mm(), config.presence_end_mm()), (100, 3000));
    config.start_mm = 0;
    assert!(!config.has_custom_range());
    assert_eq!((config.presence_start_mm(), config.presence_end_mm()), (300, 5500));
    config.presence_range = PresenceRange::Short;
    assert_eq!((config.presence_start_mm(), config.presence_end_mm()), (60, 700));
    config.start_mm = u32::MAX;
    config.length_mm = 5;
    assert_eq!(config.end_mm(), u32::MAX);
}

#[test]
fn a_distance_range_must_start_before_it_ends() {
    let mut config = XM125Config::default();
    assert_eq!(set_distance_range(&mut config, 250, 5000), Ok(()));
    assert_eq!((config.start_mm, config.length_mm), (250, 4750));
    let before = config;
    for (start, end) in [(3000, 100), (500, 500)] {
        assert_eq!(
            set_distance_range(&mut config, start, end),
            Err(RadarError::InvalidParameters {
                reason: ParameterFault::RangeOrder { start_mm: start, end_mm: end }
            })
        );
        assert_eq!(config, before);
    }
}

#[test]
fn a_range_is_typed_in_metres() {
    assert_eq!(parse_range("0.1:3.0"), Ok((100, 3000)));
    assert_eq!(parse_range("0:1"), Ok((0, 1000)));
    assert_eq!(parse_range(".25:7"), Ok((250, 7000)));
    assert_eq!(parse_range("0.0004:0.0005"), Ok((0, 1)));
    assert_eq!(parse_range("1.2345:1.2355"), Ok((1235, 1236)));
    assert_eq!(parse_range("0.1"), Err(ParameterFault::RangeFormat));
    assert_eq!(parse_range(""), Err(ParameterFault::RangeFormat));
    assert_eq!(parse_range("0.1:3.0:5"), Err(ParameterFault::RangeFormat));
    assert_eq!(parse_range("a:3.0"), Err(ParameterFault::RangeStart));
    assert_eq!(parse_range(":3.0"), Err(ParameterFault::RangeStart));
    assert_eq!(parse_range("-1:3.0"), Err(ParameterFault::RangeStart));
    assert_eq!(parse_range("0.1:"), Err(ParameterFault::RangeEnd));
    assert_eq!(parse_range("0.1:3,0"), Err(ParameterFault::RangeEnd));
    assert_eq!(parse_range("x:y"), Err(ParameterFault::RangeStart));
    assert_eq!(
        parse_range("3.0:0.1"),
        Err(ParameterFault::RangeOrder { start_mm: 3000, end_mm: 100 })
    );
    assert_eq!(
        parse_range("1.0:1.0004"),
        Err(ParameterFault::RangeOrder { start_mm: 1000, end_mm: 1000 })
    );
}

#[test]
fn a_typed_range_is_configured_or_leaves_the_configuration_alone() {
    let mut config = XM125Config::default();
    assert_eq!(configure_distance_range(&mut config, "0.25:5"), Ok(()));
    assert_eq!((config.start_mm, config.length_mm), (250, 4750));
    let before = config;
    assert_eq!(
        configure_distance_range(&mut config, "5:0.25"),
        Err(RadarError::InvalidParameters {
            reason: ParameterFault::RangeOrder { start_mm: 5000, end_mm: 250 }
        })
    );
    assert_eq!(
        configure_distance_range(&mut config, "five"),
        Err(RadarError::InvalidParameters { reason: ParameterFault::RangeFormat })
    );
    assert_eq!(config, before);
}

#[test]
fn presence_parameters_are_applied_together() {
    let mut config = XM125Config::default();
    let result = configure_presence_parameters(
        &mut config,
        Some(PresenceRange::Medium),
        Some(500),
        Some(7000),
        Some(2500),
        Some(20_000),
        ProfileMode::Manual,
    );
    assert_eq!(result, Ok(()));
    assert_eq!(config.presence_range, PresenceRange::Medium);
    assert_eq!((config.start_mm, config.length_mm), (500, 6500));
    assert_eq!(config.intra_detection_threshold, 2500);
    assert_eq!(config.inter_detection_threshold, 2000);
    assert_eq!(config.frame_rate, 20_000);
    assert!(!config.auto_profile_enabled);
    // Without parameters only the profile mode is set.
    let before = config;
    let result =
        configure_presence_parameters(&mut config, None, None, None, None, None, ProfileMode::Auto);
    assert_eq!(result, Ok(()));
    assert_eq!(config, XM125Config { auto_profile_enabled: true, ..before });
    // Half a range is no range.
    let before = config;
    let result = configure_presence_parameters(
        &mut config,
        None,
        Some(9000),
        None,
        None,
        None,
        ProfileMode::Auto,
    );
    assert_eq!(result, Ok(()));
    assert_eq!(config, before);
}

#[test]
fn every_faulty_presence_parameter_is_rejected_and_nothing_applied() {
    let faults = [
        (
            (Some(2000), Some(2000), Some(1000), Some(10_000)),
            ParameterFault::RangeOrder { start_mm: 2000, end_mm: 2000 },
        ),
        (
            (Some(100), Some(2000), Some(6000), Some(10_000)),
            ParameterFault::Sensitivity { milli: 6000 },
        ),
        (
            (Some(100), Some(2000), Some(99), Some(10_000)),
            ParameterFault::Sensitivity { milli: 99 },
        ),
        (
            (Some(100), Some(2000), Some(1000), Some(999)),
            ParameterFault::FrameRate { millihertz: 999 },
        ),
        (
            (Some(100), Some(2000), Some(1000), Some(60_001)),
            ParameterFault::FrameRate { millihertz: 60_001 },
        ),
        // The first fault is the one reported.
        (
            (Some(5), Some(1), Some(0), Some(0)),
            ParameterFault::RangeOrder { start_mm: 5, end_mm: 1 },
        ),
        ((None, None, Some(0), Some(0)), ParameterFault::Sensitivity { milli: 0 }),
    ];
    for ((min, max, sensitivity, rate), reason) in faults {
        let mut config = XM125Config::default();
        let result = configure_presence_parameters(
            &mut config,
            Some(PresenceRange::Short),
            min,
            max,
            sensitivity,
            rate,
            ProfileMode::Manual,
        );
        assert_eq!(result, Err(RadarError::InvalidParameters { reason }));
        assert_eq!(config, XM125Config::default());
    }
    // The bounds themselves are accepted.
    for (sensitivity, rate) in [(100, 1000), (5000, 60_000)] {
        let mut config = XM125Config::default();
        let result = configure_presence_parameters(
            &mut config,
            None,
            None,
            None,
            Some(sensitivity),
            Some(rate),
            ProfileMode::Auto,
        );
        assert_eq!(result, Ok(()));
    }
}
