use xm125_radar_monitor::config::PresenceRange;
use xm125_radar_monitor::error::DeviceFault;
use xm125_radar_monitor::error::RadarError;
use xm125_radar_monitor::host::Reply;
use xm125_radar_monitor::host::Request;
use xm125_radar_monitor::ops::Blame;
use xm125_radar_monitor::outcome::Outcome;
use xm125_radar_monitor::outcome::Step;
use xm125_radar_monitor::presence::decode;
use xm125_radar_monitor::presence::Confidence;
use xm125_radar_monitor::presence::PresenceDetector;
use xm125_radar_monitor::presence::PresenceMeasurement;
use xm125_radar_monitor::presence::SignalQuality;

const COMMAND: u16 = 256;
const RESET: u32 = 0x5253_5421;

fn run(detector: &mut PresenceDetector, first: Step, statuses: &[u32]) -> (Result<Outcome, RadarError>, Vec<Request>) {
    let mut log = Vec::new();
    let mut status_reads = 0;
    let mut now = 0u64;
    let mut step = first;
    loop {
        match step {
            Step::Ask { request } => {
                log.push(request);
                let reply = match request {
                    Request::ReadRegister { address: 3 } => {
                        let word = statuses[status_reads.min(statuses.len() - 1)];
                        status_reads += 1;
                        Reply::Word { value: word }
                    }
                    Request::ReadRegister { address } => Reply::Word { value: address as u32 * 100 },
                    Request::Sleep { ms } => {
                        now += ms;
                        Reply::Done
                    }
                    _ => Reply::Done,
                };
                step = detector.resume(now, reply);
            }
            Step::Finished { outcome } => return (Ok(outcome), log),
            Step::Failed { error } => return (Err(error), log),
        }
    }
}

#[test]
fn the_presets_select_profile_and_step_length_from_the_table() {
    let detector = PresenceDetector::new();
    assert_eq!(detector.configure_range(PresenceRange::Short, None, None), Ok((1, 12)));
    assert_eq!(detector.configure_range(PresenceRange::Medium, None, None), Ok((2, 33)));
    assert_eq!(detector.configure_range(PresenceRange::Long, None, None), Ok((4, 91)));
    for range in [PresenceRange::Short, PresenceRange::Medium, PresenceRange::Long] {
        let (_, step_length) = detector.configure_range(range, None, None).unwrap();
        assert!((12..=120).contains(&step_length));
    }
}

#[test]
fn a_custom_range_needs_both_its_start_and_its_length() {
    let detector = PresenceDetector::new();
    assert_eq!(detector.configure_range(PresenceRange::Short, Some(500), Some(6500)), Ok((5, 116)));
    assert_eq!(detector.configure_range(PresenceRange::Long, Some(10), Some(90)), Ok((1, 12)));
    assert_eq!(detector.configure_range(PresenceRange::Long, Some(0), Some(100_000)), Ok((5, 120)));
    assert_eq!(detector.configure_range(PresenceRange::Short, Some(500), None), Ok((1, 12)));
    assert_eq!(detector.configure_range(PresenceRange::Medium, None, Some(6500)), Ok((2, 33)));
    assert_eq!(
        detector.configure_range(PresenceRange::Short, Some(u32::MAX), Some(u32::MAX)),
        Ok((5, 120))
    );
}

#[test]
fn the_profile_table_has_its_steps_at_the_documented_ranges() {
    let expected = [
        (0, 1),
        (700, 1),
        (701, 2),
        (2000, 2),
        (2001, 3),
        (3500, 3),
        (3501, 4),
        (6000, 4),
        (6001, 5),
        (u32::MAX, 5),
    ];
    for (end_mm, profile) in expected {
        assert_eq!(PresenceDetector::calculate_optimal_profile(0, end_mm), profile);
    }
    assert_eq!(PresenceDetector::calculate_optimal_step_length(0), 12);
    assert_eq!(PresenceDetector::calculate_optimal_step_length(719), 12);
    assert_eq!(PresenceDetector::calculate_optimal_step_length(780), 13);
    assert_eq!(PresenceDetector::calculate_optimal_step_length(7200), 120);
    assert_eq!(PresenceDetector::calculate_optimal_step_length(7260), 120);
}

#[test]
fn the_result_registers_decode_to_a_measurement() {
    let measurement = decode(0x1, 2500, 1300, 1000).unwrap();
    assert_eq!(
        measurement,
        PresenceMeasurement {
            presence_detected: true,
            presence_distance_mm: 2500,
            intra_presence_score: 1300,
            inter_presence_score: 1000,
        }
    );
    assert_eq!(measurement.presence_distance_mm as f32 / 1000.0, 2.5);
    assert_eq!(measurement.intra_presence_score as f32 / 1000.0, 1.3);
    assert_eq!(measurement.inter_presence_score as f32 / 1000.0, 1.0);
    assert!(!decode(0x2, 0, 0, 0).unwrap().presence_detected);
}

#[test]
fn a_result_word_with_the_detector_error_bit_is_rejected() {
    assert_eq!(
        decode(0x8001, 2500, 1300, 1000),
        Err(RadarError::DeviceError { fault: DeviceFault::PresenceDetectorError })
    );
}

#[test]
fn a_measurement_reads_the_four_result_registers() {
    let mut detector = PresenceDetector::new();
    let first = detector.measure(0);
    let (result, log) = run(&mut detector, first, &[0]);
    assert_eq!(
        log,
        vec![
            Request::ReadRegister { address: 3 },
            Request::ReadRegister { address: 16 },
            Request::ReadRegister { address: 17 },
            Request::ReadRegister { address: 18 },
            Request::ReadRegister { address: 19 },
        ]
    );
    assert_eq!(
        result,
        Ok(Outcome::Presence {
            presence: PresenceMeasurement {
                presence_detected: false,
                presence_distance_mm: 1700,
                intra_presence_score: 1800,
                inter_presence_score: 1900,
            }
        })
    );
}

#[test]
fn a_detector_in_error_is_not_measured() {
    let mut detector = PresenceDetector::new();
    let first = detector.measure(0);
    let (result, log) = run(&mut detector, first, &[0x0010_0000]);
    assert_eq!(
        result,
        Err(RadarError::DeviceError {
            fault: DeviceFault::MeasurementFailed { status: 0x0010_0000 }
        })
    );
    assert_eq!(log, vec![Request::ReadRegister { address: 3 }]);
}

#[test]
fn a_busy_detector_is_not_measured() {
    let mut detector = PresenceDetector::new();
    let first = detector.measure(0);
    let (result, log) = run(&mut detector, first, &[0x8000_0000, 0x8000_00FF, 0x0000_00FF]);
    assert_eq!(
        log,
        vec![
            Request::ReadRegister { address: 3 },
            Request::Sleep { ms: 10 },
            Request::ReadRegister { address: 3 },
            Request::Sleep { ms: 10 },
            Request::ReadRegister { address: 3 },
            Request::ReadRegister { address: 16 },
            Request::ReadRegister { address: 17 },
            Request::ReadRegister { address: 18 },
            Request::ReadRegister { address: 19 },
        ]
    );
    assert!(matches!(result, Ok(Outcome::Presence { .. })));
}

#[test]
fn a_detector_that_stays_busy_times_the_measurement_out() {
    let mut detector = PresenceDetector::new();
    let first = detector.measure(0);
    let (result, log) = run(&mut detector, first, &[0x8000_0000]);
    assert_eq!(
        result,
        Err(RadarError::Timeout {
            operation: xm125_radar_monitor::error::Operation::Measurement,
            timeout_ms: 5000
        })
    );
    assert!(log.iter().all(|r| !matches!(r, Request::ReadRegister { address } if *address != 3)));
    assert_eq!(log.iter().filter(|r| matches!(r, Request::ReadRegister { .. })).count(), 500);
}

#[test]
fn a_busy_detector_in_error_is_waited_for_before_it_is_judged() {
    let mut detector = PresenceDetector::new();
    let first = detector.measure(0);
    let (result, log) = run(&mut detector, first, &[0x8010_0000, 0x0010_0000]);
    assert_eq!(
        result,
        Err(RadarError::DeviceError {
            fault: DeviceFault::MeasurementFailed { status: 0x0010_0000 }
        })
    );
    assert_eq!(
        log,
        vec![
            Request::ReadRegister { address: 3 },
            Request::Sleep { ms: 10 },
            Request::ReadRegister { address: 3 },
        ]
    );
}

#[test]
fn the_range_is_written_after_the_reset_and_before_apply() {
    let mut detector = PresenceDetector::new();
    let first = detector.apply_complete_configuration(300, 5500, 0);
    let (result, log) = run(&mut detector, first, &[0x0000_00FF]);
    assert_eq!(result, Ok(Outcome::Done));
    let writes: Vec<(u16, u32)> = log
        .iter()
        .filter_map(|r| match r {
            Request::WriteRegister { address, value } => Some((*address, *value)),
            _ => None,
        })
        .collect();
    assert_eq!(
        writes,
        vec![
            (COMMAND, RESET),
            (78, 0),
            (79, 0),
            (80, 4),
            (81, 91),
            (87, 20000),
            (82, 300),
            (83, 5500),
            (COMMAND, 1),
            (COMMAND, 2),
        ]
    );
    // Every command is preceded by a read of the status register.
    for (i, request) in log.iter().enumerate() {
        if let Request::WriteRegister { address: COMMAND, .. } = request {
            assert_eq!(log[i - 1], Request::ReadRegister { address: 3 });
        }
    }
    let reset = log.iter().position(|r| *r == Request::WriteRegister { address: COMMAND, value: RESET }).unwrap();
    assert_eq!(log[reset + 1], Request::Sleep { ms: 200 });
}

#[test]
fn a_long_range_is_applied_with_profile_five() {
    let mut detector = PresenceDetector::new();
    let first = detector.apply_complete_configuration(500, 7000, 0);
    let (result, log) = run(&mut detector, first, &[0]);
    assert_eq!(result, Ok(Outcome::Done));
    assert!(log.contains(&Request::WriteRegister { address: 80, value: 5 }));
    assert!(log.contains(&Request::WriteRegister { address: 81, value: 116 }));
}

#[test]
fn a_configuration_that_the_detector_rejects_fails_the_sequence() {
    let mut detector = PresenceDetector::new();
    let first = detector.apply_complete_configuration(300, 5500, 0);
    // Status reads: before the reset, after it, before apply, after apply, the check.
    let (result, log) = run(&mut detector, first, &[0, 0, 0, 0, 0x0080_0000]);
    assert_eq!(
        result,
        Err(RadarError::DeviceError {
            fault: Blame::Configuration.fault(0x0080_0000)
        })
    );
    assert_eq!(
        result,
        Err(RadarError::DeviceError {
            fault: DeviceFault::ConfigurationRejected { status: 0x0080_0000 }
        })
    );
    assert!(!log.contains(&Request::WriteRegister { address: COMMAND, value: 2 }));
}

#[test]
fn thresholds_are_written_with_or_without_the_manual_profile() {
    let mut detector = PresenceDetector::new();
    let first = detector.configure_thresholds(1300, 1000, 12000, 4, 91, true, 300, 5500, 0);
    let (result, log) = run(&mut detector, first, &[0]);
    assert_eq!(result, Ok(Outcome::Done));
    assert_eq!(
        log,
        vec![
            Request::WriteRegister { address: 82, value: 300 },
            Request::WriteRegister { address: 83, value: 5500 },
            Request::WriteRegister { address: 78, value: 1 },
            Request::WriteRegister { address: 79, value: 1 },
            Request::WriteRegister { address: 86, value: 1 },
            Request::WriteRegister { address: 85, value: 32 },
            Request::WriteRegister { address: 87, value: 20000 },
            Request::WriteRegister { address: 70, value: 1300 },
            Request::WriteRegister { address: 71, value: 1000 },
            Request::WriteRegister { address: 69, value: 12000 },
        ]
    );
    let first = detector.configure_thresholds(1300, 1000, 12000, 4, 91, false, 300, 5500, 0);
    let (result, log) = run(&mut detector, first, &[0]);
    assert_eq!(result, Ok(Outcome::Done));
    assert_eq!(log.len(), 12);
    assert_eq!(log[2], Request::WriteRegister { address: 78, value: 0 });
    assert_eq!(log[3], Request::WriteRegister { address: 79, value: 0 });
    assert_eq!(log[4], Request::WriteRegister { address: 80, value: 4 });
    assert_eq!(log[5], Request::WriteRegister { address: 81, value: 91 });
}

#[test]
fn the_detector_is_started_and_stopped() {
    let mut detector = PresenceDetector::new();
    let first = detector.start_detector(0);
    let (result, log) = run(&mut detector, first, &[0]);
    assert_eq!(result, Ok(Outcome::Done));
    assert!(log.contains(&Request::WriteRegister { address: COMMAND, value: 2 }));
    let first = detector.start_detector(0);
    let (result, _) = run(&mut detector, first, &[0, 0, 0x1000_0000]);
    assert_eq!(
        result,
        Err(RadarError::DeviceError {
            fault: DeviceFault::DetectorStartFailed { status: 0x1000_0000 }
        })
    );
    let first = detector.stop_detector(0);
    let (result, log) = run(&mut detector, first, &[0]);
    assert_eq!(result, Ok(Outcome::Done));
    assert!(log.contains(&Request::WriteRegister { address: COMMAND, value: 3 }));
    let first = detector.apply_configuration(0);
    let (result, log) = run(&mut detector, first, &[0]);
    assert_eq!(result, Ok(Outcome::Done));
    assert!(log.contains(&Request::WriteRegister { address: COMMAND, value: 1 }));
    let first = detector.reset_module(0);
    let (result, log) = run(&mut detector, first, &[0]);
    assert_eq!(result, Ok(Outcome::Done));
    assert_eq!(
        log,
        vec![
            Request::WriteRegister { address: COMMAND, value: RESET },
            Request::Sleep { ms: 200 }
        ]
    );
}

#[test]
fn the_wait_for_the_busy_bit_is_bounded() {
    let mut detector = PresenceDetector::new();
    let first = detector.wait_for_not_busy(0);
    let (result, log) = run(&mut detector, first, &[0x8000_0000, 0x8000_0000, 0]);
    assert_eq!(result, Ok(Outcome::Done));
    assert_eq!(log.len(), 5);
    let first = detector.wait_for_not_busy(0);
    let (result, _) = run(&mut detector, first, &[0x8000_0000]);
    assert_eq!(
        result,
        Err(RadarError::Timeout {
            operation: xm125_radar_monitor::error::Operation::BusyWait,
            timeout_ms: 5000
        })
    );
    assert!(PresenceDetector::configuration_ok(0x0000_00FF));
    assert!(!PresenceDetector::configuration_ok(0x1000_0000));
    assert!(!PresenceDetector::configuration_ok(0x0002_0000));
}

#[test]
fn presence_status_words_are_classified() {
    assert!(PresenceDetector::is_busy(0x8000_0000));
    assert!(PresenceDetector::has_errors(0x0008_0000));
    // Bit 24 is an error of the distance detector only.
    assert!(!PresenceDetector::has_errors(0x0100_0000));
}

#[test]
fn scores_are_graded() {
    let graded = |detected: bool, intra: u32, inter: u32| {
        let m = PresenceMeasurement {
            presence_detected: detected,
            presence_distance_mm: 0,
            intra_presence_score: intra,
            inter_presence_score: inter,
        };
        (m.signal_quality(), m.confidence())
    };
    assert_eq!(graded(true, 3001, 0), (SignalQuality::Strong, Confidence::High));
    assert_eq!(graded(true, 0, 3000), (SignalQuality::Strong, Confidence::Medium));
    assert_eq!(graded(true, 2000, 1501), (SignalQuality::Medium, Confidence::Medium));
    assert_eq!(graded(true, 1500, 1000), (SignalQuality::Medium, Confidence::Low));
    assert_eq!(graded(true, 501, 1000), (SignalQuality::Weak, Confidence::Low));
    assert_eq!(graded(true, 500, 0), (SignalQuality::Absent, Confidence::Low));
    assert_eq!(graded(false, 5000, 0), (SignalQuality::Strong, Confidence::Absent));
    assert_eq!(SignalQuality::Strong.label(), "STRONG");
    assert_eq!(SignalQuality::Absent.label(), "NONE");
    assert_eq!(Confidence::High.label(), "HIGH");
    assert_eq!(Confidence::Absent.label(), "NONE");
}
