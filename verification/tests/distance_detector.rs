use xm125_radar_monitor::distance::decode_result;
use xm125_radar_monitor::distance::measurement;
use xm125_radar_monitor::distance::signed16;
use xm125_radar_monitor::distance::DistanceDetector;
use xm125_radar_monitor::distance::DistanceMeasurement;
use xm125_radar_monitor::error::Operation;
use xm125_radar_monitor::error::RadarError;
use xm125_radar_monitor::host::Reply;
use xm125_radar_monitor::host::Request;
use xm125_radar_monitor::outcome::Outcome;
use xm125_radar_monitor::outcome::Step;

const STATUS: u16 = 3;
const COMMAND: u16 = 256;
const BUSY: u32 = 0x8000_0000;
const READY: u32 = 0x0000_0004;

fn read_status() -> Step {
    Step::Ask { request: Request::ReadRegister { address: STATUS } }
}

#[test]
fn measure_waits_while_the_device_is_busy() {
    let mut detector = DistanceDetector::new();
    let mut now = 0u64;
    let mut step = detector.measure(now);
    assert_eq!(step, read_status());
    // The device stays busy for a while: only pauses and status reads follow.
    for _ in 0..20 {
        step = detector.resume(now, Reply::Word { value: BUSY | READY });
        assert_eq!(step, Step::Ask { request: Request::Sleep { ms: 10 } });
        now += 10;
        step = detector.resume(now, Reply::Done);
        assert_eq!(step, read_status());
    }
    // Only a status word without the busy bit releases the command.
    step = detector.resume(now, Reply::Word { value: READY });
    assert_eq!(
        step,
        Step::Ask { request: Request::WriteRegister { address: COMMAND, value: 2 } }
    );
}

#[test]
fn measure_times_out_when_the_device_stays_busy() {
    let mut detector = DistanceDetector::new();
    let mut now = 1000u64;
    let mut step = detector.measure(now);
    let mut writes = 0;
    loop {
        match step {
            Step::Ask { request: Request::ReadRegister { address } } => {
                assert_eq!(address, STATUS);
                step = detector.resume(now, Reply::Word { value: BUSY });
            }
            Step::Ask { request: Request::Sleep { ms } } => {
                now += ms;
                step = detector.resume(now, Reply::Done);
            }
            Step::Ask { request: Request::WriteRegister { .. } } => {
                writes += 1;
                step = detector.resume(now, Reply::Done);
            }
            other => {
                assert_eq!(
                    other,
                    Step::Failed {
                        error: RadarError::Timeout {
                            operation: Operation::BusyWait,
                            timeout_ms: 5000
                        }
                    }
                );
                break;
            }
        }
    }
    assert_eq!(writes, 0);
    assert_eq!(now, 6000);
}

#[test]
fn measure_reads_the_first_peak() {
    let mut detector = DistanceDetector::new();
    let mut step = detector.measure(0);
    assert_eq!(step, read_status());
    step = detector.resume(0, Reply::Word { value: READY });
    assert_eq!(
        step,
        Step::Ask { request: Request::WriteRegister { address: COMMAND, value: 2 } }
    );
    step = detector.resume(1, Reply::Done);
    assert_eq!(step, read_status());
    step = detector.resume(2, Reply::Word { value: READY });
    assert_eq!(step, Step::Ask { request: Request::ReadRegister { address: 16 } });
    // One peak, 25 degrees.
    step = detector.resume(3, Reply::Word { value: (25 << 16) | 1 });
    assert_eq!(step, Step::Ask { request: Request::ReadRegister { address: 17 } });
    step = detector.resume(4, Reply::Word { value: 1234 });
    assert_eq!(step, Step::Ask { request: Request::ReadRegister { address: 27 } });
    step = detector.resume(5, Reply::Word { value: 5600 });
    assert_eq!(
        step,
        Step::Finished {
            outcome: Outcome::Distance {
                distance: DistanceMeasurement {
                    distance_mm: 1234,
                    strength: 5600,
                    temperature: 25,
                    num_distances: 1,
                    near_start_edge: false,
                    measure_error: false,
                }
            }
        }
    );
}

#[test]
fn a_result_word_that_asks_for_calibration_is_read_again_after_calibrating() {
    let mut detector = DistanceDetector::new();
    let mut requests: Vec<Request> = Vec::new();
    let mut result_words = vec![(25u32 << 16) | 0x200 | 1, (25u32 << 16) | 0x200 | 1, (26u32 << 16) | 2];
    result_words.reverse();
    let mut step = detector.measure(0);
    let outcome = loop {
        match step {
            Step::Ask { request } => {
                requests.push(request);
                let reply = match request {
                    Request::ReadRegister { address: 3 } => Reply::Word { value: 0x10C },
                    Request::ReadRegister { address: 16 } => {
                        Reply::Word { value: result_words.pop().unwrap() }
                    }
                    Request::ReadRegister { address: 17 } => Reply::Word { value: 777 },
                    Request::ReadRegister { address: 27 } => Reply::Word { value: 888 },
                    Request::ReadRegister { .. } => Reply::Failed,
                    _ => Reply::Done,
                };
                step = detector.resume(0, reply);
            }
            Step::Finished { outcome } => break outcome,
            Step::Failed { error } => panic!("unexpected failure {:?}", error),
        }
    };
    assert_eq!(
        outcome,
        Outcome::Distance {
            distance: DistanceMeasurement {
                distance_mm: 777,
                strength: 888,
                temperature: 26,
                num_distances: 2,
                near_start_edge: false,
                measure_error: false,
            }
        }
    );
    let count = |wanted: Request| requests.iter().filter(|r| **r == wanted).count();
    // One measure command, two calibrations, three reads of the result word.
    assert_eq!(count(Request::WriteRegister { address: COMMAND, value: 2 }), 1);
    assert_eq!(count(Request::WriteRegister { address: COMMAND, value: 1 }), 2);
    assert_eq!(count(Request::ReadRegister { address: 16 }), 3);
    // The peak registers are read once, after the last result word.
    assert_eq!(count(Request::ReadRegister { address: 17 }), 1);
    assert_eq!(requests[requests.len() - 2], Request::ReadRegister { address: 17 });
    assert_eq!(requests[requests.len() - 3], Request::ReadRegister { address: 16 });
    // Each calibration writes the range first.
    assert_eq!(count(Request::WriteRegister { address: 64, value: 100 }), 2);
    assert_eq!(count(Request::WriteRegister { address: 65, value: 3000 }), 2);
}

#[test]
fn the_detector_records_when_its_own_calibration_completed() {
    let mut detector = DistanceDetector::new();
    assert_eq!(detector.recalibrated_at(), None);
    let mut result_words = vec![(25u32 << 16) | 0x200 | 1, (25u32 << 16) | 0x200 | 1, (26u32 << 16) | 2];
    result_words.reverse();
    let mut now = 1_000u64;
    let mut calibrations = 0;
    let mut step = detector.measure(now);
    let mut stamps: Vec<Option<u64>> = Vec::new();
    loop {
        match step {
            Step::Ask { request } => {
                let reply = match request {
                    Request::ReadRegister { address: 3 } => Reply::Word { value: 0x10C },
                    Request::ReadRegister { address: 16 } => {
                        stamps.push(detector.recalibrated_at());
                        Reply::Word { value: result_words.pop().unwrap() }
                    }
                    Request::ReadRegister { .. } => Reply::Word { value: 5 },
                    Request::WriteRegister { address: COMMAND, value: 1 } => {
                        // The calibration takes its time.
                        calibrations += 1;
                        now += 1_000 * calibrations;
                        Reply::Done
                    }
                    _ => Reply::Done,
                };
                step = detector.resume(now, reply);
            }
            Step::Finished { .. } => break,
            Step::Failed { error } => panic!("unexpected failure {:?}", error),
        }
    }
    // Nothing is on record before the first calibration; each calibration
    // is on record, with its own time, before the result word is read again.
    assert_eq!(stamps, vec![None, Some(2_000), Some(4_000)]);
    assert_eq!(detector.recalibrated_at(), Some(4_000));
    // The next measurement starts without a record.
    detector.measure(now);
    assert_eq!(detector.recalibrated_at(), None);
}

#[test]
fn a_measurement_without_calibration_records_none() {
    let mut detector = DistanceDetector::new();
    let mut step = detector.measure(500);
    loop {
        match step {
            Step::Ask { request } => {
                let reply = match request {
                    Request::ReadRegister { address: 3 } => Reply::Word { value: 0x10C },
                    Request::ReadRegister { address: 16 } => Reply::Word { value: (25u32 << 16) | 1 },
                    Request::ReadRegister { .. } => Reply::Word { value: 5 },
                    _ => Reply::Done,
                };
                step = detector.resume(700, reply);
            }
            Step::Finished { .. } => break,
            Step::Failed { error } => panic!("unexpected failure {:?}", error),
        }
    }
    assert_eq!(detector.recalibrated_at(), None);
}

/// Drives the detector against registers that accept every write.
fn drive(
    detector: &mut DistanceDetector,
    first: Step,
    status: u32,
    registers: &mut std::collections::HashMap<u16, u32>,
) -> (Result<Outcome, RadarError>, u64) {
    let mut now = 0u64;
    let mut step = first;
    loop {
        match step {
            Step::Ask { request } => {
                let reply = match request {
                    Request::WriteRegister { address, value } => {
                        registers.insert(address, value);
                        Reply::Done
                    }
                    Request::ReadRegister { address: 3 } => Reply::Word { value: status },
                    Request::ReadRegister { address } => {
                        Reply::Word { value: *registers.get(&address).unwrap_or(&0) }
                    }
                    Request::Sleep { ms } => {
                        now += ms;
                        Reply::Done
                    }
                    _ => Reply::Failed,
                };
                step = detector.resume(now, reply);
            }
            Step::Finished { outcome } => return (Ok(outcome), now),
            Step::Failed { error } => return (Err(error), now),
        }
    }
}

#[test]
fn the_configured_range_reads_back_in_millimetres() {
    for (start_mm, length_mm) in [(0u32, 1u32), (100, 2900), (250, 4750), (7, 20_000)] {
        let mut registers = std::collections::HashMap::new();
        let mut detector = DistanceDetector::new();
        let first = detector.configure_range(start_mm, length_mm, 0);
        let (result, _) = drive(&mut detector, first, 0, &mut registers);
        assert_eq!(result, Ok(Outcome::Done));
        assert_eq!(registers[&64], start_mm);
        assert_eq!(registers[&65], start_mm + length_mm);
        assert_eq!(registers.len(), 2);
    }
    // 0.1 m and 2.9 m in millimetres.
    let start_mm = (0.1f32 * 1000.0).round() as u32;
    let length_mm = (2.9f32 * 1000.0).round() as u32;
    assert_eq!((start_mm, start_mm + length_mm), (100, 3000));
}

#[test]
fn a_range_without_length_is_rejected_before_any_write() {
    let mut detector = DistanceDetector::new();
    assert_eq!(
        detector.configure_range(500, 0, 0),
        Step::Failed {
            error: RadarError::InvalidParameters {
                reason: xm125_radar_monitor::error::ParameterFault::RangeOrder {
                    start_mm: 500,
                    end_mm: 500
                }
            }
        }
    );
    assert_eq!(
        detector.configure_range(u32::MAX, 1, 0),
        Step::Failed {
            error: RadarError::InvalidParameters {
                reason: xm125_radar_monitor::error::ParameterFault::RangeOrder {
                    start_mm: u32::MAX,
                    end_mm: u32::MAX
                }
            }
        }
    );
}

#[test]
fn the_configuration_writes_thirteen_registers() {
    let mut registers = std::collections::HashMap::new();
    let mut detector = DistanceDetector::new();
    let mut config = xm125_radar_monitor::config::XM125Config::default();
    config.start_mm = 0;
    config.length_mm = 0;
    config.threshold_sensitivity = 0;
    let first = detector.configure(&config, 0);
    assert_eq!(
        first,
        Step::Ask { request: Request::WriteRegister { address: 64, value: 100 } }
    );
    let (result, _) = drive(&mut detector, first, 0, &mut registers);
    assert_eq!(result, Ok(Outcome::Done));
    let mut written: Vec<(u16, u32)> = registers.into_iter().collect();
    written.sort();
    assert_eq!(
        written,
        vec![
            (64, 100),
            (65, 3000),
            (66, 0),
            (67, 1),
            (68, 15000),
            (69, 5),
            (70, 0),
            (71, 0),
            (72, 100),
            (73, 100000),
            (74, 100),
            (75, 0),
            (76, 0),
        ]
    );
    let mut registers = std::collections::HashMap::new();
    config.start_mm = 250;
    config.length_mm = 750;
    config.threshold_sensitivity = 500;
    let first = detector.configure(&config, 0);
    let (result, _) = drive(&mut detector, first, 0, &mut registers);
    assert_eq!(result, Ok(Outcome::Done));
    assert_eq!((registers[&64], registers[&65], registers[&74]), (250, 1000, 500));
}

#[test]
fn the_tuning_defaults_are_eleven_writes() {
    let mut registers = std::collections::HashMap::new();
    let mut detector = DistanceDetector::new();
    let first = detector.configure_detector(0);
    let (result, _) = drive(&mut detector, first, 0, &mut registers);
    assert_eq!(result, Ok(Outcome::Done));
    assert_eq!(registers.len(), 11);
    assert_eq!(registers[&68], 15000);
    assert_eq!(registers[&73], 100000);
}

#[test]
fn calibration_needs_both_ok_bits() {
    let mut registers = std::collections::HashMap::new();
    let mut detector = DistanceDetector::new();
    // Sensor calibrated and detector created.
    let first = detector.apply_config_and_calibrate(0);
    let (result, _) = drive(&mut detector, first, 0x108, &mut registers);
    assert_eq!(result, Ok(Outcome::Done));
    assert_eq!(registers[&256], 1);
    // The bits that mean the same to the presence detector do not count.
    let first = detector.apply_config_and_calibrate(0);
    let (result, waited) = drive(&mut detector, first, 0x018, &mut registers);
    assert_eq!(
        result,
        Err(RadarError::Timeout { operation: Operation::Calibration, timeout_ms: 2000 })
    );
    assert_eq!(waited, 2000);
}

#[test]
fn a_failed_calibration_names_the_status_word() {
    let mut registers = std::collections::HashMap::new();
    let mut detector = DistanceDetector::new();
    let first = detector.apply_config_and_calibrate(0);
    // The first status word shows an error: the module is reset before the command.
    let (result, _) = drive(&mut detector, first, 0x0100_0000, &mut registers);
    assert_eq!(
        result,
        Err(RadarError::DeviceError {
            fault: xm125_radar_monitor::error::DeviceFault::CalibrationFailed {
                status: 0x0100_0000
            }
        })
    );
}

#[test]
fn a_device_in_error_is_reset_before_a_command() {
    let mut detector = DistanceDetector::new();
    let mut step = detector.write_command_safe(2, 0);
    assert_eq!(step, read_status());
    step = detector.resume(0, Reply::Word { value: 0x0002_0000 });
    assert_eq!(
        step,
        Step::Ask { request: Request::WriteRegister { address: COMMAND, value: 0x5253_5421 } }
    );
    step = detector.resume(0, Reply::Done);
    assert_eq!(step, Step::Ask { request: Request::Sleep { ms: 500 } });
    step = detector.resume(500, Reply::Done);
    assert_eq!(step, read_status());
    // The error is still there: the module was reset once, the command goes out.
    step = detector.resume(500, Reply::Word { value: 0x0002_0000 });
    assert_eq!(
        step,
        Step::Ask { request: Request::WriteRegister { address: COMMAND, value: 2 } }
    );
    step = detector.resume(500, Reply::Done);
    assert_eq!(step, Step::Finished { outcome: Outcome::Done });
    // Reset-module itself is never preceded by a reset.
    let mut step = detector.write_command_safe(0x5253_5421, 0);
    assert_eq!(step, read_status());
    step = detector.resume(0, Reply::Word { value: 0x0002_0000 });
    assert_eq!(
        step,
        Step::Ask { request: Request::WriteRegister { address: COMMAND, value: 0x5253_5421 } }
    );
    step = detector.resume(0, Reply::Done);
    assert_eq!(step, Step::Finished { outcome: Outcome::Done });
}

#[test]
fn a_measurement_is_not_read_from_a_device_in_error() {
    let mut registers = std::collections::HashMap::new();
    registers.insert(16u16, 1u32);
    let mut detector = DistanceDetector::new();
    let mut step = detector.measure(0);
    step = detector.resume(0, Reply::Word { value: READY });
    assert_eq!(
        step,
        Step::Ask { request: Request::WriteRegister { address: COMMAND, value: 2 } }
    );
    step = detector.resume(0, Reply::Done);
    assert_eq!(step, read_status());
    step = detector.resume(0, Reply::Word { value: READY | 0x1000_0000 });
    assert_eq!(
        step,
        Step::Failed {
            error: RadarError::DeviceError {
                fault: xm125_radar_monitor::error::DeviceFault::MeasurementFailed {
                    status: READY | 0x1000_0000
                }
            }
        }
    );
}

#[test]
fn the_measurement_poll_has_a_hard_deadline() {
    let mut registers = std::collections::HashMap::new();
    let mut detector = DistanceDetector::new();
    let first = detector.measure(0);
    // Not busy, no error, but never ready.
    let (result, waited) = drive(&mut detector, first, 0x0000_0001, &mut registers);
    assert_eq!(
        result,
        Err(RadarError::Timeout { operation: Operation::Measurement, timeout_ms: 5000 })
    );
    assert_eq!(waited, 5000);
}

#[test]
fn a_bus_failure_ends_the_operation() {
    let mut detector = DistanceDetector::new();
    let mut step = detector.measure(0);
    assert_eq!(step, read_status());
    step = detector.resume(0, Reply::Failed);
    assert_eq!(step, Step::Failed { error: RadarError::Bus });
    step = detector.resume(0, Reply::Done);
    assert_eq!(step, Step::Failed { error: RadarError::InvalidResponse });
}

#[test]
fn the_result_word_is_unpacked() {
    let word = (0xFFF6u32 << 16) | 0x400 | 0x100 | 0x3;
    let result = decode_result(word);
    assert_eq!(result.num_distances, 3);
    assert!(result.near_start_edge);
    assert!(!result.calibration_needed);
    assert!(result.measure_error);
    assert_eq!(result.temperature, -10);
    assert!(decode_result(0x200).calibration_needed);
    assert_eq!(signed16(0x7FFF), 32767);
    assert_eq!(signed16(0x8000), -32768);
    assert_eq!(signed16(0xFFFF), -1);
    // Without a peak the distance is 0, whatever the peak register holds.
    let nothing = measurement(0x0019_0400, 1234, 50);
    assert_eq!(nothing.distance_mm, 0);
    assert_eq!(nothing.strength, 50);
    assert_eq!(nothing.temperature, 25);
    assert!(nothing.measure_error);
}

#[test]
fn status_words_are_classified() {
    assert!(DistanceDetector::is_busy(0x8000_0000));
    assert!(!DistanceDetector::is_busy(0x7FFF_FFFF));
    assert!(DistanceDetector::has_errors(0x0200_0000));
    assert!(DistanceDetector::has_errors(0x0001_0000));
    assert!(!DistanceDetector::has_errors(0x0000_03FF));
}
