use std::collections::HashMap;
use std::collections::HashSet;
use std::collections::VecDeque;

use xm125_radar_monitor::config::DetectorMode;
use xm125_radar_monitor::config::ProfileMode;
use xm125_radar_monitor::config::XM125Config;
use xm125_radar_monitor::distance::DistanceMeasurement;
use xm125_radar_monitor::error::ParameterFault;
use xm125_radar_monitor::error::RadarError;
use xm125_radar_monitor::gpio::GpioValue;
use xm125_radar_monitor::gpio::XM125GpioPins;
use xm125_radar_monitor::host::Reply;
use xm125_radar_monitor::host::Request;
use xm125_radar_monitor::outcome::CombinedMeasurement;
use xm125_radar_monitor::outcome::Outcome;
use xm125_radar_monitor::outcome::Step;
use xm125_radar_monitor::presence::PresenceMeasurement;
use xm125_radar_monitor::radar::calibration_due;
use xm125_radar_monitor::radar::XM125Radar;

const STATUS: u16 = 3;
const COMMAND: u16 = 256;
const CALIBRATED: u32 = 0x0000_010F;

/// A module and its pins, as far as a session can tell.
struct Bench {
    now: u64,
    registers: HashMap<u16, u32>,
    statuses: VecDeque<u32>,
    failing_reads: usize,
    failing_writes: bool,
    exported: HashSet<u32>,
    log: Vec<Request>,
}

impl Bench {
    fn new() -> Bench {
        let mut registers = HashMap::new();
        registers.insert(STATUS, CALIBRATED);
        Bench {
            now: 0,
            registers,
            statuses: VecDeque::new(),
            failing_reads: 0,
            failing_writes: false,
            exported: HashSet::new(),
            log: Vec::new(),
        }
    }

    fn perform(&mut self, request: Request) -> Reply {
        self.log.push(request);
        match request {
            Request::WriteRegister { address, value } => {
                if self.failing_writes {
                    Reply::Failed
                } else {
                    self.registers.insert(address, value);
                    Reply::Done
                }
            }
            Request::ReadRegister { address } => {
                if self.failing_reads > 0 {
                    self.failing_reads -= 1;
                    return Reply::Failed;
                }
                if address == STATUS {
                    if let Some(word) = self.statuses.pop_front() {
                        return Reply::Word { value: word };
                    }
                }
                Reply::Word { value: *self.registers.get(&address).unwrap_or(&0) }
            }
            Request::Sleep { ms } => {
                self.now += ms;
                Reply::Done
            }
            Request::ProbePin { pin } => Reply::Present { exported: self.exported.contains(&pin) },
            Request::ExportPin { pin } => {
                self.exported.insert(pin);
                Reply::Done
            }
            Request::SetPinDirection { pin, .. } | Request::SetPinValue { pin, .. } => {
                if self.exported.contains(&pin) {
                    Reply::Done
                } else {
                    Reply::Failed
                }
            }
            _ => Reply::Failed,
        }
    }

    fn run(&mut self, radar: &mut XM125Radar, first: Step) -> Result<Outcome, RadarError> {
        let mut step = first;
        for _ in 0..100_000 {
            match step {
                Step::Ask { request } => {
                    let reply = self.perform(request);
                    step = radar.resume(self.now, reply);
                }
                Step::Finished { outcome } => return Ok(outcome),
                Step::Failed { error } => return Err(error),
            }
        }
        panic!("the session does not come to an end");
    }

    fn writes_of(&self, address: u16, value: u32) -> usize {
        self.log
            .iter()
            .filter(|r| **r == Request::WriteRegister { address, value })
            .count()
    }

    fn reads_of(&self, address: u16) -> usize {
        self.log
            .iter()
            .filter(|r| **r == Request::ReadRegister { address })
            .count()
    }

    fn position(&self, request: Request) -> Option<usize> {
        self.log.iter().position(|r| *r == request)
    }
}

fn connected(bench: &mut Bench) -> XM125Radar {
    let mut radar = XM125Radar::new(XM125GpioPins::default());
    let first = radar.connect(bench.now);
    assert_eq!(bench.run(&mut radar, first), Ok(Outcome::Done));
    bench.log.clear();
    radar
}

fn one_peak(bench: &mut Bench) {
    bench.registers.insert(16, (25 << 16) | 1);
    bench.registers.insert(17, 1500);
    bench.registers.insert(27, 4200);
}

#[test]
fn connect_succeeds_on_the_first_probe() {
    let mut bench = Bench::new();
    let mut radar = XM125Radar::new(XM125GpioPins::default());
    assert!(!radar.is_connected());
    let first = radar.connect(0);
    assert_eq!(bench.run(&mut radar, first), Ok(Outcome::Done));
    assert!(radar.is_connected());
    assert_eq!(bench.log, vec![Request::ReadRegister { address: STATUS }]);
}

#[test]
fn connect_reports_connected_when_the_module_answers_after_the_reset() {
    let mut bench = Bench::new();
    bench.failing_reads = 1;
    let mut radar = XM125Radar::new(XM125GpioPins::default());
    let first = radar.connect(0);
    assert_eq!(first, Step::Ask { request: Request::ReadRegister { address: STATUS } });
    assert_eq!(bench.run(&mut radar, first), Ok(Outcome::Done));
    assert!(radar.is_connected());
    // Two probes, with the reset pulse and the boot wait between them.
    assert_eq!(bench.reads_of(STATUS), 2);
    let low = bench.position(Request::SetPinValue { pin: 124, level: GpioValue::Low }).unwrap();
    let high = bench.position(Request::SetPinValue { pin: 124, level: GpioValue::High }).unwrap();
    let boot = bench.position(Request::SetPinValue { pin: 141, level: GpioValue::Low }).unwrap();
    let wait = bench.position(Request::Sleep { ms: 1000 }).unwrap();
    assert!(boot < low && low < high && high < wait);
    assert_eq!(bench.log[low + 1], Request::Sleep { ms: 10 });
    assert_eq!(bench.log[high + 1], Request::Sleep { ms: 100 });
    assert_eq!(*bench.log.last().unwrap(), Request::ReadRegister { address: STATUS });
    assert_eq!(bench.log[bench.log.len() - 2], Request::Sleep { ms: 1000 });
}

#[test]
fn connect_fails_only_after_the_second_probe() {
    let mut bench = Bench::new();
    bench.failing_reads = 2;
    let mut radar = XM125Radar::new(XM125GpioPins::default());
    let first = radar.connect(0);
    assert_eq!(bench.run(&mut radar, first), Err(RadarError::NotConnected));
    assert!(!radar.is_connected());
    assert_eq!(bench.reads_of(STATUS), 2);
}

#[test]
fn auto_connect_gives_up_after_three_attempts_and_resets_once() {
    let mut bench = Bench::new();
    bench.failing_reads = 100;
    let mut radar = XM125Radar::new(XM125GpioPins::default());
    let first = radar.auto_connect(0);
    assert_eq!(bench.run(&mut radar, first), Err(RadarError::NotConnected));
    assert_eq!(bench.reads_of(STATUS), 3);
    let resets = bench
        .log
        .iter()
        .filter(|r| **r == Request::SetPinValue { pin: 124, level: GpioValue::Low })
        .count();
    assert_eq!(resets, 1);
    let pauses: Vec<u64> = bench
        .log
        .iter()
        .filter_map(|r| match r {
            Request::Sleep { ms } if *ms >= 500 => Some(*ms),
            _ => None,
        })
        .collect();
    assert_eq!(pauses, vec![1000, 500]);
}

#[test]
fn auto_connect_configures_and_calibrates_the_distance_detector() {
    let mut bench = Bench::new();
    let mut radar = XM125Radar::new(XM125GpioPins::default());
    let first = radar.auto_connect(0);
    assert_eq!(bench.run(&mut radar, first), Ok(Outcome::Done));
    assert!(radar.is_connected());
    assert!(radar.is_calibrated());
    assert_eq!(bench.registers[&64], 100);
    assert_eq!(bench.registers[&65], 3000);
    assert_eq!(bench.registers[&74], 100);
    assert_eq!(bench.registers[&69], 5);
    assert_eq!(bench.writes_of(COMMAND, 1), 1);
}

#[test]
fn measurement_calibrates_when_the_calibration_is_stale() {
    let mut bench = Bench::new();
    one_peak(&mut bench);
    let mut radar = connected(&mut bench);

    // Never calibrated: the first measurement calibrates.
    bench.now = 10_000;
    let first = radar.measure_distance(bench.now);
    let expected = DistanceMeasurement {
        distance_mm: 1500,
        strength: 4200,
        temperature: 25,
        num_distances: 1,
        near_start_edge: false,
        measure_error: false,
    };
    assert_eq!(bench.run(&mut radar, first), Ok(Outcome::Distance { distance: expected }));
    assert_eq!(bench.writes_of(COMMAND, 1), 1);
    assert_eq!(bench.writes_of(COMMAND, 2), 1);
    let calibrated_at = radar.last_calibration().unwrap();

    // Two minutes later the calibration still holds.
    bench.log.clear();
    bench.now = calibrated_at + 2 * 60 * 1000;
    let first = radar.measure_distance(bench.now);
    assert_eq!(bench.run(&mut radar, first), Ok(Outcome::Distance { distance: expected }));
    assert_eq!(bench.writes_of(COMMAND, 1), 0);
    assert_eq!(bench.writes_of(COMMAND, 2), 1);
    assert_eq!(radar.last_calibration(), Some(calibrated_at));

    // Six minutes after the calibration it is stale: calibrate, then measure.
    bench.log.clear();
    bench.now = calibrated_at + 6 * 60 * 1000;
    let first = radar.measure_distance(bench.now);
    assert_eq!(bench.run(&mut radar, first), Ok(Outcome::Distance { distance: expected }));
    assert_eq!(bench.writes_of(COMMAND, 1), 1);
    let calibrate = bench.position(Request::WriteRegister { address: COMMAND, value: 1 }).unwrap();
    let measure = bench.position(Request::WriteRegister { address: COMMAND, value: 2 }).unwrap();
    assert!(calibrate < measure);
    assert!(radar.last_calibration().unwrap() >= bench.now - 1000);
}

#[test]
fn a_calibration_within_a_measurement_renews_the_calibration() {
    let mut bench = Bench::new();
    one_peak(&mut bench);
    let mut radar = connected(&mut bench);
    let expected = DistanceMeasurement {
        distance_mm: 1500,
        strength: 4200,
        temperature: 25,
        num_distances: 1,
        near_start_edge: false,
        measure_error: false,
    };
    bench.now = 10_000;
    let first = radar.measure_distance(bench.now);
    assert_eq!(bench.run(&mut radar, first), Ok(Outcome::Distance { distance: expected }));
    let calibrated_at = radar.last_calibration().unwrap();

    // Four minutes later the session's calibration still holds, but the
    // result word asks for one: the detector calibrates by itself, which
    // takes two seconds.
    bench.log.clear();
    let begun = calibrated_at + 4 * 60 * 1000;
    bench.now = begun;
    bench.registers.insert(16, (25 << 16) | 0x200 | 1);
    let mut step = radar.measure_distance(bench.now);
    let outcome = loop {
        match step {
            Step::Ask { request } => {
                let reply = bench.perform(request);
                if request == (Request::WriteRegister { address: COMMAND, value: 1 }) {
                    bench.registers.insert(16, (25 << 16) | 1);
                    bench.now += 2_000;
                }
                step = radar.resume(bench.now, reply);
            }
            Step::Finished { outcome } => break Ok(outcome),
            Step::Failed { error } => break Err(error),
        }
    };
    assert_eq!(outcome, Ok(Outcome::Distance { distance: expected }));
    assert_eq!(bench.writes_of(COMMAND, 1), 1);
    assert_eq!(bench.writes_of(COMMAND, 2), 1);
    assert_eq!(bench.reads_of(16), 2);
    assert!(radar.is_calibrated());
    assert_eq!(radar.last_calibration(), Some(begun + 2_000));

    // Four minutes after that calibration, eight after the first, the
    // calibration is not stale: the measurement begins at once.
    bench.log.clear();
    bench.now = begun + 2_000 + 4 * 60 * 1000;
    let first = radar.measure_distance(bench.now);
    assert_eq!(bench.run(&mut radar, first), Ok(Outcome::Distance { distance: expected }));
    assert_eq!(bench.writes_of(COMMAND, 1), 0);
    assert_eq!(bench.writes_of(COMMAND, 2), 1);
    assert_eq!(radar.last_calibration(), Some(begun + 2_000));
}

#[test]
fn a_calibration_within_a_failed_measurement_stays_on_the_books() {
    let mut bench = Bench::new();
    one_peak(&mut bench);
    let mut radar = connected(&mut bench);
    bench.now = 10_000;
    let first = radar.measure_distance(bench.now);
    assert!(bench.run(&mut radar, first).is_ok());
    let calibrated_at = radar.last_calibration().unwrap();

    let begun = calibrated_at + 60_000;
    bench.now = begun;
    bench.registers.insert(16, (25 << 16) | 0x200 | 1);
    let mut step = radar.measure_distance(bench.now);
    let mut calibrating = false;
    let outcome = loop {
        match step {
            Step::Ask { request } => {
                // The bus fails at the read of the result word that
                // follows the calibration.
                if calibrating && request == (Request::ReadRegister { address: 16 }) {
                    bench.failing_reads = 1;
                }
                let reply = bench.perform(request);
                if request == (Request::WriteRegister { address: COMMAND, value: 1 }) {
                    calibrating = true;
                    bench.now += 500;
                }
                step = radar.resume(bench.now, reply);
            }
            Step::Finished { outcome } => break Ok(outcome),
            Step::Failed { error } => break Err(error),
        }
    };
    assert_eq!(outcome, Err(RadarError::Bus));
    assert!(radar.is_calibrated());
    assert_eq!(radar.last_calibration(), Some(begun + 500));
}

#[test]
fn calibration_is_due_after_five_minutes() {
    let now = 1_000_000;
    assert!(calibration_due(true, Some(now - 6 * 60 * 1000), now));
    assert!(!calibration_due(true, Some(now - 2 * 60 * 1000), now));
    assert!(!calibration_due(true, Some(now - 300_000), now));
    assert!(calibration_due(true, Some(now - 300_001), now));
    assert!(calibration_due(false, Some(now), now));
    assert!(calibration_due(true, None, now));
}

#[test]
fn sensitivity_outside_its_band_is_rejected_before_any_write() {
    let mut bench = Bench::new();
    let mut radar = connected(&mut bench);
    let before = radar.config;
    let step = radar.configure_presence_parameters(
        None,
        None,
        None,
        Some(6000),
        None,
        ProfileMode::Auto,
        bench.now,
    );
    assert_eq!(
        step,
        Step::Failed {
            error: RadarError::InvalidParameters {
                reason: ParameterFault::Sensitivity { milli: 6000 }
            }
        }
    );
    assert_eq!(radar.config, before);
    assert!(bench.log.is_empty());
}

#[test]
fn valid_presence_parameters_are_written_and_applied() {
    let mut bench = Bench::new();
    let mut radar = connected(&mut bench);
    let step = radar.configure_presence_parameters(
        None,
        Some(500),
        Some(2500),
        Some(2000),
        Some(10_000),
        ProfileMode::Manual,
        bench.now,
    );
    assert_eq!(bench.run(&mut radar, step), Ok(Outcome::Done));
    assert_eq!(radar.get_detector_mode(), DetectorMode::Presence);
    assert_eq!(radar.config.intra_detection_threshold, 2000);
    assert_eq!(radar.config.inter_detection_threshold, 1600);
    assert_eq!(bench.registers[&82], 500);
    assert_eq!(bench.registers[&83], 2500);
    assert_eq!(bench.registers[&70], 2000);
    assert_eq!(bench.registers[&71], 1600);
    assert_eq!(bench.registers[&69], 10_000);
    // The range is written again after the reset and before apply-configuration.
    let reset = bench
        .position(Request::WriteRegister { address: COMMAND, value: 0x5253_5421 })
        .unwrap();
    let apply = bench.position(Request::WriteRegister { address: COMMAND, value: 1 }).unwrap();
    let start = bench.position(Request::WriteRegister { address: COMMAND, value: 2 }).unwrap();
    let range: Vec<usize> = bench
        .log
        .iter()
        .enumerate()
        .filter(|(_, r)| **r == Request::WriteRegister { address: 83, value: 2500 })
        .map(|(i, _)| i)
        .collect();
    assert_eq!(range.len(), 2);
    assert!(range[0] < reset);
    assert!(reset < range[1] && range[1] < apply && apply < start);
}

#[test]
fn measurements_need_a_connection() {
    let mut bench = Bench::new();
    let mut radar = XM125Radar::new(XM125GpioPins::default());
    let mut config = XM125Config::default();
    config.auto_reconnect = false;
    radar.set_config(config);
    let step = radar.measure_distance(0);
    assert_eq!(step, Step::Failed { error: RadarError::NotConnected });
    let step = radar.measure_breathing(0);
    assert_eq!(step, Step::Failed { error: RadarError::NotConnected });
    assert!(bench.log.is_empty());
    bench.failing_reads = 100;
    config.auto_reconnect = true;
    radar.set_config(config);
    let first = radar.measure_presence(0);
    assert_eq!(bench.run(&mut radar, first), Err(RadarError::NotConnected));
}

#[test]
fn presence_measurement_needs_the_presence_mode() {
    let mut bench = Bench::new();
    let mut radar = connected(&mut bench);
    let step = radar.measure_presence(bench.now);
    assert_eq!(
        step,
        Step::Failed {
            error: RadarError::InvalidParameters { reason: ParameterFault::NotPresenceMode }
        }
    );
    let step = radar.measure_combined(bench.now);
    assert_eq!(
        step,
        Step::Failed {
            error: RadarError::InvalidParameters { reason: ParameterFault::NotCombinedMode }
        }
    );
}

#[test]
fn switching_the_mode_of_a_connected_session_configures_the_detector() {
    let mut bench = Bench::new();
    let mut radar = connected(&mut bench);
    let step = radar.set_detector_mode(DetectorMode::Distance, bench.now);
    assert_eq!(step, Step::Finished { outcome: Outcome::Done });
    assert!(bench.log.is_empty());
    let step = radar.set_detector_mode(DetectorMode::Breathing, bench.now);
    assert_eq!(bench.run(&mut radar, step), Ok(Outcome::Done));
    assert_eq!(radar.get_detector_mode(), DetectorMode::Breathing);
    assert_eq!(bench.registers[&64], 100);
    assert_eq!(bench.registers[&65], 3000);
    assert_eq!(bench.registers[&72], 12_000);
    assert_eq!(bench.registers[&75], 3);
    assert_eq!(bench.writes_of(COMMAND, 1), 1);
}

#[test]
fn setting_the_mode_of_a_disconnected_session_sends_nothing() {
    let mut radar = XM125Radar::new(XM125GpioPins::default());
    let step = radar.set_detector_mode(DetectorMode::Presence, 0);
    assert_eq!(step, Step::Finished { outcome: Outcome::Done });
    assert_eq!(radar.get_detector_mode(), DetectorMode::Presence);
}

#[test]
fn disconnect_never_fails() {
    let mut bench = Bench::new();
    let mut radar = connected(&mut bench);
    bench.failing_writes = true;
    let step = radar.disconnect(bench.now);
    assert_eq!(
        step,
        Step::Ask { request: Request::WriteRegister { address: COMMAND, value: 0x5253_5421 } }
    );
    assert_eq!(bench.run(&mut radar, step), Ok(Outcome::Done));
    assert!(!radar.is_connected());
    let step = radar.disconnect(bench.now);
    assert_eq!(step, Step::Finished { outcome: Outcome::Done });
}

#[test]
fn combined_measurement_keeps_the_half_that_succeeded() {
    let mut bench = Bench::new();
    one_peak(&mut bench);
    let mut radar = connected(&mut bench);
    let step = radar.set_detector_mode(DetectorMode::Combined, bench.now);
    assert_eq!(bench.run(&mut radar, step), Ok(Outcome::Done));
    // The presence result word carries the detector-error bit.
    bench.registers.insert(16, (25 << 16) | 0x8000 | 1);
    let step = radar.measure_combined(bench.now);
    let outcome = bench.run(&mut radar, step).unwrap();
    match outcome {
        Outcome::Combined { combined: CombinedMeasurement { distance, presence } } => {
            assert_eq!(distance.unwrap().distance_mm, 1500);
            assert_eq!(presence, None);
        }
        other => panic!("unexpected outcome {:?}", other),
    }
    bench.registers.insert(16, 1);
    bench.registers.insert(18, 1300);
    bench.registers.insert(19, 1000);
    let step = radar.measure_combined(bench.now);
    let outcome = bench.run(&mut radar, step).unwrap();
    match outcome {
        Outcome::Combined { combined } => {
            assert_eq!(
                combined.presence,
                Some(PresenceMeasurement {
                    presence_detected: true,
                    presence_distance_mm: 1500,
                    intra_presence_score: 1300,
                    inter_presence_score: 1000,
                })
            );
            assert!(combined.distance.is_some());
        }
        other => panic!("unexpected outcome {:?}", other),
    }
}

#[test]
fn status_info_and_application_id_are_read() {
    let mut bench = Bench::new();
    bench.registers.insert(0, 0x0001_0203);
    bench.registers.insert(65535, 2);
    let mut radar = XM125Radar::new(XM125GpioPins::default());
    let step = radar.get_status(0);
    assert_eq!(bench.run(&mut radar, step), Ok(Outcome::Status { word: CALIBRATED }));
    assert!(radar.is_connected());
    assert_eq!(bench.reads_of(STATUS), 2);
    let step = radar.get_info(0);
    assert_eq!(
        bench.run(&mut radar, step),
        Ok(Outcome::Info { version: 0x0001_0203, application_id: 2 })
    );
    let step = radar.read_application_id(0);
    assert_eq!(bench.run(&mut radar, step), Ok(Outcome::ApplicationId { id: 2 }));
}

#[test]
fn continuous_monitoring_is_switched_on_and_off() {
    let mut bench = Bench::new();
    let mut radar = connected(&mut bench);
    assert!(!radar.is_continuous_monitoring());
    let step = radar.stop_continuous_monitoring(0);
    assert_eq!(step, Step::Finished { outcome: Outcome::Done });
    let step = radar.start_continuous_monitoring(0);
    assert_eq!(bench.run(&mut radar, step), Ok(Outcome::Done));
    assert!(radar.is_continuous_monitoring());
    assert_eq!(bench.writes_of(COMMAND, 3), 1);
    let step = radar.stop_continuous_monitoring(0);
    assert_eq!(bench.run(&mut radar, step), Ok(Outcome::Done));
    assert!(!radar.is_continuous_monitoring());
}

#[test]
fn a_bus_that_fails_during_a_measurement_disconnects_the_session() {
    let mut bench = Bench::new();
    one_peak(&mut bench);
    let mut radar = connected(&mut bench);
    let first = radar.measure_distance(bench.now);
    assert_eq!(bench.run(&mut radar, first), Ok(Outcome::Distance {
        distance: DistanceMeasurement {
            distance_mm: 1500,
            strength: 4200,
            temperature: 25,
            num_distances: 1,
            near_start_edge: false,
            measure_error: false,
        }
    }));
    // The next measurement meets a dead bus: it fails, and is not retried.
    bench.log.clear();
    bench.failing_reads = 1;
    let first = radar.measure_distance(bench.now);
    assert_eq!(bench.run(&mut radar, first), Err(RadarError::Bus));
    assert_eq!(bench.log.len(), 1);
    assert!(!radar.is_connected());
    // The one after it reconnects by itself.
    let first = radar.measure_distance(bench.now);
    assert!(bench.run(&mut radar, first).is_ok());
    assert!(radar.is_connected());
}

#[test]
fn a_timeout_leaves_the_session_connected() {
    let mut bench = Bench::new();
    let mut radar = connected(&mut bench);
    bench.registers.insert(STATUS, 0x8000_0000);
    let first = radar.measure_distance(bench.now);
    assert!(matches!(bench.run(&mut radar, first), Err(RadarError::Timeout { .. })));
    assert!(radar.is_connected());
    assert_eq!(bench.writes_of(COMMAND, 1), 0);
    assert_eq!(bench.writes_of(COMMAND, 2), 0);
}

#[test]
fn the_distance_range_is_typed_in_metres() {
    let mut radar = XM125Radar::new(XM125GpioPins::default());
    assert_eq!(radar.configure_distance_range("0.25:1.5"), Ok(()));
    assert_eq!((radar.config.start_mm, radar.config.length_mm), (250, 1250));
    let before = radar.config;
    assert_eq!(
        radar.configure_distance_range("1.5:0.25"),
        Err(RadarError::InvalidParameters {
            reason: ParameterFault::RangeOrder { start_mm: 1500, end_mm: 250 }
        })
    );
    assert_eq!(
        radar.configure_distance_range("0.25-1.5"),
        Err(RadarError::InvalidParameters { reason: ParameterFault::RangeFormat })
    );
    assert_eq!(radar.config, before);
}

#[test]
fn resume_without_a_request_is_an_invalid_response() {
    let mut radar = XM125Radar::new(XM125GpioPins::default());
    assert_eq!(radar.resume(0, Reply::Done), Step::Failed { error: RadarError::InvalidResponse });
}
