use xm125_radar_monitor::breathing::decode;
use xm125_radar_monitor::breathing::BreathingAppState;
use xm125_radar_monitor::breathing::BreathingDetector;
use xm125_radar_monitor::breathing::BreathingMeasurement;
use xm125_radar_monitor::config::XM125Config;
use xm125_radar_monitor::error::DeviceFault;
use xm125_radar_monitor::error::Operation;
use xm125_radar_monitor::error::RadarError;
use xm125_radar_monitor::host::Reply;
use xm125_radar_monitor::host::Request;
use xm125_radar_monitor::outcome::Outcome;
use xm125_radar_monitor::outcome::Step;

fn run(detector: &mut BreathingDetector, first: Step, status: u32) -> (Result<Outcome, RadarError>, Vec<Request>, u64) {
    let mut log = Vec::new();
    let mut now = 0u64;
    let mut step = first;
    loop {
        match step {
            Step::Ask { request } => {
                log.push(request);
                let reply = match request {
                    Request::ReadRegister { address: 3 } => Reply::Word { value: status },
                    Request::ReadRegister { address: 16 } => Reply::Word { value: (22 << 16) | 1 },
                    Request::ReadRegister { address: 17 } => Reply::Word { value: 14_500 },
                    Request::ReadRegister { address: 18 } => Reply::Word { value: 4 },
                    Request::Sleep { ms } => {
                        now += ms;
                        Reply::Done
                    }
                    _ => Reply::Done,
                };
                step = detector.resume(now, reply);
            }
            Step::Finished { outcome } => return (Ok(outcome), log, now),
            Step::Failed { error } => return (Err(error), log, now),
        }
    }
}

#[test]
fn the_app_state_register_maps_to_five_states() {
    assert_eq!(BreathingAppState::from_u32(0), BreathingAppState::Init);
    assert_eq!(BreathingAppState::from_u32(1), BreathingAppState::NoPresence);
    assert_eq!(BreathingAppState::from_u32(2), BreathingAppState::IntraPresence);
    assert_eq!(BreathingAppState::from_u32(3), BreathingAppState::DetermineDistance);
    assert_eq!(BreathingAppState::from_u32(4), BreathingAppState::EstimateBreathingRate);
    assert_eq!(BreathingAppState::from_u32(5), BreathingAppState::Init);
    assert_eq!(BreathingAppState::from_u32(u32::MAX), BreathingAppState::Init);
}

#[test]
fn the_app_states_have_names() {
    assert_eq!(BreathingAppState::Init.display_name(), "Initializing");
    assert_eq!(BreathingAppState::NoPresence.display_name(), "No Presence");
    assert_eq!(BreathingAppState::IntraPresence.display_name(), "Presence Detected");
    assert_eq!(BreathingAppState::DetermineDistance.display_name(), "Determining Distance");
    assert_eq!(
        BreathingAppState::EstimateBreathingRate.display_name(),
        "Estimating Breathing Rate"
    );
}

#[test]
fn the_breathing_registers_decode_to_a_measurement() {
    assert_eq!(
        decode(0xFFFF_0001, 14_500, 4),
        BreathingMeasurement {
            result_ready: true,
            breathing_rate: 14_500,
            app_state: BreathingAppState::EstimateBreathingRate,
            temperature: -1,
        }
    );
    assert_eq!(decode(0xFFFF_0001, 14_500, 4).breathing_rate as f32 / 1000.0, 14.5);
    let idle = decode(0x0017_0002, 0, 9);
    assert!(!idle.result_ready);
    assert_eq!(idle.app_state, BreathingAppState::Init);
    assert_eq!(idle.temperature, 23);
}

#[test]
fn a_breathing_measurement_starts_the_app_and_reads_three_registers() {
    let mut detector = BreathingDetector::new();
    let first = detector.measure(0);
    let (result, log, _) = run(&mut detector, first, 0);
    assert_eq!(
        log,
        vec![
            Request::ReadRegister { address: 3 },
            Request::WriteRegister { address: 256, value: 2 },
            Request::ReadRegister { address: 3 },
            Request::ReadRegister { address: 3 },
            Request::ReadRegister { address: 16 },
            Request::ReadRegister { address: 17 },
            Request::ReadRegister { address: 18 },
        ]
    );
    assert_eq!(
        result,
        Ok(Outcome::Breathing {
            breathing: BreathingMeasurement {
                result_ready: true,
                breathing_rate: 14_500,
                app_state: BreathingAppState::EstimateBreathingRate,
                temperature: 22,
            }
        })
    );
}

#[test]
fn a_breathing_measurement_times_out_on_a_busy_device() {
    let mut detector = BreathingDetector::new();
    let first = detector.measure(0);
    let (result, log, waited) = run(&mut detector, first, 0x8000_0000);
    assert_eq!(
        result,
        Err(RadarError::Timeout { operation: Operation::BusyWait, timeout_ms: 5000 })
    );
    assert_eq!(waited, 5000);
    assert!(log.iter().all(|r| !matches!(r, Request::WriteRegister { .. })));
}

#[test]
fn the_breathing_configuration_uses_defaults_where_nothing_is_set() {
    let mut detector = BreathingDetector::new();
    let mut config = XM125Config::default();
    config.start_mm = 0;
    config.length_mm = 0;
    config.frame_rate = 0;
    config.intra_detection_threshold = 0;
    let first = detector.configure(&config, 0);
    let (result, log, _) = run(&mut detector, first, 0);
    assert_eq!(result, Ok(Outcome::Done));
    let writes: Vec<(u16, u32)> = log
        .iter()
        .filter_map(|r| match r {
            Request::WriteRegister { address, value } => Some((*address, *value)),
            _ => None,
        })
        .collect();
    assert_eq!(
        writes,
        vec![
            (64, 300),
            (65, 1500),
            (72, 10000),
            (76, 6000),
            (66, 3),
            (67, 5),
            (68, 1),
            (69, 6),
            (70, 60),
            (71, 20),
            (73, 16),
            (74, 32),
            (75, 3),
        ]
    );
    let config = XM125Config::default();
    let first = detector.configure(&config, 0);
    let (_, log, _) = run(&mut detector, first, 0);
    assert_eq!(log[0], Request::WriteRegister { address: 64, value: 100 });
    assert_eq!(log[1], Request::WriteRegister { address: 65, value: 3000 });
    assert_eq!(log[2], Request::WriteRegister { address: 72, value: 12000 });
    assert_eq!(log[3], Request::WriteRegister { address: 76, value: 1300 });
}

#[test]
fn a_breathing_configuration_that_is_rejected_fails() {
    let mut detector = BreathingDetector::new();
    let first = detector.apply_configuration(0);
    let (result, _, _) = run(&mut detector, first, 0);
    assert_eq!(result, Ok(Outcome::Done));
    let mut step = detector.apply_configuration(0);
    step = match step {
        Step::Ask { .. } => detector.resume(0, Reply::Word { value: 0 }),
        other => other,
    };
    assert_eq!(step, Step::Ask { request: Request::WriteRegister { address: 256, value: 1 } });
    step = detector.resume(0, Reply::Done);
    assert_eq!(step, Step::Ask { request: Request::ReadRegister { address: 3 } });
    step = detector.resume(0, Reply::Word { value: 0 });
    assert_eq!(step, Step::Ask { request: Request::ReadRegister { address: 3 } });
    step = detector.resume(0, Reply::Word { value: 0x1000_0000 });
    assert_eq!(
        step,
        Step::Failed {
            error: RadarError::DeviceError {
                fault: DeviceFault::BreathingConfigurationFailed { status: 0x1000_0000 }
            }
        }
    );
}
