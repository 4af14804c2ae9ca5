use xm125_radar_monitor::error::DeviceFault;
use xm125_radar_monitor::error::Operation;
use xm125_radar_monitor::error::RadarError;
use xm125_radar_monitor::registers::status_busy;
use xm125_radar_monitor::status::failed_steps;
use xm125_radar_monitor::status::Application;
use xm125_radar_monitor::status::Condition;
use xm125_radar_monitor::status::DistanceStatus;
use xm125_radar_monitor::status::PresenceStatus;
use xm125_radar_monitor::status::SetupStep;
use xm125_radar_monitor::status::Verdict;

#[test]
fn only_the_steps_whose_error_bit_is_set_are_blamed() {
    assert_eq!(
        failed_steps(Application::Distance, 0x0100_0000),
        vec![SetupStep::SensorCalibrate]
    );
    assert_eq!(failed_steps(Application::Distance, 0x0000_FFFF), vec![]);
    assert_eq!(
        failed_steps(Application::Distance, 0x0302_0000),
        vec![SetupStep::ConfigCreate, SetupStep::SensorCalibrate, SetupStep::DetectorCalibrate]
    );
    assert_eq!(failed_steps(Application::Distance, 0x13FF_0000).len(), 11);
    assert_eq!(failed_steps(Application::Presence, 0x10FF_0000).len(), 9);
    assert_eq!(failed_steps(Application::Breathing, 0xFFFF_FFFF), vec![SetupStep::Detector]);
}

#[test]
fn the_same_bit_means_different_steps_to_different_applications() {
    assert_eq!(
        failed_steps(Application::Distance, 0x0008_0000),
        vec![SetupStep::DetectorCreate]
    );
    assert_eq!(
        failed_steps(Application::Presence, 0x0008_0000),
        vec![SetupStep::SensorCalibrate]
    );
    // Bit 24 is no error bit of the presence detector.
    assert_eq!(failed_steps(Application::Presence, 0x0100_0000), vec![]);
    assert!(Application::Distance.step_ok(0x08, SetupStep::DetectorCreate));
    assert!(Application::Presence.step_ok(0x08, SetupStep::SensorCalibrate));
    assert!(!Application::Presence.step_ok(0x08, SetupStep::DetectorCreate));
    assert!(DistanceStatus { word: 0x108 }.calibrated());
    assert!(!DistanceStatus { word: 0x018 }.calibrated());
    assert!(PresenceStatus { word: 0x018 }.sensor_calibrate_ok());
    assert!(PresenceStatus { word: 0x018 }.detector_create_ok());
    assert!(!PresenceStatus { word: 0x100 }.sensor_calibrate_ok());
}

#[test]
fn the_error_masks_are_the_or_of_the_error_bits() {
    let steps = [
        SetupStep::RssRegister,
        SetupStep::ConfigCreate,
        SetupStep::SensorCreate,
        SetupStep::SensorCalibrate,
        SetupStep::DetectorCreate,
        SetupStep::DetectorBuffer,
        SetupStep::SensorBuffer,
        SetupStep::CalibrationBuffer,
        SetupStep::ConfigApply,
        SetupStep::DetectorCalibrate,
        SetupStep::Detector,
    ];
    for app in [Application::Distance, Application::Presence, Application::Breathing] {
        let mut mask = 0;
        for step in steps {
            mask |= app.error_bit(step);
            assert_eq!(app.error_bit(step) & app.ok_bit(step), 0);
        }
        assert_eq!(mask, app.error_mask());
        assert!(!app.has_errors(!app.error_mask()));
    }
    assert_eq!(Application::Distance.error_mask(), 0x13FF_0000);
    assert_eq!(Application::Presence.error_mask(), 0x10FF_0000);
    assert_eq!(Application::Breathing.error_mask(), 0x1000_0000);
    assert_eq!(Application::Presence.reset_settle_ms(), 200);
    assert_eq!(Application::Distance.reset_settle_ms(), 500);
}

#[test]
fn a_busy_device_is_never_ready() {
    assert!(status_busy(0x8000_0000));
    assert!(!status_busy(0x7FFF_FFFF));
    for condition in [
        Condition::NotBusy,
        Condition::DistanceCalibrated,
        Condition::MeasurementReady,
        Condition::Settled { app: Application::Distance },
        Condition::Settled { app: Application::Presence },
        Condition::Settled { app: Application::Breathing },
    ] {
        assert_eq!(condition.judge(0x8000_010F), Verdict::Pending);
        assert_eq!(condition.judge(0x9300_010F), Verdict::Pending);
    }
}

#[test]
fn a_settled_application_is_neither_busy_nor_in_error() {
    let presence = Condition::Settled { app: Application::Presence };
    assert_eq!(presence.judge(0), Verdict::Satisfied);
    assert_eq!(presence.judge(0x0000_00FF), Verdict::Satisfied);
    assert_eq!(presence.judge(0x8000_00FF), Verdict::Pending);
    assert_eq!(
        presence.judge(0x1000_0000),
        Verdict::Failed {
            error: RadarError::DeviceError {
                fault: DeviceFault::MeasurementFailed { status: 0x1000_0000 }
            }
        }
    );
    assert_eq!(
        presence.judge(0x0001_0000),
        Verdict::Failed {
            error: RadarError::DeviceError {
                fault: DeviceFault::MeasurementFailed { status: 0x0001_0000 }
            }
        }
    );
    assert_eq!(presence.operation(), Operation::Measurement);
}

#[test]
fn polls_are_judged_by_their_own_bits() {
    assert_eq!(Condition::NotBusy.judge(0x1000_0000), Verdict::Satisfied);
    assert_eq!(Condition::DistanceCalibrated.judge(0x0000_0108), Verdict::Satisfied);
    assert_eq!(Condition::DistanceCalibrated.judge(0x0000_0100), Verdict::Pending);
    assert_eq!(Condition::DistanceCalibrated.judge(0x0000_0008), Verdict::Pending);
    assert_eq!(
        Condition::DistanceCalibrated.judge(0x0200_0108),
        Verdict::Failed {
            error: RadarError::DeviceError {
                fault: DeviceFault::CalibrationFailed { status: 0x0200_0108 }
            }
        }
    );
    assert_eq!(Condition::MeasurementReady.judge(0x0000_0004), Verdict::Satisfied);
    assert_eq!(Condition::MeasurementReady.judge(0x0000_0108), Verdict::Pending);
    assert_eq!(
        Condition::MeasurementReady.judge(0x1000_0004),
        Verdict::Failed {
            error: RadarError::DeviceError {
                fault: DeviceFault::MeasurementFailed { status: 0x1000_0004 }
            }
        }
    );
    assert_eq!(Condition::NotBusy.operation(), Operation::BusyWait);
    assert_eq!(Condition::DistanceCalibrated.operation(), Operation::Calibration);
    assert_eq!(Condition::MeasurementReady.operation(), Operation::Measurement);
}
