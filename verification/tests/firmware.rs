use xm125_radar_monitor::error::FirmwareFault;
use xm125_radar_monitor::error::RadarError;
use xm125_radar_monitor::firmware::flash_confirmed;
use xm125_radar_monitor::firmware::printed_checksum;
use xm125_radar_monitor::firmware::reported_checksum;
use xm125_radar_monitor::firmware::FirmwareManager;
use xm125_radar_monitor::firmware::FirmwareType;
use xm125_radar_monitor::gpio::GpioValue;
use xm125_radar_monitor::gpio::XM125GpioPins;
use xm125_radar_monitor::host::Reply;
use xm125_radar_monitor::host::Request;
use xm125_radar_monitor::outcome::Outcome;
use xm125_radar_monitor::outcome::Step;

fn manager() -> FirmwareManager {
    FirmwareManager::new("/lib/firmware/acconeer", "/usr/bin/xm125-control.sh", 0x52)
}

fn run(
    manager: &mut FirmwareManager,
    first: Step,
    flash_ok: bool,
    application_id: Option<u32>,
) -> (Result<Outcome, RadarError>, Vec<Request>) {
    let mut log = Vec::new();
    let mut step = first;
    loop {
        match step {
            Step::Ask { request } => {
                log.push(request);
                let reply = match request {
                    Request::ProbePin { .. } => Reply::Present { exported: true },
                    Request::Flash { .. } => {
                        if flash_ok {
                            Reply::Done
                        } else {
                            Reply::Failed
                        }
                    }
                    Request::ReadRegister { .. } => match application_id {
                        Some(id) => Reply::Word { value: id },
                        None => Reply::Failed,
                    },
                    _ => Reply::Done,
                };
                step = manager.resume(0, reply);
            }
            Step::Finished { outcome } => return (Ok(outcome), log),
            Step::Failed { error } => return (Err(error), log),
        }
    }
}

#[test]
fn an_update_is_needed_when_the_application_differs() {
    let manager = manager();
    assert!(manager.firmware_update_needed(1, FirmwareType::Presence, None, None));
    assert!(manager.firmware_update_needed(2, FirmwareType::Distance, None, None));
    assert!(manager.firmware_update_needed(0, FirmwareType::Breathing, None, None));
    assert!(!manager.firmware_update_needed(2, FirmwareType::Presence, None, None));
    assert!(!manager.firmware_update_needed(1, FirmwareType::Distance, None, None));
    assert!(!manager.firmware_update_needed(3, FirmwareType::Breathing, None, None));
}

#[test]
fn differing_checksums_ask_for_an_update_of_the_same_application() {
    let manager = manager();
    let device = "d41d8cd98f00b204e9800998ecf8427e".to_string();
    let binary = "9e107d9d372bb6826bd81d3542a419d6".to_string();
    assert!(manager.firmware_update_needed(2, FirmwareType::Presence, Some(&device), Some(&binary)));
    assert!(!manager.firmware_update_needed(2, FirmwareType::Presence, Some(&device), Some(&device)));
    assert!(!manager.firmware_update_needed(2, FirmwareType::Presence, Some(&device), None));
    assert!(!manager.firmware_update_needed(2, FirmwareType::Presence, None, Some(&binary)));
    // Another application needs the update whatever the checksums say.
    assert!(manager.firmware_update_needed(1, FirmwareType::Presence, Some(&device), Some(&device)));
}

#[test]
fn every_firmware_has_its_id_its_binary_and_its_name() {
    assert_eq!(FirmwareType::Distance.application_id(), 1);
    assert_eq!(FirmwareType::Presence.application_id(), 2);
    assert_eq!(FirmwareType::Breathing.application_id(), 3);
    assert_eq!(FirmwareType::Distance.binary_filename(), "i2c_distance_detector.bin");
    assert_eq!(FirmwareType::Presence.binary_filename(), "i2c_presence_detector.bin");
    assert_eq!(FirmwareType::Breathing.binary_filename(), "i2c_ref_app_breathing.bin");
    assert_eq!(FirmwareType::Distance.display_name(), "Distance Detector");
    assert_eq!(FirmwareType::Presence.display_name(), "Presence Detector");
    assert_eq!(FirmwareType::Breathing.display_name(), "Breathing Monitor");
    assert_eq!(FirmwareType::from_app_id(1), FirmwareType::Distance);
    assert_eq!(FirmwareType::from_app_id(2), FirmwareType::Presence);
    assert_eq!(FirmwareType::from_app_id(3), FirmwareType::Breathing);
    assert_eq!(FirmwareType::from_app_id(0), FirmwareType::Distance);
    assert_eq!(FirmwareType::from_app_id(77), FirmwareType::Distance);
}

#[test]
fn the_binary_lies_in_the_firmware_directory() {
    assert_eq!(
        manager().get_firmware_path(FirmwareType::Presence),
        "/lib/firmware/acconeer/i2c_presence_detector.bin"
    );
    let default = FirmwareManager::default();
    assert_eq!(
        default.get_firmware_path(FirmwareType::Breathing),
        "/lib/firmware/acconeer/i2c_ref_app_breathing.bin"
    );
    assert_eq!(default.i2c_address(), 0x52);
    assert_eq!(default.control_script(), "/usr/bin/xm125-control.sh");
}

#[test]
fn an_update_flashes_in_bootloader_mode_and_verifies_in_run_mode() {
    let mut manager = manager();
    manager.set_pins(XM125GpioPins { reset: 1, mcu_interrupt: 2, wake_up: 3, boot: 4 });
    let first = manager.update_firmware(FirmwareType::Presence, 0);
    let (result, log) = run(&mut manager, first, true, Some(2));
    assert_eq!(result, Ok(Outcome::Done));
    let position = |wanted: Request| log.iter().position(|r| *r == wanted).unwrap();
    let bootloader = position(Request::SetPinValue { pin: 4, level: GpioValue::High });
    let flash = position(Request::Flash { firmware: FirmwareType::Presence });
    let run_mode = position(Request::SetPinValue { pin: 4, level: GpioValue::Low });
    let verify = position(Request::ReadRegister { address: 65535 });
    assert!(bootloader < flash && flash < run_mode && run_mode < verify);
    assert_eq!(verify, log.len() - 1);
    assert_eq!(log[flash + 1], Request::Sleep { ms: 500 });
    assert_eq!(log[verify - 1], Request::Sleep { ms: 1000 });
    assert_eq!(log[verify - 2], Request::Sleep { ms: 1500 });
}

#[test]
fn a_flash_that_leaves_the_wrong_application_is_a_failure() {
    let mut manager = manager();
    let first = manager.update_firmware(FirmwareType::Presence, 0);
    let (result, _) = run(&mut manager, first, true, Some(1));
    assert_eq!(
        result,
        Err(RadarError::FirmwareError {
            cause: FirmwareFault::ApplicationMismatch { expected: 2, actual: 1 }
        })
    );
    let first = manager.update_firmware(FirmwareType::Presence, 0);
    let (result, _) = run(&mut manager, first, true, None);
    assert_eq!(result, Err(RadarError::FirmwareError { cause: FirmwareFault::Unverified }));
}

#[test]
fn a_failing_flasher_ends_the_update() {
    let mut manager = manager();
    let first = manager.update_firmware(FirmwareType::Distance, 0);
    let (result, log) = run(&mut manager, first, false, Some(1));
    assert_eq!(result, Err(RadarError::FirmwareError { cause: FirmwareFault::FlashFailed }));
    assert_eq!(*log.last().unwrap(), Request::Flash { firmware: FirmwareType::Distance });
}

#[test]
fn an_update_without_the_extra_wait_still_reads_the_application_id() {
    let mut manager = manager();
    let first = manager.update_firmware_with_verification(FirmwareType::Distance, false, 0);
    let (result, log) = run(&mut manager, first, true, Some(1));
    assert_eq!(result, Ok(Outcome::Done));
    assert_eq!(*log.last().unwrap(), Request::ReadRegister { address: 65535 });
    assert_eq!(log[log.len() - 2], Request::Sleep { ms: 1500 });
    assert!(!log.contains(&Request::Sleep { ms: 1000 }));
    let reads = log.iter().filter(|r| matches!(r, Request::ReadRegister { .. })).count();
    assert_eq!(reads, 1);
}

#[test]
fn no_update_succeeds_on_the_wrong_application() {
    for verify in [false, true] {
        for target in [FirmwareType::Distance, FirmwareType::Presence, FirmwareType::Breathing] {
            for id in [0u32, 1, 2, 3, 7, u32::MAX] {
                let mut manager = manager();
                let first = manager.update_firmware_with_verification(target, verify, 0);
                let (result, _) = run(&mut manager, first, true, Some(id));
                if id == target.application_id() {
                    assert_eq!(result, Ok(Outcome::Done));
                } else {
                    assert_eq!(
                        result,
                        Err(RadarError::FirmwareError {
                            cause: FirmwareFault::ApplicationMismatch {
                                expected: target.application_id(),
                                actual: id
                            }
                        })
                    );
                }
            }
            let mut manager = manager();
            let first = manager.update_firmware_with_verification(target, verify, 0);
            let (result, _) = run(&mut manager, first, true, None);
            assert_eq!(result, Err(RadarError::FirmwareError { cause: FirmwareFault::Unverified }));
        }
    }
}

#[test]
fn a_reset_into_run_mode_flashes_nothing() {
    let mut manager = manager();
    let first = manager.reset_to_run_mode(0);
    let (result, log) = run(&mut manager, first, true, None);
    assert_eq!(result, Ok(Outcome::Done));
    assert!(log.contains(&Request::SetPinValue { pin: 141, level: GpioValue::Low }));
    assert!(log.iter().all(|r| !matches!(r, Request::Flash { .. })));
}

#[test]
fn only_three_application_ids_are_recognized() {
    assert_eq!(FirmwareType::recognize(1), Some(FirmwareType::Distance));
    assert_eq!(FirmwareType::recognize(2), Some(FirmwareType::Presence));
    assert_eq!(FirmwareType::recognize(3), Some(FirmwareType::Breathing));
    assert_eq!(FirmwareType::recognize(0), None);
    assert_eq!(FirmwareType::recognize(4), None);
    assert_eq!(FirmwareType::recognize(7), None);
    assert_eq!(FirmwareType::recognize(u32::MAX), None);
}

#[test]
fn the_flasher_confirms_with_either_marker() {
    assert!(flash_confirmed(b"Wrote and verified address 0x08010000 (100.00%) Done.\nMemory programmed\n"));
    assert!(flash_confirmed(b"Starting execution at address 0x08000000... done.\n"));
    assert!(!flash_confirmed(b"Failed to init device.\n"));
    assert!(!flash_confirmed(b"memory programmed"));
    assert!(!flash_confirmed(b""));
}

#[test]
fn the_reported_checksum_follows_the_marker() {
    let output = b"Verifying firmware\nMD5: d41d8cd98f00b204e9800998ecf8427e  \nDone\n";
    assert_eq!(reported_checksum(output), Some(b"d41d8cd98f00b204e9800998ecf8427e".to_vec()));
    assert_eq!(reported_checksum(b"MD5:abc"), Some(b"abc".to_vec()));
    assert_eq!(reported_checksum(b"x MD5: abc MD5: def\nMD5: ghi"), Some(b"abc".to_vec()));
    assert_eq!(reported_checksum(b"MD5:\r\nabc"), Some(b"".to_vec()));
    assert_eq!(reported_checksum(b"MD5:   "), Some(b"".to_vec()));
    assert_eq!(reported_checksum(b"md5: abc"), None);
    assert_eq!(reported_checksum(b""), None);
    assert_eq!(reported_checksum(b"MD5"), None);
}

#[test]
fn the_printed_checksum_is_the_first_word() {
    assert_eq!(
        printed_checksum(b"9e107d9d372bb6826bd81d3542a419d6  /lib/firmware/x.bin\n"),
        Some(b"9e107d9d372bb6826bd81d3542a419d6".to_vec())
    );
    assert_eq!(printed_checksum(b"  \t abc\n"), Some(b"abc".to_vec()));
    assert_eq!(printed_checksum(b"abc"), Some(b"abc".to_vec()));
    assert_eq!(printed_checksum(b" \n\t "), None);
    assert_eq!(printed_checksum(b""), None);
}
