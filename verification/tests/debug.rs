use xm125_radar_monitor::debug::RegisterDebugger;
use xm125_radar_monitor::debug::RegisterEntry;

fn addresses(entries: &[RegisterEntry]) -> Vec<u16> {
    entries.iter().map(|e| e.address).collect()
}

#[test]
fn a_register_dump_begins_with_the_common_registers() {
    let debugger = RegisterDebugger::new();
    let common = debugger.debug_common_registers();
    assert_eq!(addresses(&common), vec![0, 1, 2, 3, 256]);
    assert_eq!(common[3].name, "Detector Status");
    assert_eq!(common[4].name, "Command Register");
    let distance = debugger.debug_distance_registers();
    assert_eq!(
        addresses(&distance),
        vec![64, 65, 66, 67, 68, 69, 70, 71, 72, 73, 74, 75, 76, 16, 17, 27]
    );
    let presence = debugger.debug_presence_registers();
    assert_eq!(presence.len(), 35);
    assert_eq!(presence[18].address, 82);
    assert_eq!(presence[18].name, "Start Point");
    assert_eq!(presence[34].address, 65535);
}

#[test]
fn the_mode_selects_the_registers_of_a_dump() {
    let debugger = RegisterDebugger::new();
    assert_eq!(debugger.debug_all_registers("presence").len(), 5 + 35);
    assert_eq!(debugger.debug_all_registers("Presence").len(), 5 + 35);
    assert_eq!(debugger.debug_all_registers("DISTANCE").len(), 5 + 16);
    assert_eq!(debugger.debug_all_registers("breathing").len(), 5 + 35 + 16);
    assert_eq!(debugger.debug_all_registers("").len(), 5 + 35 + 16);
    let both = debugger.debug_all_registers("combined");
    assert_eq!(both[5].address, 64);
    assert_eq!(both[5].name, "Sweeps Per Frame");
    assert_eq!(both[40].name, "Start Config");
}
