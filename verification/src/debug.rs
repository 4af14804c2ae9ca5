//! The registers that a register dump shows.

use vstd::prelude::*;
use vstd::string::StringSliceAdditionalSpecFns;

verus! {

/// One line of a register dump.
#[derive(Clone, Copy, Debug)]
pub struct RegisterEntry {
    pub address: u16,
    pub name: &'static str,
    pub description: &'static str,
}

/// The addresses of the entries, in order.
pub open spec fn addresses(entries: Seq<RegisterEntry>) -> Seq<u16> {
    Seq::new(entries.len(), |i: int| entries[i].address)
}

/// The registers that every application has.
pub open spec fn common_addresses() -> Seq<u16> {
    seq![
        0u16, 1u16, 2u16, 3u16, 256u16,
    ]
}

fn common_part0(entries: &mut Vec<RegisterEntry>)
    ensures
        addresses(final(entries)@) == addresses(old(entries)@) + seq![
            0u16, 1u16, 2u16, 3u16, 256u16,
        ],
        final(entries)@.len() == old(entries)@.len() + 5,
{
    entries.push(RegisterEntry { address: 0, name: "Module Version", description: "Hardware/firmware version info" });
    entries.push(RegisterEntry { address: 1, name: "Protocol Status", description: "Communication protocol status" });
    entries.push(RegisterEntry { address: 2, name: "Measure Counter", description: "Number of measurements performed" });
    entries.push(RegisterEntry { address: 3, name: "Detector Status", description: "Current detector state and flags" });
    entries.push(RegisterEntry { address: 256, name: "Command Register", description: "Last executed command code" });
    assert(addresses(entries@) =~= addresses(old(entries)@) + seq![
        0u16, 1u16, 2u16, 3u16, 256u16,
    ]);
}

/// The registers of the presence detector: its configuration, its results and the application id.
pub open spec fn presence_addresses() -> Seq<u16> {
    seq![
        64u16, 65u16, 66u16, 67u16, 68u16, 69u16, 70u16, 71u16, 72u16, 73u16, 74u16, 75u16,
        76u16, 77u16, 78u16, 79u16, 80u16, 81u16, 82u16, 83u16, 84u16, 85u16, 86u16, 87u16,
        128u16, 0u16, 1u16, 2u16, 3u16, 16u16, 17u16, 18u16, 19u16, 32u16, 65535u16,
    ]
}

fn presence_part0(entries: &mut Vec<RegisterEntry>)
    ensures
        addresses(final(entries)@) == addresses(old(entries)@) + seq![
            64u16, 65u16, 66u16, 67u16, 68u16, 69u16, 70u16, 71u16, 72u16,
        ],
        final(entries)@.len() == old(entries)@.len() + 9,
{
    entries.push(RegisterEntry { address: 64, name: "Sweeps Per Frame", description: "Number of sweeps per measurement frame" });
    entries.push(RegisterEntry { address: 65, name: "Inter Frame Timeout", description: "Presence timeout in seconds (0-30)" });
    entries.push(RegisterEntry { address: 66, name: "Inter Phase Boost", description: "Phase boost for slow motion detection" });
    entries.push(RegisterEntry { address: 67, name: "Intra Detection", description: "Fast motion detection enable (0/1)" });
    entries.push(RegisterEntry { address: 68, name: "Inter Detection", description: "Slow motion detection enable (0/1)" });
    entries.push(RegisterEntry { address: 69, name: "Frame Rate", description: "Frame rate in mHz (value * 1000)" });
    entries.push(RegisterEntry { address: 70, name: "Intra Threshold", description: "Fast motion threshold (value * 1000)" });
    entries.push(RegisterEntry { address: 71, name: "Inter Threshold", description: "Slow motion threshold (value * 1000)" });
    entries.push(RegisterEntry { address: 72, name: "Inter Dev Time", description: "Inter-frame deviation time constant" });
    assert(addresses(entries@) =~= addresses(old(entries)@) + seq![
        64u16, 65u16, 66u16, 67u16, 68u16, 69u16, 70u16, 71u16, 72u16,
    ]);
}

fn presence_part1(entries: &mut Vec<RegisterEntry>)
    ensures
        addresses(final(entries)@) == addresses(old(entries)@) + seq![
            73u16, 74u16, 75u16, 76u16, 77u16, 78u16, 79u16, 80u16, 81u16,
        ],
        final(entries)@.len() == old(entries)@.len() + 9,
{
    entries.push(RegisterEntry { address: 73, name: "Inter Fast Cutoff", description: "Fast filter cutoff frequency" });
    entries.push(RegisterEntry { address: 74, name: "Inter Slow Cutoff", description: "Slow filter cutoff frequency" });
    entries.push(RegisterEntry { address: 75, name: "Intra Frame Time", description: "Intra-frame time constant" });
    entries.push(RegisterEntry { address: 76, name: "Intra Output Time", description: "Intra output time constant" });
    entries.push(RegisterEntry { address: 77, name: "Inter Output Time", description: "Inter output time constant" });
    entries.push(RegisterEntry { address: 78, name: "Auto Profile", description: "Auto profile selection enable (0/1)" });
    entries.push(RegisterEntry { address: 79, name: "Auto Step Length", description: "Auto step length enable (0/1)" });
    entries.push(RegisterEntry { address: 80, name: "Manual Profile", description: "Manual profile (1-5)" });
    entries.push(RegisterEntry { address: 81, name: "Manual Step Length", description: "Manual step length" });
    assert(addresses(entries@) =~= addresses(old(entries)@) + seq![
        73u16, 74u16, 75u16, 76u16, 77u16, 78u16, 79u16, 80u16, 81u16,
    ]);
}

fn presence_part2(entries: &mut Vec<RegisterEntry>)
    ensures
        addresses(final(entries)@) == addresses(old(entries)@) + seq![
            82u16, 83u16, 84u16, 85u16, 86u16, 87u16, 128u16, 0u16, 1u16,
        ],
        final(entries)@.len() == old(entries)@.len() + 9,
{
    entries.push(RegisterEntry { address: 82, name: "Start Point", description: "Start distance in mm" });
    entries.push(RegisterEntry { address: 83, name: "End Point", description: "End distance in mm" });
    entries.push(RegisterEntry { address: 84, name: "Reset Filters", description: "Reset filters on prepare (0/1)" });
    entries.push(RegisterEntry { address: 85, name: "HWAAS", description: "Hardware accelerated average samples" });
    entries.push(RegisterEntry { address: 86, name: "Auto Subsweeps", description: "Automatic subsweeps enable (0/1)" });
    entries.push(RegisterEntry { address: 87, name: "Signal Quality", description: "Signal quality threshold" });
    entries.push(RegisterEntry { address: 128, name: "Detection GPIO", description: "Output detection on GPIO (0/1)" });
    entries.push(RegisterEntry { address: 0, name: "Version", description: "RSS version (major.minor.patch)" });
    entries.push(RegisterEntry { address: 1, name: "Protocol Status", description: "Protocol error flags" });
    assert(addresses(entries@) =~= addresses(old(entries)@) + seq![
        82u16, 83u16, 84u16, 85u16, 86u16, 87u16, 128u16, 0u16, 1u16,
    ]);
}

fn presence_part3(entries: &mut Vec<RegisterEntry>)
    ensures
        addresses(final(entries)@) == addresses(old(entries)@) + seq![
            2u16, 3u16, 16u16, 17u16, 18u16, 19u16, 32u16, 65535u16,
        ],
        final(entries)@.len() == old(entries)@.len() + 8,
{
    entries.push(RegisterEntry { address: 2, name: "Measure Counter", description: "Number of measurements since restart" });
    entries.push(RegisterEntry { address: 3, name: "Detector Status", description: "Detector status flags" });
    entries.push(RegisterEntry { address: 16, name: "Presence Result", description: "Presence detection result & temperature" });
    entries.push(RegisterEntry { address: 17, name: "Presence Distance", description: "Distance to detected presence (mm)" });
    entries.push(RegisterEntry { address: 18, name: "Intra Score", description: "Fast motion detection score" });
    entries.push(RegisterEntry { address: 19, name: "Inter Score", description: "Slow motion detection score" });
    entries.push(RegisterEntry { address: 32, name: "Actual Frame Rate", description: "Actual frame rate in mHz" });
    entries.push(RegisterEntry { address: 65535, name: "Application ID", description: "Firmware application identifier" });
    assert(addresses(entries@) =~= addresses(old(entries)@) + seq![
        2u16, 3u16, 16u16, 17u16, 18u16, 19u16, 32u16, 65535u16,
    ]);
}

/// The registers of the distance detector: its configuration and its results.
pub open spec fn distance_addresses() -> Seq<u16> {
    seq![
        64u16, 65u16, 66u16, 67u16, 68u16, 69u16, 70u16, 71u16, 72u16, 73u16, 74u16, 75u16,
        76u16, 16u16, 17u16, 27u16,
    ]
}

fn distance_part0(entries: &mut Vec<RegisterEntry>)
    ensures
        addresses(final(entries)@) == addresses(old(entries)@) + seq![
            64u16, 65u16, 66u16, 67u16, 68u16, 69u16, 70u16, 71u16, 72u16,
        ],
        final(entries)@.len() == old(entries)@.len() + 9,
{
    entries.push(RegisterEntry { address: 64, name: "Start Config", description: "Detection start point (mm)" });
    entries.push(RegisterEntry { address: 65, name: "End Config", description: "Detection end point (mm)" });
    entries.push(RegisterEntry { address: 66, name: "Max Step Length", description: "Maximum step length" });
    entries.push(RegisterEntry { address: 67, name: "Leakage Cancel", description: "Close range leakage cancellation" });
    entries.push(RegisterEntry { address: 68, name: "Signal Quality", description: "Signal quality threshold" });
    entries.push(RegisterEntry { address: 69, name: "Max Profile", description: "Maximum profile setting" });
    entries.push(RegisterEntry { address: 70, name: "Threshold Method", description: "Threshold calculation method" });
    entries.push(RegisterEntry { address: 71, name: "Peak Sorting", description: "Peak sorting method" });
    entries.push(RegisterEntry { address: 72, name: "Frames Threshold", description: "Number of frames for threshold" });
    assert(addresses(entries@) =~= addresses(old(entries)@) + seq![
        64u16, 65u16, 66u16, 67u16, 68u16, 69u16, 70u16, 71u16, 72u16,
    ]);
}

fn distance_part1(entries: &mut Vec<RegisterEntry>)
    ensures
        addresses(final(entries)@) == addresses(old(entries)@) + seq![
            73u16, 74u16, 75u16, 76u16, 16u16, 17u16, 27u16,
        ],
        final(entries)@.len() == old(entries)@.len() + 7,
{
    entries.push(RegisterEntry { address: 73, name: "Fixed Amplitude", description: "Fixed amplitude threshold value" });
    entries.push(RegisterEntry { address: 74, name: "Sensitivity", description: "Detection sensitivity" });
    entries.push(RegisterEntry { address: 75, name: "Reflector Shape", description: "Expected reflector shape" });
    entries.push(RegisterEntry { address: 76, name: "Fixed Strength", description: "Fixed strength threshold value" });
    entries.push(RegisterEntry { address: 16, name: "Distance Result", description: "Packed result word" });
    entries.push(RegisterEntry { address: 17, name: "Peak 0 Distance", description: "Peak 0 distance (mm)" });
    entries.push(RegisterEntry { address: 27, name: "Peak 0 Strength", description: "Peak 0 signal strength" });
    assert(addresses(entries@) =~= addresses(old(entries)@) + seq![
        73u16, 74u16, 75u16, 76u16, 16u16, 17u16, 27u16,
    ]);
}

/// The bytes of `presence`.
pub open spec fn presence_word() -> Seq<u8> {
    seq![112u8, 114u8, 101u8, 115u8, 101u8, 110u8, 99u8, 101u8]
}

/// The bytes of `distance`.
pub open spec fn distance_word() -> Seq<u8> {
    seq![100u8, 105u8, 115u8, 116u8, 97u8, 110u8, 99u8, 101u8]
}

/// The registers that a dump for `mode` shows after the common ones:
/// those of the presence detector, those of the distance detector, or,
/// for any other mode, both.
pub open spec fn mode_addresses(mode: Seq<u8>) -> Seq<u16> {
    if crate::fifo::spec_is_word(mode, presence_word()) {
        presence_addresses()
    } else if crate::fifo::spec_is_word(mode, distance_word()) {
        distance_addresses()
    } else {
        presence_addresses() + distance_addresses()
    }
}

/// Lists the registers of a register dump.
pub struct RegisterDebugger {}

impl RegisterDebugger {
    pub fn new() -> RegisterDebugger {
        RegisterDebugger {  }
    }

    /// The registers that every application has.
    pub fn debug_common_registers(&self) -> (entries: Vec<RegisterEntry>)
        ensures
            addresses(entries@) == common_addresses(),
    {
        let mut entries: Vec<RegisterEntry> = Vec::new();
        common_part0(&mut entries);
        assert(addresses(entries@) =~= common_addresses());
        entries
    }

    /// The registers of the presence detector.
    pub fn debug_presence_registers(&self) -> (entries: Vec<RegisterEntry>)
        ensures
            addresses(entries@) == presence_addresses(),
    {
        let mut entries: Vec<RegisterEntry> = Vec::new();
        presence_part0(&mut entries);
        presence_part1(&mut entries);
        presence_part2(&mut entries);
        presence_part3(&mut entries);
        assert(addresses(entries@) =~= presence_addresses());
        entries
    }

    /// The registers of the distance detector.
    pub fn debug_distance_registers(&self) -> (entries: Vec<RegisterEntry>)
        ensures
            addresses(entries@) == distance_addresses(),
    {
        let mut entries: Vec<RegisterEntry> = Vec::new();
        distance_part0(&mut entries);
        distance_part1(&mut entries);
        assert(addresses(entries@) =~= distance_addresses());
        entries
    }

    /// The registers of a dump for `detector_mode`: the common ones, then
    /// those of the mode. The mode is `presence` or `distance` in any
    /// case; any other shows both detectors.
    pub fn debug_all_registers(&self, detector_mode: &str) -> (entries: Vec<RegisterEntry>)
        ensures
            addresses(entries@) == common_addresses() + mode_addresses(detector_mode.spec_bytes()),
    {
        let presence: [u8; 8] = [112, 114, 101, 115, 101, 110, 99, 101];
        let distance: [u8; 8] = [100, 105, 115, 116, 97, 110, 99, 101];
        assert(presence@ =~= presence_word());
        assert(distance@ =~= distance_word());
        let mode = detector_mode.as_bytes();
        let mut entries: Vec<RegisterEntry> = Vec::new();
        common_part0(&mut entries);
        if crate::fifo::is_word(mode, presence.as_slice()) {
            presence_part0(&mut entries);
            presence_part1(&mut entries);
            presence_part2(&mut entries);
            presence_part3(&mut entries);
        } else if crate::fifo::is_word(mode, distance.as_slice()) {
            distance_part0(&mut entries);
            distance_part1(&mut entries);
        } else {
            presence_part0(&mut entries);
            presence_part1(&mut entries);
            presence_part2(&mut entries);
            presence_part3(&mut entries);
            distance_part0(&mut entries);
            distance_part1(&mut entries);
        }
        assert(addresses(entries@) =~= common_addresses() + mode_addresses(
            detector_mode.spec_bytes(),
        ));
        entries
    }
}

} // verus!
