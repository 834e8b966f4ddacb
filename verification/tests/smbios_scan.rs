use track_your_day::smbios::{scan_firmware_table, scan_memory_device_table, FormFactor, MemoryDeviceSummary};

/// A type-17 structure of the given formatted length, followed by an empty string set.
fn memory_device(length: u8, size: u16, form: u8, speed: u16) -> Vec<u8> {
    let mut s = vec![0u8; length as usize];
    s[0] = 17;
    s[1] = length;
    s[0x0C] = (size & 0xff) as u8;
    s[0x0D] = (size >> 8) as u8;
    s[0x0E] = form;
    if length as usize >= 0x17 {
        s[0x15] = (speed & 0xff) as u8;
        s[0x16] = (speed >> 8) as u8;
    }
    s.extend_from_slice(&[0, 0]);
    s
}

fn other_structure(kind: u8, strings: &[u8]) -> Vec<u8> {
    let mut s = vec![kind, 4, 0, 0];
    s.extend_from_slice(strings);
    s.extend_from_slice(&[0, 0]);
    s
}

#[test]
fn empty_table_reports_nothing() {
    assert_eq!(
        scan_memory_device_table(&[]),
        Some(MemoryDeviceSummary { slots_used: 0, form_factor: FormFactor::Unknown, average_speed: None })
    );
}

#[test]
fn counts_populated_slots_and_averages_speeds() {
    let mut t = other_structure(0, b"BIOS vendor\0version");
    t.extend(memory_device(0x28, 8192, 0x09, 3200));
    t.extend(memory_device(0x28, 0, 0x0D, 2400)); // empty slot
    t.extend(memory_device(0x28, 8192, 0x0D, 2666));
    t.extend(memory_device(0x28, 0xFFFF, 0x09, 1000)); // unknown size
    t.extend(other_structure(127, b""));
    let summary = scan_memory_device_table(&t).unwrap();
    assert_eq!(summary.slots_used, 2);
    assert_eq!(summary.form_factor, FormFactor::Dimm);
    assert_eq!(summary.average_speed, Some((3200 + 2666) / 2));
}

#[test]
fn short_structures_have_no_speed_and_zero_speeds_are_skipped() {
    let mut t = memory_device(0x15, 4096, 0x08, 0);
    t.extend(memory_device(0x28, 4096, 0x09, 0));
    let summary = scan_memory_device_table(&t).unwrap();
    assert_eq!(summary.slots_used, 2);
    assert_eq!(summary.form_factor, FormFactor::Simm);
    assert_eq!(summary.average_speed, None);
}

#[test]
fn too_short_for_a_memory_device_is_ignored() {
    let t = memory_device(0x14, 4096, 0x09, 0);
    let summary = scan_memory_device_table(&t).unwrap();
    assert_eq!(summary.slots_used, 0);
    assert_eq!(summary.form_factor, FormFactor::Unknown);
}

#[test]
fn other_form_factor_codes() {
    let t = memory_device(0x17, 1024, 0x02, 800);
    let summary = scan_memory_device_table(&t).unwrap();
    assert_eq!(summary.form_factor, FormFactor::Other);
    assert_eq!(summary.average_speed, Some(800));
}

#[test]
fn scan_stops_at_a_broken_header() {
    let mut t = memory_device(0x28, 2048, 0x0D, 1600);
    t.extend_from_slice(&[17, 3, 0, 0, 0, 0]); // length below 4
    t.extend(memory_device(0x28, 2048, 0x09, 3200));
    let summary = scan_memory_device_table(&t).unwrap();
    assert_eq!(summary.slots_used, 1);
    assert_eq!(summary.form_factor, FormFactor::Sodimm);
    assert_eq!(summary.average_speed, Some(1600));

    let mut t = memory_device(0x28, 2048, 0x0D, 1600);
    t.extend_from_slice(&[17, 0x28, 0, 0, 1, 2]); // runs past the end
    assert_eq!(scan_memory_device_table(&t).unwrap().slots_used, 1);
}

#[test]
fn string_set_without_terminator_ends_the_table() {
    let mut t = memory_device(0x28, 2048, 0x09, 3000);
    t.truncate(0x28); // no string terminator
    t.extend_from_slice(b"abc");
    let summary = scan_memory_device_table(&t).unwrap();
    assert_eq!(summary.slots_used, 1);
    assert_eq!(summary.average_speed, Some(3000));
}

#[test]
fn raw_table_header_is_skipped() {
    let mut raw = vec![0, 3, 4, 0, 0, 0, 0, 0];
    raw.extend(memory_device(0x28, 16384, 0x09, 3600));
    let summary = scan_firmware_table(&raw).unwrap();
    assert_eq!(summary.slots_used, 1);
    assert_eq!(summary.average_speed, Some(3600));
    assert_eq!(scan_firmware_table(&[0; 8]).unwrap().slots_used, 0);
}

#[test]
fn more_slots_than_a_u16_holds() {
    let one = memory_device(0x15, 1, 0x09, 0);
    let mut t = Vec::with_capacity(one.len() * 65536);
    for _ in 0..65535 {
        t.extend_from_slice(&one);
    }
    assert_eq!(scan_memory_device_table(&t).unwrap().slots_used, 65535);
    t.extend_from_slice(&one);
    assert_eq!(scan_memory_device_table(&t), None);
}

#[test]
fn form_factor_labels() {
    assert_eq!(FormFactor::Unknown.label(), "Unknown");
    assert_eq!(FormFactor::Dimm.label(), "DIMM");
    assert_eq!(FormFactor::Sodimm.label(), "SODIMM");
    assert_eq!(FormFactor::Simm.label(), "SIMM");
    assert_eq!(FormFactor::Other.label(), "Other");
    assert_eq!(FormFactor::from_code(0x0D), FormFactor::Sodimm);
}
