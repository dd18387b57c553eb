use cjemu::{Ram, ReadableMemory, Rom, WritableMemory};

#[test]
fn ram_store_then_load_in_bounds() {
    let mut ram = Ram::new(0, 16);
    for a in 0..16u16 {
        assert_eq!(ram.set_byte(a, (a as u8) * 3 + 1), Some(()));
    }
    for a in 0..16u16 {
        assert_eq!(ram.byte(a), Some((a as u8) * 3 + 1));
    }
}

#[test]
fn ram_out_of_bounds_fails_both_ways() {
    let mut ram = Ram::new(7, 4);
    assert_eq!(ram.byte(4), None);
    assert_eq!(ram.set_byte(4, 9), None);
    assert_eq!(ram.set_byte(0xFFFF, 9), None);
    for a in 0..4u16 {
        assert_eq!(ram.byte(a), Some(7));
    }
}

#[test]
fn ram_store_leaves_other_bytes() {
    let mut ram = Ram::new(0, 3);
    assert_eq!(ram.set_byte(1, 0xAB), Some(()));
    assert_eq!(ram.byte(0), Some(0));
    assert_eq!(ram.byte(1), Some(0xAB));
    assert_eq!(ram.byte(2), Some(0));
}

#[test]
fn banks_report_their_size() {
    assert_eq!(Ram::new(0, 300).size(), 300);
    assert_eq!(Rom::new(0, 0).size(), 0);
    assert_eq!(Rom::default().size(), 0xFFFF);
    assert_eq!(Ram::default().size(), 0xFFFF);
    assert_eq!(Ram::default().byte(0xFFFE), Some(0));
    assert_eq!(Ram::default().byte(0xFFFF), None);
}

#[test]
fn rom_is_filled_with_default() {
    let rom = Rom::new(0x5A, 3);
    assert_eq!(rom.byte(0), Some(0x5A));
    assert_eq!(rom.byte(2), Some(0x5A));
    assert_eq!(rom.byte(3), None);
}

#[test]
fn rom_load_overlays_image() {
    let mut rom = Rom::new(0xEE, 4);
    assert_eq!(rom.load(&[1, 2]), Some(()));
    assert_eq!(rom.byte(0), Some(1));
    assert_eq!(rom.byte(1), Some(2));
    assert_eq!(rom.byte(2), Some(0xEE));
    assert_eq!(rom.byte(3), Some(0xEE));
    assert_eq!(rom.size(), 4);
}

#[test]
fn rom_load_refuses_long_image() {
    let mut rom = Rom::new(0, 2);
    assert_eq!(rom.load(&[1, 2, 3]), None);
    assert_eq!(rom.byte(0), Some(0));
    assert_eq!(rom.byte(1), Some(0));
}
