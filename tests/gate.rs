use imxrt_ccm::gate::{get_clock_gate, set_clock_gate};

#[test]
fn test_set_clock_gate() {
    let mut reg = 0;

    set_clock_gate(&mut reg, &[3, 7], 0b11);
    assert_eq!(reg, (0b11 << 14) | (0b11 << 6));

    set_clock_gate(&mut reg, &[3], 0b1);
    assert_eq!(reg, (0b11 << 14) | (0b01 << 6));

    set_clock_gate(
        &mut reg,
        &[0, 1, 2, 3, 4, 5, 6, 7, 8, 9, 10, 11, 12, 13, 14, 15],
        0b01,
    );
    assert_eq!(reg, 0x55555555);

    set_clock_gate(
        &mut reg,
        &[0, 1, 2, 3, 4, 5, 6, 7, 8, 9, 10, 11, 12, 13, 14, 15],
        0b10,
    );
    assert_eq!(reg, 0xAAAAAAAA);
}

#[test]
fn test_get_clock_gate() {
    let reg = 0x0000_0300;
    assert_eq!(get_clock_gate(&reg, 4), 0b11);
}

#[test]
fn setting_a_gate_twice_changes_nothing_more() {
    for start in [0u32, 0xFFFF_FFFF, 0x1234_5678, 0xAAAA_5555] {
        for value in [0b00u8, 0b01, 0b11] {
            let mut reg = start;
            set_clock_gate(&mut reg, &[2, 9, 15], value);
            let once = reg;
            set_clock_gate(&mut reg, &[2, 9, 15], value);
            assert_eq!(reg, once);
        }
    }
}

#[test]
fn set_clock_gate_uses_low_two_bits_only() {
    let mut reg = 0;
    set_clock_gate(&mut reg, &[0], 0xFD);
    assert_eq!(reg, 0b01);
    set_clock_gate(&mut reg, &[], 0b11);
    assert_eq!(reg, 0b01);
}

#[test]
fn get_clock_gate_reads_the_last_gate() {
    let reg = 0xC000_0000;
    assert_eq!(get_clock_gate(&reg, 15), 0b11);
    assert_eq!(get_clock_gate(&reg, 14), 0b00);
}
