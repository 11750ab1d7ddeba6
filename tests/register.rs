use imxrt_ccm::register::{Field, Register};

fn lpi2c_clk_podf() -> Field {
    Field::new(19, 0x3F)
}

fn lpi2c_clk_sel() -> Field {
    Field::new(18, 0x01)
}

#[test]
fn set() {
    let mut reg = 0;
    let register = Register::new(lpi2c_clk_podf(), lpi2c_clk_sel());
    register.set(&mut reg, u32::MAX, u32::MAX);
    assert_eq!(reg, 0x01FC_0000);
    register.set(&mut reg, 0, 0);
    assert_eq!(reg, 0);
    reg = u32::MAX;
    register.set(&mut reg, 3, 1);
    assert_eq!(reg, 0xFE1F_FFFF);
}

#[test]
fn divider() {
    let mut reg = u32::MAX;
    let register = Register::new(lpi2c_clk_podf(), lpi2c_clk_sel());
    register.set(&mut reg, 3, 1);
    assert_eq!(register.divider(&reg), 3);
}

#[test]
fn modify() {
    let mut mem = 0;
    lpi2c_clk_podf().modify(&mut mem, u32::MAX);
    assert_eq!(mem, 0x3f << 19);
    mem = 0;
    lpi2c_clk_sel().modify(&mut mem, u32::MAX);
    assert!(mem.is_power_of_two());
}

#[test]
fn field_new_shifts_the_mask() {
    let f = Field::new(10, 0x7);
    assert_eq!(f.offset, 10);
    assert_eq!(f.mask, 0x1C00);
}

#[test]
fn write_zero_clears_other_bits() {
    let mut mem = u32::MAX;
    Field::new(12, 1).write_zero(&mut mem, 1);
    assert_eq!(mem, 1 << 12);
    Field::new(0, 0x7f).write_zero(&mut mem, 100);
    assert_eq!(mem, 100);
}

#[test]
fn read_and_selection() {
    let mem = 0xFE1F_FFFF;
    assert_eq!(lpi2c_clk_podf().read(&mem), 3);
    let register = Register::new(lpi2c_clk_podf(), lpi2c_clk_sel());
    assert_eq!(register.selection(&mem), 1);
}
