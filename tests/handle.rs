use imxrt_ccm::handle::{Handle, Reg, Step};
use imxrt_ccm::register::Field;

#[test]
fn registers_have_their_addresses() {
    assert_eq!(Reg::Cacrr.address(), 0x400F_C010);
    assert_eq!(Reg::Cbcdr.address(), 0x400F_C014);
    assert_eq!(Reg::Cbcmr.address(), 0x400F_C018);
    assert_eq!(Reg::Cscmr1.address(), 0x400F_C01C);
    assert_eq!(Reg::Cscdr1.address(), 0x400F_C024);
    assert_eq!(Reg::Cscdr2.address(), 0x400F_C038);
    assert_eq!(Reg::PllArm.address(), 0x400D_8000);
}

#[test]
fn new_handle_is_zero() {
    let handle = Handle::new();
    assert_eq!(handle.ccgr, [0; 8]);
    for reg in [Reg::Cacrr, Reg::Cbcdr, Reg::Cbcmr, Reg::Cscmr1, Reg::Cscdr1, Reg::Cscdr2, Reg::PllArm] {
        assert_eq!(handle.register(reg), 0);
    }
}

#[test]
fn set_register_writes_one_register() {
    let mut handle = Handle::new();
    handle.set_register(Reg::Cscdr1, 0xDEAD_BEEF);
    assert_eq!(handle.cscdr1, 0xDEAD_BEEF);
    assert_eq!(handle.register(Reg::Cscdr1), 0xDEAD_BEEF);
    assert_eq!(handle.cscdr2, 0);
}

#[test]
fn perform_modifies_writes_and_waits() {
    let mut handle = Handle::new();
    handle.cbcdr = 0xFFFF_FFFF;
    handle.perform(&Step::Modify(Reg::Cbcdr, Field::new(10, 0x7), 2));
    assert_eq!(handle.cbcdr, 0xFFFF_EBFF);
    handle.pll_arm = 0xFFFF_FFFF;
    handle.perform(&Step::WriteZero(Reg::PllArm, Field::new(12, 1), 1));
    assert_eq!(handle.pll_arm, 1 << 12);
    handle.perform(&Step::WaitHandshake);
    handle.perform(&Step::WaitPllLock);
    assert_eq!(handle.cbcdr, 0xFFFF_EBFF);
    assert_eq!(handle.pll_arm, 1 << 12);
}
