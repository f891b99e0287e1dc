use axdevice_vgic::{
    DeviceAddrRange, EmulatedDeviceConfig, GuestPhysAddr, GuestPhysAddrRange, Port, PortRange,
    SysRegAddr, SysRegAddrRange,
};

#[test]
fn sys_reg_range_is_half_open() {
    let r = SysRegAddrRange::new(SysRegAddr(0x10), SysRegAddr(0x20));
    assert_eq!(r.start, SysRegAddr(0x10));
    assert_eq!(r.end, SysRegAddr(0x20));
    assert!(!r.contains(SysRegAddr(0x0f)));
    assert!(r.contains(SysRegAddr(0x10)));
    assert!(r.contains(SysRegAddr(0x1f)));
    assert!(!r.contains(SysRegAddr(0x20)));
}

#[test]
fn empty_range_contains_nothing() {
    let r = SysRegAddrRange::new(SysRegAddr(5), SysRegAddr(5));
    assert!(!r.contains(SysRegAddr(5)));
    let p = PortRange::new(Port(0x60), Port(0x60));
    assert!(!p.contains(Port(0x60)));
}

#[test]
fn adjacent_guest_ranges_do_not_overlap() {
    let a = GuestPhysAddrRange::new(GuestPhysAddr(0x1000), GuestPhysAddr(0x2000));
    let b = GuestPhysAddrRange::new(GuestPhysAddr(0x2000), GuestPhysAddr(0x3000));
    for addr in [0x0fffusize, 0x1000, 0x1fff, 0x2000, 0x2fff, 0x3000] {
        let x = GuestPhysAddr(addr);
        assert!(!(a.contains(x) && b.contains(x)));
    }
    assert!(a.contains(GuestPhysAddr(0x1fff)));
    assert!(!a.contains(GuestPhysAddr(0x2000)));
    assert!(b.contains(GuestPhysAddr(0x2000)));
    assert!(!b.contains(GuestPhysAddr(0x3000)));
}

#[test]
fn port_range_is_half_open() {
    let p = PortRange::new(Port(0x3f8), Port(0x400));
    assert!(!p.contains(Port(0x3f7)));
    assert!(p.contains(Port(0x3f8)));
    assert!(p.contains(Port(0x3ff)));
    assert!(!p.contains(Port(0x400)));
}

#[test]
fn device_config_default_is_empty() {
    let c = EmulatedDeviceConfig::default();
    assert_eq!(c.name, "");
    assert_eq!(c.base_ipa, 0);
    assert_eq!(c.length, 0);
    assert_eq!(c.irq_id, 0);
    assert_eq!(c.emu_type, 0);
    assert!(c.cfg_list.is_empty());
}
