use axdevice_vgic::vgic::{VGICD_BASE, VGICD_CTLR, VGICD_ICFGR, VGICD_ISENABLER, VGICD_SIZE};
use axdevice_vgic::vgic::issue_calls;
use axdevice_vgic::{EmuDeviceType, GicCall, GicTrait, GuestPhysAddr, Vgic};

fn at(offset: usize) -> GuestPhysAddr {
    GuestPhysAddr(VGICD_BASE + offset)
}

fn vgic_with_used(ids: &[usize]) -> Vgic {
    let mut v = Vgic::new();
    for &id in ids {
        v.set_irq_used(id, true);
    }
    v
}

#[test]
fn ctlr_enable_sweeps_used_irqs_in_order() {
    let mut v = vgic_with_used(&[511, 20, 16]);
    let calls = v.handle_write(at(VGICD_CTLR), 0, 0b1).unwrap();
    assert_eq!(
        calls,
        vec![
            GicCall::SetEnable { id: 16, enable: true },
            GicCall::SetPriority { id: 16, priority: 0 },
            GicCall::SetEnable { id: 20, enable: true },
            GicCall::SetPriority { id: 20, priority: 0 },
            GicCall::SetEnable { id: 511, enable: true },
            GicCall::SetPriority { id: 511, priority: 0 },
        ]
    );
    let calls = v.handle_write(at(VGICD_CTLR), 0, 0).unwrap();
    assert_eq!(
        calls,
        vec![
            GicCall::SetEnable { id: 16, enable: false },
            GicCall::SetEnable { id: 20, enable: false },
            GicCall::SetEnable { id: 511, enable: false },
        ]
    );
}

#[test]
fn ctlr_sweep_skips_sgi_ids() {
    let mut v = vgic_with_used(&[0, 15, 17]);
    let calls = v.handle_write(at(VGICD_CTLR), 2, 0b10).unwrap();
    assert_eq!(
        calls,
        vec![
            GicCall::SetEnable { id: 17, enable: true },
            GicCall::SetPriority { id: 17, priority: 0 },
        ]
    );
}

#[test]
fn ctlr_keeps_low_two_bits() {
    let mut v = Vgic::new();
    v.handle_write(at(VGICD_CTLR), 2, 0xff).unwrap();
    assert_eq!(v.handle_read(at(VGICD_CTLR), 2), Ok(0b11));
    // Bits above the two group-enable bits do not enable anything.
    v.set_irq_used(40, true);
    let calls = v.handle_write(at(VGICD_CTLR), 2, 0b100).unwrap();
    assert_eq!(calls, vec![GicCall::SetEnable { id: 40, enable: false }]);
    assert_eq!(v.handle_read(at(VGICD_CTLR), 0), Ok(0));
}

#[test]
fn ctlr_write_is_width_independent() {
    let mut results = Vec::new();
    for width in 0..3 {
        let mut v = vgic_with_used(&[16, 20, 511]);
        let on = v.handle_write(at(VGICD_CTLR), width, 0b1).unwrap();
        let off = v.handle_write(at(VGICD_CTLR), width, 0).unwrap();
        results.push((on, off));
    }
    assert_eq!(results[0], results[1]);
    assert_eq!(results[0], results[2]);
    assert_eq!(results[0].0.len(), 6);
    assert_eq!(results[0].1.len(), 3);
}

#[test]
fn unknown_offsets_read_zero_and_ignore_writes() {
    let mut v = vgic_with_used(&[16, 20, 511]);
    v.handle_write(at(VGICD_CTLR), 0, 0b1).unwrap();
    for offset in [1usize, VGICD_ISENABLER, VGICD_ICFGR, 0x100, 0xfff] {
        for width in 0..3 {
            assert_eq!(v.handle_read(at(offset), width), Ok(0));
            assert!(v.handle_write(at(offset), width, usize::MAX).unwrap().is_empty());
        }
    }
    assert_eq!(v.handle_read(at(VGICD_CTLR), 0), Ok(1));
    for id in [16usize, 20, 511] {
        assert!(v.irq_used(id));
    }
    assert!(!v.irq_used(17));
}

#[test]
fn undecoded_width_is_ignored() {
    let mut v = vgic_with_used(&[100]);
    assert!(v.handle_write(at(VGICD_CTLR), 3, 0b1).unwrap().is_empty());
    assert_eq!(v.handle_read(at(VGICD_CTLR), 3), Ok(0));
    assert_eq!(v.handle_read(at(VGICD_CTLR), 2), Ok(0));
}

#[test]
fn offset_is_taken_from_the_window_base() {
    let mut v = vgic_with_used(&[32]);
    // 0x800_1000 is offset 0x1000, not the control register.
    assert!(v.handle_write(at(0x1000), 0, 1).unwrap().is_empty());
    assert!(v.handle_write(at(0xf000), 2, 1).unwrap().is_empty());
    assert_eq!(v.handle_read(at(0x1000), 2), Ok(0));
    assert_eq!(v.handle_read(at(VGICD_CTLR), 2), Ok(0));
    // The last byte of the window is an unknown register too.
    assert!(v.handle_write(at(VGICD_SIZE - 1), 0, 1).unwrap().is_empty());
    assert_eq!(v.handle_read(at(VGICD_CTLR), 0), Ok(0));
}

#[test]
fn irq_used_marks_and_releases() {
    let mut v = Vgic::new();
    v.set_irq_used(31, true);
    v.set_irq_used(32, true);
    assert!(v.irq_used(31));
    assert!(v.irq_used(32));
    assert!(!v.irq_used(33));
    v.set_irq_used(31, false);
    assert!(!v.irq_used(31));
    assert!(v.irq_used(32));
}

#[test]
fn device_identity() {
    let v = Vgic::new();
    assert_eq!(v.emu_type(), EmuDeviceType::EmuDeviceTInterruptController);
    let r = v.address_range();
    assert_eq!(r.start, GuestPhysAddr(0x800_0000));
    assert_eq!(r.end, GuestPhysAddr(0x800_0000 + VGICD_SIZE));
}

static ISSUED: std::sync::Mutex<Vec<GicCall>> = std::sync::Mutex::new(Vec::new());

struct RecordingGic;

impl GicTrait for RecordingGic {
    fn set_enable(vector: usize, enable: bool) {
        ISSUED.lock().unwrap().push(GicCall::SetEnable { id: vector, enable });
    }
    fn get_enable(_vector: usize) -> bool {
        false
    }
    fn get_typer() -> u32 {
        0
    }
    fn get_iidr() -> u32 {
        0
    }
    fn set_state(_int_id: usize, _state: usize, _current_cpu_id: usize) {}
    fn get_state(_int_id: usize) -> usize {
        0
    }
    fn set_icfgr(_int_id: usize, _cfg: u8) {}
    fn get_target_cpu(_int_id: usize) -> usize {
        0
    }
    fn set_target_cpu(_int_id: usize, _target: u8) {}
    fn get_priority(_int_id: usize) -> usize {
        0
    }
    fn set_priority(int_id: usize, priority: u8) {
        ISSUED.lock().unwrap().push(GicCall::SetPriority { id: int_id, priority });
    }
}

#[test]
fn issued_calls_reach_the_controller_in_order() {
    let mut v = vgic_with_used(&[16, 20, 511]);
    let calls = v.handle_write(at(VGICD_CTLR), 1, 0b11).unwrap();
    issue_calls::<RecordingGic>(&calls);
    let issued = ISSUED.lock().unwrap().clone();
    assert_eq!(issued, calls);
    assert_eq!(issued[0], GicCall::SetEnable { id: 16, enable: true });
    assert_eq!(issued[5], GicCall::SetPriority { id: 511, priority: 0 });
}

#[test]
fn attach_vcpu_appends_reset_state() {
    let mut v = Vgic::new();
    assert_eq!(v.vcpu_count(), 0);
    v.attach_vcpu(3);
    v.attach_vcpu(7);
    assert_eq!(v.vcpu_count(), 2);
    // Attaching vCPUs leaves the distributor registers alone.
    assert_eq!(v.handle_read(at(VGICD_CTLR), 0), Ok(0));
}
