use axdevice_vgic::EmuDeviceType;

const ALL: [EmuDeviceType; 12] = [
    EmuDeviceType::EmuDeviceTConsole,
    EmuDeviceType::EmuDeviceTInterruptController,
    EmuDeviceType::EmuDeviceTGPPT,
    EmuDeviceType::EmuDeviceTVirtioBlk,
    EmuDeviceType::EmuDeviceTVirtioNet,
    EmuDeviceType::EmuDeviceTVirtioConsole,
    EmuDeviceType::EmuDeviceTIOMMU,
    EmuDeviceType::EmuDeviceTICCSRE,
    EmuDeviceType::EmuDeviceTSGIR,
    EmuDeviceType::EmuDeviceTGICR,
    EmuDeviceType::EmuDeviceTIVCChannel,
    EmuDeviceType::EmuDeviceTMeta,
];

#[test]
fn from_usize_maps_each_number_to_its_tag() {
    for (i, t) in ALL.iter().enumerate() {
        assert_eq!(EmuDeviceType::from_usize(i), *t);
        assert_eq!(t.as_usize(), i);
    }
}

#[test]
fn removable_tags() {
    let removable: Vec<bool> = ALL.iter().map(|t| t.removable()).collect();
    assert_eq!(
        removable,
        vec![false, true, true, true, true, true, false, true, true, true, false, false]
    );
}

#[test]
fn default_tag_is_meta() {
    assert_eq!(EmuDeviceType::default(), EmuDeviceType::EmuDeviceTMeta);
}

#[test]
fn tag_names() {
    assert_eq!(EmuDeviceType::EmuDeviceTConsole.name(), "console");
    assert_eq!(EmuDeviceType::EmuDeviceTInterruptController.name(), "Interrupt controller");
    assert_eq!(
        EmuDeviceType::EmuDeviceTGPPT.name(),
        "partial passthrough interrupt controller"
    );
    assert_eq!(EmuDeviceType::EmuDeviceTGICR.name(), "interrupt controller gicr");
    assert_eq!(EmuDeviceType::EmuDeviceTIVCChannel.name(), "IVC channel");
    assert_eq!(EmuDeviceType::EmuDeviceTMeta.name(), "meta device");
}
