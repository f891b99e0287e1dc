use vstd::prelude::*;

verus! {

/// Represents the configuration of an emulated device for a virtual machine.
#[derive(Clone, Debug)]
pub struct EmulatedDeviceConfig {
    /// The name of the device
    pub name: String,
    /// The base IPA (Intermediate Physical Address) of the device.
    pub base_ipa: usize,
    /// The length of the device.
    pub length: usize,
    /// The IRQ (Interrupt Request) ID of the device.
    pub irq_id: usize,
    /// The type of emulated device, as a tag number of `EmuDeviceType`.
    pub emu_type: usize,
    /// The config_list of the device
    pub cfg_list: Vec<usize>,
}

impl Default for EmulatedDeviceConfig {
    fn default() -> (r: Self)
        ensures
            r.name@ == Seq::<char>::empty(),
            r.base_ipa == 0,
            r.length == 0,
            r.irq_id == 0,
            r.emu_type == 0,
            r.cfg_list@ == Seq::<usize>::empty(),
    {
        EmulatedDeviceConfig {
            name: String::new(),
            base_ipa: 0,
            length: 0,
            irq_id: 0,
            emu_type: 0,
            cfg_list: Vec::new(),
        }
    }
}

} // verus!
