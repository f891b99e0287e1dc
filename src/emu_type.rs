use vstd::prelude::*;

verus! {

/// The category of an emulated device.
///
/// The set of tags is closed; the default tag is the unclassified "meta" device.
#[derive(Clone, Copy, Debug, PartialEq, Eq, Structural)]
pub enum EmuDeviceType {
    /// Console device.
    EmuDeviceTConsole,
    /// Interrupt controller device, e.g. vGICv2 in aarch64, vLAPIC in x86.
    EmuDeviceTInterruptController,
    /// Partial passthrough interrupt controller device.
    EmuDeviceTGPPT,
    /// Virtio block device.
    EmuDeviceTVirtioBlk,
    /// Virtio net device.
    EmuDeviceTVirtioNet,
    /// Virtio console device.
    EmuDeviceTVirtioConsole,
    /// IOMMU device.
    EmuDeviceTIOMMU,
    /// Interrupt ICC SRE device.
    EmuDeviceTICCSRE,
    /// Interrupt ICC SGIR device.
    EmuDeviceTSGIR,
    /// Interrupt controller GICR device.
    EmuDeviceTGICR,
    /// A device that provides an Inter-VM Communication (IVC) channel.
    /// Its memory region should be marked as `Reserved` in the device tree or ACPI table.
    EmuDeviceTIVCChannel,
    /// Meta device.
    EmuDeviceTMeta,
}

/// Number of device type tags; tag numbers run from 0 below this bound.
pub const EMU_DEVICE_TYPE_COUNT: usize = 12;

impl EmuDeviceType {
    /// The number of a tag, in declaration order starting at 0.
    pub open spec fn index(self) -> int {
        match self {
            EmuDeviceType::EmuDeviceTConsole => 0,
            EmuDeviceType::EmuDeviceTInterruptController => 1,
            EmuDeviceType::EmuDeviceTGPPT => 2,
            EmuDeviceType::EmuDeviceTVirtioBlk => 3,
            EmuDeviceType::EmuDeviceTVirtioNet => 4,
            EmuDeviceType::EmuDeviceTVirtioConsole => 5,
            EmuDeviceType::EmuDeviceTIOMMU => 6,
            EmuDeviceType::EmuDeviceTICCSRE => 7,
            EmuDeviceType::EmuDeviceTSGIR => 8,
            EmuDeviceType::EmuDeviceTGICR => 9,
            EmuDeviceType::EmuDeviceTIVCChannel => 10,
            EmuDeviceType::EmuDeviceTMeta => 11,
        }
    }

    /// Whether devices of this tag may be removed from a running VM.
    pub open spec fn spec_removable(self) -> bool {
        matches!(
            self,
            EmuDeviceType::EmuDeviceTInterruptController
                | EmuDeviceType::EmuDeviceTSGIR
                | EmuDeviceType::EmuDeviceTICCSRE
                | EmuDeviceType::EmuDeviceTGPPT
                | EmuDeviceType::EmuDeviceTVirtioBlk
                | EmuDeviceType::EmuDeviceTVirtioNet
                | EmuDeviceType::EmuDeviceTGICR
                | EmuDeviceType::EmuDeviceTVirtioConsole
        )
    }

    /// Human-readable name of a tag.
    pub open spec fn spec_name(self) -> Seq<char> {
        match self {
            EmuDeviceType::EmuDeviceTConsole => "console"@,
            EmuDeviceType::EmuDeviceTInterruptController => "Interrupt controller"@,
            EmuDeviceType::EmuDeviceTGPPT => "partial passthrough interrupt controller"@,
            EmuDeviceType::EmuDeviceTVirtioBlk => "virtio block"@,
            EmuDeviceType::EmuDeviceTVirtioNet => "virtio net"@,
            EmuDeviceType::EmuDeviceTVirtioConsole => "virtio console"@,
            EmuDeviceType::EmuDeviceTIOMMU => "IOMMU"@,
            EmuDeviceType::EmuDeviceTICCSRE => "interrupt ICC SRE"@,
            EmuDeviceType::EmuDeviceTSGIR => "interrupt ICC SGIR"@,
            EmuDeviceType::EmuDeviceTGICR => "interrupt controller gicr"@,
            EmuDeviceType::EmuDeviceTIVCChannel => "IVC channel"@,
            EmuDeviceType::EmuDeviceTMeta => "meta device"@,
        }
    }

    /// Returns true if the device is removable.
    pub fn removable(&self) -> (r: bool)
        ensures
            r == self.spec_removable(),
    {
        matches!(
            *self,
            EmuDeviceType::EmuDeviceTInterruptController
                | EmuDeviceType::EmuDeviceTSGIR
                | EmuDeviceType::EmuDeviceTICCSRE
                | EmuDeviceType::EmuDeviceTGPPT
                | EmuDeviceType::EmuDeviceTVirtioBlk
                | EmuDeviceType::EmuDeviceTVirtioNet
                | EmuDeviceType::EmuDeviceTGICR
                | EmuDeviceType::EmuDeviceTVirtioConsole
        )
    }

    /// Converts a tag number to its tag; numbers outside the tag set are not accepted.
    pub fn from_usize(value: usize) -> (r: EmuDeviceType)
        requires
            value < EMU_DEVICE_TYPE_COUNT,
        ensures
            r.index() == value,
    {
        match value {
            0 => EmuDeviceType::EmuDeviceTConsole,
            1 => EmuDeviceType::EmuDeviceTInterruptController,
            2 => EmuDeviceType::EmuDeviceTGPPT,
            3 => EmuDeviceType::EmuDeviceTVirtioBlk,
            4 => EmuDeviceType::EmuDeviceTVirtioNet,
            5 => EmuDeviceType::EmuDeviceTVirtioConsole,
            6 => EmuDeviceType::EmuDeviceTIOMMU,
            7 => EmuDeviceType::EmuDeviceTICCSRE,
            8 => EmuDeviceType::EmuDeviceTSGIR,
            9 => EmuDeviceType::EmuDeviceTGICR,
            10 => EmuDeviceType::EmuDeviceTIVCChannel,
            _ => EmuDeviceType::EmuDeviceTMeta,
        }
    }

    /// The tag's number, the inverse of [`EmuDeviceType::from_usize`].
    pub fn as_usize(&self) -> (r: usize)
        ensures
            r == self.index(),
    {
        match *self {
            EmuDeviceType::EmuDeviceTConsole => 0,
            EmuDeviceType::EmuDeviceTInterruptController => 1,
            EmuDeviceType::EmuDeviceTGPPT => 2,
            EmuDeviceType::EmuDeviceTVirtioBlk => 3,
            EmuDeviceType::EmuDeviceTVirtioNet => 4,
            EmuDeviceType::EmuDeviceTVirtioConsole => 5,
            EmuDeviceType::EmuDeviceTIOMMU => 6,
            EmuDeviceType::EmuDeviceTICCSRE => 7,
            EmuDeviceType::EmuDeviceTSGIR => 8,
            EmuDeviceType::EmuDeviceTGICR => 9,
            EmuDeviceType::EmuDeviceTIVCChannel => 10,
            EmuDeviceType::EmuDeviceTMeta => 11,
        }
    }

    /// Human-readable name of the tag, as shown when the tag is displayed.
    pub fn name(&self) -> (r: &'static str)
        ensures
            r@ == self.spec_name(),
    {
        match *self {
            EmuDeviceType::EmuDeviceTConsole => "console",
            EmuDeviceType::EmuDeviceTInterruptController => "Interrupt controller",
            EmuDeviceType::EmuDeviceTGPPT => "partial passthrough interrupt controller",
            EmuDeviceType::EmuDeviceTVirtioBlk => "virtio block",
            EmuDeviceType::EmuDeviceTVirtioNet => "virtio net",
            EmuDeviceType::EmuDeviceTVirtioConsole => "virtio console",
            EmuDeviceType::EmuDeviceTIOMMU => "IOMMU",
            EmuDeviceType::EmuDeviceTICCSRE => "interrupt ICC SRE",
            EmuDeviceType::EmuDeviceTSGIR => "interrupt ICC SGIR",
            EmuDeviceType::EmuDeviceTGICR => "interrupt controller gicr",
            EmuDeviceType::EmuDeviceTIVCChannel => "IVC channel",
            EmuDeviceType::EmuDeviceTMeta => "meta device",
        }
    }
}

impl Default for EmuDeviceType {
    fn default() -> (r: Self)
        ensures
            r == EmuDeviceType::EmuDeviceTMeta,
    {
        EmuDeviceType::EmuDeviceTMeta
    }
}

/// Tag numbers and tags correspond one to one.
pub proof fn lemma_index_round_trip(t: EmuDeviceType, u: EmuDeviceType)
    ensures
        0 <= t.index() < EMU_DEVICE_TYPE_COUNT,
        t.index() == u.index() ==> t == u,
{
}

} // verus!
