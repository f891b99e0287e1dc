//! Basic building blocks for emulated devices of a hypervisor, and a virtual
//! interrupt controller distributor built on them.
//!
//! - [`device_addr`]: address types per address space and the ranges devices own.
//! - [`device_config`]: the configuration record of an emulated device.
//! - [`emu_type`]: the closed set of device type tags.
//! - [`vgic`]: the register file and decode logic of the virtual GIC distributor.
pub mod device_addr;
pub mod device_config;
pub mod emu_type;
pub mod vgic;

pub use device_addr::{
    DeviceAddr, DeviceAddrRange, GuestPhysAddr, GuestPhysAddrRange, Port, PortRange, SysRegAddr,
    SysRegAddrRange,
};
pub use device_config::EmulatedDeviceConfig;
pub use emu_type::EmuDeviceType;
pub use vgic::{GicCall, GicTrait, Vgic, VgicModel};
