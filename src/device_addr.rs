use vstd::prelude::*;

verus! {

/// An address-like type that can be used to access devices.
///
/// Each address space (guest-physical memory, system registers, ports) has its
/// own address type, so an address of one space cannot be checked against a
/// range of another.
pub trait DeviceAddr: Copy + Eq + Ord + core::fmt::Debug {
    /// The address as a number.
    spec fn addr_value(self) -> int;
}

/// A range of device addresses. It may be contiguous or not.
pub trait DeviceAddrRange {
    /// The address type of the range.
    type Addr: DeviceAddr;

    /// Whether the range holds `addr`.
    spec fn spec_contains(&self, addr: Self::Addr) -> bool;

    /// Returns whether the address range contains the given address.
    fn contains(&self, addr: Self::Addr) -> (r: bool)
        ensures
            r == self.spec_contains(addr),
    ;
}

/// A guest physical address, the address of a memory-mapped device register.
#[derive(Clone, Copy, Debug, PartialEq, Eq, Structural, PartialOrd, Ord)]
pub struct GuestPhysAddr(pub usize);

impl DeviceAddr for GuestPhysAddr {
    open spec fn addr_value(self) -> int {
        self.0 as int
    }
}

/// A half-open range `[start, end)` of guest physical addresses.
#[derive(Clone, Copy, Debug, PartialEq, Eq, Structural)]
pub struct GuestPhysAddrRange {
    pub start: GuestPhysAddr,
    pub end: GuestPhysAddr,
}

impl GuestPhysAddrRange {
    /// Creates a new [`GuestPhysAddrRange`] instance.
    pub fn new(start: GuestPhysAddr, end: GuestPhysAddr) -> (r: Self)
        ensures
            r.start == start,
            r.end == end,
    {
        GuestPhysAddrRange { start, end }
    }
}

impl DeviceAddrRange for GuestPhysAddrRange {
    type Addr = GuestPhysAddr;

    open spec fn spec_contains(&self, addr: GuestPhysAddr) -> bool {
        self.start.0 <= addr.0 < self.end.0
    }

    fn contains(&self, addr: GuestPhysAddr) -> (r: bool) {
        self.start.0 <= addr.0 && addr.0 < self.end.0
    }
}

/// A system register address.
#[derive(Clone, Copy, Debug, PartialEq, Eq, Structural, PartialOrd, Ord)]
pub struct SysRegAddr(pub usize);

impl DeviceAddr for SysRegAddr {
    open spec fn addr_value(self) -> int {
        self.0 as int
    }
}

/// A range of system register addresses.
#[derive(Clone, Copy, Debug, PartialEq, Eq, Structural)]
pub struct SysRegAddrRange {
    pub start: SysRegAddr,
    pub end: SysRegAddr,
}

impl SysRegAddrRange {
    /// Creates a new [`SysRegAddrRange`] instance.
    pub fn new(start: SysRegAddr, end: SysRegAddr) -> (r: Self)
        ensures
            r.start == start,
            r.end == end,
    {
        Self { start, end }
    }
}

impl DeviceAddrRange for SysRegAddrRange {
    type Addr = SysRegAddr;

    open spec fn spec_contains(&self, addr: SysRegAddr) -> bool {
        self.start.0 <= addr.0 < self.end.0
    }

    fn contains(&self, addr: SysRegAddr) -> (r: bool) {
        addr.0 >= self.start.0 && addr.0 < self.end.0
    }
}

/// An I/O port address.
#[derive(Clone, Copy, Debug, PartialEq, Eq, Structural, PartialOrd, Ord)]
pub struct Port(pub u16);

impl DeviceAddr for Port {
    open spec fn addr_value(self) -> int {
        self.0 as int
    }
}

/// A half-open range `[start, end)` of I/O ports.
#[derive(Clone, Copy, Debug, PartialEq, Eq, Structural)]
pub struct PortRange {
    pub start: Port,
    pub end: Port,
}

impl PortRange {
    /// Creates a new [`PortRange`] instance.
    pub fn new(start: Port, end: Port) -> (r: Self)
        ensures
            r.start == start,
            r.end == end,
    {
        PortRange { start, end }
    }
}

impl DeviceAddrRange for PortRange {
    type Addr = Port;

    open spec fn spec_contains(&self, addr: Port) -> bool {
        self.start.0 <= addr.0 < self.end.0
    }

    fn contains(&self, addr: Port) -> (r: bool) {
        self.start.0 <= addr.0 && addr.0 < self.end.0
    }
}

/// A contiguous range holds exactly the addresses from its start up to, but
/// not including, its end; two ranges where one ends before the other starts
/// share no address.
pub proof fn lemma_sys_reg_range_containment(r1: SysRegAddrRange, r2: SysRegAddrRange, a: SysRegAddr)
    ensures
        r1.spec_contains(a) <==> (r1.start.0 <= a.0 && a.0 < r1.end.0),
        r1.start.0 < r1.end.0 ==> r1.spec_contains(r1.start),
        !r1.spec_contains(r1.end),
        (r1.end.0 <= r2.start.0 || r2.end.0 <= r1.start.0) ==> !(r1.spec_contains(a)
            && r2.spec_contains(a)),
{
}

/// A contiguous range of guest physical addresses holds exactly the addresses
/// from its start up to, but not including, its end; two ranges where one ends
/// before the other starts share no address.
pub proof fn lemma_guest_phys_range_containment(
    r1: GuestPhysAddrRange,
    r2: GuestPhysAddrRange,
    a: GuestPhysAddr,
)
    ensures
        r1.spec_contains(a) <==> (r1.start.0 <= a.0 && a.0 < r1.end.0),
        r1.start.0 < r1.end.0 ==> r1.spec_contains(r1.start),
        !r1.spec_contains(r1.end),
        (r1.end.0 <= r2.start.0 || r2.end.0 <= r1.start.0) ==> !(r1.spec_contains(a)
            && r2.spec_contains(a)),
{
}

/// A contiguous range of ports holds exactly the ports from its start up to,
/// but not including, its end; two ranges where one ends before the other
/// starts share no port.
pub proof fn lemma_port_range_containment(r1: PortRange, r2: PortRange, a: Port)
    ensures
        r1.spec_contains(a) <==> (r1.start.0 <= a.0 && a.0 < r1.end.0),
        r1.start.0 < r1.end.0 ==> r1.spec_contains(r1.start),
        !r1.spec_contains(r1.end),
        (r1.end.0 <= r2.start.0 || r2.end.0 <= r1.start.0) ==> !(r1.spec_contains(a)
            && r2.spec_contains(a)),
{
}

} // verus!
