use vstd::prelude::*;

use crate::device_addr::{GuestPhysAddr, GuestPhysAddrRange};
use crate::emu_type::EmuDeviceType;

verus! {

/// Declares `axerrno::AxError`, the error type of device accesses; it is only
/// carried in results, never inspected.
#[verifier::external_type_specification]
#[verifier::external_body]
pub struct ExAxError(axerrno::AxError);

/// Number of software-generated interrupt IDs (0..16).
pub const SGI_ID_MAX: usize = 16;
/// End of the private peripheral interrupt IDs (16..32).
pub const PPI_ID_MAX: usize = 32;
/// End of the shared peripheral interrupt IDs; every bitmap covers 0..512.
pub const SPI_ID_MAX: usize = 512;
/// Number of list registers saved per vCPU.
pub const GICD_LR_NUM: usize = 4;
/// Number of 32-bit words in a one-bit-per-interrupt bitmap.
pub const IRQ_BITMAP_WORDS: usize = 16;
/// Number of 32-bit words in the two-bits-per-interrupt configuration bitmap.
pub const ICFGR_WORDS: usize = 32;

/// Guest physical base address of the distributor register block.
pub const VGICD_BASE: usize = 0x800_0000;
/// Size in bytes of the distributor register block.
pub const VGICD_SIZE: usize = 0x10000;

/// Access width code of an 8-bit access.
pub const WIDTH_8: usize = 0;
/// Access width code of a 16-bit access.
pub const WIDTH_16: usize = 1;
/// Access width code of a 32-bit access.
pub const WIDTH_32: usize = 2;

/* ============ register offset classes ============= */
pub const VGICD_CTLR: usize = 0x0;
pub const VGICD_ISENABLER: usize = 0x2;
pub const VGICD_ICENABLER: usize = 0x3;
pub const VGICD_ISPENDR: usize = 0x4;
pub const VGICD_ICPENDR: usize = 0x5;
pub const VGICD_ISACTIVER: usize = 0x6;
pub const VGICD_ICACTIVER: usize = 0x7;
pub const VGICD_ICFGR: usize = 0x18;
pub const VGICD_SGIR: usize = 0x1e;

/// The physical interrupt controller operations that the vGIC mirrors its
/// state to. A driver outside this crate implements it; its methods must not
/// call back into the vGIC.
pub trait GicTrait {
    fn set_enable(vector: usize, enable: bool);
    fn get_enable(vector: usize) -> bool;
    fn get_typer() -> u32;
    fn get_iidr() -> u32;

    fn set_state(int_id: usize, state: usize, current_cpu_id: usize);
    fn get_state(int_id: usize) -> usize;

    fn set_icfgr(int_id: usize, cfg: u8);

    fn get_target_cpu(int_id: usize) -> usize;
    fn set_target_cpu(int_id: usize, target: u8);

    fn get_priority(int_id: usize) -> usize;
    fn set_priority(int_id: usize, priority: u8);
}

/// One call into the physical controller that a register write asks for.
#[derive(Clone, Copy, Debug, PartialEq, Eq, Structural)]
pub enum GicCall {
    /// `GicTrait::set_enable(id, enable)`.
    SetEnable { id: usize, enable: bool },
    /// `GicTrait::set_priority(id, priority)`.
    SetPriority { id: usize, priority: u8 },
}

impl GicCall {
    /// The interrupt ID a call is about.
    pub open spec fn spec_id(self) -> usize {
        match self {
            GicCall::SetEnable { id, .. } => id,
            GicCall::SetPriority { id, .. } => id,
        }
    }
}

/// Makes the calls on the physical controller `G`, in order.
pub fn issue_calls<G: GicTrait>(calls: &Vec<GicCall>) {
    let mut k: usize = 0;
    while k < calls.len()
        invariant
            k <= calls@.len(),
        decreases calls@.len() - k,
    {
        match calls[k] {
            GicCall::SetEnable { id, enable } => G::set_enable(id, enable),
            GicCall::SetPriority { id, priority } => G::set_priority(id, priority),
        }
        k = k + 1;
    }
}

/// Per-vCPU interface state.
pub struct Vgicc {
    /// Identity of the vCPU.
    pub id: u32,
    /// Pending list-register shadow, one entry per interrupt ID.
    pub pending_lr: Vec<u32>,
    /// Saved list registers.
    pub saved_lr: Vec<u32>,
    /// Saved end-of-interrupt status.
    pub saved_elsr0: u32,
    /// Saved active-priority register.
    pub saved_apr: u32,
    /// Saved hypervisor control register.
    pub saved_hcr: u32,
    /// Enable bits of the software-generated and private interrupts (0..32).
    pub isenabler: u32,
    /// Priorities of the software-generated and private interrupts.
    pub priorityr: Vec<u8>,
}

impl Vgicc {
    /// The state of a freshly attached vCPU: every register zero, every array
    /// covering its interrupt range.
    pub open spec fn is_reset(&self, id: u32) -> bool {
        &&& self.id == id
        &&& self.pending_lr@ == Seq::new(SPI_ID_MAX as nat, |i: int| 0u32)
        &&& self.saved_lr@ == Seq::new(GICD_LR_NUM as nat, |i: int| 0u32)
        &&& self.saved_elsr0 == 0
        &&& self.saved_apr == 0
        &&& self.saved_hcr == 0
        &&& self.isenabler == 0
        &&& self.priorityr@ == Seq::new(PPI_ID_MAX as nat, |i: int| 0u8)
    }
}

/// The abstract register file of a [`Vgic`].
pub struct VgicModel {
    /// One bit per interrupt ID: claimed by some device backend.
    pub used_irq: Seq<u32>,
    /// Per-vCPU interface state.
    pub vcpus: Seq<Vgicc>,
    /// Distributor control register; the low two bits enable groups 0 and 1.
    pub ctrlr: u32,
    pub typer: u32,
    pub iidr: u32,
    pub igroupr: Seq<u32>,
    pub isenabler: Seq<u32>,
    pub ipriorityr: Seq<u8>,
    pub itargetsr: Seq<u8>,
    pub icfgr: Seq<u32>,
}

impl VgicModel {
    /// Every bitmap and array covers the whole interrupt ID space, and the
    /// control register holds only its two group-enable bits.
    pub open spec fn wf(self) -> bool {
        &&& self.ctrlr <= 0b11
        &&& self.used_irq.len() == IRQ_BITMAP_WORDS
        &&& self.igroupr.len() == IRQ_BITMAP_WORDS
        &&& self.isenabler.len() == IRQ_BITMAP_WORDS
        &&& self.ipriorityr.len() == SPI_ID_MAX
        &&& self.itargetsr.len() == SPI_ID_MAX
        &&& self.icfgr.len() == ICFGR_WORDS
    }
}

/// Whether interrupt `id` is marked in a one-bit-per-interrupt bitmap.
pub open spec fn spec_irq_used(used: Seq<u32>, id: int) -> bool {
    used[id / 32] & (1u32 << ((id % 32) as u32)) != 0
}

/// The calls that a control-register sweep makes for interrupt `id`.
pub open spec fn ctlr_calls_for(used: Seq<u32>, enable: bool, id: int) -> Seq<GicCall> {
    if spec_irq_used(used, id) {
        if enable {
            seq![
                GicCall::SetEnable { id: id as usize, enable: true },
                GicCall::SetPriority { id: id as usize, priority: 0 },
            ]
        } else {
            seq![GicCall::SetEnable { id: id as usize, enable: false }]
        }
    } else {
        seq![]
    }
}

/// The calls of a control-register sweep over the IDs from `SGI_ID_MAX` up to,
/// not including, `upto`, in ascending ID order.
pub open spec fn ctlr_sweep(used: Seq<u32>, enable: bool, upto: int) -> Seq<GicCall>
    decreases upto,
{
    if upto <= SGI_ID_MAX {
        seq![]
    } else {
        ctlr_sweep(used, enable, upto - 1) + ctlr_calls_for(used, enable, upto - 1)
    }
}

/// Whether a width code names one of the three decoded access widths.
pub open spec fn spec_width_decoded(width: usize) -> bool {
    width == WIDTH_8 || width == WIDTH_16 || width == WIDTH_32
}

/// The value a read of register `offset` returns.
pub open spec fn read_value(m: VgicModel, offset: usize, width: usize) -> usize {
    if spec_width_decoded(width) && offset == VGICD_CTLR {
        m.ctrlr as usize
    } else {
        0
    }
}

/// The register file after a write of `val` to register `offset`.
pub open spec fn write_model(m: VgicModel, offset: usize, width: usize, val: usize) -> VgicModel {
    if spec_width_decoded(width) && offset == VGICD_CTLR {
        VgicModel { ctrlr: (val & 0b11) as u32, ..m }
    } else {
        m
    }
}

/// The calls on the physical controller that a write of `val` to register
/// `offset` asks for.
pub open spec fn write_calls(used: Seq<u32>, offset: usize, width: usize, val: usize) -> Seq<
    GicCall,
> {
    if spec_width_decoded(width) && offset == VGICD_CTLR {
        ctlr_sweep(used, (val & 0b11) as u32 != 0, SPI_ID_MAX as int)
    } else {
        seq![]
    }
}

/// The distributor of a virtual GICv2: its register file and its decode logic.
///
/// Accesses take `&mut self` for writes, so each write, including its sweep over
/// the used interrupts, is one indivisible step; a device shared by several
/// vCPUs holds it behind one lock.
pub struct Vgic {
    used_irq: Vec<u32>,
    gicc: Vec<Vgicc>,
    ctrlr: u32,
    typer: u32,
    iidr: u32,
    gicd_igroupr: Vec<u32>,
    gicd_isenabler: Vec<u32>,
    gicd_ipriorityr: Vec<u8>,
    gicd_itargetsr: Vec<u8>,
    gicd_icfgr: Vec<u32>,
}

impl View for Vgic {
    type V = VgicModel;

    closed spec fn view(&self) -> VgicModel {
        VgicModel {
            used_irq: self.used_irq@,
            vcpus: self.gicc@,
            ctrlr: self.ctrlr,
            typer: self.typer,
            iidr: self.iidr,
            igroupr: self.gicd_igroupr@,
            isenabler: self.gicd_isenabler@,
            ipriorityr: self.gicd_ipriorityr@,
            itargetsr: self.gicd_itargetsr@,
            icfgr: self.gicd_icfgr@,
        }
    }
}

impl Vgic {
    /// A distributor with every register zero, no interrupt in use and no vCPU.
    pub fn new() -> (r: Vgic)
        ensures
            r@.wf(),
            r@.ctrlr == 0,
            r@.typer == 0,
            r@.iidr == 0,
            r@.vcpus.len() == 0,
            forall|i: int| 0 <= i < IRQ_BITMAP_WORDS ==> r@.used_irq[i] == 0,
            forall|i: int| 0 <= i < IRQ_BITMAP_WORDS ==> r@.igroupr[i] == 0,
            forall|i: int| 0 <= i < IRQ_BITMAP_WORDS ==> r@.isenabler[i] == 0,
            forall|i: int| 0 <= i < SPI_ID_MAX ==> r@.ipriorityr[i] == 0,
            forall|i: int| 0 <= i < SPI_ID_MAX ==> r@.itargetsr[i] == 0,
            forall|i: int| 0 <= i < ICFGR_WORDS ==> r@.icfgr[i] == 0,
    {
        Vgic {
            used_irq: vec![0u32; IRQ_BITMAP_WORDS],
            gicc: Vec::new(),
            ctrlr: 0,
            typer: 0,
            iidr: 0,
            gicd_igroupr: vec![0u32; IRQ_BITMAP_WORDS],
            gicd_isenabler: vec![0u32; IRQ_BITMAP_WORDS],
            gicd_ipriorityr: vec![0u8; SPI_ID_MAX],
            gicd_itargetsr: vec![0u8; SPI_ID_MAX],
            gicd_icfgr: vec![0u32; ICFGR_WORDS],
        }
    }
    /// The calls of a sweep over every interrupt in use, from `SGI_ID_MAX` up
    /// to `SPI_ID_MAX` in ascending order: enable and priority 0 for each when
    /// `enable`, disable for each otherwise.
    fn ctlr_sweep_calls(&self, enable: bool) -> (r: Vec<GicCall>)
        requires
            self@.wf(),
        ensures
            r@ == ctlr_sweep(self@.used_irq, enable, SPI_ID_MAX as int),
    {
        let mut calls: Vec<GicCall> = Vec::new();
        let mut i: usize = SGI_ID_MAX;
        while i < SPI_ID_MAX
            invariant
                SGI_ID_MAX <= i <= SPI_ID_MAX,
                self@.wf(),
                calls@ == ctlr_sweep(self@.used_irq, enable, i as int),
            decreases SPI_ID_MAX - i,
        {
            if self.used_irq[i / 32] & (1u32 << ((i % 32) as u32)) != 0 {
                calls.push(GicCall::SetEnable { id: i, enable });
                if enable {
                    calls.push(GicCall::SetPriority { id: i, priority: 0 });
                }
            }
            proof {
                assert(ctlr_sweep(self@.used_irq, enable, i + 1) == ctlr_sweep(
                    self@.used_irq,
                    enable,
                    i as int,
                ) + ctlr_calls_for(self@.used_irq, enable, i as int));
            }
            i = i + 1;
        }
        calls
    }

    /// 8-bit write of `val` to register `offset`; returns the calls on the
    /// physical controller that the write asks for.
    pub fn handle_write8(&mut self, offset: usize, val: usize) -> (r: Vec<GicCall>)
        requires
            old(self)@.wf(),
        ensures
            final(self)@.wf(),
            final(self)@ == write_model(old(self)@, offset, WIDTH_8, val),
            r@ == write_calls(old(self)@.used_irq, offset, WIDTH_8, val),
            offset != VGICD_CTLR ==> *final(self) == *old(self),
    {
        if offset == VGICD_CTLR {
            // Only the group 0 and group 1 enable bits are kept.
            self.ctrlr = (val & 0b11) as u32;
            assert((val & 0b11) <= 0b11) by (bit_vector);
            let enable = self.ctrlr > 0;
            self.ctlr_sweep_calls(enable)
        } else {
            Vec::new()
        }
    }

    /// 16-bit write; the control register behaves as for an 8-bit write.
    pub fn handle_write16(&mut self, offset: usize, val: usize) -> (r: Vec<GicCall>)
        requires
            old(self)@.wf(),
        ensures
            final(self)@.wf(),
            final(self)@ == write_model(old(self)@, offset, WIDTH_16, val),
            r@ == write_calls(old(self)@.used_irq, offset, WIDTH_16, val),
            offset != VGICD_CTLR ==> *final(self) == *old(self),
    {
        if offset == VGICD_CTLR {
            self.handle_write8(offset, val)
        } else {
            Vec::new()
        }
    }

    /// 32-bit write; the control register behaves as for an 8-bit write.
    pub fn handle_write32(&mut self, offset: usize, val: usize) -> (r: Vec<GicCall>)
        requires
            old(self)@.wf(),
        ensures
            final(self)@.wf(),
            final(self)@ == write_model(old(self)@, offset, WIDTH_32, val),
            r@ == write_calls(old(self)@.used_irq, offset, WIDTH_32, val),
            offset != VGICD_CTLR ==> *final(self) == *old(self),
    {
        if offset == VGICD_CTLR {
            self.handle_write8(offset, val)
        } else {
            Vec::new()
        }
    }

    /// A write of `val` to `addr`, inside the distributor's window, with access
    /// width code `width`. The register offset is `addr` less the window's base.
    /// It never fails; on success it hands back the calls on the physical
    /// controller that the write asks for, to be made before the register file
    /// is released. Unknown registers and widths leave the register file
    /// unchanged and ask for nothing.
    pub fn handle_write(&mut self, addr: GuestPhysAddr, width: usize, val: usize) -> (r: Result<
        Vec<GicCall>,
        axerrno::AxError,
    >)
        requires
            old(self)@.wf(),
            VGICD_BASE <= addr.0 < VGICD_BASE + VGICD_SIZE,
        ensures
            final(self)@.wf(),
            final(self)@ == write_model(old(self)@, (addr.0 - VGICD_BASE) as usize, width, val),
            r matches Ok(calls) && calls@ == write_calls(
                old(self)@.used_irq,
                (addr.0 - VGICD_BASE) as usize,
                width,
                val,
            ),
            addr.0 - VGICD_BASE != VGICD_CTLR || !spec_width_decoded(width) ==> *final(self)
                == *old(self),
    {
        let offset = addr.0 - VGICD_BASE;
        let calls = if width == WIDTH_8 {
            self.handle_write8(offset, val)
        } else if width == WIDTH_16 {
            self.handle_write16(offset, val)
        } else if width == WIDTH_32 {
            self.handle_write32(offset, val)
        } else {
            Vec::new()
        };
        Ok(calls)
    }

    /// 8-bit read of register `offset`.
    pub fn handle_read8(&self, offset: usize) -> (r: Result<usize, axerrno::AxError>)
        requires
            self@.wf(),
        ensures
            r == Ok::<usize, axerrno::AxError>(read_value(self@, offset, WIDTH_8)),
            read_value(self@, offset, WIDTH_8) <= 0b11,
    {
        self.read_register(offset)
    }

    /// 16-bit read of register `offset`.
    pub fn handle_read16(&self, offset: usize) -> (r: Result<usize, axerrno::AxError>)
        requires
            self@.wf(),
        ensures
            r == Ok::<usize, axerrno::AxError>(read_value(self@, offset, WIDTH_16)),
            read_value(self@, offset, WIDTH_16) <= 0b11,
    {
        self.read_register(offset)
    }

    /// 32-bit read of register `offset`.
    pub fn handle_read32(&self, offset: usize) -> (r: Result<usize, axerrno::AxError>)
        requires
            self@.wf(),
        ensures
            r == Ok::<usize, axerrno::AxError>(read_value(self@, offset, WIDTH_32)),
            read_value(self@, offset, WIDTH_32) <= 0b11,
    {
        self.read_register(offset)
    }

    /// The value of register `offset` for any decoded width: the control
    /// register's value, or 0 for every other offset.
    fn read_register(&self, offset: usize) -> (r: Result<usize, axerrno::AxError>)
        requires
            self@.wf(),
        ensures
            r == Ok::<usize, axerrno::AxError>(read_value(self@, offset, WIDTH_8)),
            read_value(self@, offset, WIDTH_8) <= 0b11,
    {
        if offset == VGICD_CTLR {
            Ok(self.ctrlr as usize)
        } else {
            Ok(0)
        }
    }

    /// A read of `addr`, inside the distributor's window, with access width
    /// code `width`. The register offset is `addr` less the window's base. It
    /// never fails: unknown registers and widths read as 0, and every value
    /// read fits in the narrowest width.
    pub fn handle_read(&self, addr: GuestPhysAddr, width: usize) -> (r: Result<
        usize,
        axerrno::AxError,
    >)
        requires
            self@.wf(),
            VGICD_BASE <= addr.0 < VGICD_BASE + VGICD_SIZE,
        ensures
            r == Ok::<usize, axerrno::AxError>(
                read_value(self@, (addr.0 - VGICD_BASE) as usize, width),
            ),
            read_value(self@, (addr.0 - VGICD_BASE) as usize, width) <= 0b11,
    {
        let offset = addr.0 - VGICD_BASE;
        if width == WIDTH_8 {
            self.handle_read8(offset)
        } else if width == WIDTH_16 {
            self.handle_read16(offset)
        } else if width == WIDTH_32 {
            self.handle_read32(offset)
        } else {
            Ok(0)
        }
    }

    /// The type tag of the distributor device.
    pub fn emu_type(&self) -> (r: EmuDeviceType)
        ensures
            r == EmuDeviceType::EmuDeviceTInterruptController,
    {
        EmuDeviceType::EmuDeviceTInterruptController
    }

    /// The guest physical range of the distributor register block.
    pub fn address_range(&self) -> (r: GuestPhysAddrRange)
        ensures
            r.start.0 == VGICD_BASE,
            r.end.0 == VGICD_BASE + VGICD_SIZE,
    {
        GuestPhysAddrRange::new(GuestPhysAddr(VGICD_BASE), GuestPhysAddr(VGICD_BASE + VGICD_SIZE))
    }
    /// Attaches the vCPU `id`, with its interface state reset, after the vCPUs
    /// already attached.
    pub fn attach_vcpu(&mut self, id: u32)
        requires
            old(self)@.wf(),
        ensures
            final(self)@ == (VgicModel { vcpus: final(self)@.vcpus, ..old(self)@ }),
            final(self)@.wf(),
            final(self)@.vcpus.len() == old(self)@.vcpus.len() + 1,
            final(self)@.vcpus.drop_last() == old(self)@.vcpus,
            final(self)@.vcpus.last().is_reset(id),
    {
        let vcpu = Vgicc {
            id,
            pending_lr: vec![0u32; SPI_ID_MAX],
            saved_lr: vec![0u32; GICD_LR_NUM],
            saved_elsr0: 0,
            saved_apr: 0,
            saved_hcr: 0,
            isenabler: 0,
            priorityr: vec![0u8; PPI_ID_MAX],
        };
        proof {
            assert(vcpu.pending_lr@ =~= Seq::new(SPI_ID_MAX as nat, |i: int| 0u32));
            assert(vcpu.saved_lr@ =~= Seq::new(GICD_LR_NUM as nat, |i: int| 0u32));
            assert(vcpu.priorityr@ =~= Seq::new(PPI_ID_MAX as nat, |i: int| 0u8));
        }
        self.gicc.push(vcpu);
        proof {
            assert(self@.vcpus.drop_last() =~= old(self)@.vcpus);
        }
    }

    /// Number of attached vCPUs.
    pub fn vcpu_count(&self) -> (r: usize)
        ensures
            r == self@.vcpus.len(),
    {
        self.gicc.len()
    }

    /// Marks interrupt `id` as claimed by a device backend (`used`) or releases it.
    pub fn set_irq_used(&mut self, id: usize, used: bool)
        requires
            old(self)@.wf(),
            id < SPI_ID_MAX,
        ensures
            final(self)@ == (VgicModel { used_irq: final(self)@.used_irq, ..old(self)@ }),
            final(self)@.wf(),
            spec_irq_used(final(self)@.used_irq, id as int) == used,
            forall|j: int|
                0 <= j < SPI_ID_MAX && j != id ==> spec_irq_used(final(self)@.used_irq, j)
                    == spec_irq_used(old(self)@.used_irq, j),
    {
        let w: usize = id / 32;
        let b: u32 = (id % 32) as u32;
        let word: u32 = self.used_irq[w];
        let new_word: u32 = if used {
            word | (1u32 << b)
        } else {
            word & !(1u32 << b)
        };
        self.used_irq.set(w, new_word);
        proof {
            lemma_word_bit_update(word, b, b);
            assert forall|j: int| 0 <= j < SPI_ID_MAX && j != id implies spec_irq_used(
                self@.used_irq,
                j,
            ) == spec_irq_used(old(self)@.used_irq, j) by {
                if j / 32 == w as int {
                    lemma_word_bit_update(word, b, (j % 32) as u32);
                }
            }
        }
    }

    /// Whether interrupt `id` is claimed by a device backend.
    pub fn irq_used(&self, id: usize) -> (r: bool)
        requires
            self@.wf(),
            id < SPI_ID_MAX,
        ensures
            r == spec_irq_used(self@.used_irq, id as int),
    {
        self.used_irq[id / 32] & (1u32 << ((id % 32) as u32)) != 0
    }
}

/// Setting or clearing one bit of a word leaves every other bit as it was.
proof fn lemma_word_bit_update(wd: u32, b: u32, c: u32)
    by (bit_vector)
    requires
        b < 32,
        c < 32,
    ensures
        (wd | (1u32 << b)) & (1u32 << b) != 0,
        (wd & !(1u32 << b)) & (1u32 << b) == 0,
        b != c ==> (((wd | (1u32 << b)) & (1u32 << c) != 0) == (wd & (1u32 << c) != 0)),
        b != c ==> (((wd & !(1u32 << b)) & (1u32 << c) != 0) == (wd & (1u32 << c) != 0)),
{
}

/// The sweep over the IDs below `upto` names only interrupts in use at or
/// above `SGI_ID_MAX`, in ascending order, enables or disables each as asked,
/// sets only priority 0 and only when enabling, and enables or disables every
/// interrupt in use in that span.
proof fn lemma_ctlr_sweep_prefix(used: Seq<u32>, enable: bool, upto: int)
    requires
        SGI_ID_MAX <= upto <= SPI_ID_MAX,
    ensures
        forall|k: int|
            0 <= k < ctlr_sweep(used, enable, upto).len() ==> {
                let c = #[trigger] ctlr_sweep(used, enable, upto)[k];
                &&& SGI_ID_MAX <= c.spec_id() < upto
                &&& spec_irq_used(used, c.spec_id() as int)
                &&& c matches GicCall::SetEnable { enable: e, .. } ==> e == enable
                &&& c matches GicCall::SetPriority { priority, .. } ==> enable && priority == 0
            },
        forall|k1: int, k2: int|
            0 <= k1 < k2 < ctlr_sweep(used, enable, upto).len() ==> (#[trigger] ctlr_sweep(
                used,
                enable,
                upto,
            )[k1]).spec_id() <= (#[trigger] ctlr_sweep(used, enable, upto)[k2]).spec_id(),
        forall|id: int|
            SGI_ID_MAX <= id < upto && #[trigger] spec_irq_used(used, id) ==> {
                &&& ctlr_sweep(used, enable, upto).contains(
                    GicCall::SetEnable { id: id as usize, enable },
                )
                &&& enable ==> ctlr_sweep(used, enable, upto).contains(
                    GicCall::SetPriority { id: id as usize, priority: 0 },
                )
            },
    decreases upto,
{
    if upto > SGI_ID_MAX {
        lemma_ctlr_sweep_prefix(used, enable, upto - 1);
        let prev = ctlr_sweep(used, enable, upto - 1);
        let last = ctlr_calls_for(used, enable, upto - 1);
        let all = ctlr_sweep(used, enable, upto);
        assert(all == prev + last);
        assert forall|k: int| 0 <= k < prev.len() implies all[k] == prev[k] by {}
        assert forall|k: int| prev.len() <= k < all.len() implies all[k] == last[k - prev.len()]
            && all[k].spec_id() == upto - 1 by {}
        assert forall|id: int|
            SGI_ID_MAX <= id < upto && #[trigger] spec_irq_used(used, id) implies {
            &&& all.contains(GicCall::SetEnable { id: id as usize, enable })
            &&& enable ==> all.contains(GicCall::SetPriority { id: id as usize, priority: 0 })
        } by {
            if id < upto - 1 {
                let k = choose|k: int|
                    0 <= k < prev.len() && prev[k] == GicCall::SetEnable { id: id as usize, enable };
                assert(all[k] == prev[k]);
                if enable {
                    let k2 = choose|k2: int|
                        0 <= k2 < prev.len() && prev[k2] == GicCall::SetPriority {
                            id: id as usize,
                            priority: 0,
                        };
                    assert(all[k2] == prev[k2]);
                }
            } else {
                assert(all[prev.len() as int] == last[0]);
                if enable {
                    assert(all[prev.len() + 1int] == last[1]);
                }
            }
        }
    }
}

/// Writing the control register makes a sweep over every interrupt in use
/// from `SGI_ID_MAX` up to `SPI_ID_MAX`: each such interrupt, and no other,
/// is named, in ascending ID order; a write that keeps a group enabled sets
/// enable and then priority 0 for each, and a write that clears both groups
/// only disables each and touches no priority.
pub proof fn lemma_ctlr_sweep_exact(used: Seq<u32>, width: usize, val: usize)
    requires
        spec_width_decoded(width),
    ensures
        ({
            let calls = write_calls(used, VGICD_CTLR, width, val);
            let enable = (val & 0b11) as u32 != 0;
            &&& forall|k: int|
                0 <= k < calls.len() ==> {
                    let c = #[trigger] calls[k];
                    &&& SGI_ID_MAX <= c.spec_id() < SPI_ID_MAX
                    &&& spec_irq_used(used, c.spec_id() as int)
                    &&& c matches GicCall::SetEnable { enable: e, .. } ==> e == enable
                    &&& c matches GicCall::SetPriority { priority, .. } ==> enable && priority
                        == 0
                }
            &&& forall|k1: int, k2: int|
                0 <= k1 < k2 < calls.len() ==> (#[trigger] calls[k1]).spec_id() <= (
                #[trigger] calls[k2]).spec_id()
            &&& forall|id: int|
                SGI_ID_MAX <= id < SPI_ID_MAX && #[trigger] spec_irq_used(used, id) ==> {
                    &&& calls.contains(GicCall::SetEnable { id: id as usize, enable })
                    &&& enable ==> calls.contains(
                        GicCall::SetPriority { id: id as usize, priority: 0 },
                    )
                }
        }),
{
    lemma_ctlr_sweep_prefix(used, (val & 0b11) as u32 != 0, SPI_ID_MAX as int);
}

/// A write of the same value to the control register with an 8-, 16- or
/// 32-bit access has the same effect on the register file and asks for the
/// same calls on the physical controller.
pub proof fn lemma_ctlr_width_independent(m: VgicModel, val: usize)
    ensures
        write_model(m, VGICD_CTLR, WIDTH_16, val) == write_model(m, VGICD_CTLR, WIDTH_8, val),
        write_model(m, VGICD_CTLR, WIDTH_32, val) == write_model(m, VGICD_CTLR, WIDTH_8, val),
        write_calls(m.used_irq, VGICD_CTLR, WIDTH_16, val) == write_calls(
            m.used_irq,
            VGICD_CTLR,
            WIDTH_8,
            val,
        ),
        write_calls(m.used_irq, VGICD_CTLR, WIDTH_32, val) == write_calls(
            m.used_irq,
            VGICD_CTLR,
            WIDTH_8,
            val,
        ),
{
}

/// Control-register writes leave the in-use bitmap alone, so when two such
/// writes run one after the other, each makes the whole sweep it would make
/// alone, and the control register ends with the value of the later one.
pub proof fn lemma_ctlr_writes_in_sequence(
    m: VgicModel,
    first_width: usize,
    first: usize,
    second_width: usize,
    second: usize,
)
    requires
        spec_width_decoded(first_width),
        spec_width_decoded(second_width),
    ensures
        write_model(m, VGICD_CTLR, first_width, first).used_irq == m.used_irq,
        write_calls(
            write_model(m, VGICD_CTLR, first_width, first).used_irq,
            VGICD_CTLR,
            second_width,
            second,
        ) == write_calls(m.used_irq, VGICD_CTLR, second_width, second),
        write_model(
            write_model(m, VGICD_CTLR, first_width, first),
            VGICD_CTLR,
            second_width,
            second,
        ) == write_model(m, VGICD_CTLR, second_width, second),
{
}

/// A read of any register other than the control register gives 0; a write to
/// it leaves the register file as it was and asks for no call on the physical
/// controller.
pub proof fn lemma_unknown_offset_lenient(m: VgicModel, offset: usize, width: usize, val: usize)
    requires
        offset != VGICD_CTLR,
    ensures
        read_value(m, offset, width) == 0,
        write_model(m, offset, width, val) == m,
        write_calls(m.used_irq, offset, width, val) == Seq::<GicCall>::empty(),
{
}

} // verus!
