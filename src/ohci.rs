//! The OHCI USB host controller as a device behind the interrupt/poll hook:
//! what it reads from its PCI configuration, the values it writes to bring
//! the controller up, and the transfer descriptors for a message chain.
//! Register access itself is left to the caller.
use vstd::prelude::*;

verus! {

/// Host controller functional state field of the control register.
pub const CTRL_HCFS: u32 = 0b11 << 6;

/// The functional state value "operational".
pub const HCFS_OPERATIONAL: u32 = 0b10 << 6;

/// Port status: a device is connected.
pub const PORT_STS_CCS: u32 = 1;

/// Port status: the port is enabled.
pub const PORT_STS_PES: u32 = 1 << 1;

/// Size in bytes of a setup packet.
pub const SETUP_LEN: u32 = 8;

/// Condition code "not accessed", set on every new descriptor.
pub const TD_NOT_ACCESSED: u32 = 0b1111 << 28;

/// Direction/PID code of a setup stage.
pub const TD_PID_SETUP: u32 = 0b00 << 19;

/// Direction/PID code of an OUT stage.
pub const TD_PID_OUT: u32 = 0b01 << 19;

/// Direction/PID code of an IN stage.
pub const TD_PID_IN: u32 = 0b10 << 19;

/// The direction of one stage of a USB message.
#[derive(Clone, Copy, Debug, PartialEq, Eq, Structural)]
pub enum MsgKind {
    Setup,
    In,
    InIso,
    Out,
    OutIso,
}

/// One stage of a message: its kind and the buffer it reads or fills, as a
/// bus address and a length. A setup stage's buffer holds the setup packet.
#[derive(Clone, Copy, Debug, PartialEq, Eq, Structural)]
pub struct UsbMsg {
    pub kind: MsgKind,
    pub buffer: u32,
    pub len: u32,
}

/// A general transfer descriptor; `next` is left for the caller to link.
#[derive(Clone, Copy, Debug, PartialEq, Eq, Structural)]
pub struct Gtd {
    pub flags: u32,
    pub buffer: u32,
    pub next: u32,
    pub end: u32,
}

/// The controller: where its registers are mapped and its interrupt line.
#[derive(Clone, Copy, Debug, PartialEq, Eq, Structural)]
pub struct Ohci {
    pub base: u32,
    pub irq: u8,
}

/// What bringing the controller up writes and scans.
#[derive(Clone, Copy, Debug, PartialEq, Eq, Structural)]
pub struct InitPlan {
    /// The control register with the functional state set to operational.
    pub control: u32,
    /// How many root-hub ports to scan.
    pub ports: u32,
}

/// The PID bits of a stage of this kind.
pub open spec fn pid_of(kind: MsgKind) -> u32 {
    match kind {
        MsgKind::Setup => TD_PID_SETUP,
        MsgKind::In | MsgKind::InIso => TD_PID_IN,
        MsgKind::Out | MsgKind::OutIso => TD_PID_OUT,
    }
}

/// The bytes a stage moves: the setup packet, or its buffer.
pub open spec fn stage_len(m: UsbMsg) -> nat {
    match m.kind {
        MsgKind::Setup => SETUP_LEN as nat,
        _ => m.len as nat,
    }
}

/// The bytes the stages `msgs` move together.
pub open spec fn total_len(msgs: Seq<UsbMsg>) -> nat
    decreases msgs.len(),
{
    if msgs.len() == 0 {
        0
    } else {
        total_len(msgs.drop_last()) + stage_len(msgs.last())
    }
}

/// The buffer end of a stage fits in a 32-bit bus address.
pub open spec fn stage_fits(m: UsbMsg) -> bool {
    m.buffer + stage_len(m) <= u32::MAX
}

/// The descriptor for one stage, before it is linked.
pub open spec fn td_of(m: UsbMsg) -> Gtd {
    Gtd {
        flags: TD_NOT_ACCESSED | pid_of(m.kind),
        buffer: m.buffer,
        next: 0,
        end: (m.buffer + stage_len(m)) as u32,
    }
}

impl Ohci {
    /// A controller from its PCI configuration: base address register 0
    /// with its flag bits cleared, and the low four bits of the interrupt
    /// line register.
    pub fn new(bar0: u32, irq_line: u32) -> (r: Ohci)
        ensures
            r.base == bar0 & 0xFFFF_FFF0,
            r.irq == (irq_line & 0xF) as u8,
    {
        let irq = (irq_line & 0xF) as u8;
        Ohci { base: bar0 & 0xFFFF_FFF0, irq }
    }

    /// From the control register and root hub descriptor A as read: the
    /// control value that makes the controller operational, and the number
    /// of downstream ports.
    pub fn init(&self, control: u32, rh_desc_a: u32) -> (r: InitPlan)
        ensures
            r.control == (control & !CTRL_HCFS) | HCFS_OPERATIONAL,
            r.ports == rh_desc_a & 0xF,
    {
        InitPlan { control: (control & !CTRL_HCFS) | HCFS_OPERATIONAL, ports: rh_desc_a & 0xF }
    }

    /// Whether an interrupt on `irq` is this controller's.
    pub fn on_irq(&self, irq: u8) -> (r: bool)
        ensures
            r == (irq == self.irq),
    {
        irq == self.irq
    }

    /// Whether every stage's buffer end fits in a 32-bit bus address, as
    /// `msg` requires.
    pub fn chain_fits(msgs: &Vec<UsbMsg>) -> (r: bool)
        ensures
            r == (msgs@.len() <= u32::MAX && forall|i: int|
                0 <= i < msgs@.len() ==> stage_fits(#[trigger] msgs@[i])),
    {
        if msgs.len() > 0xFFFF_FFFF {
            return false;
        }
        let mut i: usize = 0;
        while i < msgs.len()
            invariant
                i <= msgs@.len(),
                forall|j: int| 0 <= j < i ==> stage_fits(#[trigger] msgs@[j]),
            decreases msgs@.len() - i,
        {
            let m = msgs[i];
            let len: u32 = match m.kind {
                MsgKind::Setup => SETUP_LEN,
                _ => m.len,
            };
            if m.buffer > 0xFFFF_FFFF - len {
                return false;
            }
            i = i + 1;
        }
        true
    }

    /// One descriptor per stage, last stage first, and the bytes they move.
    pub fn msg(&self, msgs: &Vec<UsbMsg>) -> (r: (Vec<Gtd>, u64))
        requires
            msgs@.len() <= u32::MAX,
            forall|i: int| 0 <= i < msgs@.len() ==> stage_fits(#[trigger] msgs@[i]),
        ensures
            r.0@.len() == msgs@.len(),
            forall|i: int| 0 <= i < msgs@.len() ==> #[trigger] r.0@[i] == td_of(msgs@[msgs@.len() - 1 - i]),
            r.1 == total_len(msgs@),
    {
        let mut tds: Vec<Gtd> = Vec::new();
        let mut count: u64 = 0;
        let mut k: usize = msgs.len();
        assert(msgs@.subrange(0, msgs@.len() as int) =~= msgs@);
        while k > 0
            invariant
                k <= msgs@.len(),
                msgs@.len() <= u32::MAX,
                forall|i: int| 0 <= i < msgs@.len() ==> stage_fits(#[trigger] msgs@[i]),
                tds@.len() == msgs@.len() - k,
                forall|i: int| 0 <= i < tds@.len() ==> #[trigger] tds@[i] == td_of(msgs@[msgs@.len() - 1 - i]),
                count + total_len(msgs@.subrange(0, k as int)) == total_len(msgs@),
                count <= (msgs@.len() - k) * 0x1_0000_0000,
            decreases k,
        {
            k = k - 1;
            let m = msgs[k];
            let len: u32 = match m.kind {
                MsgKind::Setup => SETUP_LEN,
                _ => m.len,
            };
            let pid: u32 = match m.kind {
                MsgKind::Setup => TD_PID_SETUP,
                MsgKind::In | MsgKind::InIso => TD_PID_IN,
                MsgKind::Out | MsgKind::OutIso => TD_PID_OUT,
            };
            proof {
                assert(stage_fits(msgs@[k as int]));
                let pre = msgs@.subrange(0, k + 1);
                assert(pre.drop_last() =~= msgs@.subrange(0, k as int));
            }
            tds.push(Gtd { flags: TD_NOT_ACCESSED | pid, buffer: m.buffer, next: 0, end: m.buffer + len });
            count = count + len as u64;
            proof {
                assert(count <= (msgs@.len() - k) * 0x1_0000_0000) by (nonlinear_arith)
                    requires
                        count <= (msgs@.len() - (k + 1)) * 0x1_0000_0000 + 0xFFFF_FFFF,
                ;
            }
        }
        assert(msgs@.subrange(0, 0) =~= Seq::<UsbMsg>::empty());
        (tds, count)
    }
}

} // verus!
