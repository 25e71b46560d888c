//! The boot sequence: a script of bus operations, and the sequencer that
//! walks through it as the replies come in.

use vstd::prelude::*;
use crate::bus::BusOp;
use crate::bytes::spec_round_up4;
use crate::consts::{
    Core, AI_IOCTRL_BIT_CLOCK_EN, AI_IOCTRL_BIT_FGC, AI_IOCTRL_OFFSET, AI_RESETCTRL_BIT_RESET,
    AI_RESETCTRL_OFFSET, ATCM_RAM_BASE_ADDRESS, BACKPLANE_ALP_AVAIL, BACKPLANE_ALP_AVAIL_REQ,
    BACKPLANE_HT_AVAIL, CHIP_ID_ADDRESS, F2_WATERMARK, FUNC_BACKPLANE, FUNC_BUS,
    IRQ_F2_PACKET_AVAILABLE, REG_BACKPLANE_CHIP_CLOCK_CSR, REG_BACKPLANE_FUNCTION2_WATERMARK,
    REG_BACKPLANE_PULL_UP, REG_BUS_INTERRUPT_ENABLE, REG_BUS_STATUS, SOCSRAM_BASE_ADDRESS,
    STATUS_F2_RX_READY,
};
use crate::nvram::{
    nvram_placement, spec_nvram_addr, spec_nvram_magic, spec_nvram_magic_addr, NVRAM_MAX_LEN,
};
use crate::time::{duration_from_millis, duration_of_millis};

verus! {

/// What the reply to an operation decides.
#[derive(Clone, Copy, Debug, PartialEq, Eq, Structural)]
pub enum Check {
    /// Nothing: the sequence goes on.
    Proceed,
    /// The operation is repeated until a bit of `mask` is set in the reply.
    Until { mask: u32 },
    /// If a bit of `mask` is set in the reply, the next `skip` steps are left
    /// out.
    SkipIfSet { mask: u32, skip: usize },
    /// The sequence fails unless the bits of `mask` in the reply are `value`.
    Expect { mask: u32, value: u32 },
}

/// One step of a script: an operation and what its reply decides.
#[derive(Clone, Copy, Debug, PartialEq, Eq)]
pub struct Instr {
    pub op: BusOp,
    pub check: Check,
}

/// A step whose reply decides nothing.
pub open spec fn plain(op: BusOp) -> Instr {
    Instr { op, check: Check::Proceed }
}

/// The script that puts a core into reset: nothing beyond two reads if it is
/// in reset already; else its I/O control is cleared and, a millisecond
/// later, reset asserted. Each write is followed by a read that flushes it.
pub open spec fn core_disable_script(core: Core) -> Seq<Instr> {
    let ioctrl = (core.spec_base_addr() + AI_IOCTRL_OFFSET) as u32;
    let resetctrl = (core.spec_base_addr() + AI_RESETCTRL_OFFSET) as u32;
    seq![
        plain(BusOp::BpRead8 { addr: resetctrl }),
        Instr {
            op: BusOp::BpRead8 { addr: resetctrl },
            check: Check::SkipIfSet { mask: AI_RESETCTRL_BIT_RESET as u32, skip: 5 },
        },
        plain(BusOp::BpWrite8 { addr: ioctrl, val: 0 }),
        plain(BusOp::BpRead8 { addr: ioctrl }),
        plain(BusOp::BlockFor(duration_of_millis(1))),
        plain(BusOp::BpWrite8 { addr: resetctrl, val: AI_RESETCTRL_BIT_RESET }),
        plain(BusOp::BpRead8 { addr: resetctrl }),
    ]
}

/// What follows the disabling in the reset of a core: clocks forced on,
/// reset released, then, a millisecond later, the clock left enabled alone,
/// and another millisecond of rest.
pub open spec fn core_release_script(core: Core) -> Seq<Instr> {
    let ioctrl = (core.spec_base_addr() + AI_IOCTRL_OFFSET) as u32;
    let resetctrl = (core.spec_base_addr() + AI_RESETCTRL_OFFSET) as u32;
    seq![
        plain(
            BusOp::BpWrite8 { addr: ioctrl, val: AI_IOCTRL_BIT_FGC | AI_IOCTRL_BIT_CLOCK_EN },
        ),
        plain(BusOp::BpRead8 { addr: ioctrl }),
        plain(BusOp::BpWrite8 { addr: resetctrl, val: 0 }),
        plain(BusOp::Delay(duration_of_millis(1))),
        plain(BusOp::BpWrite8 { addr: ioctrl, val: AI_IOCTRL_BIT_CLOCK_EN }),
        plain(BusOp::BpRead8 { addr: ioctrl }),
        plain(BusOp::Delay(duration_of_millis(1))),
    ]
}

/// The script that resets a core: it is disabled, then released.
pub open spec fn core_reset_script(core: Core) -> Seq<Instr> {
    core_disable_script(core) + core_release_script(core)
}

/// The script that makes sure a core is up: its clock is enabled and not
/// forced, and it is out of reset.
pub open spec fn core_is_up_script(core: Core) -> Seq<Instr> {
    let ioctrl = (core.spec_base_addr() + AI_IOCTRL_OFFSET) as u32;
    let resetctrl = (core.spec_base_addr() + AI_RESETCTRL_OFFSET) as u32;
    seq![
        Instr {
            op: BusOp::BpRead8 { addr: ioctrl },
            check: Check::Expect {
                mask: (AI_IOCTRL_BIT_FGC | AI_IOCTRL_BIT_CLOCK_EN) as u32,
                value: AI_IOCTRL_BIT_CLOCK_EN as u32,
            },
        },
        Instr {
            op: BusOp::BpRead8 { addr: resetctrl },
            check: Check::Expect { mask: AI_RESETCTRL_BIT_RESET as u32, value: 0 },
        },
    ]
}

/// The boot script up to the upload: the link, the low-power clock, the chip
/// identification.
pub open spec fn clock_script() -> Seq<Instr> {
    seq![
        plain(BusOp::Init),
        plain(
            BusOp::Write8 {
                func: FUNC_BACKPLANE,
                addr: REG_BACKPLANE_CHIP_CLOCK_CSR,
                val: BACKPLANE_ALP_AVAIL_REQ,
            },
        ),
        Instr {
            op: BusOp::Read8 { func: FUNC_BACKPLANE, addr: REG_BACKPLANE_CHIP_CLOCK_CSR },
            check: Check::Until { mask: BACKPLANE_ALP_AVAIL as u32 },
        },
        plain(BusOp::BpRead16 { addr: CHIP_ID_ADDRESS }),
    ]
}

/// The upload: the RAM banks are configured, then the firmware is written
/// to the bottom of the RAM and the calibration blob of `nvram_len` bytes,
/// with its trailer, to the top.
pub open spec fn upload_script(nvram_len: int) -> Seq<Instr> {
    seq![
        plain(BusOp::BpWrite32 { addr: (SOCSRAM_BASE_ADDRESS + 0x10) as u32, val: 3 }),
        plain(BusOp::BpWrite32 { addr: (SOCSRAM_BASE_ADDRESS + 0x44) as u32, val: 0 }),
        plain(BusOp::BpWriteFirmware { addr: ATCM_RAM_BASE_ADDRESS }),
        plain(BusOp::BpWriteNvram { addr: spec_nvram_addr(nvram_len) }),
        plain(
            BusOp::BpWrite32 {
                addr: spec_nvram_magic_addr(),
                val: spec_nvram_magic((spec_round_up4(nvram_len) / 4) as u32),
            },
        ),
    ]
}

/// The end of the boot script: the wait for the fast clock, the interrupt
/// mask, the watermark, the wait for the WLAN function, the pull-ups.
pub open spec fn ready_script() -> Seq<Instr> {
    seq![
        Instr {
            op: BusOp::Read8 { func: FUNC_BACKPLANE, addr: REG_BACKPLANE_CHIP_CLOCK_CSR },
            check: Check::Until { mask: BACKPLANE_HT_AVAIL as u32 },
        },
        plain(
            BusOp::Write16 {
                func: FUNC_BUS,
                addr: REG_BUS_INTERRUPT_ENABLE,
                val: IRQ_F2_PACKET_AVAILABLE,
            },
        ),
        plain(
            BusOp::Write8 {
                func: FUNC_BACKPLANE,
                addr: REG_BACKPLANE_FUNCTION2_WATERMARK,
                val: F2_WATERMARK,
            },
        ),
        Instr {
            op: BusOp::Read32 { func: FUNC_BUS, addr: REG_BUS_STATUS },
            check: Check::Until { mask: STATUS_F2_RX_READY },
        },
        plain(BusOp::Write8 { func: FUNC_BACKPLANE, addr: REG_BACKPLANE_PULL_UP, val: 0 }),
        plain(BusOp::Read8 { func: FUNC_BACKPLANE, addr: REG_BACKPLANE_PULL_UP }),
    ]
}

/// The whole boot script for a calibration blob of `nvram_len` bytes.
pub open spec fn init_script(nvram_len: int) -> Seq<Instr> {
    clock_script() + core_disable_script(Core::WLAN) + core_reset_script(Core::SOCSRAM)
        + upload_script(nvram_len) + core_reset_script(Core::WLAN) + core_is_up_script(Core::WLAN)
        + ready_script()
}

/// A step whose reply decides nothing.
fn step(op: BusOp) -> (i: Instr)
    ensures
        i == plain(op),
{
    Instr { op, check: Check::Proceed }
}

/// Appends the steps of `tail` to `script`.
fn append(script: &mut Vec<Instr>, tail: Vec<Instr>)
    ensures
        final(script)@ == old(script)@ + tail@,
{
    let mut tail = tail;
    script.append(&mut tail);
}

/// Builds the script that puts a core into reset.
pub fn core_disable(core: Core) -> (script: Vec<Instr>)
    ensures
        script@ == core_disable_script(core),
{
    let base = core.base_addr();
    let ioctrl = base + AI_IOCTRL_OFFSET;
    let resetctrl = base + AI_RESETCTRL_OFFSET;
    let mut script: Vec<Instr> = Vec::new();
    script.push(step(BusOp::BpRead8 { addr: resetctrl }));
    script.push(
        Instr {
            op: BusOp::BpRead8 { addr: resetctrl },
            check: Check::SkipIfSet { mask: AI_RESETCTRL_BIT_RESET as u32, skip: 5 },
        },
    );
    script.push(step(BusOp::BpWrite8 { addr: ioctrl, val: 0 }));
    script.push(step(BusOp::BpRead8 { addr: ioctrl }));
    script.push(step(BusOp::BlockFor(duration_from_millis(1))));
    script.push(step(BusOp::BpWrite8 { addr: resetctrl, val: AI_RESETCTRL_BIT_RESET }));
    script.push(step(BusOp::BpRead8 { addr: resetctrl }));
    assert(script@ =~= core_disable_script(core));
    script
}

/// Builds the script that resets a core.
pub fn core_reset(core: Core) -> (script: Vec<Instr>)
    ensures
        script@ == core_reset_script(core),
{
    let base = core.base_addr();
    let ioctrl = base + AI_IOCTRL_OFFSET;
    let resetctrl = base + AI_RESETCTRL_OFFSET;
    let mut script = core_disable(core);
    let mut release: Vec<Instr> = Vec::new();
    release.push(
        step(BusOp::BpWrite8 { addr: ioctrl, val: AI_IOCTRL_BIT_FGC | AI_IOCTRL_BIT_CLOCK_EN }),
    );
    release.push(step(BusOp::BpRead8 { addr: ioctrl }));
    release.push(step(BusOp::BpWrite8 { addr: resetctrl, val: 0 }));
    release.push(step(BusOp::Delay(duration_from_millis(1))));
    release.push(step(BusOp::BpWrite8 { addr: ioctrl, val: AI_IOCTRL_BIT_CLOCK_EN }));
    release.push(step(BusOp::BpRead8 { addr: ioctrl }));
    release.push(step(BusOp::Delay(duration_from_millis(1))));
    assert(release@ =~= core_release_script(core));
    append(&mut script, release);
    script
}

/// Builds the script that makes sure a core is up.
pub fn core_is_up(core: Core) -> (script: Vec<Instr>)
    ensures
        script@ == core_is_up_script(core),
{
    let base = core.base_addr();
    let ioctrl = base + AI_IOCTRL_OFFSET;
    let resetctrl = base + AI_RESETCTRL_OFFSET;
    let mut script: Vec<Instr> = Vec::new();
    script.push(
        Instr {
            op: BusOp::BpRead8 { addr: ioctrl },
            check: Check::Expect {
                mask: (AI_IOCTRL_BIT_FGC | AI_IOCTRL_BIT_CLOCK_EN) as u32,
                value: AI_IOCTRL_BIT_CLOCK_EN as u32,
            },
        },
    );
    script.push(
        Instr {
            op: BusOp::BpRead8 { addr: resetctrl },
            check: Check::Expect { mask: AI_RESETCTRL_BIT_RESET as u32, value: 0 },
        },
    );
    assert(script@ =~= core_is_up_script(core));
    script
}

/// Builds the whole boot script for a calibration blob of `nvram_len` bytes.
pub fn init(nvram_len: usize) -> (script: Vec<Instr>)
    requires
        nvram_len <= NVRAM_MAX_LEN,
    ensures
        script@ == init_script(nvram_len as int),
{
    let mut script: Vec<Instr> = Vec::new();
    script.push(step(BusOp::Init));
    script.push(
        step(
            BusOp::Write8 {
                func: FUNC_BACKPLANE,
                addr: REG_BACKPLANE_CHIP_CLOCK_CSR,
                val: BACKPLANE_ALP_AVAIL_REQ,
            },
        ),
    );
    script.push(
        Instr {
            op: BusOp::Read8 { func: FUNC_BACKPLANE, addr: REG_BACKPLANE_CHIP_CLOCK_CSR },
            check: Check::Until { mask: BACKPLANE_ALP_AVAIL as u32 },
        },
    );
    script.push(step(BusOp::BpRead16 { addr: CHIP_ID_ADDRESS }));
    assert(script@ =~= clock_script());

    append(&mut script, core_disable(Core::WLAN));
    append(&mut script, core_reset(Core::SOCSRAM));

    let placement = nvram_placement(nvram_len);
    let mut upload: Vec<Instr> = Vec::new();
    upload.push(step(BusOp::BpWrite32 { addr: SOCSRAM_BASE_ADDRESS + 0x10, val: 3 }));
    upload.push(step(BusOp::BpWrite32 { addr: SOCSRAM_BASE_ADDRESS + 0x44, val: 0 }));
    upload.push(step(BusOp::BpWriteFirmware { addr: ATCM_RAM_BASE_ADDRESS }));
    upload.push(step(BusOp::BpWriteNvram { addr: placement.addr }));
    upload.push(step(BusOp::BpWrite32 { addr: placement.magic_addr, val: placement.magic }));
    assert(upload@ =~= upload_script(nvram_len as int));
    append(&mut script, upload);

    append(&mut script, core_reset(Core::WLAN));
    append(&mut script, core_is_up(Core::WLAN));

    let mut ready: Vec<Instr> = Vec::new();
    ready.push(
        Instr {
            op: BusOp::Read8 { func: FUNC_BACKPLANE, addr: REG_BACKPLANE_CHIP_CLOCK_CSR },
            check: Check::Until { mask: BACKPLANE_HT_AVAIL as u32 },
        },
    );
    ready.push(
        step(
            BusOp::Write16 {
                func: FUNC_BUS,
                addr: REG_BUS_INTERRUPT_ENABLE,
                val: IRQ_F2_PACKET_AVAILABLE,
            },
        ),
    );
    ready.push(
        step(
            BusOp::Write8 {
                func: FUNC_BACKPLANE,
                addr: REG_BACKPLANE_FUNCTION2_WATERMARK,
                val: F2_WATERMARK,
            },
        ),
    );
    ready.push(
        Instr {
            op: BusOp::Read32 { func: FUNC_BUS, addr: REG_BUS_STATUS },
            check: Check::Until { mask: STATUS_F2_RX_READY },
        },
    );
    ready.push(step(BusOp::Write8 { func: FUNC_BACKPLANE, addr: REG_BACKPLANE_PULL_UP, val: 0 }));
    ready.push(step(BusOp::Read8 { func: FUNC_BACKPLANE, addr: REG_BACKPLANE_PULL_UP }));
    assert(ready@ =~= ready_script());
    append(&mut script, ready);
    script
}

/// Why a script was given up.
#[derive(Clone, Copy, Debug, PartialEq, Eq, Structural)]
pub enum BootError {
    /// The reply to step `step` was not the one the script insists on.
    Unexpected { step: usize, reply: u32 },
}

/// The step that follows step `pc` of a script once its operation was
/// answered with `reply`, or `None` where the script fails at that step. A
/// skip never leads past the end of the script.
pub open spec fn next_step(script: Seq<Instr>, pc: int, reply: u32) -> Option<int> {
    match script[pc].check {
        Check::Proceed => Some(pc + 1),
        Check::Until { mask } => if reply & mask != 0 {
            Some(pc + 1)
        } else {
            Some(pc)
        },
        Check::SkipIfSet { mask, skip } => if reply & mask != 0 {
            if pc + 1 + skip <= script.len() {
                Some(pc + 1 + skip)
            } else {
                Some(script.len() as int)
            }
        } else {
            Some(pc + 1)
        },
        Check::Expect { mask, value } => if reply & mask == value {
            Some(pc + 1)
        } else {
            None
        },
    }
}

/// A script and the place in it that the sequencer has come to.
pub struct SequencerView {
    /// The script.
    pub script: Seq<Instr>,
    /// Index of the step whose operation is due, or the length of the script
    /// once it is done.
    pub pc: int,
}

/// Walks through a script: hands out the operation that is due and takes in
/// its reply.
#[derive(Debug, PartialEq, Eq)]
pub struct Sequencer {
    script: Vec<Instr>,
    pc: usize,
}

impl View for Sequencer {
    type V = SequencerView;

    closed spec fn view(&self) -> SequencerView {
        SequencerView { script: self.script@, pc: self.pc as int }
    }
}

impl Sequencer {
    #[verifier::type_invariant]
    spec fn inv(self) -> bool {
        self.pc <= self.script.len()
    }

    /// A sequencer at the start of a script.
    pub fn new(script: Vec<Instr>) -> (sequencer: Sequencer)
        ensures
            sequencer@ == (SequencerView { script: script@, pc: 0 }),
    {
        Sequencer { script, pc: 0 }
    }

    /// Whether the script is done.
    pub fn done(&self) -> (done: bool)
        ensures
            done == (self@.pc == self@.script.len()),
            0 <= self@.pc <= self@.script.len(),
    {
        proof {
            use_type_invariant(self);
        }
        self.pc == self.script.len()
    }

    /// The operation that is due, or `None` once the script is done.
    pub fn op(&self) -> (op: Option<BusOp>)
        ensures
            op == (if self@.pc < self@.script.len() {
                Some(self@.script[self@.pc].op)
            } else {
                None
            }),
    {
        proof {
            use_type_invariant(self);
        }
        if self.pc < self.script.len() {
            Some(self.script[self.pc].op)
        } else {
            None
        }
    }

    /// Takes in the reply to the operation that is due (zero where the
    /// operation reads nothing) and moves on as the step says. Where the
    /// step insists on another reply, the script has failed and the
    /// sequencer stays where it is. Once the script is done, nothing
    /// changes.
    pub fn reply(&mut self, value: u32) -> (r: Result<(), BootError>)
        ensures
            final(self)@.script == old(self)@.script,
            old(self)@.pc <= final(self)@.pc <= old(self)@.script.len(),
            old(self)@.pc == old(self)@.script.len() ==> r is Ok && final(self)@.pc == old(
                self,
            )@.pc,
            old(self)@.pc < old(self)@.script.len() ==> match next_step(
                old(self)@.script,
                old(self)@.pc,
                value,
            ) {
                Some(pc) => r is Ok && final(self)@.pc == pc,
                None => r == Err::<(), BootError>(
                    BootError::Unexpected { step: old(self)@.pc as usize, reply: value },
                ) && final(self)@.pc == old(self)@.pc,
            },
    {
        proof {
            use_type_invariant(&*self);
        }
        let len = self.script.len();
        if self.pc >= len {
            return Ok(());
        }
        let pc = self.pc;
        match self.script[pc].check {
            Check::Proceed => {
                self.pc = pc + 1;
            },
            Check::Until { mask } => {
                if value & mask != 0 {
                    self.pc = pc + 1;
                }
            },
            Check::SkipIfSet { mask, skip } => {
                if value & mask != 0 {
                    if skip <= len - (pc + 1) {
                        self.pc = pc + 1 + skip;
                    } else {
                        self.pc = len;
                    }
                } else {
                    self.pc = pc + 1;
                }
            },
            Check::Expect { mask, value: wanted } => {
                if value & mask == wanted {
                    self.pc = pc + 1;
                } else {
                    return Err(BootError::Unexpected { step: pc, reply: value });
                }
            },
        }
        Ok(())
    }
}

/// Whether a core is up, given what its I/O control and reset control
/// registers read: the clock is enabled and not forced, and the core is out
/// of reset.
pub open spec fn core_up(ioctrl: u8, resetctrl: u8) -> bool {
    ioctrl & (AI_IOCTRL_BIT_FGC | AI_IOCTRL_BIT_CLOCK_EN) == AI_IOCTRL_BIT_CLOCK_EN && resetctrl
        & AI_RESETCTRL_BIT_RESET == 0
}

/// The script that makes sure a core is up runs through exactly when the
/// core is up.
pub proof fn lemma_core_is_up(core: Core, ioctrl: u8, resetctrl: u8)
    ensures
        core_up(ioctrl, resetctrl) <==> (next_step(core_is_up_script(core), 0, ioctrl as u32)
            == Some(1int) && next_step(core_is_up_script(core), 1, resetctrl as u32) == Some(
            2int,
        )),
{
    let io = ioctrl as u32;
    let rc = resetctrl as u32;
    assert((ioctrl & (0x02u8 | 0x01u8) == 0x01u8) <==> ((ioctrl as u32) & ((0x02u8 | 0x01u8) as u32)
        == (0x01u8 as u32))) by (bit_vector);
    assert((resetctrl & 0x01u8 == 0) <==> ((resetctrl as u32) & (0x01u8 as u32) == 0))
        by (bit_vector);
}

/// A core that is in reset already is disabled by two reads and nothing
/// else; any other core goes through the whole script.
pub proof fn lemma_core_disable_skips(core: Core, resetctrl: u8)
    ensures
        next_step(core_disable_script(core), 1, resetctrl as u32) == Some(
            if resetctrl & AI_RESETCTRL_BIT_RESET != 0 {
                7int
            } else {
                2int
            },
        ),
{
    assert((resetctrl & 0x01u8 != 0) <==> ((resetctrl as u32) & (0x01u8 as u32) != 0))
        by (bit_vector);
}

/// Whether an operation writes to the chip.
pub open spec fn is_write(op: BusOp) -> bool {
    op is Write8 || op is Write16 || op is BpWrite8 || op is BpWrite32 || op is BpWriteFirmware
        || op is BpWriteNvram
}

/// The operations of a script that write to the chip, in the order of the
/// script.
pub open spec fn writes_of(script: Seq<Instr>) -> Seq<BusOp>
    decreases script.len(),
{
    if script.len() == 0 {
        Seq::empty()
    } else if is_write(script.last().op) {
        writes_of(script.drop_last()).push(script.last().op)
    } else {
        writes_of(script.drop_last())
    }
}

/// The writes that disable a core.
pub open spec fn core_disable_writes(core: Core) -> Seq<BusOp> {
    let ioctrl = (core.spec_base_addr() + AI_IOCTRL_OFFSET) as u32;
    let resetctrl = (core.spec_base_addr() + AI_RESETCTRL_OFFSET) as u32;
    seq![
        BusOp::BpWrite8 { addr: ioctrl, val: 0 },
        BusOp::BpWrite8 { addr: resetctrl, val: AI_RESETCTRL_BIT_RESET },
    ]
}

/// The writes that release a disabled core.
pub open spec fn core_release_writes(core: Core) -> Seq<BusOp> {
    let ioctrl = (core.spec_base_addr() + AI_IOCTRL_OFFSET) as u32;
    let resetctrl = (core.spec_base_addr() + AI_RESETCTRL_OFFSET) as u32;
    seq![
        BusOp::BpWrite8 { addr: ioctrl, val: AI_IOCTRL_BIT_FGC | AI_IOCTRL_BIT_CLOCK_EN },
        BusOp::BpWrite8 { addr: resetctrl, val: 0 },
        BusOp::BpWrite8 { addr: ioctrl, val: AI_IOCTRL_BIT_CLOCK_EN },
    ]
}

/// The writes of the upload.
pub open spec fn upload_writes(nvram_len: int) -> Seq<BusOp> {
    seq![
        BusOp::BpWrite32 { addr: (SOCSRAM_BASE_ADDRESS + 0x10) as u32, val: 3 },
        BusOp::BpWrite32 { addr: (SOCSRAM_BASE_ADDRESS + 0x44) as u32, val: 0 },
        BusOp::BpWriteFirmware { addr: ATCM_RAM_BASE_ADDRESS },
        BusOp::BpWriteNvram { addr: spec_nvram_addr(nvram_len) },
        BusOp::BpWrite32 {
            addr: spec_nvram_magic_addr(),
            val: spec_nvram_magic((spec_round_up4(nvram_len) / 4) as u32),
        },
    ]
}

/// The writes of the end of the boot script.
pub open spec fn ready_writes() -> Seq<BusOp> {
    seq![
        BusOp::Write16 {
            func: FUNC_BUS,
            addr: REG_BUS_INTERRUPT_ENABLE,
            val: IRQ_F2_PACKET_AVAILABLE,
        },
        BusOp::Write8 {
            func: FUNC_BACKPLANE,
            addr: REG_BACKPLANE_FUNCTION2_WATERMARK,
            val: F2_WATERMARK,
        },
        BusOp::Write8 { func: FUNC_BACKPLANE, addr: REG_BACKPLANE_PULL_UP, val: 0 },
    ]
}

/// The writes of the whole boot script, in order: the clock request; the
/// WLAN core disabled; the RAM core reset; the upload; the WLAN core reset;
/// the interrupt mask, the watermark and the pull-ups.
pub open spec fn init_writes(nvram_len: int) -> Seq<BusOp> {
    seq![
        BusOp::Write8 {
            func: FUNC_BACKPLANE,
            addr: REG_BACKPLANE_CHIP_CLOCK_CSR,
            val: BACKPLANE_ALP_AVAIL_REQ,
        },
    ] + core_disable_writes(Core::WLAN) + core_disable_writes(Core::SOCSRAM)
        + core_release_writes(Core::SOCSRAM) + upload_writes(nvram_len) + core_disable_writes(
        Core::WLAN,
    ) + core_release_writes(Core::WLAN) + ready_writes()
}

/// A step added to a script adds its operation to the script's writes if it
/// writes, and nothing else.
proof fn lemma_writes_push(script: Seq<Instr>, instr: Instr)
    ensures
        writes_of(script.push(instr)) == if is_write(instr.op) {
            writes_of(script).push(instr.op)
        } else {
            writes_of(script)
        },
{
    assert(script.push(instr).drop_last() =~= script);
}

/// The writes of two scripts run one after the other are the writes of the
/// first followed by those of the second.
pub proof fn lemma_writes_concat(a: Seq<Instr>, b: Seq<Instr>)
    ensures
        writes_of(a + b) == writes_of(a) + writes_of(b),
    decreases b.len(),
{
    if b.len() == 0 {
        assert(a + b =~= a);
        assert(writes_of(a) + writes_of(b) =~= writes_of(a));
    } else {
        lemma_writes_concat(a, b.drop_last());
        assert((a + b).drop_last() =~= a + b.drop_last());
        assert((a + b).last() == b.last());
        if is_write(b.last().op) {
            assert(writes_of(a + b) =~= writes_of(a) + writes_of(b));
        }
    }
}

/// The script that disables a core writes the I/O control, then the reset
/// control, and nothing else.
pub proof fn lemma_core_disable_writes(core: Core)
    ensures
        writes_of(core_disable_script(core)) == core_disable_writes(core),
{
    let s = core_disable_script(core);
    let e = Seq::<Instr>::empty();
    lemma_writes_push(e, s[0]);
    lemma_writes_push(e.push(s[0]), s[1]);
    lemma_writes_push(e.push(s[0]).push(s[1]), s[2]);
    lemma_writes_push(e.push(s[0]).push(s[1]).push(s[2]), s[3]);
    lemma_writes_push(e.push(s[0]).push(s[1]).push(s[2]).push(s[3]), s[4]);
    lemma_writes_push(e.push(s[0]).push(s[1]).push(s[2]).push(s[3]).push(s[4]), s[5]);
    lemma_writes_push(e.push(s[0]).push(s[1]).push(s[2]).push(s[3]).push(s[4]).push(s[5]), s[6]);
    assert(e.push(s[0]).push(s[1]).push(s[2]).push(s[3]).push(s[4]).push(s[5]).push(s[6]) =~= s);
    assert(writes_of(s) =~= core_disable_writes(core));
}

/// The script that releases a core writes the I/O control, the reset control
/// and the I/O control again, and nothing else.
pub proof fn lemma_core_release_writes(core: Core)
    ensures
        writes_of(core_release_script(core)) == core_release_writes(core),
{
    let s = core_release_script(core);
    let e = Seq::<Instr>::empty();
    lemma_writes_push(e, s[0]);
    lemma_writes_push(e.push(s[0]), s[1]);
    lemma_writes_push(e.push(s[0]).push(s[1]), s[2]);
    lemma_writes_push(e.push(s[0]).push(s[1]).push(s[2]), s[3]);
    lemma_writes_push(e.push(s[0]).push(s[1]).push(s[2]).push(s[3]), s[4]);
    lemma_writes_push(e.push(s[0]).push(s[1]).push(s[2]).push(s[3]).push(s[4]), s[5]);
    lemma_writes_push(e.push(s[0]).push(s[1]).push(s[2]).push(s[3]).push(s[4]).push(s[5]), s[6]);
    assert(e.push(s[0]).push(s[1]).push(s[2]).push(s[3]).push(s[4]).push(s[5]).push(s[6]) =~= s);
    assert(writes_of(s) =~= core_release_writes(core));
}

/// The script that makes sure a core is up writes nothing.
pub proof fn lemma_core_is_up_writes(core: Core)
    ensures
        writes_of(core_is_up_script(core)) == Seq::<BusOp>::empty(),
{
    let s = core_is_up_script(core);
    let e = Seq::<Instr>::empty();
    lemma_writes_push(e, s[0]);
    lemma_writes_push(e.push(s[0]), s[1]);
    assert(e.push(s[0]).push(s[1]) =~= s);
}

/// The writes of the boot script are those of [`init_writes`], in that
/// order; every other step of the script is a read, a pause or the bringing
/// up of the link.
pub proof fn lemma_init_writes(nvram_len: int)
    ensures
        writes_of(init_script(nvram_len)) == init_writes(nvram_len),
{
    let e = Seq::<Instr>::empty();
    let c = clock_script();
    lemma_writes_push(e, c[0]);
    lemma_writes_push(e.push(c[0]), c[1]);
    lemma_writes_push(e.push(c[0]).push(c[1]), c[2]);
    lemma_writes_push(e.push(c[0]).push(c[1]).push(c[2]), c[3]);
    assert(e.push(c[0]).push(c[1]).push(c[2]).push(c[3]) =~= c);
    assert(writes_of(c) =~= seq![c[1].op]);

    let u = upload_script(nvram_len);
    lemma_writes_push(e, u[0]);
    lemma_writes_push(e.push(u[0]), u[1]);
    lemma_writes_push(e.push(u[0]).push(u[1]), u[2]);
    lemma_writes_push(e.push(u[0]).push(u[1]).push(u[2]), u[3]);
    lemma_writes_push(e.push(u[0]).push(u[1]).push(u[2]).push(u[3]), u[4]);
    assert(e.push(u[0]).push(u[1]).push(u[2]).push(u[3]).push(u[4]) =~= u);
    assert(writes_of(u) =~= upload_writes(nvram_len));

    let r = ready_script();
    lemma_writes_push(e, r[0]);
    lemma_writes_push(e.push(r[0]), r[1]);
    lemma_writes_push(e.push(r[0]).push(r[1]), r[2]);
    lemma_writes_push(e.push(r[0]).push(r[1]).push(r[2]), r[3]);
    lemma_writes_push(e.push(r[0]).push(r[1]).push(r[2]).push(r[3]), r[4]);
    lemma_writes_push(e.push(r[0]).push(r[1]).push(r[2]).push(r[3]).push(r[4]), r[5]);
    assert(e.push(r[0]).push(r[1]).push(r[2]).push(r[3]).push(r[4]).push(r[5]) =~= r);
    assert(writes_of(r) =~= ready_writes());

    lemma_core_disable_writes(Core::WLAN);
    lemma_core_disable_writes(Core::SOCSRAM);
    lemma_core_release_writes(Core::SOCSRAM);
    lemma_core_release_writes(Core::WLAN);
    lemma_core_is_up_writes(Core::WLAN);
    lemma_writes_concat(core_disable_script(Core::SOCSRAM), core_release_script(Core::SOCSRAM));
    lemma_writes_concat(core_disable_script(Core::WLAN), core_release_script(Core::WLAN));

    let s1 = c + core_disable_script(Core::WLAN);
    let s2 = s1 + core_reset_script(Core::SOCSRAM);
    let s3 = s2 + u;
    let s4 = s3 + core_reset_script(Core::WLAN);
    let s5 = s4 + core_is_up_script(Core::WLAN);
    lemma_writes_concat(c, core_disable_script(Core::WLAN));
    lemma_writes_concat(s1, core_reset_script(Core::SOCSRAM));
    lemma_writes_concat(s2, u);
    lemma_writes_concat(s3, core_reset_script(Core::WLAN));
    lemma_writes_concat(s4, core_is_up_script(Core::WLAN));
    lemma_writes_concat(s5, r);
    assert(writes_of(init_script(nvram_len)) =~= init_writes(nvram_len));
}

/// The three waits of the boot script: for the low-power clock, for the
/// fast clock and for the WLAN function. Each repeats its read while the
/// awaited bit is clear in the reply, and moves on at the first reply that
/// has it.
pub proof fn lemma_init_polls(nvram_len: int, reply: u32)
    ensures
        init_script(nvram_len).len() == 52,
        init_script(nvram_len)[2].op == (BusOp::Read8 {
            func: FUNC_BACKPLANE,
            addr: REG_BACKPLANE_CHIP_CLOCK_CSR,
        }),
        next_step(init_script(nvram_len), 2, reply) == Some(
            if reply & BACKPLANE_ALP_AVAIL as u32 != 0 {
                3int
            } else {
                2int
            },
        ),
        init_script(nvram_len)[46].op == (BusOp::Read8 {
            func: FUNC_BACKPLANE,
            addr: REG_BACKPLANE_CHIP_CLOCK_CSR,
        }),
        next_step(init_script(nvram_len), 46, reply) == Some(
            if reply & BACKPLANE_HT_AVAIL as u32 != 0 {
                47int
            } else {
                46int
            },
        ),
        init_script(nvram_len)[49].op == (BusOp::Read32 { func: FUNC_BUS, addr: REG_BUS_STATUS }),
        next_step(init_script(nvram_len), 49, reply) == Some(
            if reply & STATUS_F2_RX_READY != 0 {
                50int
            } else {
                49int
            },
        ),
{
    let s = init_script(nvram_len);
    let head = clock_script() + core_disable_script(Core::WLAN) + core_reset_script(Core::SOCSRAM)
        + upload_script(nvram_len) + core_reset_script(Core::WLAN) + core_is_up_script(
        Core::WLAN,
    );
    assert(head.len() == 46);
    assert(s[2] == clock_script()[2]);
    assert(s[46] == ready_script()[0]);
    assert(s[49] == ready_script()[3]);
}

} // verus!
