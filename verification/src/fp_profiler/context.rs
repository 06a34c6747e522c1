//! The machine state of a thread that a signal interrupted.

use vstd::prelude::*;

use crate::fp_profiler::unwind::Arch;

verus! {

/// Place of the frame pointer among the general registers of x86_64.
pub const REG_RBP: usize = 10;

/// Place of the result register among the general registers of x86_64.
pub const REG_RAX: usize = 13;

/// Place of the stack pointer among the general registers of x86_64.
pub const REG_RSP: usize = 15;

/// Place of the instruction pointer among the general registers of x86_64.
pub const REG_RIP: usize = 16;

/// Place of the frame pointer among the general registers of aarch64.
pub const REG_X29: usize = 29;

/// The registers that the kernel saved, as it lays them out.
pub enum MachineContext {
    X86_64 { gregs: [i64; 23] },
    Aarch64 { pc: u64, sp: u64, regs: [u64; 31] },
}

impl MachineContext {
    /// The architecture whose registers these are.
    pub open spec fn arch(&self) -> Arch {
        match self {
            MachineContext::X86_64 { gregs } => Arch::X86_64,
            MachineContext::Aarch64 { pc, sp, regs } => Arch::Aarch64,
        }
    }

    /// The instruction pointer.
    pub open spec fn pc(&self) -> usize {
        match self {
            MachineContext::X86_64 { gregs } => gregs@[REG_RIP as int] as usize,
            MachineContext::Aarch64 { pc, sp, regs } => *pc as usize,
        }
    }

    /// The frame pointer.
    pub open spec fn fp(&self) -> usize {
        match self {
            MachineContext::X86_64 { gregs } => gregs@[REG_RBP as int] as usize,
            MachineContext::Aarch64 { pc, sp, regs } => regs@[REG_X29 as int] as usize,
        }
    }

    /// The stack pointer.
    pub open spec fn sp(&self) -> usize {
        match self {
            MachineContext::X86_64 { gregs } => gregs@[REG_RSP as int] as usize,
            MachineContext::Aarch64 { pc, sp, regs } => *sp as usize,
        }
    }

    /// The register that a call returns its result in.
    pub open spec fn result(&self) -> usize {
        match self {
            MachineContext::X86_64 { gregs } => gregs@[REG_RAX as int] as usize,
            MachineContext::Aarch64 { pc, sp, regs } => regs@[0] as usize,
        }
    }

    /// The general registers, each as the word it holds.
    pub open spec fn general(&self) -> Seq<int> {
        match self {
            MachineContext::X86_64 { gregs } => gregs@.map_values(|r: i64| r as int),
            MachineContext::Aarch64 { pc, sp, regs } => regs@.map_values(|r: u64| r as int),
        }
    }

    /// The architecture whose registers these are.
    pub fn get_arch(&self) -> (arch: Arch)
        ensures
            arch == self.arch(),
    {
        match self {
            MachineContext::X86_64 { gregs: _ } => Arch::X86_64,
            MachineContext::Aarch64 { pc: _, sp: _, regs: _ } => Arch::Aarch64,
        }
    }

    /// The instruction, frame and stack pointer.
    pub fn read_pc_fp_sp(&self) -> (registers: (usize, usize, usize))
        ensures
            registers == (self.pc(), self.fp(), self.sp()),
    {
        match self {
            MachineContext::X86_64 { gregs } => (
                #[verifier::truncate]
                (gregs[REG_RIP] as usize),
                #[verifier::truncate]
                (gregs[REG_RBP] as usize),
                #[verifier::truncate]
                (gregs[REG_RSP] as usize),
            ),
            MachineContext::Aarch64 { pc, sp, regs } => (
                #[verifier::truncate]
                (*pc as usize),
                #[verifier::truncate]
                (regs[REG_X29] as usize),
                #[verifier::truncate]
                (*sp as usize),
            ),
        }
    }

    /// The instruction pointer.
    pub fn get_pc(&self) -> (pc: usize)
        ensures
            pc == self.pc(),
    {
        let (pc, _, _) = self.read_pc_fp_sp();
        pc
    }

    /// Makes the thread go on at `pc`.
    pub fn set_pc(&mut self, pc: usize)
        ensures
            final(self).arch() == old(self).arch(),
            final(self).pc() == pc,
            final(self).result() == old(self).result(),
            final(self).fp() == old(self).fp(),
            final(self).sp() == old(self).sp(),
            final(self).general() == match old(self).arch() {
                Arch::X86_64 => old(self).general().update(REG_RIP as int, (pc as i64) as int),
                Arch::Aarch64 => old(self).general(),
            },
    {
        assert((pc as i64) as usize == pc) by (bit_vector);
        match self {
            MachineContext::X86_64 { gregs } => {
                gregs[REG_RIP] = #[verifier::truncate] (pc as i64);
            },
            MachineContext::Aarch64 { pc: at, sp: _, regs: _ } => {
                *at = pc as u64;
            },
        }
        assert(self.general() =~= match old(self).arch() {
            Arch::X86_64 => old(self).general().update(REG_RIP as int, (pc as i64) as int),
            Arch::Aarch64 => old(self).general(),
        });
    }

    /// Makes the interrupted call return `value`.
    pub fn set_result_reg(&mut self, value: usize)
        ensures
            final(self).arch() == old(self).arch(),
            final(self).result() == value,
            final(self).pc() == old(self).pc(),
            final(self).fp() == old(self).fp(),
            final(self).sp() == old(self).sp(),
            final(self).general() == match old(self).arch() {
                Arch::X86_64 => old(self).general().update(REG_RAX as int, (value as i64) as int),
                Arch::Aarch64 => old(self).general().update(0, value as int),
            },
    {
        assert((value as i64) as usize == value) by (bit_vector);
        match self {
            MachineContext::X86_64 { gregs } => {
                gregs[REG_RAX] = #[verifier::truncate] (value as i64);
            },
            MachineContext::Aarch64 { pc: _, sp: _, regs } => {
                regs[0] = value as u64;
            },
        }
        assert(self.general() =~= match old(self).arch() {
            Arch::X86_64 => old(self).general().update(REG_RAX as int, (value as i64) as int),
            Arch::Aarch64 => old(self).general().update(0, value as int),
        });
    }
}

/// The registers are those that the kernel saves at these places: on x86_64 the
/// instruction pointer at 16, the frame pointer at 10, the stack pointer at 15
/// and the result at 13 of the general registers, on aarch64 the frame pointer
/// in x29 and the result in x0.
pub proof fn law_registers_are_where_the_kernel_saves_them(
    gregs: [i64; 23],
    pc: u64,
    sp: u64,
    regs: [u64; 31],
)
    ensures
        ({
            let x86 = MachineContext::X86_64 { gregs };
            &&& x86.arch() == Arch::X86_64
            &&& x86.pc() == gregs@[16] as usize
            &&& x86.fp() == gregs@[10] as usize
            &&& x86.sp() == gregs@[15] as usize
            &&& x86.result() == gregs@[13] as usize
            &&& x86.general().len() == 23
            &&& forall|i: int| 0 <= i < 23 ==> #[trigger] x86.general()[i] == gregs@[i]
        }),
        ({
            let arm = MachineContext::Aarch64 { pc, sp, regs };
            &&& arm.arch() == Arch::Aarch64
            &&& arm.pc() == pc as usize
            &&& arm.sp() == sp as usize
            &&& arm.fp() == regs@[29] as usize
            &&& arm.result() == regs@[0] as usize
            &&& arm.general().len() == 31
            &&& forall|i: int| 0 <= i < 31 ==> #[trigger] arm.general()[i] == regs@[i]
        }),
{
}

} // verus!
