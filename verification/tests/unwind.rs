use dial9_telemetry::fp_profiler::context::{
    MachineContext, REG_RAX, REG_RBP, REG_RIP, REG_RSP, REG_X29,
};
use dial9_telemetry::fp_profiler::unwind::{
    strip_pac, unwind, unwind_from_ucontext, Arch, Frame, MAX_FRAMES, MAX_FRAME_SIZE,
};
use dial9_telemetry::fp_profiler::{
    handler_installed, install_handler, sigsegv_handler, HandlerState, SegvAction,
    SigactionRequest, SignalAction, SAFE_LOAD_FAULT,
};
use dial9_telemetry::error::{ErrorKind, IoError};

const BASE: usize = 0x7ffd_0000_1000;

fn memory(words: Vec<usize>) -> impl Fn(usize) -> usize {
    move |addr: usize| {
        let size = std::mem::size_of::<usize>();
        if addr < BASE || (addr - BASE) % size != 0 {
            return SAFE_LOAD_FAULT;
        }
        words.get((addr - BASE) / size).copied().unwrap_or(SAFE_LOAD_FAULT)
    }
}

#[test]
fn walks_valid_frame_chain() {
    let sz = std::mem::size_of::<usize>();
    let mut stack = vec![0usize; 8];
    stack[0] = BASE + 2 * sz;
    stack[1] = 0x40_1000;
    stack[2] = BASE + 4 * sz;
    stack[3] = 0x40_2000;
    stack[4] = BASE + 4 * sz;

    let mut out = [Frame { pc: 0 }; MAX_FRAMES];
    let n = unwind(Arch::X86_64, &memory(stack), 0x40_0000, BASE, BASE, &mut out);

    assert_eq!(n, 3);
    assert_eq!(out[0].pc, 0x40_0000);
    assert_eq!(out[1].pc, 0x40_1000);
    assert_eq!(out[2].pc, 0x40_2000);
    assert_eq!(out[3].pc, 0);
}

#[test]
fn frame_zero_is_always_the_interrupted_pc() {
    let mut out = [Frame { pc: 0 }; MAX_FRAMES];
    let n = unwind(Arch::X86_64, &memory(vec![]), 0xDEAD, 0, 0x1000, &mut out);
    assert_eq!(n, 1);
    assert_eq!(out[0].pc, 0xDEAD);
}

#[test]
fn stops_at_misaligned_fp() {
    let mut out = [Frame { pc: 0 }; MAX_FRAMES];
    let sp = 0x7fff_0000_0000usize;
    let n = unwind(Arch::X86_64, &memory(vec![]), 0x40_0000, sp + 1, sp, &mut out);
    assert_eq!(n, 1);
}

#[test]
fn stops_when_fp_below_stack() {
    let mut out = [Frame { pc: 0 }; MAX_FRAMES];
    let sp = 0x7fff_0000_0000usize;
    let n = unwind(Arch::X86_64, &memory(vec![]), 0x40_0000, sp.wrapping_sub(8), sp, &mut out);
    assert_eq!(n, 1);
}

#[test]
fn stops_at_dead_zone_return_addr() {
    let sz = std::mem::size_of::<usize>();
    let mut stack = vec![0usize; 4];
    stack[0] = BASE + 2 * sz;
    stack[1] = 0x100;

    let mut out = [Frame { pc: 0 }; MAX_FRAMES];
    let n = unwind(Arch::X86_64, &memory(stack), 0x40_0000, BASE, BASE, &mut out);
    assert_eq!(n, 1);
}

#[test]
fn stops_when_frame_size_exceeds_max() {
    let mut stack = vec![0usize; 4];
    stack[0] = BASE + MAX_FRAME_SIZE + 8;

    let mut out = [Frame { pc: 0 }; MAX_FRAMES];
    let n = unwind(Arch::X86_64, &memory(stack), 0x40_0000, BASE, BASE, &mut out);
    assert_eq!(n, 1);
}

#[test]
fn stops_when_fp_doesnt_advance() {
    let mut stack = vec![0usize; 4];
    stack[0] = BASE;

    let mut out = [Frame { pc: 0 }; MAX_FRAMES];
    let n = unwind(Arch::X86_64, &memory(stack), 0x40_0000, BASE, BASE, &mut out);
    assert_eq!(n, 1);
}

#[test]
fn respects_output_buffer_limit() {
    let mut out = [Frame { pc: 0 }; 1];
    let n = unwind(Arch::X86_64, &memory(vec![]), 0x40_0000, 0, 0x1000, &mut out);
    assert_eq!(n, 1);
    assert_eq!(out[0].pc, 0x40_0000);
}

#[test]
fn frame_of_the_largest_size_is_walked() {
    let load = |addr: usize| match addr {
        BASE => BASE + MAX_FRAME_SIZE,
        _ if addr == BASE + 8 => 0x40_1000,
        _ => SAFE_LOAD_FAULT,
    };
    let mut out = [Frame { pc: 0 }; 4];
    assert_eq!(unwind(Arch::X86_64, &load, 1, BASE, BASE, &mut out), 2);
    assert_eq!(out[1].pc, 0x40_1000);
}

#[test]
fn empty_output_takes_no_frame() {
    let mut out: [Frame; 0] = [];
    assert_eq!(unwind(Arch::X86_64, &memory(vec![]), 1, BASE, BASE, &mut out), 0);
}

#[test]
fn endless_chain_stops_at_the_frame_limit() {
    let load = |addr: usize| if addr % 16 == 0 { addr + 16 } else { 0x40_1000 };
    let mut out = vec![Frame { pc: 0 }; 400];
    let n = unwind(Arch::X86_64, &load, 7, 0x10_0000, 0x10_0000, &mut out);
    assert_eq!(n, MAX_FRAMES);
    assert_eq!(out[MAX_FRAMES - 1].pc, 0x40_1000);
    assert_eq!(out[MAX_FRAMES].pc, 0);
}

#[test]
fn authentication_bits_are_stripped_on_aarch64_only() {
    assert_eq!(strip_pac(Arch::Aarch64, 0xAB12_0000_0040_1000), 0x40_1000);
    assert_eq!(strip_pac(Arch::X86_64, 0xAB12_0000_0040_1000), 0xAB12_0000_0040_1000);
    let stack = vec![BASE + 16, 0x0012_0000_0040_1000, BASE + 16];
    let mut out = [Frame { pc: 0 }; 4];
    assert_eq!(unwind(Arch::Aarch64, &memory(stack), 1, BASE, BASE, &mut out), 2);
    assert_eq!(out[1].pc, 0x40_1000);
}

fn x86(rip: usize, rbp: usize, rsp: usize) -> MachineContext {
    let mut gregs = [0i64; 23];
    gregs[REG_RIP] = rip as i64;
    gregs[REG_RBP] = rbp as i64;
    gregs[REG_RSP] = rsp as i64;
    gregs[REG_RAX] = 99;
    MachineContext::X86_64 { gregs }
}

#[test]
fn registers_are_where_the_kernel_puts_them() {
    assert_eq!((REG_RBP, REG_RAX, REG_RSP, REG_RIP), (10, 13, 15, 16));
    assert_eq!(x86(1, 2, 3).read_pc_fp_sp(), (1, 2, 3));
    let mut regs = [0u64; 31];
    regs[REG_X29] = 8;
    let arm = MachineContext::Aarch64 { pc: 7, sp: 9, regs };
    assert_eq!(arm.read_pc_fp_sp(), (7, 8, 9));
}

#[test]
fn unwinds_from_the_saved_registers() {
    let stack = vec![BASE + 16, 0x40_1000, BASE + 16];
    let mut out = [Frame { pc: 0 }; 8];
    let n = unwind_from_ucontext(&x86(0x40_0000, BASE, BASE), &memory(stack), &mut out);
    assert_eq!(n, 2);
    assert_eq!(out[0].pc, 0x40_0000);
    assert_eq!(out[1].pc, 0x40_1000);
}

#[test]
fn fault_in_the_trampoline_is_skipped() {
    let mut context = x86(0x5000, 1, 2);
    let action = sigsegv_handler(&mut context, 0x5000, 0x5003, None);
    assert_eq!(action, SegvAction::Resume);
    match context {
        MachineContext::X86_64 { gregs } => {
            assert_eq!(gregs[REG_RIP], 0x5003);
            assert_eq!(gregs[REG_RAX], SAFE_LOAD_FAULT as i64);
            assert_eq!(gregs[REG_RBP], 1);
            assert_eq!(gregs[0], 0);
        }
        MachineContext::Aarch64 { .. } => panic!("the architecture changed"),
    }
    let mut arm = MachineContext::Aarch64 { pc: 0x5000, sp: 0, regs: [5; 31] };
    assert_eq!(sigsegv_handler(&mut arm, 0x5000, 0x5004, None), SegvAction::Resume);
    match arm {
        MachineContext::Aarch64 { pc, regs, .. } => {
            assert_eq!(pc, 0x5004);
            assert_eq!(regs[0], 0);
            assert_eq!(regs[1], 5);
        }
        MachineContext::X86_64 { .. } => panic!("the architecture changed"),
    }
}

#[test]
fn other_faults_go_to_the_earlier_handler() {
    let chain = |old| sigsegv_handler(&mut x86(0x6000, 1, 2), 0x5000, 0x5003, old);
    assert_eq!(chain(None), SegvAction::Return);
    let action = |handler, flags| Some(SignalAction { handler, flags });
    assert_eq!(
        chain(action(0x77, libc::SA_SIGINFO | libc::SA_RESTART)),
        SegvAction::CallWithInfo { handler: 0x77 }
    );
    assert_eq!(chain(action(libc::SIG_DFL, 0)), SegvAction::RestoreDefaultAndRaise);
    assert_eq!(chain(action(libc::SIG_IGN, 0)), SegvAction::Return);
    assert_eq!(chain(action(0x88, libc::SA_NODEFER)), SegvAction::Call { handler: 0x88 });
}

#[test]
fn handler_is_installed_once_and_again_after_a_refusal() {
    let mut state = HandlerState::new();
    let request = install_handler(&mut state);
    assert_eq!(
        request,
        Some(SigactionRequest {
            signal: libc::SIGSEGV,
            flags: libc::SA_SIGINFO | libc::SA_NODEFER,
        })
    );
    assert_eq!(install_handler(&mut state), None);
    let refused = IoError::from_raw_os_error(libc::EINVAL, "Invalid argument".to_string());
    let error = handler_installed(&mut state, Err(refused)).unwrap_err();
    assert_eq!(error.raw_os_error(), Some(libc::EINVAL));
    assert_eq!(error.kind(), ErrorKind::System);
    assert!(install_handler(&mut state).is_some());
    let old = SignalAction { handler: libc::SIG_DFL, flags: 0 };
    handler_installed(&mut state, Ok(old)).unwrap();
    assert_eq!(state.old_action, Some(old));
    assert_eq!(install_handler(&mut state), None);
}
