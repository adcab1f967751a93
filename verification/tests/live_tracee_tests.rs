//! Round trips against a live tracee: the test forks a child that asks to
//! be traced and stops itself; the parent then reads and writes its
//! registers and memory, and patches a breakpoint in and out, through the
//! real tracing syscalls.
use tracedbg::breakpoint::{Breakpoint, INT3_INSTRUCTION};
use tracedbg::dwarf::gimli_api::empty_dwarf;
use tracedbg::dwarf::DwarfInfo;
use tracedbg::ptrace;
use tracedbg::registers::Register;
use tracedbg::target::Target;
use tracedbg::Pid;

fn stop_child_forever() -> ! {
    let _ = nix::sys::ptrace::traceme();
    loop {
        let _ = nix::sys::signal::raise(nix::sys::signal::Signal::SIGSTOP);
    }
}

#[test]
fn live_register_memory_and_breakpoint_round_trips() {
    let child = match fork::fork() {
        Ok(fork::Fork::Parent(child)) => child,
        Ok(fork::Fork::Child) => stop_child_forever(),
        Err(_) => return,  // forking is not possible here; nothing to drive
    };
    let pid = Pid(child);
    ptrace::wait_for_signal(pid);

    let rsp = ptrace::get_reg(pid, Register::RSP).expect("the stopped child is traceable");

    // Register round trip: a written value reads back.
    ptrace::set_reg(pid, Register::RAX, 42).unwrap();
    assert_eq!(ptrace::get_reg(pid, Register::RAX).unwrap(), 42);

    // Typed memory round trip at the stack: write a 32-bit value, read it
    // back, and read its least-significant byte alone.
    let addr = rsp;
    ptrace::pokedata_as(pid, addr, 4, 3735928559).unwrap();
    assert_eq!(ptrace::peekdata_as(pid, addr, 4).unwrap(), 3735928559);
    assert_eq!(ptrace::peekdata_as(pid, addr, 1).unwrap(), 239);

    // Byte-splice non-interference: a two-byte write leaves the other six
    // bytes of the word as they were.
    ptrace::pokedata(pid, addr, 0x1111111111111111).unwrap();
    ptrace::pokedata_as(pid, addr, 2, 0xBEEF).unwrap();
    assert_eq!(ptrace::peekdata(pid, addr).unwrap() as u64, 0x111111111111BEEF);

    // A write spanning two words keeps the bytes past its end.
    ptrace::pokedata(pid, addr + 8, 0x2222222222222222).unwrap();
    let eleven = vec![0xABu8; 11];
    ptrace::pokedata_slice(pid, addr, &eleven).unwrap();
    assert_eq!(ptrace::peekdata(pid, addr).unwrap() as u64, 0xABABABABABABABAB);
    assert_eq!(ptrace::peekdata(pid, addr + 8).unwrap() as u64, 0x2222222222ABABAB);
    let read_back = ptrace::peekdata_slice(pid, addr, 11).unwrap();
    assert_eq!(read_back, eleven);

    // Breakpoint round trip at the program counter: enabling plants the
    // trap in the low byte and keeps the rest of the word; enabling again
    // changes nothing; disabling restores the original word.
    let rip = ptrace::get_reg(pid, Register::RIP).unwrap();
    let before = ptrace::peekdata(pid, rip).unwrap();
    let mut bp = Breakpoint::new(pid, rip);
    assert!(!bp.enabled());
    bp.enable().unwrap();
    assert!(bp.enabled());
    let trapped = ptrace::peekdata(pid, rip).unwrap();
    assert_eq!((trapped as u64) % 256, INT3_INSTRUCTION as u64);
    assert_eq!((trapped as u64) / 256, (before as u64) / 256);
    bp.enable().unwrap();
    assert_eq!(ptrace::peekdata(pid, rip).unwrap(), trapped);
    bp.disable().unwrap();
    assert!(!bp.enabled());
    assert_eq!(ptrace::peekdata(pid, rip).unwrap(), before);

    // A breakpoint born enabled is installed at once.
    let mut born_enabled = Breakpoint::new_enabled(pid, rip).unwrap();
    assert!(born_enabled.enabled());
    assert_eq!(
        ptrace::peekdata(pid, rip).unwrap() as u64 % 256,
        INT3_INSTRUCTION as u64
    );
    born_enabled.disable().unwrap();
    assert_eq!(ptrace::peekdata(pid, rip).unwrap(), before);

    let _ = ptrace::kill_process(pid);
    ptrace::wait_for_signal(pid);
}

#[test]
fn live_breakpoint_trips_resumes_and_retrips() {
    let child = match fork::fork() {
        Ok(fork::Fork::Parent(child)) => child,
        Ok(fork::Fork::Child) => stop_child_forever(),
        Err(_) => return,  // forking is not possible here; nothing to drive
    };
    let pid = Pid(child);
    ptrace::wait_for_signal(pid);
    let mut target = Target::new(pid, DwarfInfo::new(empty_dwarf()));
    assert_eq!(target.pid(), pid);

    // The load base comes out of the live memory-map file, and is cached.
    let base = target.get_base_address().expect("the maps file names a base");
    assert!(base > 0);
    assert_eq!(target.get_base_address().unwrap(), base);

    // A name that resolves nowhere installs nothing: zero sites, reported
    // as a success.
    assert_eq!(target.add_breakpoint_at_function("no_such_function").unwrap(), 0);

    // Plant a breakpoint at the instruction the child resumes at; adding it
    // again at the same address is a no-op success.
    let bp_addr = ptrace::get_reg(pid, Register::RIP).expect("the stopped child is traceable");
    target.add_breakpoint_at(bp_addr).unwrap();
    assert_eq!(
        target.read_word(bp_addr).unwrap() as u64 % 256,
        INT3_INSTRUCTION as u64
    );
    target.add_breakpoint_at(bp_addr).unwrap();

    // Resuming runs the child into the trap: it stops with the counter one
    // past the breakpoint address.
    target.continue_process().unwrap();
    assert_eq!(ptrace::get_reg(pid, Register::RIP).unwrap(), bp_addr + 1);

    // The next resume steps across the breakpoint and re-arms it: the trap
    // opcode is back in place while the child runs on to its next stop.
    target.continue_process().unwrap();
    assert_eq!(
        target.read_word(bp_addr).unwrap() as u64 % 256,
        INT3_INSTRUCTION as u64
    );

    // The re-armed breakpoint trips again on the child's next pass.
    target.continue_process().unwrap();
    assert_eq!(ptrace::get_reg(pid, Register::RIP).unwrap(), bp_addr + 1);

    // Single-stepping executes exactly one instruction and stops again:
    // this crosses the breakpoint, so the counter moves off the trap.
    target.step_over_breakpoint().unwrap();
    let here = ptrace::get_reg(pid, Register::RIP).unwrap();
    target.step_instruction().unwrap();
    let after = ptrace::get_reg(pid, Register::RIP).unwrap();
    assert_ne!(after, here);

    let _ = target.kill();
    ptrace::wait_for_signal(pid);
}
