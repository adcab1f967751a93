//! The tracee controller: owns the breakpoint table, the debug-info index
//! and the base-address cache, and drives resume, single-step and
//! step-over-breakpoint.
//!
//! The tracee alternates between running and stopped, and a tracing
//! primitive may only touch it while it is stopped.  The controller records
//! that protocol in a ghost flag: every resuming primitive is paired with a
//! wait before the method returns, so the tracee is observably stopped
//! before the next primitive runs.
use crate::breakpoint::Breakpoint;
use crate::dwarf::{gimli_api, spec_all_matching, spec_cache_lookup, DwarfError, DwarfInfo};
use crate::maps;
use crate::ptrace;
use crate::registers::{Register, TRAP_PC_ADJUSTMENT};
use crate::Pid;
use std::collections::HashMap;
use vstd::prelude::*;

verus! {

broadcast use vstd::std_specs::hash::group_hash_axioms;

/// A failure of a controller operation that crosses more than one
/// subsystem.
#[derive(Debug)]
pub enum TargetError {
    /// A tracing primitive failed.
    Trace(ptrace::Error),
    /// The debug-info reader failed.
    Dwarf(DwarfError),
    /// No base address is discoverable for the tracee.
    NoBaseAddress,
    /// A rebased address does not fit the address space.
    AddressOverflow,
}

/// Whether every address of `addrs`, rebased by `base`, fits the address
/// space and has an enabled breakpoint registered in `t`'s table.
pub open spec fn breakpoints_installed(t: Target, addrs: Seq<u64>, base: u64) -> bool {
    forall|i: int|
        0 <= i < addrs.len() ==> addrs[i] + base <= u64::MAX && #[trigger] t.spec_breakpoints().contains_key(
            (addrs[i] + base) as u64,
        ) && t.spec_breakpoints()[(addrs[i] + base) as u64].spec_enabled()
}

/// The tracee controller.
pub struct Target {
    pid: Pid,
    breakpoints: HashMap<u64, Breakpoint>,
    base_address: Option<u64>,
    dwinfo: DwarfInfo,
    last_step_was_breakpoint: bool,
    running: Ghost<bool>,
}

impl Target {
    /// The tracee this controller drives.
    pub closed spec fn spec_pid(self) -> Pid {
        self.pid
    }

    /// The breakpoint table, keyed by absolute address.
    pub closed spec fn spec_breakpoints(self) -> Map<u64, Breakpoint> {
        self.breakpoints@
    }

    /// The cached load base, once discovered.
    pub closed spec fn spec_base_address(self) -> Option<u64> {
        self.base_address
    }

    /// The debug-info index.
    pub closed spec fn spec_dwinfo(self) -> DwarfInfo {
        self.dwinfo
    }

    /// Whether the most recent resume began by single-stepping across a
    /// previously-tripped breakpoint.
    pub closed spec fn spec_last_step_was_breakpoint(self) -> bool {
        self.last_step_was_breakpoint
    }

    /// Whether the tracee is observably stopped: every resuming primitive
    /// has been paired with a wait.
    pub closed spec fn stopped(self) -> bool {
        !self.running@
    }

    /// Every table entry is a well-formed breakpoint of this tracee,
    /// registered under its own address.
    pub closed spec fn wf(self) -> bool {
        forall|a: u64| #[trigger]
            self.breakpoints@.contains_key(a) ==> self.breakpoints@[a].wf()
                && self.breakpoints@[a].spec_addr() == a && self.breakpoints@[a].spec_pid()
                == self.pid
    }

    /// A controller for a freshly launched, stopped tracee: no breakpoints,
    /// no cached base address.
    pub fn new(pid: Pid, dwinfo: DwarfInfo) -> (t: Target)
        ensures
            t.wf(),
            t.stopped(),
            t.spec_pid() == pid,
            t.spec_breakpoints() =~= Map::<u64, Breakpoint>::empty(),
            t.spec_base_address() is None,
            t.spec_dwinfo() == dwinfo,
            !t.spec_last_step_was_breakpoint(),
    {
        Target {
            pid,
            breakpoints: HashMap::new(),
            base_address: None,
            dwinfo,
            last_step_was_breakpoint: false,
            running: Ghost(false),
        }
    }

    /// The tracee's process id.
    pub fn pid(&self) -> (p: Pid)
        ensures
            p == self.spec_pid(),
    {
        self.pid
    }

    /// Installs a breakpoint at an absolute address and enables it.  An
    /// address already in the table gets its existing breakpoint enabled —
    /// a second add at an enabled address is a no-op success.  On failure
    /// the table is unchanged.
    pub fn add_breakpoint_at(&mut self, addr: u64) -> (r: Result<(), ptrace::Error>)
        requires
            old(self).wf(),
            old(self).stopped(),
        ensures
            final(self).wf(),
            final(self).stopped(),
            final(self).spec_pid() == old(self).spec_pid(),
            final(self).spec_base_address() == old(self).spec_base_address(),
            final(self).spec_dwinfo() == old(self).spec_dwinfo(),
            final(self).spec_last_step_was_breakpoint() == old(
                self,
            ).spec_last_step_was_breakpoint(),
            r is Ok ==> final(self).spec_breakpoints().contains_key(addr)
                && final(self).spec_breakpoints()[addr].spec_enabled(),
            old(self).spec_breakpoints().contains_key(addr) && old(
                self,
            ).spec_breakpoints()[addr].spec_enabled() ==> r is Ok && final(self).spec_breakpoints()
                == old(self).spec_breakpoints(),
            forall|a: u64|
                a != addr ==> #[trigger] final(self).spec_breakpoints().contains_key(a)
                    == old(self).spec_breakpoints().contains_key(a)
                    && (old(self).spec_breakpoints().contains_key(a)
                    ==> final(self).spec_breakpoints()[a] == old(self).spec_breakpoints()[a]),
            r is Err ==> final(self).spec_breakpoints() == old(self).spec_breakpoints(),
    {
        let mut bp: Breakpoint = match self.breakpoints.get(&addr) {
            Some(b) => *b,
            None => Breakpoint::new(self.pid, addr),
        };
        match bp.enable() {
            Ok(()) => {
                self.breakpoints.insert(addr, bp);
                proof {
                    if old(self).spec_breakpoints().contains_key(addr) && old(
                        self,
                    ).spec_breakpoints()[addr].spec_enabled() {
                        assert(self.breakpoints@ =~= old(self).breakpoints@);
                    }
                }
                Ok(())
            },
            Err(e) => Err(e),
        }
    }

    /// Discovers and caches the tracee's load base.  A cached base is
    /// answered as it is, with nothing changed; a fresh one is cached.
    pub fn get_base_address(&mut self) -> (r: Result<u64, TargetError>)
        requires
            old(self).wf(),
        ensures
            final(self).wf(),
            final(self).stopped() == old(self).stopped(),
            final(self).spec_pid() == old(self).spec_pid(),
            final(self).spec_breakpoints() == old(self).spec_breakpoints(),
            final(self).spec_dwinfo() == old(self).spec_dwinfo(),
            final(self).spec_last_step_was_breakpoint() == old(
                self,
            ).spec_last_step_was_breakpoint(),
            old(self).spec_base_address() matches Some(b) ==> (r matches Ok(v) && v == b
                && *final(self) == *old(self)),
            r matches Ok(b) ==> final(self).spec_base_address() == Some(b),
            r is Err ==> *final(self) == *old(self),
    {
        match self.base_address {
            Some(b) => {
                return Ok(b);
            },
            None => {},
        }
        match maps::discover_base_address(self.pid) {
            Some(b) => {
                self.base_address = Some(b);
                Ok(b)
            },
            None => Err(TargetError::NoBaseAddress),
        }
    }

    /// Forgets the cached load base, for when the tracee's mappings may
    /// have changed.
    pub fn clear_base_address(&mut self)
        requires
            old(self).wf(),
        ensures
            final(self).wf(),
            final(self).stopped() == old(self).stopped(),
            final(self).spec_pid() == old(self).spec_pid(),
            final(self).spec_breakpoints() == old(self).spec_breakpoints(),
            final(self).spec_dwinfo() == old(self).spec_dwinfo(),
            final(self).spec_last_step_was_breakpoint() == old(
                self,
            ).spec_last_step_was_breakpoint(),
            final(self).spec_base_address() is None,
    {
        self.base_address = None;
    }

    /// Resolves a function name to its DWARF-space entry addresses through
    /// the index's per-name cache: a cached query is answered unchanged, so
    /// repeated calls for one name return the same sequence, and a fresh
    /// answer is cached before it is returned.
    pub fn function_addresses(&mut self, function: &str) -> (r: Result<Vec<u64>, DwarfError>)
        requires
            old(self).wf(),
        ensures
            final(self).wf(),
            final(self).stopped() == old(self).stopped(),
            final(self).spec_pid() == old(self).spec_pid(),
            final(self).spec_breakpoints() == old(self).spec_breakpoints(),
            final(self).spec_base_address() == old(self).spec_base_address(),
            final(self).spec_last_step_was_breakpoint() == old(
                self,
            ).spec_last_step_was_breakpoint(),
            spec_cache_lookup(old(self).spec_dwinfo().spec_cache(), function@) matches Some(v) ==> (
            r matches Ok(rv) && rv@ == v && final(self).spec_dwinfo() == old(self).spec_dwinfo()),
            spec_cache_lookup(old(self).spec_dwinfo().spec_cache(), function@) is None ==> (
            r matches Ok(rv) ==> rv@ == spec_all_matching(
                gimli_api::dw_unit_records(old(self).spec_dwinfo().spec_dwarf()),
                function@,
            )),
            r matches Ok(rv) ==> spec_cache_lookup(
                final(self).spec_dwinfo().spec_cache(),
                function@,
            ) matches Some(v) && v == rv@,
            r is Err ==> final(self).spec_dwinfo() == old(self).spec_dwinfo(),
    {
        self.dwinfo.function_addresses(function)
    }

    /// Resolves a function name and installs an enabled breakpoint at each
    /// of its entry addresses, rebased by the load base.  Returns the
    /// number of addresses the name resolved to — zero is a success, not an
    /// error — and on success the name's cached answer has exactly that
    /// many entries and each of them, rebased, has an enabled breakpoint in
    /// the table.
    pub fn add_breakpoint_at_function(&mut self, function_name: &str) -> (r: Result<
        u64,
        TargetError,
    >)
        requires
            old(self).wf(),
            old(self).stopped(),
        ensures
            final(self).wf(),
            final(self).stopped(),
            final(self).spec_pid() == old(self).spec_pid(),
            r matches Ok(n) ==> (spec_cache_lookup(
                final(self).spec_dwinfo().spec_cache(),
                function_name@,
            ) matches Some(v) && v.len() == n && (final(self).spec_base_address() matches Some(b)
                && breakpoints_installed(*final(self), v, b))),
    {
        let addresses = match self.dwinfo.function_addresses(function_name) {
            Ok(a) => a,
            Err(e) => {
                return Err(TargetError::Dwarf(e));
            },
        };
        let base = match self.get_base_address() {
            Ok(b) => b,
            Err(e) => {
                return Err(e);
            },
        };
        let n = addresses.len();
        let mut i: usize = 0;
        while i < n
            invariant
                i <= n,
                n == addresses@.len(),
                self.wf(),
                self.stopped(),
                self.spec_pid() == old(self).spec_pid(),
                spec_cache_lookup(self.spec_dwinfo().spec_cache(), function_name@) matches Some(v)
                    && v == addresses@,
                self.spec_base_address() == Some(base),
                forall|j: int| #![trigger addresses@[j]]
                    0 <= j < i ==> addresses@[j] + base <= u64::MAX
                        && self.spec_breakpoints().contains_key((addresses@[j] + base) as u64)
                        && self.spec_breakpoints()[(addresses@[j] + base) as u64].spec_enabled(),
            decreases n - i,
        {
            let runtime_addr = match addresses[i].checked_add(base) {
                Some(v) => v,
                None => {
                    return Err(TargetError::AddressOverflow);
                },
            };
            let ghost before = *self;
            proof {
                assert forall|j: int| #![trigger addresses@[j]]
                    0 <= j < i implies addresses@[j] + base <= u64::MAX
                        && before.spec_breakpoints().contains_key((addresses@[j] + base) as u64)
                        && before.spec_breakpoints()[(addresses@[j] + base) as u64].spec_enabled() by {
                    assert(addresses@[j] + base <= u64::MAX
                        && self.spec_breakpoints().contains_key((addresses@[j] + base) as u64)
                        && self.spec_breakpoints()[(addresses@[j] + base) as u64].spec_enabled());
                }
            }
            match self.add_breakpoint_at(runtime_addr) {
                Ok(()) => {},
                Err(e) => {
                    return Err(TargetError::Trace(e));
                },
            }
            proof {
                assert forall|j: int| #![trigger addresses@[j]]
                    0 <= j < i + 1 implies addresses@[j] + base <= u64::MAX
                        && self.spec_breakpoints().contains_key((addresses@[j] + base) as u64)
                        && self.spec_breakpoints()[(addresses@[j] + base) as u64].spec_enabled() by {
                    if j < i {
                        assert(addresses@[j] + base <= u64::MAX
                            && before.spec_breakpoints().contains_key(
                            (addresses@[j] + base) as u64,
                        ) && before.spec_breakpoints()[(addresses@[j] + base) as u64].spec_enabled());
                        let k = (addresses@[j] + base) as u64;
                        if k != runtime_addr {
                            assert(self.spec_breakpoints().contains_key(k));
                            assert(self.spec_breakpoints()[k] == before.spec_breakpoints()[k]);
                        }
                    } else {
                        assert((addresses@[j] + base) as u64 == runtime_addr);
                    }
                }
            }
            i = i + 1;
        }
        proof {
            assert(breakpoints_installed(*self, addresses@, base));
        }
        Ok(n as u64)
    }

    /// Reads the 64-bit word at an address of the tracee's address space.
    pub fn read_word(&mut self, addr: u64) -> (r: Result<i64, ptrace::Error>)
        requires
            old(self).stopped(),
        ensures
            *final(self) == *old(self),
    {
        ptrace::peekdata(self.pid, addr)
    }

    /// Writes one 64-bit word at an address of the tracee's address space.
    pub fn write_word(&mut self, addr: u64, data: i64) -> (r: Result<(), ptrace::Error>)
        requires
            old(self).stopped(),
        ensures
            *final(self) == *old(self),
    {
        ptrace::pokedata(self.pid, addr, data)
    }

    /// Steps the tracee over a breakpoint it has just tripped, if one is
    /// registered: the program counter sits one past the trap byte, so the
    /// candidate address is the counter less one.  If an enabled breakpoint
    /// is registered there, the counter is rewound to it, the breakpoint is
    /// disabled, the tracee single-steps the original instruction, and the
    /// breakpoint is re-enabled so subsequent hits still trip.  With no
    /// enabled breakpoint at the candidate address this is a no-op.  On
    /// success every breakpoint that was enabled is still enabled.
    pub fn step_over_breakpoint(&mut self) -> (r: Result<(), ptrace::Error>)
        requires
            old(self).wf(),
            old(self).stopped(),
        ensures
            final(self).wf(),
            final(self).stopped(),
            final(self).spec_pid() == old(self).spec_pid(),
            final(self).spec_base_address() == old(self).spec_base_address(),
            final(self).spec_dwinfo() == old(self).spec_dwinfo(),
            forall|a: u64| #[trigger]
                final(self).spec_breakpoints().contains_key(a)
                    == old(self).spec_breakpoints().contains_key(a),
            r is Ok ==> forall|a: u64|
                old(self).spec_breakpoints().contains_key(a)
                    && old(self).spec_breakpoints()[a].spec_enabled()
                    ==> #[trigger] final(self).spec_breakpoints()[a].spec_enabled(),
    {
        let current_pc = match ptrace::get_reg(self.pid, Register::pc()) {
            Ok(v) => v,
            Err(e) => {
                return Err(e);
            },
        };
        if current_pc < TRAP_PC_ADJUSTMENT {
            return Ok(());
        }
        let candidate = current_pc - TRAP_PC_ADJUSTMENT;
        let bp_now: Breakpoint = match self.breakpoints.get(&candidate) {
            Some(b) => *b,
            None => {
                self.last_step_was_breakpoint = false;
                return Ok(());
            },
        };
        if !bp_now.enabled() {
            self.last_step_was_breakpoint = false;
            return Ok(());
        }
        match ptrace::set_reg(self.pid, Register::pc(), candidate) {
            Ok(()) => {},
            Err(e) => {
                return Err(e);
            },
        }
        let mut bp = bp_now;
        match bp.disable() {
            Ok(()) => {},
            Err(e) => {
                return Err(e);
            },
        }
        self.breakpoints.insert(candidate, bp);
        match ptrace::single_step(self.pid) {
            Ok(()) => {},
            Err(e) => {
                return Err(e);
            },
        }
        self.running = Ghost(true);
        ptrace::wait_for_signal(self.pid);
        self.running = Ghost(false);
        let mut rearmed: Breakpoint = match self.breakpoints.get(&candidate) {
            Some(b) => *b,
            None => {
                proof {
                    assert(false);
                }
                Breakpoint::new(self.pid, candidate)
            },
        };
        match rearmed.enable() {
            Ok(()) => {},
            Err(e) => {
                return Err(e);
            },
        }
        self.breakpoints.insert(candidate, rearmed);
        self.last_step_was_breakpoint = true;
        Ok(())
    }

    /// Resumes the tracee: steps over a tripped breakpoint if one is
    /// registered at the counter, lets the tracee run until its next
    /// stop-signal, and waits for that stop, so the tracee is observably
    /// stopped again when this returns.
    pub fn continue_process(&mut self) -> (r: Result<(), ptrace::Error>)
        requires
            old(self).wf(),
            old(self).stopped(),
        ensures
            final(self).wf(),
            final(self).stopped(),
            final(self).spec_pid() == old(self).spec_pid(),
    {
        match self.step_over_breakpoint() {
            Ok(()) => {},
            Err(e) => {
                return Err(e);
            },
        }
        match ptrace::cont(self.pid) {
            Ok(()) => {},
            Err(e) => {
                return Err(e);
            },
        }
        self.running = Ghost(true);
        ptrace::wait_for_signal(self.pid);
        self.running = Ghost(false);
        Ok(())
    }

    /// Single-steps the tracee exactly one machine instruction and waits
    /// for the stop, clearing the stepped-over-breakpoint flag: this step
    /// crossed no breakpoint.
    pub fn step_instruction(&mut self) -> (r: Result<(), ptrace::Error>)
        requires
            old(self).wf(),
            old(self).stopped(),
        ensures
            final(self).wf(),
            final(self).stopped(),
            final(self).spec_pid() == old(self).spec_pid(),
            final(self).spec_breakpoints() == old(self).spec_breakpoints(),
            !final(self).spec_last_step_was_breakpoint(),
    {
        self.last_step_was_breakpoint = false;
        match ptrace::single_step(self.pid) {
            Ok(()) => {},
            Err(e) => {
                return Err(e);
            },
        }
        self.running = Ghost(true);
        ptrace::wait_for_signal(self.pid);
        self.running = Ghost(false);
        Ok(())
    }

    /// Sends the tracee a termination signal; an error means the signal
    /// could not be delivered.
    pub fn kill(&mut self) -> (r: Result<(), ptrace::Error>)
        ensures
            *final(self) == *old(self),
    {
        ptrace::kill_process(self.pid)
    }
}

} // verus!
