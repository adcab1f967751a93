//! One installed software breakpoint.
//!
//! A breakpoint owns the byte it displaced.  Enabling peeks the word at the
//! breakpoint address, saves its low byte, and pokes the word back with the
//! trap opcode in the low byte; disabling restores the saved byte the same
//! way.  The kernel primitive works on whole words, so patch and restore are
//! read-modify-write: the surrounding seven bytes are preserved.
use crate::ptrace;
use crate::words::le_bytes;
use crate::Pid;
use vstd::arithmetic::div_mod::{
    lemma_fundamental_div_mod, lemma_fundamental_div_mod_converse_div,
    lemma_fundamental_div_mod_converse_mod,
};
use vstd::prelude::*;

verus! {

/// The single-byte software-breakpoint trap opcode of x86-64 (INT3).
pub const INT3_INSTRUCTION: u8 = 0xCC;

/// The low byte of a word: the byte a breakpoint displaces.
pub open spec fn low_byte(w: u64) -> u8 {
    (w % 256) as u8
}

/// The word `w` with its low byte replaced by `b` and the upper seven bytes
/// untouched.
pub open spec fn with_low_byte(w: u64, b: u8) -> u64 {
    ((w as int) / 256 * 256 + b) as u64
}

/// Replacing the low byte changes exactly the low byte.
pub proof fn lemma_with_low_byte(w: u64, b: u8)
    ensures
        with_low_byte(w, b) % 256 == b,
        with_low_byte(w, b) as int / 256 == w as int / 256,
        le_bytes(with_low_byte(w, b) as nat, 8) == seq![b] + le_bytes(w as nat / 256, 7),
        le_bytes(w as nat, 8) == seq![low_byte(w)] + le_bytes(w as nat / 256, 7),
{
    let q = w as int / 256;
    lemma_fundamental_div_mod(w as int, 256);
    assert(0 <= q * 256 + b < 0x1_0000_0000_0000_0000);
    lemma_fundamental_div_mod_converse_div(q * 256 + b, 256, q, b as int);
    lemma_fundamental_div_mod_converse_mod(q * 256 + b, 256, q, b as int);
    assert(le_bytes(with_low_byte(w, b) as nat, 8) =~= seq![b] + le_bytes(w as nat / 256, 7));
    assert(le_bytes(w as nat, 8) =~= seq![low_byte(w)] + le_bytes(w as nat / 256, 7));
}

/// Breakpoint round trip: patching a trap opcode over a word and then
/// restoring the displaced byte yields the original word back — the byte at
/// the breakpoint address and the surrounding seven bytes of its word are
/// unchanged.  This holds whatever byte was patched in between.
pub proof fn lemma_breakpoint_round_trip(w: u64, patch: u8)
    ensures
        with_low_byte(with_low_byte(w, patch), low_byte(w)) == w,
{
    lemma_with_low_byte(w, patch);
    lemma_with_low_byte(with_low_byte(w, patch), low_byte(w));
    lemma_fundamental_div_mod(w as int, 256);
}

/// Returns `w` with its low byte replaced by `b`.
pub fn set_low_byte(w: u64, b: u8) -> (r: u64)
    ensures
        r == with_low_byte(w, b),
        r % 256 == b,
        r / 256 == w / 256,
{
    proof {
        lemma_with_low_byte(w, b);
        lemma_fundamental_div_mod(w as int, 256);
    }
    w / 256 * 256 + (b as u64)
}

/// One software breakpoint: its owning process, its absolute virtual
/// address, whether it is installed, and — exactly while installed — the
/// original byte it displaced.
#[derive(Debug, Clone, Copy)]
pub struct Breakpoint {
    pid: Pid,
    addr: u64,
    enabled: bool,
    replacing_byte: Option<u8>,
}

impl Breakpoint {
    /// The displaced-byte slot is full exactly while the breakpoint is
    /// installed.
    pub closed spec fn wf(self) -> bool {
        self.enabled <==> self.replacing_byte is Some
    }

    /// What well-formedness means to a caller: the displaced-byte slot is
    /// full exactly while the breakpoint is installed — an installed
    /// breakpoint owns the byte it displaced, an uninstalled one owns
    /// nothing.
    pub proof fn lemma_wf_slot(self)
        requires
            self.wf(),
        ensures
            self.spec_enabled() <==> self.spec_replacing_byte() is Some,
    {
    }

    /// Whether the breakpoint is installed in tracee memory.
    pub closed spec fn spec_enabled(self) -> bool {
        self.enabled
    }

    /// The breakpoint's absolute virtual address.
    pub closed spec fn spec_addr(self) -> u64 {
        self.addr
    }

    /// The tracee the breakpoint belongs to.
    pub closed spec fn spec_pid(self) -> Pid {
        self.pid
    }

    /// The byte the breakpoint displaced, while it is installed.
    pub closed spec fn spec_replacing_byte(self) -> Option<u8> {
        self.replacing_byte
    }

    /// A new breakpoint at `addr`, created disabled, with an empty
    /// displaced-byte slot.
    pub fn new(pid: Pid, addr: u64) -> (bp: Breakpoint)
        ensures
            bp.wf(),
            !bp.spec_enabled(),
            bp.spec_replacing_byte() is None,
            bp.spec_pid() == pid,
            bp.spec_addr() == addr,
    {
        Breakpoint { pid, addr, enabled: false, replacing_byte: None }
    }

    /// A new breakpoint at `addr`, installed at once.
    pub fn new_enabled(pid: Pid, addr: u64) -> (r: Result<Breakpoint, ptrace::Error>)
        ensures
            r matches Ok(bp) ==> bp.wf() && bp.spec_enabled() && bp.spec_replacing_byte() is Some
                && bp.spec_pid() == pid && bp.spec_addr() == addr,
    {
        let mut bp = Self::new(pid, addr);
        match bp.enable() {
            Ok(()) => Ok(bp),
            Err(e) => Err(e),
        }
    }

    /// Whether the breakpoint is installed.
    pub fn enabled(&self) -> (e: bool)
        ensures
            e == self.spec_enabled(),
    {
        self.enabled
    }

    /// The breakpoint's absolute virtual address.
    pub fn addr(&self) -> (a: u64)
        ensures
            a == self.spec_addr(),
    {
        self.addr
    }

    /// Installs the breakpoint: saves the low byte of the word at the
    /// breakpoint address and pokes the word back with the trap opcode in
    /// its place.  Enabling an already-enabled breakpoint changes nothing
    /// and succeeds; on failure the breakpoint is unchanged and tracee
    /// memory is unmodified.
    pub fn enable(&mut self) -> (r: Result<(), ptrace::Error>)
        requires
            old(self).wf(),
        ensures
            final(self).wf(),
            final(self).spec_pid() == old(self).spec_pid(),
            final(self).spec_addr() == old(self).spec_addr(),
            old(self).spec_enabled() ==> r is Ok && *final(self) == *old(self),
            r is Ok ==> final(self).spec_enabled() && final(self).spec_replacing_byte() is Some,
            r is Err ==> *final(self) == *old(self),
    {
        if self.enabled {
            return Ok(());
        }
        let word = match ptrace::peekdata(self.pid, self.addr) {
            Ok(w) => w,
            Err(e) => {
                return Err(e);
            },
        };
        let w = word as u64;
        let saved: u8 = (w % 256) as u8;
        let patched = set_low_byte(w, INT3_INSTRUCTION);
        match ptrace::pokedata(self.pid, self.addr, patched as i64) {
            Ok(()) => {},
            Err(e) => {
                return Err(e);
            },
        }
        self.replacing_byte = Some(saved);
        self.enabled = true;
        Ok(())
    }

    /// Uninstalls the breakpoint: pokes the word at the breakpoint address
    /// back with the displaced byte restored in its low byte.  Calling it on
    /// a disabled breakpoint is a programming error, ruled out here.  On
    /// failure the breakpoint is unchanged.
    pub fn disable(&mut self) -> (r: Result<(), ptrace::Error>)
        requires
            old(self).wf(),
            old(self).spec_enabled(),
        ensures
            final(self).wf(),
            final(self).spec_pid() == old(self).spec_pid(),
            final(self).spec_addr() == old(self).spec_addr(),
            r is Ok ==> !final(self).spec_enabled() && final(self).spec_replacing_byte() is None,
            r is Err ==> *final(self) == *old(self),
    {
        let word = match ptrace::peekdata(self.pid, self.addr) {
            Ok(w) => w,
            Err(e) => {
                return Err(e);
            },
        };
        let old_byte = match self.replacing_byte {
            Some(b) => b,
            None => {
                proof {
                    assert(false);
                }
                0
            },
        };
        let restored = set_low_byte(word as u64, old_byte);
        match ptrace::pokedata(self.pid, self.addr, restored as i64) {
            Ok(()) => {},
            Err(e) => {
                return Err(e);
            },
        }
        self.replacing_byte = None;
        self.enabled = false;
        Ok(())
    }
}

} // verus!
