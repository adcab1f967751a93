//! Typed facade over the kernel's process-tracing facility.
//!
//! Each syscall stands behind a single trusted wrapper around the `nix`
//! crate's safe bindings; everything above the wrappers — the word-granular
//! read and write loops, byte splicing, typed access, and the register-file
//! offsets — is verified.
use crate::registers::{Register, NUM_REGISTERS};
use crate::words;
use crate::Pid;
use vstd::prelude::*;

verus! {

/// The errno value the kernel uses for "no such process".
pub const ESRCH_CODE: i32 = 3;

/// A failure reported by a tracing primitive.
#[derive(Copy, Clone, Debug, PartialEq, Eq, Structural)]
pub enum Error {
    /// The tracee does not exist or is not traced (errno ESRCH).
    NoSuchProcess,
    /// The tracee's memory could not be accessed, or another I/O failure
    /// (errno EIO and every other code).
    EIO,
}

/// The tracing error a raw errno value denotes.
pub open spec fn spec_error_of_errno(code: i32) -> Error {
    if code == ESRCH_CODE {
        Error::NoSuchProcess
    } else {
        Error::EIO
    }
}

/// Classifies a raw errno value from a tracing syscall.
pub fn error_of_errno(code: i32) -> (e: Error)
    ensures
        e == spec_error_of_errno(code),
{
    if code == ESRCH_CODE {
        Error::NoSuchProcess
    } else {
        Error::EIO
    }
}

/// Relies on nix::sys::ptrace::read (PTRACE_PEEKDATA): returns the 64-bit
/// word at `addr` in the tracee's address space.  nix clears the thread's
/// error indicator before the syscall and inspects it after, so a word that
/// happens to equal -1 is not mistaken for a failure.  On failure the raw
/// errno value is returned.
#[verifier::external_body]
fn sys_peek_word(pid: Pid, addr: u64) -> Result<i64, i32> {
    let p = nix::unistd::Pid::from_raw(pid.0);
    match nix::sys::ptrace::read(p, addr as nix::sys::ptrace::AddressType) {
        Ok(w) => Ok(w),
        Err(e) => Err(e as i32),
    }
}

/// Relies on nix::sys::ptrace::write (PTRACE_POKEDATA): writes one 64-bit
/// word at `addr` in the tracee's address space.  On failure the raw errno
/// value is returned.
#[verifier::external_body]
fn sys_poke_word(pid: Pid, addr: u64, word: i64) -> Result<(), i32> {
    let p = nix::unistd::Pid::from_raw(pid.0);
    match nix::sys::ptrace::write(p, addr as nix::sys::ptrace::AddressType, word) {
        Ok(()) => Ok(()),
        Err(e) => Err(e as i32),
    }
}

/// Relies on nix::sys::ptrace::read_user (PTRACE_PEEKUSER): reads the word at
/// byte offset `offset` in the tracee's kernel user area, whose leading
/// fields are the tracee's saved registers, one 64-bit slot per register in
/// the kernel's order.
#[verifier::external_body]
fn sys_peek_user(pid: Pid, offset: u64) -> Result<i64, i32> {
    let p = nix::unistd::Pid::from_raw(pid.0);
    match nix::sys::ptrace::read_user(p, offset as nix::sys::ptrace::AddressType) {
        Ok(w) => Ok(w),
        Err(e) => Err(e as i32),
    }
}

/// Relies on nix::sys::ptrace::write_user (PTRACE_POKEUSER): writes the word
/// at byte offset `offset` in the tracee's kernel user area, whose leading
/// fields are the tracee's saved registers.
#[verifier::external_body]
fn sys_poke_user(pid: Pid, offset: u64, word: i64) -> Result<(), i32> {
    let p = nix::unistd::Pid::from_raw(pid.0);
    match nix::sys::ptrace::write_user(p, offset as nix::sys::ptrace::AddressType, word) {
        Ok(()) => Ok(()),
        Err(e) => Err(e as i32),
    }
}

/// Relies on nix::sys::ptrace::cont (PTRACE_CONT): resumes the stopped
/// tracee until its next stop-signal, delivering no signal of our own.
#[verifier::external_body]
fn sys_cont(pid: Pid) -> Result<(), i32> {
    let p = nix::unistd::Pid::from_raw(pid.0);
    match nix::sys::ptrace::cont(p, None) {
        Ok(()) => Ok(()),
        Err(e) => Err(e as i32),
    }
}

/// Relies on nix::sys::ptrace::step (PTRACE_SINGLESTEP): lets the stopped
/// tracee execute exactly one instruction, after which it stops again,
/// delivering no signal of our own.
#[verifier::external_body]
fn sys_single_step(pid: Pid) -> Result<(), i32> {
    let p = nix::unistd::Pid::from_raw(pid.0);
    match nix::sys::ptrace::step(p, None) {
        Ok(()) => Ok(()),
        Err(e) => Err(e as i32),
    }
}

/// Relies on nix::sys::wait::waitpid: blocks until the tracee changes state
/// — for a traced child, until it has stopped — and discards the status
/// word, as the core differentiates no stop reasons.
#[verifier::external_body]
pub fn wait_for_signal(pid: Pid) {
    let p = nix::unistd::Pid::from_raw(pid.0);
    let _ = nix::sys::wait::waitpid(p, None);
}

/// Relies on nix::sys::signal::kill: sends the process a termination signal.
#[verifier::external_body]
fn sys_kill(pid: Pid) -> Result<(), i32> {
    let p = nix::unistd::Pid::from_raw(pid.0);
    match nix::sys::signal::kill(p, nix::sys::signal::Signal::SIGKILL) {
        Ok(()) => Ok(()),
        Err(e) => Err(e as i32),
    }
}

/// Reads the 64-bit word at `addr` in the tracee's address space.
pub fn peekdata(pid: Pid, addr: u64) -> (r: Result<i64, Error>)
    ensures
        r matches Err(e) ==> e == Error::NoSuchProcess || e == Error::EIO,
{
    match sys_peek_word(pid, addr) {
        Ok(w) => Ok(w),
        Err(code) => Err(error_of_errno(code)),
    }
}

/// Writes one 64-bit word at `addr` in the tracee's address space.
pub fn pokedata(pid: Pid, addr: u64, data: i64) -> (r: Result<(), Error>)
    ensures
        r matches Err(e) ==> e == Error::NoSuchProcess || e == Error::EIO,
{
    match sys_poke_word(pid, addr, data) {
        Ok(()) => Ok(()),
        Err(code) => Err(error_of_errno(code)),
    }
}

/// Resumes the tracee until its next stop-signal.
pub fn cont(pid: Pid) -> (r: Result<(), Error>)
    ensures
        r matches Err(e) ==> e == Error::NoSuchProcess || e == Error::EIO,
{
    match sys_cont(pid) {
        Ok(()) => Ok(()),
        Err(code) => Err(error_of_errno(code)),
    }
}

/// Lets the tracee execute exactly one instruction, then it stops.
pub fn single_step(pid: Pid) -> (r: Result<(), Error>)
    ensures
        r matches Err(e) ==> e == Error::NoSuchProcess || e == Error::EIO,
{
    match sys_single_step(pid) {
        Ok(()) => Ok(()),
        Err(code) => Err(error_of_errno(code)),
    }
}

/// Sends the tracee a termination signal.
pub fn kill_process(pid: Pid) -> (r: Result<(), Error>)
    ensures
        r matches Err(e) ==> e == Error::NoSuchProcess || e == Error::EIO,
{
    match sys_kill(pid) {
        Ok(()) => Ok(()),
        Err(code) => Err(error_of_errno(code)),
    }
}

/// Reads one register from the tracee's saved register file.
pub fn get_reg(pid: Pid, reg: Register) -> (r: Result<u64, Error>)
    ensures
        r matches Err(e) ==> e == Error::NoSuchProcess || e == Error::EIO,
{
    let offset: usize = reg.index() * 8;
    match sys_peek_user(pid, offset as u64) {
        Ok(w) => Ok(w as u64),
        Err(code) => Err(error_of_errno(code)),
    }
}

/// Writes one register of the tracee's saved register file.
pub fn set_reg(pid: Pid, reg: Register, value: u64) -> (r: Result<(), Error>)
    ensures
        r matches Err(e) ==> e == Error::NoSuchProcess || e == Error::EIO,
{
    let offset: usize = reg.index() * 8;
    match sys_poke_user(pid, offset as u64, value as i64) {
        Ok(()) => Ok(()),
        Err(code) => Err(error_of_errno(code)),
    }
}

/// Reads the whole register file: one 64-bit value per register, in the
/// kernel's order, indexable by `Register::index`.
pub fn get_regs(pid: Pid) -> (r: Result<Vec<u64>, Error>)
    ensures
        r matches Ok(v) ==> v@.len() == NUM_REGISTERS,
        r matches Err(e) ==> e == Error::NoSuchProcess || e == Error::EIO,
{
    let mut out: Vec<u64> = Vec::new();
    let mut i: usize = 0;
    while i < NUM_REGISTERS
        invariant
            i <= NUM_REGISTERS,
            out@.len() == i,
        decreases NUM_REGISTERS - i,
    {
        match sys_peek_user(pid, (i * 8) as u64) {
            Ok(w) => out.push(w as u64),
            Err(code) => {
                return Err(error_of_errno(code));
            },
        }
        i = i + 1;
    }
    Ok(out)
}

/// Replaces the whole register file from one 64-bit value per register, in
/// the kernel's order.
pub fn set_regs(pid: Pid, regs: &Vec<u64>) -> (r: Result<(), Error>)
    requires
        regs@.len() == NUM_REGISTERS,
    ensures
        r matches Err(e) ==> e == Error::NoSuchProcess || e == Error::EIO,
{
    let mut i: usize = 0;
    while i < NUM_REGISTERS
        invariant
            i <= NUM_REGISTERS,
            regs@.len() == NUM_REGISTERS,
        decreases NUM_REGISTERS - i,
    {
        match sys_poke_user(pid, (i * 8) as u64, regs[i] as i64) {
            Ok(()) => {},
            Err(code) => {
                return Err(error_of_errno(code));
            },
        }
        i = i + 1;
    }
    Ok(())
}

/// Reads `len` bytes starting at `addr` in the tracee's address space, one
/// word at a time, keeping the leading `min(8, remaining)` bytes of each
/// word in host byte order.
pub fn peekdata_slice(pid: Pid, addr: u64, len: usize) -> (r: Result<Vec<u8>, Error>)
    requires
        addr + len <= u64::MAX,
    ensures
        r matches Ok(data) ==> data@.len() == len,
        len == 0 ==> r is Ok,
        r matches Err(e) ==> e == Error::NoSuchProcess || e == Error::EIO,
{
    let mut out: Vec<u8> = Vec::new();
    let mut offset: usize = 0;
    while offset < len
        invariant
            offset <= len,
            out@.len() == offset,
            addr + len <= u64::MAX,
        decreases len - offset,
    {
        let word = match peekdata(pid, addr + offset as u64) {
            Ok(w) => w,
            Err(e) => {
                return Err(e);
            },
        };
        let word_bytes = words::word_to_bytes(word as u64);
        let take: usize = if len - offset < 8 {
            len - offset
        } else {
            8
        };
        let mut k: usize = 0;
        while k < take
            invariant
                k <= take,
                take <= 8,
                word_bytes@.len() == 8,
                out@.len() == offset + k,
                offset + take <= len,
                addr + len <= u64::MAX,
            decreases take - k,
        {
            out.push(word_bytes[k]);
            k = k + 1;
        }
        offset = offset + take;
    }
    Ok(out)
}

/// Writes `data` starting at `addr` in the tracee's address space.  Full
/// words are poked directly; a partial tail is spliced over the front of the
/// word already there, so bytes past the end of `data` are preserved.
pub fn pokedata_slice(pid: Pid, addr: u64, data: &Vec<u8>) -> (r: Result<(), Error>)
    requires
        addr + data@.len() <= u64::MAX,
    ensures
        data@.len() == 0 ==> r is Ok,
        r matches Err(e) ==> e == Error::NoSuchProcess || e == Error::EIO,
{
    let len = data.len();
    let mut offset: usize = 0;
    while offset < len
        invariant
            offset <= len,
            len == data@.len(),
            addr + len <= u64::MAX,
        decreases len - offset,
    {
        let remaining = len - offset;
        if remaining >= 8 {
            let word = words::word_from_bytes_at(data, offset, 8);
            match pokedata(pid, addr + offset as u64, word as i64) {
                Ok(()) => {},
                Err(e) => {
                    return Err(e);
                },
            }
            offset = offset + 8;
        } else {
            let current = match peekdata(pid, addr + offset as u64) {
                Ok(w) => w,
                Err(e) => {
                    return Err(e);
                },
            };
            let word_bytes = words::word_to_bytes(current as u64);
            let merged = words::splice_word_bytes(&word_bytes, data, offset, remaining);
            let word = words::bytes_to_word(&merged);
            match pokedata(pid, addr + offset as u64, word as i64) {
                Ok(()) => {},
                Err(e) => {
                    return Err(e);
                },
            }
            offset = offset + remaining;
        }
    }
    Ok(())
}

/// Reads a little-endian unsigned value of `size` bytes at `addr` in the
/// tracee's address space.  Signed types share the representation: their
/// bit pattern is the returned value's low `size` bytes.
pub fn peekdata_as(pid: Pid, addr: u64, size: usize) -> (r: Result<u128, Error>)
    requires
        1 <= size <= 16,
        addr + size <= u64::MAX,
    ensures
        r matches Ok(v) ==> (v as nat) < words::pow256(size as nat),
        r matches Err(e) ==> e == Error::NoSuchProcess || e == Error::EIO,
{
    let bytes = match peekdata_slice(pid, addr, size) {
        Ok(b) => b,
        Err(e) => {
            return Err(e);
        },
    };
    let v = words::decode_le(&bytes);
    proof {
        words::lemma_le_val_bound(bytes@);
    }
    Ok(v)
}

/// Writes the low `size` bytes of `value` little-endian at `addr` in the
/// tracee's address space, preserving every byte outside that range.
pub fn pokedata_as(pid: Pid, addr: u64, size: usize, value: u128) -> (r: Result<(), Error>)
    requires
        1 <= size <= 16,
        addr + size <= u64::MAX,
    ensures
        r matches Err(e) ==> e == Error::NoSuchProcess || e == Error::EIO,
{
    let bytes = words::encode_le(value, size);
    pokedata_slice(pid, addr, &bytes)
}

} // verus!
