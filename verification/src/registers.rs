//! The x86-64 architecture descriptor: the general and segment registers in
//! the positional order of the kernel's register file, the program-counter
//! register, the DWARF register numbering, and register-name parsing.
use crate::{str_eq_nocase, streq_nocase};
use vstd::prelude::*;

verus! {

/// The number of registers in the kernel's register file for x86-64.
pub const NUM_REGISTERS: usize = 27;

/// How far past the trap opcode the program counter sits after a software
/// breakpoint trips: on x86-64, one byte.  The step-over logic subtracts
/// this to find the breakpoint's own address.
pub const TRAP_PC_ADJUSTMENT: u64 = 1;

/// The architectural registers, in the exact positional order of the kernel's
/// register struct, so that the index of a register is the index of its
/// 64-bit slot in the tracee's saved register file.
#[derive(Debug, Clone, Copy, PartialEq, Eq, Structural)]
pub enum Register {
    R15,
    R14,
    R13,
    R12,
    RBP,
    RBX,
    R11,
    R10,
    R9,
    R8,
    RAX,
    RCX,
    RDX,
    RSI,
    RDI,
    ORIGRAX,
    RIP,
    CS,
    RFLAGS,
    RSP,
    SS,
    FSBASE,
    GSBASE,
    DS,
    ES,
    FS,
    GS,
}

/// The position of a register in the kernel's register file.
pub open spec fn reg_index(r: Register) -> nat {
    match r {
        Register::R15 => 0,
        Register::R14 => 1,
        Register::R13 => 2,
        Register::R12 => 3,
        Register::RBP => 4,
        Register::RBX => 5,
        Register::R11 => 6,
        Register::R10 => 7,
        Register::R9 => 8,
        Register::R8 => 9,
        Register::RAX => 10,
        Register::RCX => 11,
        Register::RDX => 12,
        Register::RSI => 13,
        Register::RDI => 14,
        Register::ORIGRAX => 15,
        Register::RIP => 16,
        Register::CS => 17,
        Register::RFLAGS => 18,
        Register::RSP => 19,
        Register::SS => 20,
        Register::FSBASE => 21,
        Register::GSBASE => 22,
        Register::DS => 23,
        Register::ES => 24,
        Register::FS => 25,
        Register::GS => 26,
    }
}

/// The DWARF register number of a register, where the platform ABI assigns
/// one.  The kernel-only saved-syscall slot and the program counter have no
/// DWARF number.
pub open spec fn dwarf_number(r: Register) -> Option<i32> {
    match r {
        Register::R15 => Some(15),
        Register::R14 => Some(14),
        Register::R13 => Some(13),
        Register::R12 => Some(12),
        Register::RBP => Some(6),
        Register::RBX => Some(3),
        Register::R11 => Some(11),
        Register::R10 => Some(10),
        Register::R9 => Some(9),
        Register::R8 => Some(8),
        Register::RAX => Some(0),
        Register::RCX => Some(2),
        Register::RDX => Some(1),
        Register::RSI => Some(4),
        Register::RDI => Some(5),
        Register::ORIGRAX => None,
        Register::RIP => None,
        Register::CS => Some(51),
        Register::RFLAGS => Some(49),
        Register::RSP => Some(7),
        Register::SS => Some(52),
        Register::FSBASE => Some(58),
        Register::GSBASE => Some(59),
        Register::DS => Some(53),
        Register::ES => Some(50),
        Register::FS => Some(54),
        Register::GS => Some(55),
    }
}

impl Register {
    /// The program-counter register of x86-64.
    pub fn pc() -> (r: Register)
        ensures
            r == Register::RIP,
    {
        Register::RIP
    }

    /// The position of this register in the kernel's register file.
    pub fn index(&self) -> (i: usize)
        ensures
            i == reg_index(*self),
            i < NUM_REGISTERS,
    {
        match self {
            Register::R15 => 0,
            Register::R14 => 1,
            Register::R13 => 2,
            Register::R12 => 3,
            Register::RBP => 4,
            Register::RBX => 5,
            Register::R11 => 6,
            Register::R10 => 7,
            Register::R9 => 8,
            Register::R8 => 9,
            Register::RAX => 10,
            Register::RCX => 11,
            Register::RDX => 12,
            Register::RSI => 13,
            Register::RDI => 14,
            Register::ORIGRAX => 15,
            Register::RIP => 16,
            Register::CS => 17,
            Register::RFLAGS => 18,
            Register::RSP => 19,
            Register::SS => 20,
            Register::FSBASE => 21,
            Register::GSBASE => 22,
            Register::DS => 23,
            Register::ES => 24,
            Register::FS => 25,
            Register::GS => 26,
        }
    }

    /// The DWARF register number of this register, if the ABI assigns one.
    pub fn dwarf(&self) -> (d: Option<i32>)
        ensures
            d == dwarf_number(*self),
    {
        match self {
            Register::R15 => Some(15),
            Register::R14 => Some(14),
            Register::R13 => Some(13),
            Register::R12 => Some(12),
            Register::RBP => Some(6),
            Register::RBX => Some(3),
            Register::R11 => Some(11),
            Register::R10 => Some(10),
            Register::R9 => Some(9),
            Register::R8 => Some(8),
            Register::RAX => Some(0),
            Register::RCX => Some(2),
            Register::RDX => Some(1),
            Register::RSI => Some(4),
            Register::RDI => Some(5),
            Register::ORIGRAX => None,
            Register::RIP => None,
            Register::CS => Some(51),
            Register::RFLAGS => Some(49),
            Register::RSP => Some(7),
            Register::SS => Some(52),
            Register::FSBASE => Some(58),
            Register::GSBASE => Some(59),
            Register::DS => Some(53),
            Register::ES => Some(50),
            Register::FS => Some(54),
            Register::GS => Some(55),
        }
    }

    /// The register with a given DWARF number, if any has it.
    pub fn from_dwarf(dwarf: i32) -> (r: Option<Register>)
        ensures
            r == from_dwarf_number(dwarf),
    {
        match dwarf {
            15 => Some(Register::R15),
            14 => Some(Register::R14),
            13 => Some(Register::R13),
            12 => Some(Register::R12),
            6 => Some(Register::RBP),
            3 => Some(Register::RBX),
            11 => Some(Register::R11),
            10 => Some(Register::R10),
            9 => Some(Register::R9),
            8 => Some(Register::R8),
            0 => Some(Register::RAX),
            2 => Some(Register::RCX),
            1 => Some(Register::RDX),
            4 => Some(Register::RSI),
            5 => Some(Register::RDI),
            51 => Some(Register::CS),
            49 => Some(Register::RFLAGS),
            7 => Some(Register::RSP),
            52 => Some(Register::SS),
            58 => Some(Register::FSBASE),
            59 => Some(Register::GSBASE),
            53 => Some(Register::DS),
            50 => Some(Register::ES),
            54 => Some(Register::FS),
            55 => Some(Register::GS),
            _ => None,
        }
    }

    /// The register at a given position in the kernel's register file.
    pub fn from_index(i: usize) -> (r: Option<Register>)
        ensures
            r == from_reg_index(i as nat),
            i < NUM_REGISTERS ==> (r matches Some(reg) && reg_index(reg) == i),
            i >= NUM_REGISTERS ==> r is None,
    {
        match i {
            0 => Some(Register::R15),
            1 => Some(Register::R14),
            2 => Some(Register::R13),
            3 => Some(Register::R12),
            4 => Some(Register::RBP),
            5 => Some(Register::RBX),
            6 => Some(Register::R11),
            7 => Some(Register::R10),
            8 => Some(Register::R9),
            9 => Some(Register::R8),
            10 => Some(Register::RAX),
            11 => Some(Register::RCX),
            12 => Some(Register::RDX),
            13 => Some(Register::RSI),
            14 => Some(Register::RDI),
            15 => Some(Register::ORIGRAX),
            16 => Some(Register::RIP),
            17 => Some(Register::CS),
            18 => Some(Register::RFLAGS),
            19 => Some(Register::RSP),
            20 => Some(Register::SS),
            21 => Some(Register::FSBASE),
            22 => Some(Register::GSBASE),
            23 => Some(Register::DS),
            24 => Some(Register::ES),
            25 => Some(Register::FS),
            26 => Some(Register::GS),
            _ => None,
        }
    }
}

/// The register at a given position in the kernel's register file.
pub open spec fn from_reg_index(i: nat) -> Option<Register> {
    if i == 0 {
        Some(Register::R15)
    } else if i == 1 {
        Some(Register::R14)
    } else if i == 2 {
        Some(Register::R13)
    } else if i == 3 {
        Some(Register::R12)
    } else if i == 4 {
        Some(Register::RBP)
    } else if i == 5 {
        Some(Register::RBX)
    } else if i == 6 {
        Some(Register::R11)
    } else if i == 7 {
        Some(Register::R10)
    } else if i == 8 {
        Some(Register::R9)
    } else if i == 9 {
        Some(Register::R8)
    } else if i == 10 {
        Some(Register::RAX)
    } else if i == 11 {
        Some(Register::RCX)
    } else if i == 12 {
        Some(Register::RDX)
    } else if i == 13 {
        Some(Register::RSI)
    } else if i == 14 {
        Some(Register::RDI)
    } else if i == 15 {
        Some(Register::ORIGRAX)
    } else if i == 16 {
        Some(Register::RIP)
    } else if i == 17 {
        Some(Register::CS)
    } else if i == 18 {
        Some(Register::RFLAGS)
    } else if i == 19 {
        Some(Register::RSP)
    } else if i == 20 {
        Some(Register::SS)
    } else if i == 21 {
        Some(Register::FSBASE)
    } else if i == 22 {
        Some(Register::GSBASE)
    } else if i == 23 {
        Some(Register::DS)
    } else if i == 24 {
        Some(Register::ES)
    } else if i == 25 {
        Some(Register::FS)
    } else if i == 26 {
        Some(Register::GS)
    } else {
        None
    }
}

/// The register file's positions and the registers correspond one to one:
/// looking a register's position back up yields the register.
pub proof fn lemma_reg_index_round_trip(r: Register)
    ensures
        from_reg_index(reg_index(r)) == Some(r),
{
}

/// A register's DWARF number, where it has one, leads back to the register.
pub proof fn lemma_dwarf_number_round_trip(r: Register)
    requires
        dwarf_number(r) is Some,
    ensures
        from_dwarf_number(dwarf_number(r)->0) == Some(r),
{
}

/// The register a name denotes, ignoring ASCII case: any spelling of the
/// kernel's name for it.  Any other name denotes no register.
pub open spec fn spec_parse_register(s: Seq<char>) -> Option<Register> {
    if str_eq_nocase(s, "R15"@) {
        Some(Register::R15)
    } else if str_eq_nocase(s, "R14"@) {
        Some(Register::R14)
    } else if str_eq_nocase(s, "R13"@) {
        Some(Register::R13)
    } else if str_eq_nocase(s, "R12"@) {
        Some(Register::R12)
    } else if str_eq_nocase(s, "RBP"@) {
        Some(Register::RBP)
    } else if str_eq_nocase(s, "RBX"@) {
        Some(Register::RBX)
    } else if str_eq_nocase(s, "R11"@) {
        Some(Register::R11)
    } else if str_eq_nocase(s, "R10"@) {
        Some(Register::R10)
    } else if str_eq_nocase(s, "R9"@) {
        Some(Register::R9)
    } else if str_eq_nocase(s, "R8"@) {
        Some(Register::R8)
    } else if str_eq_nocase(s, "RAX"@) {
        Some(Register::RAX)
    } else if str_eq_nocase(s, "RCX"@) {
        Some(Register::RCX)
    } else if str_eq_nocase(s, "RDX"@) {
        Some(Register::RDX)
    } else if str_eq_nocase(s, "RSI"@) {
        Some(Register::RSI)
    } else if str_eq_nocase(s, "RDI"@) {
        Some(Register::RDI)
    } else if str_eq_nocase(s, "ORIGRAX"@) {
        Some(Register::ORIGRAX)
    } else if str_eq_nocase(s, "RIP"@) {
        Some(Register::RIP)
    } else if str_eq_nocase(s, "CS"@) {
        Some(Register::CS)
    } else if str_eq_nocase(s, "RFLAGS"@) {
        Some(Register::RFLAGS)
    } else if str_eq_nocase(s, "RSP"@) {
        Some(Register::RSP)
    } else if str_eq_nocase(s, "SS"@) {
        Some(Register::SS)
    } else if str_eq_nocase(s, "FSBASE"@) {
        Some(Register::FSBASE)
    } else if str_eq_nocase(s, "GSBASE"@) {
        Some(Register::GSBASE)
    } else if str_eq_nocase(s, "DS"@) {
        Some(Register::DS)
    } else if str_eq_nocase(s, "ES"@) {
        Some(Register::ES)
    } else if str_eq_nocase(s, "FS"@) {
        Some(Register::FS)
    } else if str_eq_nocase(s, "GS"@) {
        Some(Register::GS)
    } else {
        None
    }
}

/// Parses a register name, accepting the kernel's spelling in any mix of
/// ASCII case, exactly as `spec_parse_register` lays it down.
pub fn parse_register(name: &str) -> (r: Option<Register>)
    ensures
        r == spec_parse_register(name@),
{
    if streq_nocase(name, "R15") {
        Some(Register::R15)
    } else if streq_nocase(name, "R14") {
        Some(Register::R14)
    } else if streq_nocase(name, "R13") {
        Some(Register::R13)
    } else if streq_nocase(name, "R12") {
        Some(Register::R12)
    } else if streq_nocase(name, "RBP") {
        Some(Register::RBP)
    } else if streq_nocase(name, "RBX") {
        Some(Register::RBX)
    } else if streq_nocase(name, "R11") {
        Some(Register::R11)
    } else if streq_nocase(name, "R10") {
        Some(Register::R10)
    } else if streq_nocase(name, "R9") {
        Some(Register::R9)
    } else if streq_nocase(name, "R8") {
        Some(Register::R8)
    } else if streq_nocase(name, "RAX") {
        Some(Register::RAX)
    } else if streq_nocase(name, "RCX") {
        Some(Register::RCX)
    } else if streq_nocase(name, "RDX") {
        Some(Register::RDX)
    } else if streq_nocase(name, "RSI") {
        Some(Register::RSI)
    } else if streq_nocase(name, "RDI") {
        Some(Register::RDI)
    } else if streq_nocase(name, "ORIGRAX") {
        Some(Register::ORIGRAX)
    } else if streq_nocase(name, "RIP") {
        Some(Register::RIP)
    } else if streq_nocase(name, "CS") {
        Some(Register::CS)
    } else if streq_nocase(name, "RFLAGS") {
        Some(Register::RFLAGS)
    } else if streq_nocase(name, "RSP") {
        Some(Register::RSP)
    } else if streq_nocase(name, "SS") {
        Some(Register::SS)
    } else if streq_nocase(name, "FSBASE") {
        Some(Register::FSBASE)
    } else if streq_nocase(name, "GSBASE") {
        Some(Register::GSBASE)
    } else if streq_nocase(name, "DS") {
        Some(Register::DS)
    } else if streq_nocase(name, "ES") {
        Some(Register::ES)
    } else if streq_nocase(name, "FS") {
        Some(Register::FS)
    } else if streq_nocase(name, "GS") {
        Some(Register::GS)
    } else {
        None
    }
}

/// The register with a given DWARF number, if any has it.
pub open spec fn from_dwarf_number(dwarf: i32) -> Option<Register> {
    if dwarf == 15 {
        Some(Register::R15)
    } else if dwarf == 14 {
        Some(Register::R14)
    } else if dwarf == 13 {
        Some(Register::R13)
    } else if dwarf == 12 {
        Some(Register::R12)
    } else if dwarf == 6 {
        Some(Register::RBP)
    } else if dwarf == 3 {
        Some(Register::RBX)
    } else if dwarf == 11 {
        Some(Register::R11)
    } else if dwarf == 10 {
        Some(Register::R10)
    } else if dwarf == 9 {
        Some(Register::R9)
    } else if dwarf == 8 {
        Some(Register::R8)
    } else if dwarf == 0 {
        Some(Register::RAX)
    } else if dwarf == 2 {
        Some(Register::RCX)
    } else if dwarf == 1 {
        Some(Register::RDX)
    } else if dwarf == 4 {
        Some(Register::RSI)
    } else if dwarf == 5 {
        Some(Register::RDI)
    } else if dwarf == 51 {
        Some(Register::CS)
    } else if dwarf == 49 {
        Some(Register::RFLAGS)
    } else if dwarf == 7 {
        Some(Register::RSP)
    } else if dwarf == 52 {
        Some(Register::SS)
    } else if dwarf == 58 {
        Some(Register::FSBASE)
    } else if dwarf == 59 {
        Some(Register::GSBASE)
    } else if dwarf == 53 {
        Some(Register::DS)
    } else if dwarf == 50 {
        Some(Register::ES)
    } else if dwarf == 54 {
        Some(Register::FS)
    } else if dwarf == 55 {
        Some(Register::GS)
    } else {
        None
    }
}

} // verus!
