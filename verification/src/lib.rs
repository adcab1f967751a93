//! Core of a minimal source-level debugger for native ELF executables on
//! Linux/x86-64: tracee control via the kernel's process-tracing facility,
//! software breakpoints, typed access to tracee memory and registers, and
//! DWARF-based resolution of function names and source lines.
use vstd::prelude::*;

pub mod breakpoint;
pub mod dwarf;
pub mod maps;
pub mod ptrace;
pub mod registers;
pub mod target;
pub mod words;

verus! {

/// An opaque identifier for the tracee: a kernel process id.
#[derive(Debug, Copy, Clone, Hash, PartialEq, Eq, Structural)]
pub struct Pid(pub i32);

/// Whether two strings hold the same characters.
pub fn streq(a: &str, b: &str) -> (r: bool)
    ensures
        r == (a@ == b@),
{
    a.to_owned() == b.to_owned()
}

/// Whether two characters are the same letter up to ASCII case: equal, or
/// an ASCII lower-case letter and its upper-case form.
pub open spec fn chars_eq_nocase(x: char, y: char) -> bool {
    ||| x == y
    ||| (97 <= x as u32 <= 122 && x as u32 - 32 == y as u32)
    ||| (97 <= y as u32 <= 122 && y as u32 - 32 == x as u32)
}

/// Whether two strings are equal ignoring ASCII case: the same length, and
/// the same letters position by position up to ASCII case.
pub open spec fn str_eq_nocase(a: Seq<char>, b: Seq<char>) -> bool {
    a.len() == b.len() && forall|i: int| 0 <= i < a.len() ==> chars_eq_nocase(a[i], b[i])
}

/// Whether two strings are equal ignoring ASCII case.
pub fn streq_nocase(a: &str, b: &str) -> (r: bool)
    ensures
        r == str_eq_nocase(a@, b@),
{
    let n = a.unicode_len();
    if n != b.unicode_len() {
        return false;
    }
    let mut i: usize = 0;
    while i < n
        invariant
            i <= n,
            n == a@.len(),
            n == b@.len(),
            forall|j: int| 0 <= j < i ==> chars_eq_nocase(a@[j], b@[j]),
        decreases n - i,
    {
        let x = a.get_char(i) as u32;
        let y = b.get_char(i) as u32;
        let same = x == y || (97 <= x && x <= 122 && x - 32 == y) || (97 <= y && y <= 122 && y - 32
            == x);
        if !same {
            return false;
        }
        i = i + 1;
    }
    true
}

} // verus!
