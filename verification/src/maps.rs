//! Load-base discovery for ASLR-relative addressing.
//!
//! The tracee's memory-map pseudo-file starts each line with
//! `start-end …`; the base address is the hexadecimal start of the first
//! line.  Reading the file is a trusted step; everything the bytes are then
//! held to — token splitting and hexadecimal parsing — is verified.
use crate::Pid;
use vstd::arithmetic::div_mod::lemma_fundamental_div_mod;
use vstd::prelude::*;

verus! {

/// Whether a byte ends the leading address token of a maps line: the range
/// dash, whitespace, or the end of the line.
pub open spec fn spec_delim(b: u8) -> bool {
    b == 45 || b == 32 || b == 9 || b == 10 || b == 13
}

/// The length of the leading token: everything up to the first delimiter.
pub open spec fn spec_token_end(s: Seq<u8>) -> int
    decreases s.len(),
{
    if s.len() == 0 {
        0
    } else if spec_delim(s[0]) {
        0
    } else {
        1 + spec_token_end(s.drop_first())
    }
}

/// Whether a byte is a hexadecimal digit.
pub open spec fn is_hex_digit(b: u8) -> bool {
    (48 <= b <= 57) || (97 <= b <= 102) || (65 <= b <= 70)
}

/// The value of one hexadecimal digit: `0`-`9`, then `a`-`f` or `A`-`F` for
/// ten to fifteen.
pub open spec fn hex_digit_value(b: u8) -> nat {
    if 48 <= b <= 57 {
        (b - 48) as nat
    } else if 97 <= b <= 102 {
        (b - 97 + 10) as nat
    } else if 65 <= b <= 70 {
        (b - 65 + 10) as nat
    } else {
        0
    }
}

/// Whether every byte of a sequence is a hexadecimal digit.
pub open spec fn all_hex(s: Seq<u8>) -> bool {
    forall|i: int| 0 <= i < s.len() ==> is_hex_digit(s[i])
}

/// The number a sequence of hexadecimal digits denotes, most significant
/// first.
pub open spec fn hex_value(s: Seq<u8>) -> nat
    decreases s.len(),
{
    if s.len() == 0 {
        0
    } else {
        hex_value(s.drop_last()) * 16 + hex_digit_value(s.last())
    }
}

/// A longer digit prefix never denotes a smaller number.
pub proof fn lemma_hex_value_prefix_le(s: Seq<u8>, i: int)
    requires
        0 <= i <= s.len(),
    ensures
        hex_value(s.take(i)) <= hex_value(s),
    decreases s.len() - i,
{
    if i < s.len() {
        lemma_hex_value_prefix_le(s, i + 1);
        assert(s.take(i + 1).drop_last() =~= s.take(i));
        assert(hex_value(s.take(i)) <= hex_value(s.take(i)) * 16 + hex_digit_value(
            s.take(i + 1).last(),
        ));
    } else {
        assert(s.take(i) =~= s);
    }
}

/// What a digit string parses to: its value, if it is non-empty, all
/// hexadecimal, and fits in 64 bits; nothing otherwise.
pub open spec fn spec_parse_hex(s: Seq<u8>) -> Option<u64> {
    if s.len() > 0 && all_hex(s) && hex_value(s) <= u64::MAX {
        Some(hex_value(s) as u64)
    } else {
        None
    }
}

/// Parses `bytes[start..end]` as a hexadecimal number, exactly as
/// `spec_parse_hex` lays it down.
pub fn parse_hex(bytes: &Vec<u8>, start: usize, end: usize) -> (r: Option<u64>)
    requires
        start <= end <= bytes@.len(),
    ensures
        r == spec_parse_hex(bytes@.subrange(start as int, end as int)),
{
    let ghost s = bytes@.subrange(start as int, end as int);
    if start == end {
        return None;
    }
    let mut acc: u64 = 0;
    let mut i: usize = start;
    while i < end
        invariant
            start <= i <= end <= bytes@.len(),
            s == bytes@.subrange(start as int, end as int),
            acc == hex_value(s.take(i - start)),
            all_hex(s.take(i - start)),
        decreases end - i,
    {
        let b = bytes[i];
        let d: u64 = if 48 <= b && b <= 57 {
            (b - 48) as u64
        } else if 97 <= b && b <= 102 {
            (b - 97 + 10) as u64
        } else if 65 <= b && b <= 70 {
            (b - 65 + 10) as u64
        } else {
            proof {
                assert(s[i - start] == bytes@[i as int]);
            }
            return None;
        };
        proof {
            assert(s.take(i - start + 1).drop_last() =~= s.take(i - start));
            assert(s.take(i - start + 1).last() == s[i - start] == bytes@[i as int]);
        }
        if acc > (u64::MAX - d) / 16 {
            proof {
                lemma_fundamental_div_mod(u64::MAX - d, 16);
                assert(hex_value(s.take(i - start + 1)) > u64::MAX);
                lemma_hex_value_prefix_le(s, i - start + 1);
            }
            return None;
        }
        proof {
            lemma_fundamental_div_mod(u64::MAX - d, 16);
        }
        acc = acc * 16 + d;
        i = i + 1;
    }
    proof {
        assert(s.take(end - start) =~= s);
    }
    Some(acc)
}

/// Relies on nix::fcntl::open and nix::unistd::read: reads up to 4096
/// leading bytes of the tracee's memory-map pseudo-file.  What comes back
/// depends on the process's mappings at the moment of the read; `None` if
/// the file cannot be opened or read.
#[verifier::external_body]
fn read_maps_head(pid: Pid) -> Option<Vec<u8>> {
    let path = format!("/proc/{}/maps", pid.0);
    let flags = nix::fcntl::OFlag::O_RDONLY;
    let fd = match nix::fcntl::open(path.as_str(), flags, nix::sys::stat::Mode::empty()) {
        Ok(fd) => fd,
        Err(_) => return None,
    };
    let mut buf = vec![0u8; 4096];
    match nix::unistd::read(&fd, &mut buf) {
        Ok(n) => {
            buf.truncate(n);
            Some(buf)
        },
        Err(_) => None,
    }
}

/// The base address a maps buffer holds: the leading token of its first
/// line, up to the range dash, read as hexadecimal.
pub open spec fn spec_parse_base_address(bytes: Seq<u8>) -> Option<u64> {
    spec_parse_hex(bytes.take(spec_token_end(bytes)))
}

/// Parses the base address out of the head of a maps file, exactly as
/// `spec_parse_base_address` lays it down.
pub fn parse_base_address(bytes: &Vec<u8>) -> (r: Option<u64>)
    ensures
        r == spec_parse_base_address(bytes@),
{
    let n = bytes.len();
    let mut i: usize = 0;
    proof {
        assert(bytes@.skip(0) =~= bytes@);
    }
    while i < n
        invariant
            i <= n,
            n == bytes@.len(),
            spec_token_end(bytes@) == i + spec_token_end(bytes@.skip(i as int)),
            forall|j: int| 0 <= j < i ==> !spec_delim(bytes@[j]),
        decreases n - i,
    {
        let b = bytes[i];
        proof {
            assert(bytes@.skip(i as int)[0] == bytes@[i as int]);
            assert(bytes@.skip(i as int).drop_first() =~= bytes@.skip(i + 1));
        }
        if b == 45 || b == 32 || b == 9 || b == 10 || b == 13 {
            proof {
                assert(spec_token_end(bytes@.skip(i as int)) == 0);
            }
            return parse_hex(bytes, 0, i);
        }
        i = i + 1;
    }
    proof {
        assert(bytes@.skip(n as int) =~= Seq::<u8>::empty());
        assert(spec_token_end(bytes@) == n);
    }
    parse_hex(bytes, 0, n)
}

/// Discovers the tracee's load base: the start address of the first line of
/// its memory-map pseudo-file, or `None` where the file cannot be read or
/// its first line holds no address.
pub fn discover_base_address(pid: Pid) -> (r: Option<u64>) {
    let bytes = match read_maps_head(pid) {
        Some(b) => b,
        None => {
            return None;
        },
    };
    parse_base_address(&bytes)
}

} // verus!
