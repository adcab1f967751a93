use tracedbg::breakpoint::{set_low_byte, Breakpoint, INT3_INSTRUCTION};
use tracedbg::Pid;

#[test]
fn the_trap_opcode_is_int3() {
    assert_eq!(INT3_INSTRUCTION, 0xCC);
}

#[test]
fn patching_replaces_exactly_the_low_byte() {
    let word: u64 = 0x1122334455667788;
    let patched = set_low_byte(word, INT3_INSTRUCTION);
    assert_eq!(patched, 0x11223344556677CC);
}

#[test]
fn patch_then_restore_returns_the_original_word() {
    // The breakpoint round trip: enable saves the low byte and plants the
    // trap; disable writes the saved byte back.  The word — the byte at the
    // address and the surrounding seven — is as before.
    let word: u64 = 0xA1B2C3D4E5F60718;
    let saved = (word % 256) as u8;
    let patched = set_low_byte(word, INT3_INSTRUCTION);
    assert_eq!(set_low_byte(patched, saved), word);
}

#[test]
fn restore_keeps_changes_to_the_upper_bytes() {
    // Between enable and disable the tracee may rewrite the other seven
    // bytes; disable restores only the displaced byte.
    let word: u64 = 0x0000000000000042;
    let saved = (word % 256) as u8;
    let _patched = set_low_byte(word, INT3_INSTRUCTION);
    let changed_upper: u64 = 0x77000000000000CC;
    assert_eq!(set_low_byte(changed_upper, saved), 0x7700000000000042);
}

#[test]
fn a_new_breakpoint_is_disabled() {
    let bp = Breakpoint::new(Pid(1234), 0x401000);
    assert!(!bp.enabled());
    assert_eq!(bp.addr(), 0x401000);
}
