use tracedbg::registers::{parse_register, Register, NUM_REGISTERS};

#[test]
fn there_are_twenty_seven_registers() {
    assert_eq!(NUM_REGISTERS, 27);
}

#[test]
fn the_program_counter_is_rip() {
    assert!(matches!(Register::pc(), Register::RIP));
    assert_eq!(Register::pc().index(), 16);
}

#[test]
fn indices_follow_the_kernel_order() {
    assert_eq!(Register::R15.index(), 0);
    assert_eq!(Register::RAX.index(), 10);
    assert_eq!(Register::RSP.index(), 19);
    assert_eq!(Register::GS.index(), 26);
}

#[test]
fn every_index_leads_back_to_its_register() {
    let mut i: usize = 0;
    while i < NUM_REGISTERS {
        let reg = Register::from_index(i).expect("index in range");
        assert_eq!(reg.index(), i);
        i += 1;
    }
    assert!(Register::from_index(27).is_none());
}

#[test]
fn dwarf_numbers_follow_the_abi() {
    assert_eq!(Register::RAX.dwarf(), Some(0));
    assert_eq!(Register::RDX.dwarf(), Some(1));
    assert_eq!(Register::RBP.dwarf(), Some(6));
    assert_eq!(Register::RSP.dwarf(), Some(7));
    assert_eq!(Register::R15.dwarf(), Some(15));
    assert_eq!(Register::FSBASE.dwarf(), Some(58));
}

#[test]
fn the_kernel_only_slots_have_no_dwarf_number() {
    assert_eq!(Register::ORIGRAX.dwarf(), None);
    assert_eq!(Register::RIP.dwarf(), None);
}

#[test]
fn dwarf_numbers_lead_back_to_their_register() {
    assert!(matches!(Register::from_dwarf(0), Some(Register::RAX)));
    assert!(matches!(Register::from_dwarf(7), Some(Register::RSP)));
    assert!(matches!(Register::from_dwarf(59), Some(Register::GSBASE)));
    assert!(Register::from_dwarf(-1).is_none());
    assert!(Register::from_dwarf(60).is_none());
}

#[test]
fn register_names_parse_in_any_case() {
    assert!(matches!(parse_register("rax"), Some(Register::RAX)));
    assert!(matches!(parse_register("RAX"), Some(Register::RAX)));
    assert!(matches!(parse_register("Rax"), Some(Register::RAX)));
    assert!(matches!(parse_register("rIp"), Some(Register::RIP)));
    assert!(matches!(parse_register("FsBase"), Some(Register::FSBASE)));
    assert!(matches!(parse_register("r9"), Some(Register::R9)));
    assert!(matches!(parse_register("OrigRax"), Some(Register::ORIGRAX)));
}

#[test]
fn unknown_register_names_parse_to_nothing() {
    assert!(parse_register("").is_none());
    assert!(parse_register("xmm0").is_none());
    assert!(parse_register("rax ").is_none());
    assert!(parse_register("ra").is_none());
}
