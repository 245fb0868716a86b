use debug_snapshot::Register;

#[test]
fn decode_general_purpose_registers() {
    assert_eq!(Register::from((0, 11)), Register::Rax(11));
    assert_eq!(Register::from((1, 12)), Register::Rbx(12));
    assert_eq!(Register::from((2, 13)), Register::Rcx(13));
    assert_eq!(Register::from((3, 14)), Register::Rdx(14));
    assert_eq!(Register::from((4, 15)), Register::Rsi(15));
    assert_eq!(Register::from((5, 16)), Register::Rdi(16));
    assert_eq!(Register::from((6, 17)), Register::Rbp(17));
    assert_eq!(Register::from((7, 18)), Register::Rsp(18));
    assert_eq!(Register::from((8, 19)), Register::R8(19));
    assert_eq!(Register::from((15, 20)), Register::R15(20));
    assert_eq!(Register::from((16, 0x401000)), Register::Rip(0x401000));
}

#[test]
fn decode_flags_segments_and_x87() {
    assert_eq!(Register::from((17, 0x246)), Register::Eflags(0x246));
    assert_eq!(Register::from((18, 0x33)), Register::Cs(0x33));
    assert_eq!(Register::from((23, 0)), Register::Gs(0));
    assert_eq!(Register::from((24, 1)), Register::St0(1));
    assert_eq!(Register::from((31, 2)), Register::St7(2));
    assert_eq!(Register::from((32, 0x37f)), Register::Fctrl(0x37f));
    assert_eq!(Register::from((37, 3)), Register::Fooff(3));
    assert_eq!(Register::from((39, 4)), Register::Fop(4));
}

#[test]
fn decode_base_and_control_registers() {
    assert_eq!(Register::from((155, 5)), Register::FsBase(5));
    assert_eq!(Register::from((156, 6)), Register::GsBase(6));
    assert_eq!(Register::from((157, 7)), Register::KgsBase(7));
    assert_eq!(Register::from((158, 8)), Register::Cr0(8));
    assert_eq!(Register::from((159, 9)), Register::Cr2(9));
    assert_eq!(Register::from((160, 10)), Register::Cr3(10));
    assert_eq!(Register::from((161, 11)), Register::Cr4(11));
    assert_eq!(Register::from((162, 12)), Register::Cr8(12));
    assert_eq!(Register::from((163, 13)), Register::Efer(13));
    assert_eq!(Register::from((180, 0x1f80)), Register::Mxcsr(0x1f80));
}

#[test]
fn decode_keeps_value_at_extremes() {
    assert_eq!(Register::from((0, u64::MAX)), Register::Rax(u64::MAX));
    assert_eq!(Register::from((180, 0)), Register::Mxcsr(0));
}

#[test]
fn decode_unknown_numbers_as_other() {
    for number in [38u8, 40, 100, 154, 164, 170, 179, 181, 200, 255] {
        assert_eq!(
            Register::from((number, 42)),
            Register::Other { number, value: 42 }
        );
    }
}

#[test]
fn is_other_iff_outside_table() {
    for number in 0u8..=255 {
        let in_table = number <= 37
            || number == 39
            || (155..=163).contains(&number)
            || number == 180;
        assert_eq!(Register::from((number, 1)).is_other(), !in_table);
    }
}

#[test]
fn is_other_on_named_and_other() {
    assert!(!Register::Rip(0).is_other());
    assert!(Register::Other { number: 38, value: 0 }.is_other());
}
