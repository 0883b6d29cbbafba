use lib::bits::{read_i16, read_i8, read_u8, write_u8};
use lib::context::{ContextTrait, ContextregisterStruct, ContextregisterTrait, MemoryRead, MemoryWrite, SpacesStruct};
use lib::display::{meaning_0_display, meaning_0_value, meaning_number, DisplayElement, Register};
use lib::tokens::{TokenField_rd, TokenField_simm0010, TokenField_xsimm8, TokenParser};

#[test]
fn bit_fields_read_unsigned() {
    assert_eq!(read_u8::<false>([0b1011_0110], 0, 4), 0b0110);
    assert_eq!(read_u8::<false>([0b1011_0110], 4, 4), 0b1011);
    assert_eq!(read_u8::<false>([0b1011_0110], 2, 3), 0b101);
    assert_eq!(read_u8::<false>([0xff], 0, 8), 0xff);
    assert_eq!(read_u8::<true>([0x80], 7, 1), 1);
}

#[test]
fn bit_fields_read_signed() {
    assert_eq!(read_i8::<false>([0b0011_0000], 4, 2), -1);
    assert_eq!(read_i8::<false>([0b0001_0000], 4, 2), 1);
    assert_eq!(read_i8::<false>([0b0010_0000], 4, 2), -2);
    assert_eq!(read_i8::<false>([0x80], 0, 8), -128);
    assert_eq!(read_i8::<false>([0x7f], 0, 8), 127);
    assert_eq!(read_i8::<false>([0x08], 0, 4), -8);
}

#[test]
fn bit_fields_read_from_words_in_either_order() {
    assert_eq!(read_i16::<false>([0xff, 0x07], 0, 11), -1);
    assert_eq!(read_i16::<false>([0xff, 0x03], 0, 11), 0x3ff);
    assert_eq!(read_i16::<false>([0x00, 0x04], 0, 11), -1024);
    assert_eq!(read_i16::<true>([0x04, 0x00], 0, 11), -1024);
    assert_eq!(read_i16::<false>([0xf0, 0x0f], 4, 8), -1);
    assert_eq!(read_i16::<false>([0x00, 0x80], 0, 16), i16::MIN);
}

#[test]
fn bit_fields_write_and_read_back() {
    assert_eq!(write_u8::<false>(0x5, 0xff, 0, 4), [0xf5]);
    assert_eq!(write_u8::<false>(0x5, 0x00, 4, 4), [0x50]);
    assert_eq!(write_u8::<false>(0x3, 0b1111_0000, 2, 2), [0b1111_1100]);
    let written = write_u8::<false>(0x9, 0x3c, 2, 4);
    assert_eq!(read_u8::<false>(written, 2, 4), 0x9);
    assert_eq!(written[0] & 0b1100_0011, 0x3c & 0b1100_0011);
}

#[test]
fn bit_fields_write_keeps_high_value_bits() {
    // Bits of the value above the field are or'ed in as they stand.
    assert_eq!(write_u8::<false>(0x1f, 0x00, 0, 4), [0x1f]);
}

#[test]
fn context_fields_read_back_what_was_written() {
    let mut regs = ContextregisterStruct::default();
    regs.write_fctx_raw(0x3);
    regs.write_nfctx_raw(0xa);
    regs.write_phase_raw(0x2);
    regs.write_counter_raw(0x7);
    assert_eq!(regs.read_fctx_raw(), 0x3);
    assert_eq!(regs.read_nfctx_raw(), 0xa);
    assert_eq!(regs.read_phase_raw(), 0x2);
    assert_eq!(regs.read_counter_raw(), 0x7);
    assert_eq!(regs.chunk_0x0, [0xa3, 0x1e, 0, 0, 0, 0, 0, 0]);
}

#[test]
fn context_fields_in_each_form() {
    let mut regs = ContextregisterStruct::default();
    regs.write_fctx_disassembly(0x105);
    assert_eq!(regs.read_fctx_disassembly(), 5);
    regs.write_nfctx_execution(0xc);
    assert_eq!(regs.read_nfctx_execution(), 0xc);
    regs.write_phase_disassembly(1);
    assert_eq!(regs.read_phase_execution(), 1);
    regs.write_counter_execution(9);
    assert_eq!(regs.read_counter_disassembly(), 9);
    assert_eq!(regs.counter_display().to_string(), "0x9");
    assert_eq!(regs.fctx_display().to_string(), "0x5");
    assert_eq!(regs.nfctx_display().to_string(), "0xc");
    assert_eq!(regs.phase_display().to_string(), "0x1");
}

#[test]
fn context_field_write_with_wide_value_reaches_the_next_field() {
    let mut regs = ContextregisterStruct::default();
    regs.write_fctx_raw(0x1f);
    assert_eq!(regs.read_fctx_raw(), 0xf);
    assert_eq!(regs.read_nfctx_raw(), 0x1);
}

#[test]
fn context_fields_leave_the_other_fields() {
    let mut regs = ContextregisterStruct { chunk_0x0: [0xff; 8] };
    regs.write_phase_raw(0);
    assert_eq!(regs.chunk_0x0, [0xff, 0xfc, 0xff, 0xff, 0xff, 0xff, 0xff, 0xff]);
    regs.write_counter_raw(0);
    assert_eq!(regs.chunk_0x0, [0xff, 0xc0, 0xff, 0xff, 0xff, 0xff, 0xff, 0xff]);
    assert_eq!(regs.read_fctx_raw(), 0xf);
    assert_eq!(regs.read_nfctx_raw(), 0xf);
}

#[test]
fn register_space_reads_back_what_was_written() {
    let mut regs = ContextregisterStruct::default();
    regs.write(3u16, &[1, 2, 3]);
    let mut buf = [0u8; 4];
    regs.read(2u16, &mut buf);
    assert_eq!(buf, [0, 1, 2, 3]);
    assert_eq!(regs.chunk_0x0, [0, 0, 0, 1, 2, 3, 0, 0]);
}

#[test]
fn spaces_hand_out_the_register_space() {
    let mut spaces = SpacesStruct::default();
    spaces.register.write_nfctx_raw(4);
    assert_eq!(spaces.register().read_nfctx_raw(), 4);
}

#[test]
fn token_parser_needs_enough_bytes() {
    assert!(TokenParser::<2>::new(&[0x12]).is_none());
    assert!(TokenParser::<1>::new(&[]).is_none());
    let parser = TokenParser::<2>::new(&[0x12, 0x34, 0x56]).unwrap();
    assert_eq!(parser.0, [0x12, 0x34]);
}

#[test]
fn token_parser_extracts_fields() {
    let parser = TokenParser::<2>::new(&[0xff, 0x07]).unwrap();
    assert_eq!(parser.TokenFieldsimm0010().execution(), -1);
    assert_eq!(parser.TokenFieldrd().execution(), Register::r7);
    assert_eq!(parser.TokenFieldop1415().disassembly(), 0);
    let parser = TokenParser::<2>::new(&[0x34, 0xa5]).unwrap();
    assert_eq!(parser.TokenFieldrd().disassembly(), 5);
    assert_eq!(parser.TokenFieldop1415().disassembly(), 2);
    assert_eq!(parser.TokenFieldimm0007().disassembly(), 0x34);
    let parser = TokenParser::<1>::new(&[0x9c]).unwrap();
    assert_eq!(parser.TokenFieldop8().execution(), 0x9c);
    assert_eq!(parser.TokenFieldxsimm8().execution(), -100);
}

#[test]
fn token_fields_display() {
    assert_eq!(TokenField_rd(13).display().to_string(), "sp");
    assert_eq!(TokenField_rd(15).disassembly(), 15);
    assert_eq!(TokenField_simm0010(-5).display().to_string(), "-0x5");
    assert_eq!(TokenField_simm0010(-5).disassembly(), -5);
    assert_eq!(TokenField_xsimm8(-1).display().to_string(), "-0x1");
}

#[test]
fn meanings() {
    assert!(matches!(meaning_number(true, 7), DisplayElement::Number(true, 7)));
    assert!(matches!(meaning_number(false, -7), DisplayElement::Number(false, -7)));
    assert_eq!(meaning_0_value(0), Register::r0);
    assert_eq!(meaning_0_value(12), Register::r12);
    assert_eq!(meaning_0_value(13), Register::sp);
    assert_eq!(meaning_0_value(14), Register::lr);
    assert_eq!(meaning_0_value(15), Register::pc);
    assert!(matches!(meaning_0_display(3), DisplayElement::Register(Register::r3)));
}

#[test]
fn register_names() {
    assert_eq!(Register::r0.to_string(), "r0");
    assert_eq!(Register::r10.to_string(), "r10");
    assert_eq!(Register::sp.to_string(), "sp");
    assert_eq!(Register::pc.name(), "pc");
}

#[test]
fn number_texts() {
    assert_eq!(DisplayElement::Number(false, -31).to_string(), "-31");
    assert_eq!(DisplayElement::Number(false, 31).to_string(), "31");
    assert_eq!(DisplayElement::Number(true, 31).to_string(), "0x1f");
    assert_eq!(DisplayElement::Number(true, -31).to_string(), "-0x1f");
    assert_eq!(DisplayElement::Number(true, 0).to_string(), "0x0");
    assert_eq!(DisplayElement::Number(false, 0).to_string(), "0");
    assert_eq!(DisplayElement::Number(false, i64::MIN).to_string(), "-9223372036854775808");
    assert_eq!(DisplayElement::Number(true, i64::MAX).to_string(), "0x7fffffffffffffff");
    assert_eq!(DisplayElement::Literal("add").to_string(), "add");
    assert_eq!(DisplayElement::Register(Register::lr).to_string(), "lr");
}

#[test]
fn register_fields_name_distinct_registers() {
    let names: Vec<String> = (0u8..16).map(|n| meaning_0_value(n).to_string()).collect();
    for i in 0..16 {
        for j in 0..16 {
            assert_eq!(i == j, names[i] == names[j]);
        }
    }
}
