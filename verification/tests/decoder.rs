use lib::context::{ContextTrait, ContextregisterTrait, GlobalSetLog, GlobalSetTrait, SpacesStruct};
use lib::display::DisplayElement;
use lib::instruction::{decode_instruction, parse_instruction};

#[derive(Default)]
struct Recorder {
    calls: Vec<(&'static str, Option<u32>, i64)>,
}

impl GlobalSetTrait for Recorder {
    fn set_fctx(&mut self, address: Option<u32>, value: i64) {
        self.calls.push(("fctx", address, value));
    }
    fn set_nfctx(&mut self, address: Option<u32>, value: i64) {
        self.calls.push(("nfctx", address, value));
    }
    fn set_phase(&mut self, address: Option<u32>, value: i64) {
        self.calls.push(("phase", address, value));
    }
    fn set_counter(&mut self, address: Option<u32>, value: i64) {
        self.calls.push(("counter", address, value));
    }
}

fn text(display: &[DisplayElement]) -> String {
    let mut s = String::new();
    for e in display {
        s.push_str(&e.to_string());
    }
    s
}

fn disasm(bytes: &[u8], start: u32) -> Option<(u32, String)> {
    let mut context = SpacesStruct::default();
    let mut recorder = Recorder::default();
    parse_instruction(bytes, &mut context, start, &mut recorder).map(|(next, d)| (next, text(&d)))
}

#[test]
fn decodes_ret() {
    assert_eq!(disasm(&[0x00, 0xf4], 0x100), Some((0x102, "ret".to_string())));
}

#[test]
fn decodes_operand_free_user_instructions() {
    assert_eq!(disasm(&[0x00, 0xa3], 0), Some((2, "user_three".to_string())));
    assert_eq!(disasm(&[0x00, 0xa8], 0), Some((2, "unimpl".to_string())));
}

#[test]
fn decodes_register_register_arithmetic() {
    assert_eq!(disasm(&[0x12, 0xc0], 0), Some((2, "add  r1, r2".to_string())));
    assert_eq!(disasm(&[0x12, 0xc2], 0), Some((2, "rsub r1, r2".to_string())));
    assert_eq!(disasm(&[0xde, 0xc7], 0), Some((2, "ucmp sp, lr".to_string())));
}

#[test]
fn decodes_register_immediate_arithmetic() {
    assert_eq!(disasm(&[0x1f, 0xc8], 0), Some((2, "add  r1, #-0x1".to_string())));
    assert_eq!(disasm(&[0x17, 0xc8], 0), Some((2, "add  r1, #0x7".to_string())));
    assert_eq!(disasm(&[0x1f, 0xcd], 0), Some((2, "mod  r1, #0xf".to_string())));
}

#[test]
fn decodes_logic_and_moves() {
    assert_eq!(disasm(&[0x12, 0xd0], 0), Some((2, "and r1, r2".to_string())));
    assert_eq!(disasm(&[0x12, 0xd1], 0), Some((2, "or  r1, r2".to_string())));
    assert_eq!(disasm(&[0x12, 0xd6], 0), Some((2, "load  r1, [r2]".to_string())));
    assert_eq!(disasm(&[0x12, 0xd7], 0), Some((2, "store [r1], r2".to_string())));
    assert_eq!(disasm(&[0x12, 0xdf], 0), Some((2, "mov   r1, r2".to_string())));
    assert_eq!(disasm(&[0x30, 0xde], 0), Some((2, "inv  r3".to_string())));
    assert_eq!(disasm(&[0x31, 0xde], 0), Some((2, "neg  r3".to_string())));
}

#[test]
fn decodes_stack_and_calls() {
    assert_eq!(disasm(&[0xf0, 0xf2], 0), Some((2, "push pc".to_string())));
    assert_eq!(disasm(&[0x50, 0xf3], 0), Some((2, "pop r5".to_string())));
    assert_eq!(disasm(&[0x50, 0xf6], 0), Some((2, "call r5".to_string())));
    assert_eq!(disasm(&[0x58, 0xf6], 0), Some((2, "calleq r5".to_string())));
    assert_eq!(disasm(&[0x51, 0xf0], 0), Some((2, "brne r5".to_string())));
}

#[test]
fn decodes_immediates() {
    assert_eq!(disasm(&[0xab, 0x23], 0), Some((2, "imm  r3, #0x2ab".to_string())));
    assert_eq!(disasm(&[0x10, 0xb5], 0), Some((2, "simm r5, #-0xf0".to_string())));
    assert_eq!(disasm(&[0xff, 0x9f], 0), Some((2, "simm pc, #0x1ff".to_string())));
    assert_eq!(disasm(&[0xff, 0xbf], 0), Some((2, "simm pc, #-0x1".to_string())));
}

#[test]
fn decodes_relative_branches() {
    assert_eq!(disasm(&[0x20, 0xe1], 0x100), Some((0x102, "breq 0x112".to_string())));
    assert_eq!(disasm(&[0xf9, 0xef], 0x100), Some((0x102, "brdsne 0xff".to_string())));
    assert_eq!(disasm(&[0xfe, 0xff], 0x10), Some((0x12, "call 0xe".to_string())));
    assert_eq!(disasm(&[0x80, 0xf5], 0x200), Some((0x202, "callds 0x180".to_string())));
    assert_eq!(disasm(&[0x04, 0xa5], 0x200), Some((0x202, "user_five 0x204".to_string())));
}

#[test]
fn decodes_skip_on_condition() {
    assert_eq!(disasm(&[0x03, 0x80], 0), Some((2, "skle".to_string())));
    assert_eq!(disasm(&[0x07, 0x80], 0), Some((2, "sk".to_string())));
}

#[test]
fn decodes_one_byte_nop() {
    assert_eq!(disasm(&[0xf7], 0x40), Some((0x41, "nop #0x1".to_string())));
}

#[test]
fn one_byte_nop_is_shadowed_by_a_longer_pattern() {
    assert_eq!(disasm(&[0xf7, 0x00], 0), Some((2, "imm  r0, #0xf7".to_string())));
}

#[test]
fn decodes_multi_byte_nop_and_clears_the_counter() {
    let mut context = SpacesStruct::default();
    let mut recorder = Recorder::default();
    let r = parse_instruction(&[0x33, 0xd9, 1, 2, 3, 4], &mut context, 0x10, &mut recorder);
    let (next, display) = r.unwrap();
    assert_eq!(next, 0x15);
    assert_eq!(text(&display), "nop #0x5");
    assert_eq!(context.register().read_counter_raw(), 0);
    assert_eq!(context.register().read_phase_raw(), 1);
    assert!(recorder.calls.is_empty());
}

#[test]
fn multi_byte_nop_needs_all_its_bytes() {
    assert_eq!(disasm(&[0x33, 0xd9, 1, 2], 0), None);
    assert_eq!(disasm(&[0x30, 0xd9], 0), Some((2, "nop #0x2".to_string())));
}

#[test]
fn fctx_sets_the_context_and_passes_it_on() {
    let mut context = SpacesStruct::default();
    let mut recorder = Recorder::default();
    let (next, display) = parse_instruction(&[0x05, 0xd9], &mut context, 0x20, &mut recorder).unwrap();
    assert_eq!(next, 0x22);
    assert_eq!(text(&display), "fctx #0x5");
    assert_eq!(context.register().read_fctx_raw(), 5);
    assert_eq!(recorder.calls, vec![("fctx", Some(0x22), 5)]);
}

#[test]
fn nfctx_sets_the_context_and_passes_it_on() {
    let mut context = SpacesStruct::default();
    let mut recorder = Recorder::default();
    let (next, display) = parse_instruction(&[0x19, 0xd9], &mut context, 0x20, &mut recorder).unwrap();
    assert_eq!(next, 0x22);
    assert_eq!(text(&display), "nfctx #0x9");
    assert_eq!(context.register().read_nfctx_raw(), 9);
    assert_eq!(recorder.calls, vec![("nfctx", Some(0x22), 9)]);
}

#[test]
fn nfctx_with_address_reads_two_tokens() {
    let mut context = SpacesStruct::default();
    let mut recorder = Recorder::default();
    let (next, display) =
        parse_instruction(&[0x27, 0xd9, 0x10, 0x00], &mut context, 0x100, &mut recorder).unwrap();
    assert_eq!(next, 0x104);
    assert_eq!(text(&display), "nfctx 0x110,#0x7");
    assert_eq!(context.register().read_nfctx_raw(), 7);
    assert_eq!(recorder.calls, vec![("nfctx", Some(0x110), 7)]);
}

#[test]
fn nfctx_with_address_needs_its_second_token() {
    assert_eq!(disasm(&[0x27, 0xd9, 0x10], 0x100), None);
}

#[test]
fn coprocessor_instructions_depend_on_nfctx() {
    let mut context = SpacesStruct::default();
    let mut recorder = Recorder::default();
    assert!(parse_instruction(&[0x40, 0xda], &mut context, 0, &mut recorder).is_none());
    for (nfctx, name) in [(1u8, "cop1 r4"), (2, "cop2 r4"), (3, "cop3 r4")] {
        let mut context = SpacesStruct::default();
        context.register_mut().write_nfctx_raw(nfctx);
        let (_, display) = parse_instruction(&[0x40, 0xda], &mut context, 0, &mut recorder).unwrap();
        assert_eq!(text(&display), name);
    }
}

#[test]
fn nothing_decodes_from_no_bytes_and_the_context_is_kept() {
    let mut context = SpacesStruct::default();
    context.register.chunk_0x0 = [0x12, 0x00, 1, 2, 3, 4, 5, 6];
    let before = context.register.chunk_0x0;
    let mut recorder = Recorder::default();
    assert!(parse_instruction(&[], &mut context, 0, &mut recorder).is_none());
    assert_eq!(context.register.chunk_0x0, before);
}

#[test]
fn nothing_decodes_in_phase_two() {
    let mut context = SpacesStruct::default();
    context.register_mut().write_phase_raw(2);
    let mut recorder = Recorder::default();
    assert!(parse_instruction(&[0x00, 0xf4], &mut context, 0, &mut recorder).is_none());
    assert_eq!(context.register().read_phase_raw(), 2);
}

#[test]
fn phase_zero_and_phase_one_decode_alike() {
    for bytes in [[0x12u8, 0xc0, 0, 0], [0x05, 0xd9, 0, 0], [0x27, 0xd9, 0x10, 0], [0x20, 0xe1, 0, 0]] {
        let mut zero = SpacesStruct::default();
        let mut one = SpacesStruct::default();
        one.register_mut().write_phase_raw(1);
        let a = decode_instruction(&bytes, &mut zero, 0x100).unwrap();
        let b = decode_instruction(&bytes, &mut one, 0x100).unwrap();
        assert_eq!(a.0, b.0);
        assert_eq!(text(&a.1), text(&b.1));
        assert_eq!(format!("{:?}", a.2), format!("{:?}", b.2));
        assert_eq!(zero.register.chunk_0x0, one.register.chunk_0x0);
    }
}

#[test]
fn longest_nop_takes_seventeen_bytes() {
    let mut bytes = vec![0x3f, 0xd9];
    bytes.extend_from_slice(&[0u8; 15]);
    assert_eq!(disasm(&bytes, 0), Some((17, "nop #0x11".to_string())));
    assert_eq!(disasm(&bytes[..16], 0), None);
}

#[test]
fn decoding_below_the_top_of_the_address_space() {
    let top = u32::MAX - 127;
    assert_eq!(disasm(&[0x27, 0xd9, 0x7f, 0x00], top), Some((top + 4, format!("nfctx {:#x},#0x7", top as u64 + 127))));
    assert_eq!(disasm(&[0x27, 0xd9, 0x80, 0x00], 128), Some((132, "nfctx 0x0,#0x7".to_string())));
}

#[test]
fn decoding_leaves_phase_one_and_the_other_bytes() {
    let mut context = SpacesStruct::default();
    context.register.chunk_0x0 = [0, 0, 9, 8, 7, 6, 5, 4];
    let mut recorder = Recorder::default();
    let (next, _) = parse_instruction(&[0x33, 0xd9, 0, 0, 0], &mut context, 0, &mut recorder).unwrap();
    assert!(next >= 1 && next <= 17);
    assert_eq!(context.register().read_phase_raw(), 1);
    assert_eq!(&context.register.chunk_0x0[2..], &[9, 8, 7, 6, 5, 4]);
}

#[test]
fn decode_instruction_lists_the_values_passed_on() {
    let mut context = SpacesStruct::default();
    let (next, display, sets) = decode_instruction(&[0x05, 0xd9], &mut context, 0x30).unwrap();
    assert_eq!(next, 0x32);
    assert_eq!(text(&display), "fctx #0x5");
    assert_eq!(sets.len(), 1);
    assert!(matches!(sets[0], lib::context::GlobalSetRequest::Fctx(Some(0x32), 5)));
}

#[test]
fn the_log_receiver_records_nothing_for_plain_instructions() {
    let mut context = SpacesStruct::default();
    let mut log = GlobalSetLog::new();
    let (next, display) = parse_instruction(&[0x45, 0xb3], &mut context, 0, &mut log).unwrap();
    assert_eq!(next, 2);
    assert_eq!(text(&display), "simm r3, #-0xbb");
    assert!(matches!(display[5], DisplayElement::Number(true, -187)));
    assert!(log.requests.is_empty());
}

#[test]
fn the_log_receiver_records_the_values_passed_on() {
    let mut context = SpacesStruct::default();
    let mut log = GlobalSetLog::new();
    let (next, display) = parse_instruction(&[0x15, 0xd9], &mut context, 0x10, &mut log).unwrap();
    assert_eq!(next, 0x12);
    assert_eq!(text(&display), "nfctx #0x5");
    assert_eq!(format!("{:?}", log.requests), "[Nfctx(Some(18), 5)]");
    assert_eq!(context.register.chunk_0x0, [0x50, 0x01, 0, 0, 0, 0, 0, 0]);
}

#[test]
fn the_log_receiver_is_untouched_when_nothing_decodes() {
    let mut context = SpacesStruct::default();
    let mut log = GlobalSetLog::new();
    log.set_fctx(None, 3);
    assert!(parse_instruction(&[0x27, 0xd9, 0x10], &mut context, 0x100, &mut log).is_none());
    assert_eq!(format!("{:?}", log.requests), "[Fctx(None, 3)]");
}
