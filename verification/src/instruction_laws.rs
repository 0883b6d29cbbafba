//! Laws that tie what the decoder shows to the instruction bytes
//! themselves: which bits choose an instruction, which bits give its
//! operands, and the names it shows for them.
use vstd::prelude::*;
use crate::bits::{bits_u8, bits_u16, sign_extend, word_of};
use crate::context::{GlobalSetRequest, phase_of, nfctx_of, with_phase, with_fctx, with_nfctx, with_counter};
use crate::laws::{law_phase_read_after_write, law_fctx_read_after_write, law_nfctx_read_after_write};
use crate::display::{DisplayElement, register_of, element_text, digits_text};
use crate::instruction::Tableinstruction;
use crate::tables::TableCC;

verus! {

/// The instruction a decoding result holds, with the entry constructor (the
/// one that moves phase 0 to phase 1) taken off.
pub open spec fn core_instruction(v: Tableinstruction) -> Tableinstruction {
    match v {
        Tableinstruction::Var0(x) => *x.instruction,
        _ => v,
    }
}

/// The context registers under which the main table is consulted.
pub open spec fn entry_regs(regs: Seq<u8>) -> Seq<u8> {
    if phase_of(regs) == 0 {
        with_phase(regs, 1)
    } else {
        regs
    }
}

/// The position of an instruction's constructor in the table.
pub open spec fn form_tag(v: Tableinstruction) -> int {
    match v {
        Tableinstruction::Var0(_) => 0,
        Tableinstruction::Var1(_) => 1,
        Tableinstruction::Var2(_) => 2,
        Tableinstruction::Var3(_) => 3,
        Tableinstruction::Var4(_) => 4,
        Tableinstruction::Var5(_) => 5,
        Tableinstruction::Var6(_) => 6,
        Tableinstruction::Var7(_) => 7,
        Tableinstruction::Var8(_) => 8,
        Tableinstruction::Var9(_) => 9,
        Tableinstruction::Var10(_) => 10,
        Tableinstruction::Var11(_) => 11,
        Tableinstruction::Var12(_) => 12,
        Tableinstruction::Var13(_) => 13,
        Tableinstruction::Var14(_) => 14,
        Tableinstruction::Var15(_) => 15,
        Tableinstruction::Var16(_) => 16,
        Tableinstruction::Var17(_) => 17,
        Tableinstruction::Var18(_) => 18,
        Tableinstruction::Var19(_) => 19,
        Tableinstruction::Var20(_) => 20,
        Tableinstruction::Var21(_) => 21,
        Tableinstruction::Var22(_) => 22,
        Tableinstruction::Var23(_) => 23,
        Tableinstruction::Var24(_) => 24,
        Tableinstruction::Var25(_) => 25,
        Tableinstruction::Var26(_) => 26,
        Tableinstruction::Var27(_) => 27,
        Tableinstruction::Var28(_) => 28,
        Tableinstruction::Var29(_) => 29,
        Tableinstruction::Var30(_) => 30,
        Tableinstruction::Var31(_) => 31,
        Tableinstruction::Var32(_) => 32,
        Tableinstruction::Var33(_) => 33,
        Tableinstruction::Var34(_) => 34,
        Tableinstruction::Var35(_) => 35,
        Tableinstruction::Var36(_) => 36,
        Tableinstruction::Var37(_) => 37,
        Tableinstruction::Var38(_) => 38,
        Tableinstruction::Var39(_) => 39,
        Tableinstruction::Var40(_) => 40,
        Tableinstruction::Var41(_) => 41,
        Tableinstruction::Var42(_) => 42,
        Tableinstruction::Var43(_) => 43,
        Tableinstruction::Var44(_) => 44,
        Tableinstruction::Var45(_) => 45,
        Tableinstruction::Var46(_) => 46,
        Tableinstruction::Var47(_) => 47,
        Tableinstruction::Var48(_) => 48,
        Tableinstruction::Var49(_) => 49,
        Tableinstruction::Var50(_) => 50,
        Tableinstruction::Var51(_) => 51,
        Tableinstruction::Var52(_) => 52,
        Tableinstruction::Var53(_) => 53,
        Tableinstruction::Var54(_) => 54,
        Tableinstruction::Var55(_) => 55,
        Tableinstruction::Var56(_) => 56,
        Tableinstruction::Var57(_) => 57,
        Tableinstruction::Var58(_) => 58,
        Tableinstruction::Var59(_) => 59,
        Tableinstruction::Var60(_) => 60,
    }
}

proof fn lemma_form_tag(k: int, t: Seq<u8>, regs: Seq<u8>)
    requires
        1 <= k <= 60,
    ensures
        Tableinstruction::spec_form(k, t, regs) matches Some((n, v, r)) ==> form_tag(v) == k,
{
}

proof fn lemma_first_tag(t: Seq<u8>, regs: Seq<u8>, k: int)
    requires
        1 <= k,
    ensures
        Tableinstruction::spec_first(t, regs, k) matches Some((n, v, r)) ==> k <= form_tag(v) <= 60
            && Tableinstruction::spec_form(form_tag(v), t, regs) == Some((n, v, r)),
    decreases 61 - k,
{
    if k <= 60 {
        lemma_form_tag(k, t, regs);
        lemma_first_tag(t, regs, k + 1);
    }
}

/// A decoding result comes from the table constructor at its position,
/// applied to the token bytes under the entry context registers, and shows
/// what that constructor shows.
proof fn lemma_decoded(t: Seq<u8>, regs: Seq<u8>, inst_start: u32, inst_next: u32)
    ensures
        Tableinstruction::spec_parse(t, regs) matches Some((n, v, r)) ==> {
            let c = core_instruction(v);
            &&& 1 <= form_tag(c) <= 60
            &&& Tableinstruction::spec_form(form_tag(c), t, entry_regs(regs)) == Some((n, c, r))
            &&& v.spec_display(r, inst_start, inst_next) == c.spec_display(r, inst_start, inst_next)
            &&& v.spec_sets(r, inst_start, inst_next) == c.spec_sets(r, inst_start, inst_next)
        },
{
    lemma_first_tag(t, regs, 1);
    lemma_first_tag(t, with_phase(regs, 1), 1);
}

/// The two's complement value of an 11-bit field fits in 11 bits.
proof fn lemma_sign_extend_11(w: u16)
    ensures
        -1024 <= sign_extend(bits_u16(w, 0, 11), 11) < 1024,
{
    let v = bits_u16(w, 0, 11);
    assert(v < 2048) by (bit_vector)
        requires
            v == (w >> 0u16) & (0xffffu16 >> ((16 - 11u16) as u16)),
    ;
    assert((1u32 << 10u32) == 1024 && (1u32 << 11u32) == 2048) by (bit_vector);
}

/// The two's complement value of an 8-bit field fits in 8 bits.
proof fn lemma_sign_extend_8(v: u16)
    requires
        v < 256,
    ensures
        -128 <= sign_extend(v, 8) < 128,
{
    assert((1u32 << 7u32) == 128 && (1u32 << 8u32) == 256) by (bit_vector);
}

/// Bits 4..11 of a word are an 8-bit value.
proof fn lemma_bits_4_8(w: u16)
    ensures
        bits_u16(w, 4, 8) < 256,
{
    let v = bits_u16(w, 4, 8);
    assert(v < 256) by (bit_vector)
        requires
            v == (w >> 4u16) & (0xffffu16 >> ((16 - 8u16) as u16)),
    ;
}

proof fn lemma_first_skip(t: Seq<u8>, regs: Seq<u8>, k: int, last: int)
    requires
        1 <= k <= last <= 60,
        forall|j: int| k <= j < last ==> Tableinstruction::spec_form(j, t, regs) is None,
    ensures
        Tableinstruction::spec_first(t, regs, k) == Tableinstruction::spec_first(t, regs, last),
    decreases last - k,
{
    if k < last {
        lemma_first_skip(t, regs, k + 1, last);
    }
}

/// When the constructors before position `k` do not take the bytes and the
/// one at `k` does, the decoder gives that constructor's result.
proof fn lemma_decodes_as(t: Seq<u8>, regs: Seq<u8>, k: int)
    requires
        regs.len() == 8,
        phase_of(regs) <= 1,
        1 <= k <= 60,
        forall|j: int| 1 <= j < k ==> Tableinstruction::spec_form(j, t, entry_regs(regs)) is None,
        Tableinstruction::spec_form(k, t, entry_regs(regs)) is Some,
    ensures
        Tableinstruction::spec_parse(t, regs) matches Some((n, v, r)) && Tableinstruction::spec_form(
            k,
            t,
            entry_regs(regs),
        ) == Some((n, core_instruction(v), r)),
{
    lemma_first_skip(t, entry_regs(regs), 1, k);
    law_phase_read_after_write(regs, 1);
}

/// How the fields of one byte relate to its nibbles.
proof fn lemma_byte_fields(b: u8)
    ensures
        bits_u8(b, 3, 1) == bits_u8(b, 0, 4) >> 3u8,
        bits_u8(b, 0, 3) == bits_u8(b, 0, 4) & 7u8,
        bits_u8(b, 6, 2) == bits_u8(b, 4, 4) >> 2u8,
        bits_u8(b, 7, 1) == bits_u8(b, 4, 4) >> 3u8,
        bits_u8(b, 0, 8) == b,
        b == (bits_u8(b, 4, 4) << 4u8) | bits_u8(b, 0, 4),
        bits_u8(b, 0, 4) < 16 && bits_u8(b, 4, 4) < 16 && bits_u8(b, 4, 2) < 4,
        bits_u8(b, 3, 1) == 1 ==> bits_u8(b, 0, 4) >= 8,
        bits_u8(b, 7, 1) == 0 ==> bits_u8(b, 4, 4) < 8 && bits_u8(b, 6, 2) < 2,
        bits_u8(b, 6, 2) == 2 ==> 8 <= bits_u8(b, 4, 4) < 12,
{
    assert(bits_u8(b, 0, 4) < 16 && bits_u8(b, 4, 4) < 16 && bits_u8(b, 4, 2) < 4
        && (bits_u8(b, 3, 1) == 1 ==> bits_u8(b, 0, 4) >= 8)
        && (bits_u8(b, 7, 1) == 0 ==> bits_u8(b, 4, 4) < 8 && bits_u8(b, 6, 2) < 2)
        && (bits_u8(b, 6, 2) == 2 ==> 8 <= bits_u8(b, 4, 4) < 12)) by (bit_vector);
    assert(bits_u8(b, 3, 1) == bits_u8(b, 0, 4) >> 3u8 && bits_u8(b, 0, 3) == bits_u8(b, 0, 4) & 7u8
        && bits_u8(b, 6, 2) == bits_u8(b, 4, 4) >> 2u8 && bits_u8(b, 7, 1) == bits_u8(b, 4, 4) >> 3u8
        && bits_u8(b, 0, 8) == b && b == (bits_u8(b, 4, 4) << 4u8) | bits_u8(b, 0, 4)) by (bit_vector);
}

/// Entering phase 1 keeps the `nfctx` field.
proof fn law_phase_keeps_nfctx(regs: Seq<u8>)
    ensures
        regs.len() >= 2 ==> nfctx_of(entry_regs(regs)) == nfctx_of(regs),
{
}

proof fn lemma_form4(t: Seq<u8>, regs: Seq<u8>, inst_start: u32, inst_next: u32)
    requires
        regs.len() == 8,
    ensures
        Tableinstruction::spec_parse(t, regs) matches Some((n, v, r)) ==> core_instruction(v) is Var4 ==> {
            &&& n == 2
            &&& bits_u8(t[1], 4, 4) == 13
            &&& bits_u8(t[1], 0, 4) == 14
            &&& bits_u8(t[0], 0, 4) == 0
            &&& v.spec_display(r, inst_start, inst_next) == seq![DisplayElement::Literal("inv"), DisplayElement::Literal("  "), DisplayElement::Register(register_of(bits_u8(t[0], 4, 4)))]
        },
{
    lemma_decoded(t, regs, inst_start, inst_next);
}

proof fn lemma_form5(t: Seq<u8>, regs: Seq<u8>, inst_start: u32, inst_next: u32)
    requires
        regs.len() == 8,
    ensures
        Tableinstruction::spec_parse(t, regs) matches Some((n, v, r)) ==> core_instruction(v) is Var5 ==> {
            &&& n == 2
            &&& bits_u8(t[1], 4, 4) == 13
            &&& bits_u8(t[1], 0, 4) == 14
            &&& bits_u8(t[0], 0, 4) == 1
            &&& v.spec_display(r, inst_start, inst_next) == seq![DisplayElement::Literal("neg"), DisplayElement::Literal("  "), DisplayElement::Register(register_of(bits_u8(t[0], 4, 4)))]
        },
{
    lemma_decoded(t, regs, inst_start, inst_next);
}

proof fn lemma_form7(t: Seq<u8>, regs: Seq<u8>, inst_start: u32, inst_next: u32)
    requires
        regs.len() == 8,
    ensures
        Tableinstruction::spec_parse(t, regs) matches Some((n, v, r)) ==> core_instruction(v) is Var7 ==> {
            &&& n == 2
            &&& bits_u8(t[1], 4, 4) == 15
            &&& bits_u8(t[1], 0, 4) == 2
            &&& bits_u8(t[0], 0, 4) == 0
            &&& v.spec_display(r, inst_start, inst_next) == seq![DisplayElement::Literal("push"), DisplayElement::Literal(" "), DisplayElement::Register(register_of(bits_u8(t[0], 4, 4)))]
        },
{
    lemma_decoded(t, regs, inst_start, inst_next);
}

proof fn lemma_form8(t: Seq<u8>, regs: Seq<u8>, inst_start: u32, inst_next: u32)
    requires
        regs.len() == 8,
    ensures
        Tableinstruction::spec_parse(t, regs) matches Some((n, v, r)) ==> core_instruction(v) is Var8 ==> {
            &&& n == 2
            &&& bits_u8(t[1], 4, 4) == 15
            &&& bits_u8(t[1], 0, 4) == 3
            &&& bits_u8(t[0], 0, 4) == 0
            &&& v.spec_display(r, inst_start, inst_next) == seq![DisplayElement::Literal("pop"), DisplayElement::Literal(" "), DisplayElement::Register(register_of(bits_u8(t[0], 4, 4)))]
        },
{
    lemma_decoded(t, regs, inst_start, inst_next);
}

proof fn lemma_form9(t: Seq<u8>, regs: Seq<u8>, inst_start: u32, inst_next: u32)
    requires
        regs.len() == 8,
    ensures
        Tableinstruction::spec_parse(t, regs) matches Some((n, v, r)) ==> core_instruction(v) is Var9 ==> {
            &&& n == 2
            &&& bits_u8(t[1], 4, 4) == 15
            &&& bits_u8(t[1], 0, 4) == 6
            &&& bits_u8(t[0], 0, 4) == 0
            &&& v.spec_display(r, inst_start, inst_next) == seq![DisplayElement::Literal("call"), DisplayElement::Literal(" "), DisplayElement::Register(register_of(bits_u8(t[0], 4, 4)))]
        },
{
    lemma_decoded(t, regs, inst_start, inst_next);
}

proof fn lemma_form10(t: Seq<u8>, regs: Seq<u8>, inst_start: u32, inst_next: u32)
    requires
        regs.len() == 8,
    ensures
        Tableinstruction::spec_parse(t, regs) matches Some((n, v, r)) ==> core_instruction(v) is Var10 ==> {
            &&& n == 2
            &&& bits_u8(t[1], 4, 4) == 10
            &&& bits_u8(t[1], 0, 4) == 1
            &&& bits_u8(t[0], 0, 4) == 0
            &&& v.spec_display(r, inst_start, inst_next) == seq![DisplayElement::Literal("user_one"), DisplayElement::Literal(" "), DisplayElement::Register(register_of(bits_u8(t[0], 4, 4)))]
        },
{
    lemma_decoded(t, regs, inst_start, inst_next);
}

proof fn lemma_form11(t: Seq<u8>, regs: Seq<u8>, inst_start: u32, inst_next: u32)
    requires
        regs.len() == 8,
    ensures
        Tableinstruction::spec_parse(t, regs) matches Some((n, v, r)) ==> core_instruction(v) is Var11 ==> {
            &&& n == 2
            &&& bits_u8(t[1], 4, 4) == 10
            &&& bits_u8(t[1], 0, 4) == 2
            &&& bits_u8(t[0], 0, 4) == 0
            &&& v.spec_display(r, inst_start, inst_next) == seq![DisplayElement::Literal("user_two"), DisplayElement::Literal(" "), DisplayElement::Register(register_of(bits_u8(t[0], 4, 4)))]
        },
{
    lemma_decoded(t, regs, inst_start, inst_next);
}

proof fn lemma_form12(t: Seq<u8>, regs: Seq<u8>, inst_start: u32, inst_next: u32)
    requires
        regs.len() == 8,
    ensures
        Tableinstruction::spec_parse(t, regs) matches Some((n, v, r)) ==> core_instruction(v) is Var12 ==> {
            &&& n == 2
            &&& bits_u8(t[1], 4, 4) == 10
            &&& bits_u8(t[1], 0, 4) == 6
            &&& bits_u8(t[0], 0, 4) == 0
            &&& v.spec_display(r, inst_start, inst_next) == seq![DisplayElement::Literal("user_six"), DisplayElement::Literal(" "), DisplayElement::Register(register_of(bits_u8(t[0], 4, 4)))]
        },
{
    lemma_decoded(t, regs, inst_start, inst_next);
}

proof fn lemma_form13(t: Seq<u8>, regs: Seq<u8>, inst_start: u32, inst_next: u32)
    requires
        regs.len() == 8,
    ensures
        Tableinstruction::spec_parse(t, regs) matches Some((n, v, r)) ==> core_instruction(v) is Var13 ==> {
            &&& n == 2
            &&& bits_u8(t[1], 4, 4) == 13
            &&& bits_u8(t[1], 0, 4) == 10
            &&& bits_u8(t[0], 0, 4) == 0
            &&& nfctx_of(regs) == 1
            &&& v.spec_display(r, inst_start, inst_next) == seq![DisplayElement::Literal("cop1"), DisplayElement::Literal(" "), DisplayElement::Register(register_of(bits_u8(t[0], 4, 4)))]
        },
{
    lemma_decoded(t, regs, inst_start, inst_next);
    law_phase_keeps_nfctx(regs);
}

proof fn lemma_form14(t: Seq<u8>, regs: Seq<u8>, inst_start: u32, inst_next: u32)
    requires
        regs.len() == 8,
    ensures
        Tableinstruction::spec_parse(t, regs) matches Some((n, v, r)) ==> core_instruction(v) is Var14 ==> {
            &&& n == 2
            &&& bits_u8(t[1], 4, 4) == 13
            &&& bits_u8(t[1], 0, 4) == 10
            &&& bits_u8(t[0], 0, 4) == 0
            &&& nfctx_of(regs) == 2
            &&& v.spec_display(r, inst_start, inst_next) == seq![DisplayElement::Literal("cop2"), DisplayElement::Literal(" "), DisplayElement::Register(register_of(bits_u8(t[0], 4, 4)))]
        },
{
    lemma_decoded(t, regs, inst_start, inst_next);
    law_phase_keeps_nfctx(regs);
}

proof fn lemma_form15(t: Seq<u8>, regs: Seq<u8>, inst_start: u32, inst_next: u32)
    requires
        regs.len() == 8,
    ensures
        Tableinstruction::spec_parse(t, regs) matches Some((n, v, r)) ==> core_instruction(v) is Var15 ==> {
            &&& n == 2
            &&& bits_u8(t[1], 4, 4) == 13
            &&& bits_u8(t[1], 0, 4) == 10
            &&& bits_u8(t[0], 0, 4) == 0
            &&& nfctx_of(regs) == 3
            &&& v.spec_display(r, inst_start, inst_next) == seq![DisplayElement::Literal("cop3"), DisplayElement::Literal(" "), DisplayElement::Register(register_of(bits_u8(t[0], 4, 4)))]
        },
{
    lemma_decoded(t, regs, inst_start, inst_next);
    law_phase_keeps_nfctx(regs);
}

proof fn lemma_form23(t: Seq<u8>, regs: Seq<u8>, inst_start: u32, inst_next: u32)
    requires
        regs.len() == 8,
    ensures
        Tableinstruction::spec_parse(t, regs) matches Some((n, v, r)) ==> core_instruction(v) is Var23 ==> {
            &&& n == 2
            &&& bits_u8(t[1], 4, 4) == 12
            &&& bits_u8(t[1], 0, 4) == 0
            &&& v.spec_display(r, inst_start, inst_next) == seq![DisplayElement::Literal("add"), DisplayElement::Literal("  "), DisplayElement::Register(register_of(bits_u8(t[0], 4, 4))), DisplayElement::Literal(", "), DisplayElement::Register(register_of(bits_u8(t[0], 0, 4)))]
        },
{
    lemma_decoded(t, regs, inst_start, inst_next);
}

proof fn lemma_form24(t: Seq<u8>, regs: Seq<u8>, inst_start: u32, inst_next: u32)
    requires
        regs.len() == 8,
    ensures
        Tableinstruction::spec_parse(t, regs) matches Some((n, v, r)) ==> core_instruction(v) is Var24 ==> {
            &&& n == 2
            &&& bits_u8(t[1], 4, 4) == 12
            &&& bits_u8(t[1], 0, 4) == 1
            &&& v.spec_display(r, inst_start, inst_next) == seq![DisplayElement::Literal("sub"), DisplayElement::Literal("  "), DisplayElement::Register(register_of(bits_u8(t[0], 4, 4))), DisplayElement::Literal(", "), DisplayElement::Register(register_of(bits_u8(t[0], 0, 4)))]
        },
{
    lemma_decoded(t, regs, inst_start, inst_next);
}

proof fn lemma_form25(t: Seq<u8>, regs: Seq<u8>, inst_start: u32, inst_next: u32)
    requires
        regs.len() == 8,
    ensures
        Tableinstruction::spec_parse(t, regs) matches Some((n, v, r)) ==> core_instruction(v) is Var25 ==> {
            &&& n == 2
            &&& bits_u8(t[1], 4, 4) == 12
            &&& bits_u8(t[1], 0, 4) == 2
            &&& v.spec_display(r, inst_start, inst_next) == seq![DisplayElement::Literal("rsub"), DisplayElement::Literal(" "), DisplayElement::Register(register_of(bits_u8(t[0], 4, 4))), DisplayElement::Literal(", "), DisplayElement::Register(register_of(bits_u8(t[0], 0, 4)))]
        },
{
    lemma_decoded(t, regs, inst_start, inst_next);
}

proof fn lemma_form26(t: Seq<u8>, regs: Seq<u8>, inst_start: u32, inst_next: u32)
    requires
        regs.len() == 8,
    ensures
        Tableinstruction::spec_parse(t, regs) matches Some((n, v, r)) ==> core_instruction(v) is Var26 ==> {
            &&& n == 2
            &&& bits_u8(t[1], 4, 4) == 12
            &&& bits_u8(t[1], 0, 4) == 3
            &&& v.spec_display(r, inst_start, inst_next) == seq![DisplayElement::Literal("mul"), DisplayElement::Literal("  "), DisplayElement::Register(register_of(bits_u8(t[0], 4, 4))), DisplayElement::Literal(", "), DisplayElement::Register(register_of(bits_u8(t[0], 0, 4)))]
        },
{
    lemma_decoded(t, regs, inst_start, inst_next);
}

proof fn lemma_form27(t: Seq<u8>, regs: Seq<u8>, inst_start: u32, inst_next: u32)
    requires
        regs.len() == 8,
    ensures
        Tableinstruction::spec_parse(t, regs) matches Some((n, v, r)) ==> core_instruction(v) is Var27 ==> {
            &&& n == 2
            &&& bits_u8(t[1], 4, 4) == 12
            &&& bits_u8(t[1], 0, 4) == 4
            &&& v.spec_display(r, inst_start, inst_next) == seq![DisplayElement::Literal("div"), DisplayElement::Literal("  "), DisplayElement::Register(register_of(bits_u8(t[0], 4, 4))), DisplayElement::Literal(", "), DisplayElement::Register(register_of(bits_u8(t[0], 0, 4)))]
        },
{
    lemma_decoded(t, regs, inst_start, inst_next);
}

proof fn lemma_form28(t: Seq<u8>, regs: Seq<u8>, inst_start: u32, inst_next: u32)
    requires
        regs.len() == 8,
    ensures
        Tableinstruction::spec_parse(t, regs) matches Some((n, v, r)) ==> core_instruction(v) is Var28 ==> {
            &&& n == 2
            &&& bits_u8(t[1], 4, 4) == 12
            &&& bits_u8(t[1], 0, 4) == 5
            &&& v.spec_display(r, inst_start, inst_next) == seq![DisplayElement::Literal("mod"), DisplayElement::Literal("  "), DisplayElement::Register(register_of(bits_u8(t[0], 4, 4))), DisplayElement::Literal(", "), DisplayElement::Register(register_of(bits_u8(t[0], 0, 4)))]
        },
{
    lemma_decoded(t, regs, inst_start, inst_next);
}

proof fn lemma_form29(t: Seq<u8>, regs: Seq<u8>, inst_start: u32, inst_next: u32)
    requires
        regs.len() == 8,
    ensures
        Tableinstruction::spec_parse(t, regs) matches Some((n, v, r)) ==> core_instruction(v) is Var29 ==> {
            &&& n == 2
            &&& bits_u8(t[1], 4, 4) == 12
            &&& bits_u8(t[1], 0, 4) == 6
            &&& v.spec_display(r, inst_start, inst_next) == seq![DisplayElement::Literal("cmp"), DisplayElement::Literal("  "), DisplayElement::Register(register_of(bits_u8(t[0], 4, 4))), DisplayElement::Literal(", "), DisplayElement::Register(register_of(bits_u8(t[0], 0, 4)))]
        },
{
    lemma_decoded(t, regs, inst_start, inst_next);
}

proof fn lemma_form30(t: Seq<u8>, regs: Seq<u8>, inst_start: u32, inst_next: u32)
    requires
        regs.len() == 8,
    ensures
        Tableinstruction::spec_parse(t, regs) matches Some((n, v, r)) ==> core_instruction(v) is Var30 ==> {
            &&& n == 2
            &&& bits_u8(t[1], 4, 4) == 12
            &&& bits_u8(t[1], 0, 4) == 7
            &&& v.spec_display(r, inst_start, inst_next) == seq![DisplayElement::Literal("ucmp"), DisplayElement::Literal(" "), DisplayElement::Register(register_of(bits_u8(t[0], 4, 4))), DisplayElement::Literal(", "), DisplayElement::Register(register_of(bits_u8(t[0], 0, 4)))]
        },
{
    lemma_decoded(t, regs, inst_start, inst_next);
}

proof fn lemma_form39(t: Seq<u8>, regs: Seq<u8>, inst_start: u32, inst_next: u32)
    requires
        regs.len() == 8,
    ensures
        Tableinstruction::spec_parse(t, regs) matches Some((n, v, r)) ==> core_instruction(v) is Var39 ==> {
            &&& n == 2
            &&& bits_u8(t[1], 4, 4) == 13
            &&& bits_u8(t[1], 0, 4) == 0
            &&& v.spec_display(r, inst_start, inst_next) == seq![DisplayElement::Literal("and"), DisplayElement::Literal(" "), DisplayElement::Register(register_of(bits_u8(t[0], 4, 4))), DisplayElement::Literal(", "), DisplayElement::Register(register_of(bits_u8(t[0], 0, 4)))]
        },
{
    lemma_decoded(t, regs, inst_start, inst_next);
}

proof fn lemma_form40(t: Seq<u8>, regs: Seq<u8>, inst_start: u32, inst_next: u32)
    requires
        regs.len() == 8,
    ensures
        Tableinstruction::spec_parse(t, regs) matches Some((n, v, r)) ==> core_instruction(v) is Var40 ==> {
            &&& n == 2
            &&& bits_u8(t[1], 4, 4) == 13
            &&& bits_u8(t[1], 0, 4) == 1
            &&& v.spec_display(r, inst_start, inst_next) == seq![DisplayElement::Literal("or"), DisplayElement::Literal("  "), DisplayElement::Register(register_of(bits_u8(t[0], 4, 4))), DisplayElement::Literal(", "), DisplayElement::Register(register_of(bits_u8(t[0], 0, 4)))]
        },
{
    lemma_decoded(t, regs, inst_start, inst_next);
}

proof fn lemma_form41(t: Seq<u8>, regs: Seq<u8>, inst_start: u32, inst_next: u32)
    requires
        regs.len() == 8,
    ensures
        Tableinstruction::spec_parse(t, regs) matches Some((n, v, r)) ==> core_instruction(v) is Var41 ==> {
            &&& n == 2
            &&& bits_u8(t[1], 4, 4) == 13
            &&& bits_u8(t[1], 0, 4) == 2
            &&& v.spec_display(r, inst_start, inst_next) == seq![DisplayElement::Literal("xor"), DisplayElement::Literal(" "), DisplayElement::Register(register_of(bits_u8(t[0], 4, 4))), DisplayElement::Literal(", "), DisplayElement::Register(register_of(bits_u8(t[0], 0, 4)))]
        },
{
    lemma_decoded(t, regs, inst_start, inst_next);
}

proof fn lemma_form42(t: Seq<u8>, regs: Seq<u8>, inst_start: u32, inst_next: u32)
    requires
        regs.len() == 8,
    ensures
        Tableinstruction::spec_parse(t, regs) matches Some((n, v, r)) ==> core_instruction(v) is Var42 ==> {
            &&& n == 2
            &&& bits_u8(t[1], 4, 4) == 13
            &&& bits_u8(t[1], 0, 4) == 3
            &&& v.spec_display(r, inst_start, inst_next) == seq![DisplayElement::Literal("lsr"), DisplayElement::Literal(" "), DisplayElement::Register(register_of(bits_u8(t[0], 4, 4))), DisplayElement::Literal(", "), DisplayElement::Register(register_of(bits_u8(t[0], 0, 4)))]
        },
{
    lemma_decoded(t, regs, inst_start, inst_next);
}

proof fn lemma_form43(t: Seq<u8>, regs: Seq<u8>, inst_start: u32, inst_next: u32)
    requires
        regs.len() == 8,
    ensures
        Tableinstruction::spec_parse(t, regs) matches Some((n, v, r)) ==> core_instruction(v) is Var43 ==> {
            &&& n == 2
            &&& bits_u8(t[1], 4, 4) == 13
            &&& bits_u8(t[1], 0, 4) == 4
            &&& v.spec_display(r, inst_start, inst_next) == seq![DisplayElement::Literal("asr"), DisplayElement::Literal(" "), DisplayElement::Register(register_of(bits_u8(t[0], 4, 4))), DisplayElement::Literal(", "), DisplayElement::Register(register_of(bits_u8(t[0], 0, 4)))]
        },
{
    lemma_decoded(t, regs, inst_start, inst_next);
}

proof fn lemma_form44(t: Seq<u8>, regs: Seq<u8>, inst_start: u32, inst_next: u32)
    requires
        regs.len() == 8,
    ensures
        Tableinstruction::spec_parse(t, regs) matches Some((n, v, r)) ==> core_instruction(v) is Var44 ==> {
            &&& n == 2
            &&& bits_u8(t[1], 4, 4) == 13
            &&& bits_u8(t[1], 0, 4) == 5
            &&& v.spec_display(r, inst_start, inst_next) == seq![DisplayElement::Literal("lsl"), DisplayElement::Literal(" "), DisplayElement::Register(register_of(bits_u8(t[0], 4, 4))), DisplayElement::Literal(", "), DisplayElement::Register(register_of(bits_u8(t[0], 0, 4)))]
        },
{
    lemma_decoded(t, regs, inst_start, inst_next);
}

proof fn lemma_form45(t: Seq<u8>, regs: Seq<u8>, inst_start: u32, inst_next: u32)
    requires
        regs.len() == 8,
    ensures
        Tableinstruction::spec_parse(t, regs) matches Some((n, v, r)) ==> core_instruction(v) is Var45 ==> {
            &&& n == 2
            &&& bits_u8(t[1], 4, 4) == 13
            &&& bits_u8(t[1], 0, 4) == 8
            &&& v.spec_display(r, inst_start, inst_next) == seq![DisplayElement::Literal("saa"), DisplayElement::Literal(" "), DisplayElement::Register(register_of(bits_u8(t[0], 4, 4))), DisplayElement::Literal(", "), DisplayElement::Register(register_of(bits_u8(t[0], 0, 4)))]
        },
{
    lemma_decoded(t, regs, inst_start, inst_next);
}

proof fn lemma_form51(t: Seq<u8>, regs: Seq<u8>, inst_start: u32, inst_next: u32)
    requires
        regs.len() == 8,
    ensures
        Tableinstruction::spec_parse(t, regs) matches Some((n, v, r)) ==> core_instruction(v) is Var51 ==> {
            &&& n == 2
            &&& bits_u8(t[1], 4, 4) == 13
            &&& bits_u8(t[1], 0, 4) == 15
            &&& v.spec_display(r, inst_start, inst_next) == seq![DisplayElement::Literal("mov"), DisplayElement::Literal("   "), DisplayElement::Register(register_of(bits_u8(t[0], 4, 4))), DisplayElement::Literal(", "), DisplayElement::Register(register_of(bits_u8(t[0], 0, 4)))]
        },
{
    lemma_decoded(t, regs, inst_start, inst_next);
}

proof fn lemma_form52(t: Seq<u8>, regs: Seq<u8>, inst_start: u32, inst_next: u32)
    requires
        regs.len() == 8,
    ensures
        Tableinstruction::spec_parse(t, regs) matches Some((n, v, r)) ==> core_instruction(v) is Var52 ==> {
            &&& n == 2
            &&& bits_u8(t[1], 4, 4) == 14
            &&& bits_u8(t[0], 3, 1) == 0
            &&& v.spec_display(r, inst_start, inst_next) == seq![DisplayElement::Literal("br")] + TableCC::spec_parse(t).unwrap().spec_display() + seq![DisplayElement::Literal(" "), DisplayElement::Number(true, (inst_start + sign_extend(bits_u16(word_of(t[0], t[1], false), 4, 8), 8)) as i64)]
        },
{
    lemma_decoded(t, regs, inst_start, inst_next);
    if t.len() >= 2 {
        lemma_bits_4_8(word_of(t[0], t[1], false));
        lemma_sign_extend_8(bits_u16(word_of(t[0], t[1], false), 4, 8));
    }
}

proof fn lemma_form53(t: Seq<u8>, regs: Seq<u8>, inst_start: u32, inst_next: u32)
    requires
        regs.len() == 8,
    ensures
        Tableinstruction::spec_parse(t, regs) matches Some((n, v, r)) ==> core_instruction(v) is Var53 ==> {
            &&& n == 2
            &&& bits_u8(t[1], 4, 4) == 14
            &&& bits_u8(t[0], 3, 1) == 1
            &&& v.spec_display(r, inst_start, inst_next) == seq![DisplayElement::Literal("brds")] + TableCC::spec_parse(t).unwrap().spec_display() + seq![DisplayElement::Literal(" "), DisplayElement::Number(true, (inst_start + sign_extend(bits_u16(word_of(t[0], t[1], false), 4, 8), 8)) as i64)]
        },
{
    lemma_decoded(t, regs, inst_start, inst_next);
    if t.len() >= 2 {
        lemma_bits_4_8(word_of(t[0], t[1], false));
        lemma_sign_extend_8(bits_u16(word_of(t[0], t[1], false), 4, 8));
    }
}

proof fn lemma_form54(t: Seq<u8>, regs: Seq<u8>, inst_start: u32, inst_next: u32)
    requires
        regs.len() == 8,
    ensures
        Tableinstruction::spec_parse(t, regs) matches Some((n, v, r)) ==> core_instruction(v) is Var54 ==> {
            &&& n == 2
            &&& bits_u8(t[1], 4, 4) == 15
            &&& bits_u8(t[1], 0, 4) == 5
            &&& v.spec_display(r, inst_start, inst_next) == seq![DisplayElement::Literal("callds"), DisplayElement::Literal(" "), DisplayElement::Number(true, (inst_start + sign_extend(t[0] as u16, 8)) as i64)]
        },
{
    lemma_decoded(t, regs, inst_start, inst_next);
    if t.len() >= 1 {
        lemma_sign_extend_8(t[0] as u16);
    }
    if t.len() >= 1 {
        let b = t[0];
        assert(bits_u8(b, 0, 8) == b) by (bit_vector);
    }
}

proof fn lemma_form55(t: Seq<u8>, regs: Seq<u8>, inst_start: u32, inst_next: u32)
    requires
        regs.len() == 8,
    ensures
        Tableinstruction::spec_parse(t, regs) matches Some((n, v, r)) ==> core_instruction(v) is Var55 ==> {
            &&& n == 2
            &&& bits_u8(t[1], 4, 4) == 10
            &&& bits_u8(t[1], 0, 4) == 4
            &&& v.spec_display(r, inst_start, inst_next) == seq![DisplayElement::Literal("user_four"), DisplayElement::Literal(" "), DisplayElement::Register(register_of(bits_u8(t[0], 4, 4))), DisplayElement::Literal(" "), DisplayElement::Register(register_of(bits_u8(t[0], 0, 4)))]
        },
{
    lemma_decoded(t, regs, inst_start, inst_next);
}

proof fn lemma_form56(t: Seq<u8>, regs: Seq<u8>, inst_start: u32, inst_next: u32)
    requires
        regs.len() == 8,
    ensures
        Tableinstruction::spec_parse(t, regs) matches Some((n, v, r)) ==> core_instruction(v) is Var56 ==> {
            &&& n == 2
            &&& bits_u8(t[1], 4, 4) == 10
            &&& bits_u8(t[1], 0, 4) == 5
            &&& v.spec_display(r, inst_start, inst_next) == seq![DisplayElement::Literal("user_five"), DisplayElement::Literal(" "), DisplayElement::Number(true, (inst_start + sign_extend(t[0] as u16, 8)) as i64)]
        },
{
    lemma_decoded(t, regs, inst_start, inst_next);
    if t.len() >= 1 {
        lemma_sign_extend_8(t[0] as u16);
    }
    if t.len() >= 1 {
        let b = t[0];
        assert(bits_u8(b, 0, 8) == b) by (bit_vector);
    }
}

proof fn lemma_form57(t: Seq<u8>, regs: Seq<u8>, inst_start: u32, inst_next: u32)
    requires
        regs.len() == 8,
    ensures
        Tableinstruction::spec_parse(t, regs) matches Some((n, v, r)) ==> core_instruction(v) is Var57 ==> {
            &&& n == 2
            &&& bits_u8(t[1], 4, 4) == 15
            &&& bits_u8(t[1], 3, 1) == 1
            &&& v.spec_display(r, inst_start, inst_next) == seq![DisplayElement::Literal("call"), DisplayElement::Literal(" "), DisplayElement::Number(true, (inst_start + sign_extend(bits_u16(word_of(t[0], t[1], false), 0, 11), 11)) as i64)]
        },
{
    lemma_decoded(t, regs, inst_start, inst_next);
    if t.len() >= 2 {
        lemma_sign_extend_11(word_of(t[0], t[1], false));
    }
}

/// An instruction on two registers is chosen by the nibbles of the second
/// byte and shows its mnemonic, then the register named by the high nibble
/// of the first byte, then the one named by its low nibble.
pub proof fn law_two_register_operands(t: Seq<u8>, regs: Seq<u8>, inst_start: u32, inst_next: u32)
    requires
        regs.len() == 8,
    ensures
        Tableinstruction::spec_parse(t, regs) matches Some((n, v, r)) ==> {
            &&& (core_instruction(v) is Var23 ==> {
                &&& n == 2
                &&& bits_u8(t[1], 4, 4) == 12
                &&& bits_u8(t[1], 0, 4) == 0
                &&& v.spec_display(r, inst_start, inst_next) == seq![DisplayElement::Literal("add"), DisplayElement::Literal("  "), DisplayElement::Register(register_of(bits_u8(t[0], 4, 4))), DisplayElement::Literal(", "), DisplayElement::Register(register_of(bits_u8(t[0], 0, 4)))]
            })
            &&& (core_instruction(v) is Var24 ==> {
                &&& n == 2
                &&& bits_u8(t[1], 4, 4) == 12
                &&& bits_u8(t[1], 0, 4) == 1
                &&& v.spec_display(r, inst_start, inst_next) == seq![DisplayElement::Literal("sub"), DisplayElement::Literal("  "), DisplayElement::Register(register_of(bits_u8(t[0], 4, 4))), DisplayElement::Literal(", "), DisplayElement::Register(register_of(bits_u8(t[0], 0, 4)))]
            })
            &&& (core_instruction(v) is Var25 ==> {
                &&& n == 2
                &&& bits_u8(t[1], 4, 4) == 12
                &&& bits_u8(t[1], 0, 4) == 2
                &&& v.spec_display(r, inst_start, inst_next) == seq![DisplayElement::Literal("rsub"), DisplayElement::Literal(" "), DisplayElement::Register(register_of(bits_u8(t[0], 4, 4))), DisplayElement::Literal(", "), DisplayElement::Register(register_of(bits_u8(t[0], 0, 4)))]
            })
            &&& (core_instruction(v) is Var26 ==> {
                &&& n == 2
                &&& bits_u8(t[1], 4, 4) == 12
                &&& bits_u8(t[1], 0, 4) == 3
                &&& v.spec_display(r, inst_start, inst_next) == seq![DisplayElement::Literal("mul"), DisplayElement::Literal("  "), DisplayElement::Register(register_of(bits_u8(t[0], 4, 4))), DisplayElement::Literal(", "), DisplayElement::Register(register_of(bits_u8(t[0], 0, 4)))]
            })
            &&& (core_instruction(v) is Var27 ==> {
                &&& n == 2
                &&& bits_u8(t[1], 4, 4) == 12
                &&& bits_u8(t[1], 0, 4) == 4
                &&& v.spec_display(r, inst_start, inst_next) == seq![DisplayElement::Literal("div"), DisplayElement::Literal("  "), DisplayElement::Register(register_of(bits_u8(t[0], 4, 4))), DisplayElement::Literal(", "), DisplayElement::Register(register_of(bits_u8(t[0], 0, 4)))]
            })
            &&& (core_instruction(v) is Var28 ==> {
                &&& n == 2
                &&& bits_u8(t[1], 4, 4) == 12
                &&& bits_u8(t[1], 0, 4) == 5
                &&& v.spec_display(r, inst_start, inst_next) == seq![DisplayElement::Literal("mod"), DisplayElement::Literal("  "), DisplayElement::Register(register_of(bits_u8(t[0], 4, 4))), DisplayElement::Literal(", "), DisplayElement::Register(register_of(bits_u8(t[0], 0, 4)))]
            })
            &&& (core_instruction(v) is Var29 ==> {
                &&& n == 2
                &&& bits_u8(t[1], 4, 4) == 12
                &&& bits_u8(t[1], 0, 4) == 6
                &&& v.spec_display(r, inst_start, inst_next) == seq![DisplayElement::Literal("cmp"), DisplayElement::Literal("  "), DisplayElement::Register(register_of(bits_u8(t[0], 4, 4))), DisplayElement::Literal(", "), DisplayElement::Register(register_of(bits_u8(t[0], 0, 4)))]
            })
            &&& (core_instruction(v) is Var30 ==> {
                &&& n == 2
                &&& bits_u8(t[1], 4, 4) == 12
                &&& bits_u8(t[1], 0, 4) == 7
                &&& v.spec_display(r, inst_start, inst_next) == seq![DisplayElement::Literal("ucmp"), DisplayElement::Literal(" "), DisplayElement::Register(register_of(bits_u8(t[0], 4, 4))), DisplayElement::Literal(", "), DisplayElement::Register(register_of(bits_u8(t[0], 0, 4)))]
            })
            &&& (core_instruction(v) is Var39 ==> {
                &&& n == 2
                &&& bits_u8(t[1], 4, 4) == 13
                &&& bits_u8(t[1], 0, 4) == 0
                &&& v.spec_display(r, inst_start, inst_next) == seq![DisplayElement::Literal("and"), DisplayElement::Literal(" "), DisplayElement::Register(register_of(bits_u8(t[0], 4, 4))), DisplayElement::Literal(", "), DisplayElement::Register(register_of(bits_u8(t[0], 0, 4)))]
            })
            &&& (core_instruction(v) is Var40 ==> {
                &&& n == 2
                &&& bits_u8(t[1], 4, 4) == 13
                &&& bits_u8(t[1], 0, 4) == 1
                &&& v.spec_display(r, inst_start, inst_next) == seq![DisplayElement::Literal("or"), DisplayElement::Literal("  "), DisplayElement::Register(register_of(bits_u8(t[0], 4, 4))), DisplayElement::Literal(", "), DisplayElement::Register(register_of(bits_u8(t[0], 0, 4)))]
            })
            &&& (core_instruction(v) is Var41 ==> {
                &&& n == 2
                &&& bits_u8(t[1], 4, 4) == 13
                &&& bits_u8(t[1], 0, 4) == 2
                &&& v.spec_display(r, inst_start, inst_next) == seq![DisplayElement::Literal("xor"), DisplayElement::Literal(" "), DisplayElement::Register(register_of(bits_u8(t[0], 4, 4))), DisplayElement::Literal(", "), DisplayElement::Register(register_of(bits_u8(t[0], 0, 4)))]
            })
            &&& (core_instruction(v) is Var42 ==> {
                &&& n == 2
                &&& bits_u8(t[1], 4, 4) == 13
                &&& bits_u8(t[1], 0, 4) == 3
                &&& v.spec_display(r, inst_start, inst_next) == seq![DisplayElement::Literal("lsr"), DisplayElement::Literal(" "), DisplayElement::Register(register_of(bits_u8(t[0], 4, 4))), DisplayElement::Literal(", "), DisplayElement::Register(register_of(bits_u8(t[0], 0, 4)))]
            })
            &&& (core_instruction(v) is Var43 ==> {
                &&& n == 2
                &&& bits_u8(t[1], 4, 4) == 13
                &&& bits_u8(t[1], 0, 4) == 4
                &&& v.spec_display(r, inst_start, inst_next) == seq![DisplayElement::Literal("asr"), DisplayElement::Literal(" "), DisplayElement::Register(register_of(bits_u8(t[0], 4, 4))), DisplayElement::Literal(", "), DisplayElement::Register(register_of(bits_u8(t[0], 0, 4)))]
            })
            &&& (core_instruction(v) is Var44 ==> {
                &&& n == 2
                &&& bits_u8(t[1], 4, 4) == 13
                &&& bits_u8(t[1], 0, 4) == 5
                &&& v.spec_display(r, inst_start, inst_next) == seq![DisplayElement::Literal("lsl"), DisplayElement::Literal(" "), DisplayElement::Register(register_of(bits_u8(t[0], 4, 4))), DisplayElement::Literal(", "), DisplayElement::Register(register_of(bits_u8(t[0], 0, 4)))]
            })
            &&& (core_instruction(v) is Var45 ==> {
                &&& n == 2
                &&& bits_u8(t[1], 4, 4) == 13
                &&& bits_u8(t[1], 0, 4) == 8
                &&& v.spec_display(r, inst_start, inst_next) == seq![DisplayElement::Literal("saa"), DisplayElement::Literal(" "), DisplayElement::Register(register_of(bits_u8(t[0], 4, 4))), DisplayElement::Literal(", "), DisplayElement::Register(register_of(bits_u8(t[0], 0, 4)))]
            })
            &&& (core_instruction(v) is Var51 ==> {
                &&& n == 2
                &&& bits_u8(t[1], 4, 4) == 13
                &&& bits_u8(t[1], 0, 4) == 15
                &&& v.spec_display(r, inst_start, inst_next) == seq![DisplayElement::Literal("mov"), DisplayElement::Literal("   "), DisplayElement::Register(register_of(bits_u8(t[0], 4, 4))), DisplayElement::Literal(", "), DisplayElement::Register(register_of(bits_u8(t[0], 0, 4)))]
            })
            &&& (core_instruction(v) is Var55 ==> {
                &&& n == 2
                &&& bits_u8(t[1], 4, 4) == 10
                &&& bits_u8(t[1], 0, 4) == 4
                &&& v.spec_display(r, inst_start, inst_next) == seq![DisplayElement::Literal("user_four"), DisplayElement::Literal(" "), DisplayElement::Register(register_of(bits_u8(t[0], 4, 4))), DisplayElement::Literal(" "), DisplayElement::Register(register_of(bits_u8(t[0], 0, 4)))]
            })
        },
{
    lemma_form23(t, regs, inst_start, inst_next);
    lemma_form24(t, regs, inst_start, inst_next);
    lemma_form25(t, regs, inst_start, inst_next);
    lemma_form26(t, regs, inst_start, inst_next);
    lemma_form27(t, regs, inst_start, inst_next);
    lemma_form28(t, regs, inst_start, inst_next);
    lemma_form29(t, regs, inst_start, inst_next);
    lemma_form30(t, regs, inst_start, inst_next);
    lemma_form39(t, regs, inst_start, inst_next);
    lemma_form40(t, regs, inst_start, inst_next);
    lemma_form41(t, regs, inst_start, inst_next);
    lemma_form42(t, regs, inst_start, inst_next);
    lemma_form43(t, regs, inst_start, inst_next);
    lemma_form44(t, regs, inst_start, inst_next);
    lemma_form45(t, regs, inst_start, inst_next);
    lemma_form51(t, regs, inst_start, inst_next);
    lemma_form55(t, regs, inst_start, inst_next);
}

/// An instruction on one register is chosen by the second byte and the low
/// nibble of the first, and shows its mnemonic and the register named by the
/// high nibble of the first byte. The coprocessor instructions `cop1`,
/// `cop2` and `cop3` share one encoding and are told apart by the `nfctx`
/// field of the context: 1, 2 and 3.
pub proof fn law_one_register_operand(t: Seq<u8>, regs: Seq<u8>, inst_start: u32, inst_next: u32)
    requires
        regs.len() == 8,
    ensures
        Tableinstruction::spec_parse(t, regs) matches Some((n, v, r)) ==> {
            &&& (core_instruction(v) is Var4 ==> {
                &&& n == 2
                &&& bits_u8(t[1], 4, 4) == 13
                &&& bits_u8(t[1], 0, 4) == 14
                &&& bits_u8(t[0], 0, 4) == 0
                &&& v.spec_display(r, inst_start, inst_next) == seq![DisplayElement::Literal("inv"), DisplayElement::Literal("  "), DisplayElement::Register(register_of(bits_u8(t[0], 4, 4)))]
            })
            &&& (core_instruction(v) is Var5 ==> {
                &&& n == 2
                &&& bits_u8(t[1], 4, 4) == 13
                &&& bits_u8(t[1], 0, 4) == 14
                &&& bits_u8(t[0], 0, 4) == 1
                &&& v.spec_display(r, inst_start, inst_next) == seq![DisplayElement::Literal("neg"), DisplayElement::Literal("  "), DisplayElement::Register(register_of(bits_u8(t[0], 4, 4)))]
            })
            &&& (core_instruction(v) is Var7 ==> {
                &&& n == 2
                &&& bits_u8(t[1], 4, 4) == 15
                &&& bits_u8(t[1], 0, 4) == 2
                &&& bits_u8(t[0], 0, 4) == 0
                &&& v.spec_display(r, inst_start, inst_next) == seq![DisplayElement::Literal("push"), DisplayElement::Literal(" "), DisplayElement::Register(register_of(bits_u8(t[0], 4, 4)))]
            })
            &&& (core_instruction(v) is Var8 ==> {
                &&& n == 2
                &&& bits_u8(t[1], 4, 4) == 15
                &&& bits_u8(t[1], 0, 4) == 3
                &&& bits_u8(t[0], 0, 4) == 0
                &&& v.spec_display(r, inst_start, inst_next) == seq![DisplayElement::Literal("pop"), DisplayElement::Literal(" "), DisplayElement::Register(register_of(bits_u8(t[0], 4, 4)))]
            })
            &&& (core_instruction(v) is Var9 ==> {
                &&& n == 2
                &&& bits_u8(t[1], 4, 4) == 15
                &&& bits_u8(t[1], 0, 4) == 6
                &&& bits_u8(t[0], 0, 4) == 0
                &&& v.spec_display(r, inst_start, inst_next) == seq![DisplayElement::Literal("call"), DisplayElement::Literal(" "), DisplayElement::Register(register_of(bits_u8(t[0], 4, 4)))]
            })
            &&& (core_instruction(v) is Var10 ==> {
                &&& n == 2
                &&& bits_u8(t[1], 4, 4) == 10
                &&& bits_u8(t[1], 0, 4) == 1
                &&& bits_u8(t[0], 0, 4) == 0
                &&& v.spec_display(r, inst_start, inst_next) == seq![DisplayElement::Literal("user_one"), DisplayElement::Literal(" "), DisplayElement::Register(register_of(bits_u8(t[0], 4, 4)))]
            })
            &&& (core_instruction(v) is Var11 ==> {
                &&& n == 2
                &&& bits_u8(t[1], 4, 4) == 10
                &&& bits_u8(t[1], 0, 4) == 2
                &&& bits_u8(t[0], 0, 4) == 0
                &&& v.spec_display(r, inst_start, inst_next) == seq![DisplayElement::Literal("user_two"), DisplayElement::Literal(" "), DisplayElement::Register(register_of(bits_u8(t[0], 4, 4)))]
            })
            &&& (core_instruction(v) is Var12 ==> {
                &&& n == 2
                &&& bits_u8(t[1], 4, 4) == 10
                &&& bits_u8(t[1], 0, 4) == 6
                &&& bits_u8(t[0], 0, 4) == 0
                &&& v.spec_display(r, inst_start, inst_next) == seq![DisplayElement::Literal("user_six"), DisplayElement::Literal(" "), DisplayElement::Register(register_of(bits_u8(t[0], 4, 4)))]
            })
            &&& (core_instruction(v) is Var13 ==> {
                &&& n == 2
                &&& bits_u8(t[1], 4, 4) == 13
                &&& bits_u8(t[1], 0, 4) == 10
                &&& bits_u8(t[0], 0, 4) == 0
                &&& nfctx_of(regs) == 1
                &&& v.spec_display(r, inst_start, inst_next) == seq![DisplayElement::Literal("cop1"), DisplayElement::Literal(" "), DisplayElement::Register(register_of(bits_u8(t[0], 4, 4)))]
            })
            &&& (core_instruction(v) is Var14 ==> {
                &&& n == 2
                &&& bits_u8(t[1], 4, 4) == 13
                &&& bits_u8(t[1], 0, 4) == 10
                &&& bits_u8(t[0], 0, 4) == 0
                &&& nfctx_of(regs) == 2
                &&& v.spec_display(r, inst_start, inst_next) == seq![DisplayElement::Literal("cop2"), DisplayElement::Literal(" "), DisplayElement::Register(register_of(bits_u8(t[0], 4, 4)))]
            })
            &&& (core_instruction(v) is Var15 ==> {
                &&& n == 2
                &&& bits_u8(t[1], 4, 4) == 13
                &&& bits_u8(t[1], 0, 4) == 10
                &&& bits_u8(t[0], 0, 4) == 0
                &&& nfctx_of(regs) == 3
                &&& v.spec_display(r, inst_start, inst_next) == seq![DisplayElement::Literal("cop3"), DisplayElement::Literal(" "), DisplayElement::Register(register_of(bits_u8(t[0], 4, 4)))]
            })
        },
{
    lemma_form4(t, regs, inst_start, inst_next);
    lemma_form5(t, regs, inst_start, inst_next);
    lemma_form7(t, regs, inst_start, inst_next);
    lemma_form8(t, regs, inst_start, inst_next);
    lemma_form9(t, regs, inst_start, inst_next);
    lemma_form10(t, regs, inst_start, inst_next);
    lemma_form11(t, regs, inst_start, inst_next);
    lemma_form12(t, regs, inst_start, inst_next);
    lemma_form13(t, regs, inst_start, inst_next);
    lemma_form14(t, regs, inst_start, inst_next);
    lemma_form15(t, regs, inst_start, inst_next);
}

/// The relative calls and branches show the address of the instruction
/// plus a two's complement offset taken from the instruction word: bits
/// 0..10 for `call`, bits 0..7 for `callds` and `user_five`, bits 4..11 for
/// the conditional `br` and `brds`, which also show the condition code of
/// bits 0..2.
pub proof fn law_relative_targets(t: Seq<u8>, regs: Seq<u8>, inst_start: u32, inst_next: u32)
    requires
        regs.len() == 8,
    ensures
        Tableinstruction::spec_parse(t, regs) matches Some((n, v, r)) ==> {
            &&& (core_instruction(v) is Var57 ==> {
                &&& n == 2
                &&& bits_u8(t[1], 4, 4) == 15
                &&& bits_u8(t[1], 3, 1) == 1
                &&& v.spec_display(r, inst_start, inst_next) == seq![DisplayElement::Literal("call"), DisplayElement::Literal(" "), DisplayElement::Number(true, (inst_start + sign_extend(bits_u16(word_of(t[0], t[1], false), 0, 11), 11)) as i64)]
            })
            &&& (core_instruction(v) is Var54 ==> {
                &&& n == 2
                &&& bits_u8(t[1], 4, 4) == 15
                &&& bits_u8(t[1], 0, 4) == 5
                &&& v.spec_display(r, inst_start, inst_next) == seq![DisplayElement::Literal("callds"), DisplayElement::Literal(" "), DisplayElement::Number(true, (inst_start + sign_extend(t[0] as u16, 8)) as i64)]
            })
            &&& (core_instruction(v) is Var56 ==> {
                &&& n == 2
                &&& bits_u8(t[1], 4, 4) == 10
                &&& bits_u8(t[1], 0, 4) == 5
                &&& v.spec_display(r, inst_start, inst_next) == seq![DisplayElement::Literal("user_five"), DisplayElement::Literal(" "), DisplayElement::Number(true, (inst_start + sign_extend(t[0] as u16, 8)) as i64)]
            })
            &&& (core_instruction(v) is Var52 ==> {
                &&& n == 2
                &&& bits_u8(t[1], 4, 4) == 14
                &&& bits_u8(t[0], 3, 1) == 0
                &&& v.spec_display(r, inst_start, inst_next) == seq![DisplayElement::Literal("br")] + TableCC::spec_parse(t).unwrap().spec_display() + seq![DisplayElement::Literal(" "), DisplayElement::Number(true, (inst_start + sign_extend(bits_u16(word_of(t[0], t[1], false), 4, 8), 8)) as i64)]
            })
            &&& (core_instruction(v) is Var53 ==> {
                &&& n == 2
                &&& bits_u8(t[1], 4, 4) == 14
                &&& bits_u8(t[0], 3, 1) == 1
                &&& v.spec_display(r, inst_start, inst_next) == seq![DisplayElement::Literal("brds")] + TableCC::spec_parse(t).unwrap().spec_display() + seq![DisplayElement::Literal(" "), DisplayElement::Number(true, (inst_start + sign_extend(bits_u16(word_of(t[0], t[1], false), 4, 8), 8)) as i64)]
            })
        },
{
    lemma_form57(t, regs, inst_start, inst_next);
    lemma_form54(t, regs, inst_start, inst_next);
    lemma_form56(t, regs, inst_start, inst_next);
    lemma_form52(t, regs, inst_start, inst_next);
    lemma_form53(t, regs, inst_start, inst_next);
}

/// Register field values 0 to 12 name the registers shown as `r` followed
/// by the value in decimal; 13, 14 and 15 name `sp`, `lr` and `pc`.
pub proof fn law_register_names(n: u8)
    requires
        n < 16,
    ensures
        n < 13 ==> element_text(DisplayElement::Register(register_of(n))) == seq!['r'] + element_text(
            DisplayElement::Number(false, n as i64),
        ),
        n == 13 ==> element_text(DisplayElement::Register(register_of(n))) == seq!['s', 'p'],
        n == 14 ==> element_text(DisplayElement::Register(register_of(n))) == seq!['l', 'r'],
        n == 15 ==> element_text(DisplayElement::Register(register_of(n))) == seq!['p', 'c'],
{
    reveal_with_fuel(digits_text, 2);
    if n == 0 {
        reveal_strlit("r0");
    } else if n == 1 {
        reveal_strlit("r1");
    } else if n == 2 {
        reveal_strlit("r2");
    } else if n == 3 {
        reveal_strlit("r3");
    } else if n == 4 {
        reveal_strlit("r4");
    } else if n == 5 {
        reveal_strlit("r5");
    } else if n == 6 {
        reveal_strlit("r6");
    } else if n == 7 {
        reveal_strlit("r7");
    } else if n == 8 {
        reveal_strlit("r8");
    } else if n == 9 {
        reveal_strlit("r9");
    } else if n == 10 {
        reveal_strlit("r10");
    } else if n == 11 {
        reveal_strlit("r11");
    } else if n == 12 {
        reveal_strlit("r12");
    } else if n == 13 {
        reveal_strlit("sp");
    } else if n == 14 {
        reveal_strlit("lr");
    } else if n == 15 {
        reveal_strlit("pc");
    }
}

/// The coprocessor encoding (second byte `0xda`, low nibble of the first
/// byte 0) decodes to nothing unless the `nfctx` field is 1, 2 or 3: no other
/// constructor takes these bytes.
pub proof fn law_coprocessor_needs_nfctx(t: Seq<u8>, regs: Seq<u8>, inst_start: u32, inst_next: u32)
    requires
        regs.len() == 8,
        t.len() >= 2,
        t[1] == 0xdau8,
        bits_u8(t[0], 0, 4) == 0,
        nfctx_of(regs) != 1,
        nfctx_of(regs) != 2,
        nfctx_of(regs) != 3,
    ensures
        Tableinstruction::spec_parse(t, regs) is None,
{
    lemma_decoded(t, regs, inst_start, inst_next);
    law_phase_keeps_nfctx(regs);
    let b0 = t[0];
    let b1 = t[1];
    assert(bits_u8(b1, 4, 4) == 13 && bits_u8(b1, 0, 4) == 10 && bits_u8(b1, 3, 1) == 1
        && bits_u8(b1, 6, 2) == 3 && bits_u8(b1, 7, 1) == 1) by (bit_vector)
        requires
            b1 == 0xdau8,
    ;
    assert(bits_u8(b0, 0, 8) != 247 && bits_u8(b0, 3, 1) == 0 && bits_u8(b0, 0, 3) == 0) by (bit_vector)
        requires
            bits_u8(b0, 0, 4) == 0,
    ;
}

proof fn lemma_decodes_form4(t: Seq<u8>, regs: Seq<u8>)
    requires
        regs.len() == 8,
        phase_of(regs) <= 1,
        t.len() >= 2,
        bits_u8(t[1], 4, 4) == 13,
        bits_u8(t[1], 0, 4) == 14,
        bits_u8(t[0], 0, 4) == 0,
    ensures
        Tableinstruction::spec_parse(t, regs) matches Some((n, v, r)) && core_instruction(v) is Var4,
{
    lemma_byte_fields(t[0]);
    lemma_byte_fields(t[1]);
    law_phase_read_after_write(regs, 1);
    law_phase_keeps_nfctx(regs);
    assert forall|j: int| 1 <= j < 4 implies Tableinstruction::spec_form(j, t, entry_regs(regs)) is None by {}
    lemma_decodes_as(t, regs, 4);
}

proof fn lemma_decodes_form5(t: Seq<u8>, regs: Seq<u8>)
    requires
        regs.len() == 8,
        phase_of(regs) <= 1,
        t.len() >= 2,
        bits_u8(t[1], 4, 4) == 13,
        bits_u8(t[1], 0, 4) == 14,
        bits_u8(t[0], 0, 4) == 1,
    ensures
        Tableinstruction::spec_parse(t, regs) matches Some((n, v, r)) && core_instruction(v) is Var5,
{
    lemma_byte_fields(t[0]);
    lemma_byte_fields(t[1]);
    law_phase_read_after_write(regs, 1);
    law_phase_keeps_nfctx(regs);
    assert forall|j: int| 1 <= j < 5 implies Tableinstruction::spec_form(j, t, entry_regs(regs)) is None by {}
    lemma_decodes_as(t, regs, 5);
}

proof fn lemma_decodes_form7(t: Seq<u8>, regs: Seq<u8>)
    requires
        regs.len() == 8,
        phase_of(regs) <= 1,
        t.len() >= 2,
        bits_u8(t[1], 4, 4) == 15,
        bits_u8(t[1], 0, 4) == 2,
        bits_u8(t[0], 0, 4) == 0,
    ensures
        Tableinstruction::spec_parse(t, regs) matches Some((n, v, r)) && core_instruction(v) is Var7,
{
    lemma_byte_fields(t[0]);
    lemma_byte_fields(t[1]);
    law_phase_read_after_write(regs, 1);
    law_phase_keeps_nfctx(regs);
    assert forall|j: int| 1 <= j < 7 implies Tableinstruction::spec_form(j, t, entry_regs(regs)) is None by {}
    lemma_decodes_as(t, regs, 7);
}

proof fn lemma_decodes_form8(t: Seq<u8>, regs: Seq<u8>)
    requires
        regs.len() == 8,
        phase_of(regs) <= 1,
        t.len() >= 2,
        bits_u8(t[1], 4, 4) == 15,
        bits_u8(t[1], 0, 4) == 3,
        bits_u8(t[0], 0, 4) == 0,
    ensures
        Tableinstruction::spec_parse(t, regs) matches Some((n, v, r)) && core_instruction(v) is Var8,
{
    lemma_byte_fields(t[0]);
    lemma_byte_fields(t[1]);
    law_phase_read_after_write(regs, 1);
    law_phase_keeps_nfctx(regs);
    assert forall|j: int| 1 <= j < 8 implies Tableinstruction::spec_form(j, t, entry_regs(regs)) is None by {}
    lemma_decodes_as(t, regs, 8);
}

proof fn lemma_decodes_form9(t: Seq<u8>, regs: Seq<u8>)
    requires
        regs.len() == 8,
        phase_of(regs) <= 1,
        t.len() >= 2,
        bits_u8(t[1], 4, 4) == 15,
        bits_u8(t[1], 0, 4) == 6,
        bits_u8(t[0], 0, 4) == 0,
    ensures
        Tableinstruction::spec_parse(t, regs) matches Some((n, v, r)) && core_instruction(v) is Var9,
{
    lemma_byte_fields(t[0]);
    lemma_byte_fields(t[1]);
    law_phase_read_after_write(regs, 1);
    law_phase_keeps_nfctx(regs);
    assert forall|j: int| 1 <= j < 9 implies Tableinstruction::spec_form(j, t, entry_regs(regs)) is None by {}
    lemma_decodes_as(t, regs, 9);
}

proof fn lemma_decodes_form10(t: Seq<u8>, regs: Seq<u8>)
    requires
        regs.len() == 8,
        phase_of(regs) <= 1,
        t.len() >= 2,
        bits_u8(t[1], 4, 4) == 10,
        bits_u8(t[1], 0, 4) == 1,
        bits_u8(t[0], 0, 4) == 0,
    ensures
        Tableinstruction::spec_parse(t, regs) matches Some((n, v, r)) && core_instruction(v) is Var10,
{
    lemma_byte_fields(t[0]);
    lemma_byte_fields(t[1]);
    law_phase_read_after_write(regs, 1);
    law_phase_keeps_nfctx(regs);
    assert forall|j: int| 1 <= j < 10 implies Tableinstruction::spec_form(j, t, entry_regs(regs)) is None by {}
    lemma_decodes_as(t, regs, 10);
}

proof fn lemma_decodes_form11(t: Seq<u8>, regs: Seq<u8>)
    requires
        regs.len() == 8,
        phase_of(regs) <= 1,
        t.len() >= 2,
        bits_u8(t[1], 4, 4) == 10,
        bits_u8(t[1], 0, 4) == 2,
        bits_u8(t[0], 0, 4) == 0,
    ensures
        Tableinstruction::spec_parse(t, regs) matches Some((n, v, r)) && core_instruction(v) is Var11,
{
    lemma_byte_fields(t[0]);
    lemma_byte_fields(t[1]);
    law_phase_read_after_write(regs, 1);
    law_phase_keeps_nfctx(regs);
    assert forall|j: int| 1 <= j < 11 implies Tableinstruction::spec_form(j, t, entry_regs(regs)) is None by {}
    lemma_decodes_as(t, regs, 11);
}

proof fn lemma_decodes_form12(t: Seq<u8>, regs: Seq<u8>)
    requires
        regs.len() == 8,
        phase_of(regs) <= 1,
        t.len() >= 2,
        bits_u8(t[1], 4, 4) == 10,
        bits_u8(t[1], 0, 4) == 6,
        bits_u8(t[0], 0, 4) == 0,
    ensures
        Tableinstruction::spec_parse(t, regs) matches Some((n, v, r)) && core_instruction(v) is Var12,
{
    lemma_byte_fields(t[0]);
    lemma_byte_fields(t[1]);
    law_phase_read_after_write(regs, 1);
    law_phase_keeps_nfctx(regs);
    assert forall|j: int| 1 <= j < 12 implies Tableinstruction::spec_form(j, t, entry_regs(regs)) is None by {}
    lemma_decodes_as(t, regs, 12);
}

proof fn lemma_decodes_form13(t: Seq<u8>, regs: Seq<u8>)
    requires
        regs.len() == 8,
        phase_of(regs) <= 1,
        t.len() >= 2,
        bits_u8(t[1], 4, 4) == 13,
        bits_u8(t[1], 0, 4) == 10,
        bits_u8(t[0], 0, 4) == 0,
        nfctx_of(regs) == 1,
    ensures
        Tableinstruction::spec_parse(t, regs) matches Some((n, v, r)) && core_instruction(v) is Var13,
{
    lemma_byte_fields(t[0]);
    lemma_byte_fields(t[1]);
    law_phase_read_after_write(regs, 1);
    law_phase_keeps_nfctx(regs);
    assert forall|j: int| 1 <= j < 13 implies Tableinstruction::spec_form(j, t, entry_regs(regs)) is None by {}
    lemma_decodes_as(t, regs, 13);
}

proof fn lemma_decodes_form14(t: Seq<u8>, regs: Seq<u8>)
    requires
        regs.len() == 8,
        phase_of(regs) <= 1,
        t.len() >= 2,
        bits_u8(t[1], 4, 4) == 13,
        bits_u8(t[1], 0, 4) == 10,
        bits_u8(t[0], 0, 4) == 0,
        nfctx_of(regs) == 2,
    ensures
        Tableinstruction::spec_parse(t, regs) matches Some((n, v, r)) && core_instruction(v) is Var14,
{
    lemma_byte_fields(t[0]);
    lemma_byte_fields(t[1]);
    law_phase_read_after_write(regs, 1);
    law_phase_keeps_nfctx(regs);
    assert forall|j: int| 1 <= j < 14 implies Tableinstruction::spec_form(j, t, entry_regs(regs)) is None by {}
    lemma_decodes_as(t, regs, 14);
}

proof fn lemma_decodes_form15(t: Seq<u8>, regs: Seq<u8>)
    requires
        regs.len() == 8,
        phase_of(regs) <= 1,
        t.len() >= 2,
        bits_u8(t[1], 4, 4) == 13,
        bits_u8(t[1], 0, 4) == 10,
        bits_u8(t[0], 0, 4) == 0,
        nfctx_of(regs) == 3,
    ensures
        Tableinstruction::spec_parse(t, regs) matches Some((n, v, r)) && core_instruction(v) is Var15,
{
    lemma_byte_fields(t[0]);
    lemma_byte_fields(t[1]);
    law_phase_read_after_write(regs, 1);
    law_phase_keeps_nfctx(regs);
    assert forall|j: int| 1 <= j < 15 implies Tableinstruction::spec_form(j, t, entry_regs(regs)) is None by {}
    lemma_decodes_as(t, regs, 15);
}

proof fn lemma_decodes_form23(t: Seq<u8>, regs: Seq<u8>)
    requires
        regs.len() == 8,
        phase_of(regs) <= 1,
        t.len() >= 2,
        bits_u8(t[1], 4, 4) == 12,
        bits_u8(t[1], 0, 4) == 0,
    ensures
        Tableinstruction::spec_parse(t, regs) matches Some((n, v, r)) && core_instruction(v) is Var23,
{
    lemma_byte_fields(t[0]);
    lemma_byte_fields(t[1]);
    law_phase_read_after_write(regs, 1);
    law_phase_keeps_nfctx(regs);
    assert forall|j: int| 1 <= j < 23 implies Tableinstruction::spec_form(j, t, entry_regs(regs)) is None by {}
    lemma_decodes_as(t, regs, 23);
}

proof fn lemma_decodes_form24(t: Seq<u8>, regs: Seq<u8>)
    requires
        regs.len() == 8,
        phase_of(regs) <= 1,
        t.len() >= 2,
        bits_u8(t[1], 4, 4) == 12,
        bits_u8(t[1], 0, 4) == 1,
    ensures
        Tableinstruction::spec_parse(t, regs) matches Some((n, v, r)) && core_instruction(v) is Var24,
{
    lemma_byte_fields(t[0]);
    lemma_byte_fields(t[1]);
    law_phase_read_after_write(regs, 1);
    law_phase_keeps_nfctx(regs);
    assert forall|j: int| 1 <= j < 24 implies Tableinstruction::spec_form(j, t, entry_regs(regs)) is None by {}
    lemma_decodes_as(t, regs, 24);
}

proof fn lemma_decodes_form25(t: Seq<u8>, regs: Seq<u8>)
    requires
        regs.len() == 8,
        phase_of(regs) <= 1,
        t.len() >= 2,
        bits_u8(t[1], 4, 4) == 12,
        bits_u8(t[1], 0, 4) == 2,
    ensures
        Tableinstruction::spec_parse(t, regs) matches Some((n, v, r)) && core_instruction(v) is Var25,
{
    lemma_byte_fields(t[0]);
    lemma_byte_fields(t[1]);
    law_phase_read_after_write(regs, 1);
    law_phase_keeps_nfctx(regs);
    assert forall|j: int| 1 <= j < 25 implies Tableinstruction::spec_form(j, t, entry_regs(regs)) is None by {}
    lemma_decodes_as(t, regs, 25);
}

proof fn lemma_decodes_form26(t: Seq<u8>, regs: Seq<u8>)
    requires
        regs.len() == 8,
        phase_of(regs) <= 1,
        t.len() >= 2,
        bits_u8(t[1], 4, 4) == 12,
        bits_u8(t[1], 0, 4) == 3,
    ensures
        Tableinstruction::spec_parse(t, regs) matches Some((n, v, r)) && core_instruction(v) is Var26,
{
    lemma_byte_fields(t[0]);
    lemma_byte_fields(t[1]);
    law_phase_read_after_write(regs, 1);
    law_phase_keeps_nfctx(regs);
    assert forall|j: int| 1 <= j < 26 implies Tableinstruction::spec_form(j, t, entry_regs(regs)) is None by {}
    lemma_decodes_as(t, regs, 26);
}

proof fn lemma_decodes_form27(t: Seq<u8>, regs: Seq<u8>)
    requires
        regs.len() == 8,
        phase_of(regs) <= 1,
        t.len() >= 2,
        bits_u8(t[1], 4, 4) == 12,
        bits_u8(t[1], 0, 4) == 4,
    ensures
        Tableinstruction::spec_parse(t, regs) matches Some((n, v, r)) && core_instruction(v) is Var27,
{
    lemma_byte_fields(t[0]);
    lemma_byte_fields(t[1]);
    law_phase_read_after_write(regs, 1);
    law_phase_keeps_nfctx(regs);
    assert forall|j: int| 1 <= j < 27 implies Tableinstruction::spec_form(j, t, entry_regs(regs)) is None by {}
    lemma_decodes_as(t, regs, 27);
}

proof fn lemma_decodes_form28(t: Seq<u8>, regs: Seq<u8>)
    requires
        regs.len() == 8,
        phase_of(regs) <= 1,
        t.len() >= 2,
        bits_u8(t[1], 4, 4) == 12,
        bits_u8(t[1], 0, 4) == 5,
    ensures
        Tableinstruction::spec_parse(t, regs) matches Some((n, v, r)) && core_instruction(v) is Var28,
{
    lemma_byte_fields(t[0]);
    lemma_byte_fields(t[1]);
    law_phase_read_after_write(regs, 1);
    law_phase_keeps_nfctx(regs);
    assert forall|j: int| 1 <= j < 28 implies Tableinstruction::spec_form(j, t, entry_regs(regs)) is None by {}
    lemma_decodes_as(t, regs, 28);
}

proof fn lemma_decodes_form29(t: Seq<u8>, regs: Seq<u8>)
    requires
        regs.len() == 8,
        phase_of(regs) <= 1,
        t.len() >= 2,
        bits_u8(t[1], 4, 4) == 12,
        bits_u8(t[1], 0, 4) == 6,
    ensures
        Tableinstruction::spec_parse(t, regs) matches Some((n, v, r)) && core_instruction(v) is Var29,
{
    lemma_byte_fields(t[0]);
    lemma_byte_fields(t[1]);
    law_phase_read_after_write(regs, 1);
    law_phase_keeps_nfctx(regs);
    assert forall|j: int| 1 <= j < 29 implies Tableinstruction::spec_form(j, t, entry_regs(regs)) is None by {}
    lemma_decodes_as(t, regs, 29);
}

proof fn lemma_decodes_form30(t: Seq<u8>, regs: Seq<u8>)
    requires
        regs.len() == 8,
        phase_of(regs) <= 1,
        t.len() >= 2,
        bits_u8(t[1], 4, 4) == 12,
        bits_u8(t[1], 0, 4) == 7,
    ensures
        Tableinstruction::spec_parse(t, regs) matches Some((n, v, r)) && core_instruction(v) is Var30,
{
    lemma_byte_fields(t[0]);
    lemma_byte_fields(t[1]);
    law_phase_read_after_write(regs, 1);
    law_phase_keeps_nfctx(regs);
    assert forall|j: int| 1 <= j < 30 implies Tableinstruction::spec_form(j, t, entry_regs(regs)) is None by {}
    lemma_decodes_as(t, regs, 30);
}

proof fn lemma_decodes_form39(t: Seq<u8>, regs: Seq<u8>)
    requires
        regs.len() == 8,
        phase_of(regs) <= 1,
        t.len() >= 2,
        bits_u8(t[1], 4, 4) == 13,
        bits_u8(t[1], 0, 4) == 0,
    ensures
        Tableinstruction::spec_parse(t, regs) matches Some((n, v, r)) && core_instruction(v) is Var39,
{
    lemma_byte_fields(t[0]);
    lemma_byte_fields(t[1]);
    law_phase_read_after_write(regs, 1);
    law_phase_keeps_nfctx(regs);
    assert forall|j: int| 1 <= j < 39 implies Tableinstruction::spec_form(j, t, entry_regs(regs)) is None by {}
    lemma_decodes_as(t, regs, 39);
}

proof fn lemma_decodes_form40(t: Seq<u8>, regs: Seq<u8>)
    requires
        regs.len() == 8,
        phase_of(regs) <= 1,
        t.len() >= 2,
        bits_u8(t[1], 4, 4) == 13,
        bits_u8(t[1], 0, 4) == 1,
    ensures
        Tableinstruction::spec_parse(t, regs) matches Some((n, v, r)) && core_instruction(v) is Var40,
{
    lemma_byte_fields(t[0]);
    lemma_byte_fields(t[1]);
    law_phase_read_after_write(regs, 1);
    law_phase_keeps_nfctx(regs);
    assert forall|j: int| 1 <= j < 40 implies Tableinstruction::spec_form(j, t, entry_regs(regs)) is None by {}
    lemma_decodes_as(t, regs, 40);
}

proof fn lemma_decodes_form41(t: Seq<u8>, regs: Seq<u8>)
    requires
        regs.len() == 8,
        phase_of(regs) <= 1,
        t.len() >= 2,
        bits_u8(t[1], 4, 4) == 13,
        bits_u8(t[1], 0, 4) == 2,
    ensures
        Tableinstruction::spec_parse(t, regs) matches Some((n, v, r)) && core_instruction(v) is Var41,
{
    lemma_byte_fields(t[0]);
    lemma_byte_fields(t[1]);
    law_phase_read_after_write(regs, 1);
    law_phase_keeps_nfctx(regs);
    assert forall|j: int| 1 <= j < 41 implies Tableinstruction::spec_form(j, t, entry_regs(regs)) is None by {}
    lemma_decodes_as(t, regs, 41);
}

proof fn lemma_decodes_form42(t: Seq<u8>, regs: Seq<u8>)
    requires
        regs.len() == 8,
        phase_of(regs) <= 1,
        t.len() >= 2,
        bits_u8(t[1], 4, 4) == 13,
        bits_u8(t[1], 0, 4) == 3,
    ensures
        Tableinstruction::spec_parse(t, regs) matches Some((n, v, r)) && core_instruction(v) is Var42,
{
    lemma_byte_fields(t[0]);
    lemma_byte_fields(t[1]);
    law_phase_read_after_write(regs, 1);
    law_phase_keeps_nfctx(regs);
    assert forall|j: int| 1 <= j < 42 implies Tableinstruction::spec_form(j, t, entry_regs(regs)) is None by {}
    lemma_decodes_as(t, regs, 42);
}

proof fn lemma_decodes_form43(t: Seq<u8>, regs: Seq<u8>)
    requires
        regs.len() == 8,
        phase_of(regs) <= 1,
        t.len() >= 2,
        bits_u8(t[1], 4, 4) == 13,
        bits_u8(t[1], 0, 4) == 4,
    ensures
        Tableinstruction::spec_parse(t, regs) matches Some((n, v, r)) && core_instruction(v) is Var43,
{
    lemma_byte_fields(t[0]);
    lemma_byte_fields(t[1]);
    law_phase_read_after_write(regs, 1);
    law_phase_keeps_nfctx(regs);
    assert forall|j: int| 1 <= j < 43 implies Tableinstruction::spec_form(j, t, entry_regs(regs)) is None by {}
    lemma_decodes_as(t, regs, 43);
}

proof fn lemma_decodes_form44(t: Seq<u8>, regs: Seq<u8>)
    requires
        regs.len() == 8,
        phase_of(regs) <= 1,
        t.len() >= 2,
        bits_u8(t[1], 4, 4) == 13,
        bits_u8(t[1], 0, 4) == 5,
    ensures
        Tableinstruction::spec_parse(t, regs) matches Some((n, v, r)) && core_instruction(v) is Var44,
{
    lemma_byte_fields(t[0]);
    lemma_byte_fields(t[1]);
    law_phase_read_after_write(regs, 1);
    law_phase_keeps_nfctx(regs);
    assert forall|j: int| 1 <= j < 44 implies Tableinstruction::spec_form(j, t, entry_regs(regs)) is None by {}
    lemma_decodes_as(t, regs, 44);
}

proof fn lemma_decodes_form45(t: Seq<u8>, regs: Seq<u8>)
    requires
        regs.len() == 8,
        phase_of(regs) <= 1,
        t.len() >= 2,
        bits_u8(t[1], 4, 4) == 13,
        bits_u8(t[1], 0, 4) == 8,
    ensures
        Tableinstruction::spec_parse(t, regs) matches Some((n, v, r)) && core_instruction(v) is Var45,
{
    lemma_byte_fields(t[0]);
    lemma_byte_fields(t[1]);
    law_phase_read_after_write(regs, 1);
    law_phase_keeps_nfctx(regs);
    assert forall|j: int| 1 <= j < 45 implies Tableinstruction::spec_form(j, t, entry_regs(regs)) is None by {}
    lemma_decodes_as(t, regs, 45);
}

proof fn lemma_decodes_form51(t: Seq<u8>, regs: Seq<u8>)
    requires
        regs.len() == 8,
        phase_of(regs) <= 1,
        t.len() >= 2,
        bits_u8(t[1], 4, 4) == 13,
        bits_u8(t[1], 0, 4) == 15,
    ensures
        Tableinstruction::spec_parse(t, regs) matches Some((n, v, r)) && core_instruction(v) is Var51,
{
    lemma_byte_fields(t[0]);
    lemma_byte_fields(t[1]);
    law_phase_read_after_write(regs, 1);
    law_phase_keeps_nfctx(regs);
    assert forall|j: int| 1 <= j < 51 implies Tableinstruction::spec_form(j, t, entry_regs(regs)) is None by {}
    lemma_decodes_as(t, regs, 51);
}

proof fn lemma_decodes_form52(t: Seq<u8>, regs: Seq<u8>)
    requires
        regs.len() == 8,
        phase_of(regs) <= 1,
        t.len() >= 2,
        bits_u8(t[1], 4, 4) == 14,
        bits_u8(t[0], 3, 1) == 0,
    ensures
        Tableinstruction::spec_parse(t, regs) matches Some((n, v, r)) && core_instruction(v) is Var52,
{
    lemma_byte_fields(t[0]);
    lemma_byte_fields(t[1]);
    law_phase_read_after_write(regs, 1);
    law_phase_keeps_nfctx(regs);
    assert forall|j: int| 1 <= j < 52 implies Tableinstruction::spec_form(j, t, entry_regs(regs)) is None by {}
    lemma_decodes_as(t, regs, 52);
}

proof fn lemma_decodes_form53(t: Seq<u8>, regs: Seq<u8>)
    requires
        regs.len() == 8,
        phase_of(regs) <= 1,
        t.len() >= 2,
        bits_u8(t[1], 4, 4) == 14,
        bits_u8(t[0], 3, 1) == 1,
    ensures
        Tableinstruction::spec_parse(t, regs) matches Some((n, v, r)) && core_instruction(v) is Var53,
{
    lemma_byte_fields(t[0]);
    lemma_byte_fields(t[1]);
    law_phase_read_after_write(regs, 1);
    law_phase_keeps_nfctx(regs);
    assert forall|j: int| 1 <= j < 53 implies Tableinstruction::spec_form(j, t, entry_regs(regs)) is None by {}
    lemma_decodes_as(t, regs, 53);
}

proof fn lemma_decodes_form54(t: Seq<u8>, regs: Seq<u8>)
    requires
        regs.len() == 8,
        phase_of(regs) <= 1,
        t.len() >= 2,
        bits_u8(t[1], 4, 4) == 15,
        bits_u8(t[1], 0, 4) == 5,
    ensures
        Tableinstruction::spec_parse(t, regs) matches Some((n, v, r)) && core_instruction(v) is Var54,
{
    lemma_byte_fields(t[0]);
    lemma_byte_fields(t[1]);
    law_phase_read_after_write(regs, 1);
    law_phase_keeps_nfctx(regs);
    assert forall|j: int| 1 <= j < 54 implies Tableinstruction::spec_form(j, t, entry_regs(regs)) is None by {}
    lemma_decodes_as(t, regs, 54);
}

proof fn lemma_decodes_form55(t: Seq<u8>, regs: Seq<u8>)
    requires
        regs.len() == 8,
        phase_of(regs) <= 1,
        t.len() >= 2,
        bits_u8(t[1], 4, 4) == 10,
        bits_u8(t[1], 0, 4) == 4,
    ensures
        Tableinstruction::spec_parse(t, regs) matches Some((n, v, r)) && core_instruction(v) is Var55,
{
    lemma_byte_fields(t[0]);
    lemma_byte_fields(t[1]);
    law_phase_read_after_write(regs, 1);
    law_phase_keeps_nfctx(regs);
    assert forall|j: int| 1 <= j < 55 implies Tableinstruction::spec_form(j, t, entry_regs(regs)) is None by {}
    lemma_decodes_as(t, regs, 55);
}

proof fn lemma_decodes_form56(t: Seq<u8>, regs: Seq<u8>)
    requires
        regs.len() == 8,
        phase_of(regs) <= 1,
        t.len() >= 2,
        bits_u8(t[1], 4, 4) == 10,
        bits_u8(t[1], 0, 4) == 5,
    ensures
        Tableinstruction::spec_parse(t, regs) matches Some((n, v, r)) && core_instruction(v) is Var56,
{
    lemma_byte_fields(t[0]);
    lemma_byte_fields(t[1]);
    law_phase_read_after_write(regs, 1);
    law_phase_keeps_nfctx(regs);
    assert forall|j: int| 1 <= j < 56 implies Tableinstruction::spec_form(j, t, entry_regs(regs)) is None by {}
    lemma_decodes_as(t, regs, 56);
}

proof fn lemma_decodes_form57(t: Seq<u8>, regs: Seq<u8>)
    requires
        regs.len() == 8,
        phase_of(regs) <= 1,
        t.len() >= 2,
        bits_u8(t[1], 4, 4) == 15,
        bits_u8(t[1], 0, 4) >= 8,
    ensures
        Tableinstruction::spec_parse(t, regs) matches Some((n, v, r)) && core_instruction(v) is Var57,
{
    let b = t[1];
    assert(bits_u8(b, 0, 4) >= 8 ==> bits_u8(b, 3, 1) == 1) by (bit_vector);
    lemma_byte_fields(t[0]);
    lemma_byte_fields(t[1]);
    law_phase_read_after_write(regs, 1);
    law_phase_keeps_nfctx(regs);
    assert forall|j: int| 1 <= j < 57 implies Tableinstruction::spec_form(j, t, entry_regs(regs)) is None by {}
    lemma_decodes_as(t, regs, 57);
}

/// Which instruction the bytes hold: in phases 0 and 1, the opcode nibbles
/// of the second byte (with, for some instructions, bits of the first byte
/// and the `nfctx` field) choose the instruction, whatever else the bytes
/// hold. What each one shows is stated by `law_two_register_operands`,
/// `law_one_register_operand` and `law_relative_targets`.
pub proof fn law_opcodes(t: Seq<u8>, regs: Seq<u8>)
    requires
        regs.len() == 8,
        phase_of(regs) <= 1,
        t.len() >= 2,
    ensures
        (bits_u8(t[1], 4, 4) == 13 && bits_u8(t[1], 0, 4) == 14 && bits_u8(t[0], 0, 4) == 0) ==> (Tableinstruction::spec_parse(t, regs) matches Some((n, v, r)) && core_instruction(v) is Var4),
        (bits_u8(t[1], 4, 4) == 13 && bits_u8(t[1], 0, 4) == 14 && bits_u8(t[0], 0, 4) == 1) ==> (Tableinstruction::spec_parse(t, regs) matches Some((n, v, r)) && core_instruction(v) is Var5),
        (bits_u8(t[1], 4, 4) == 15 && bits_u8(t[1], 0, 4) == 2 && bits_u8(t[0], 0, 4) == 0) ==> (Tableinstruction::spec_parse(t, regs) matches Some((n, v, r)) && core_instruction(v) is Var7),
        (bits_u8(t[1], 4, 4) == 15 && bits_u8(t[1], 0, 4) == 3 && bits_u8(t[0], 0, 4) == 0) ==> (Tableinstruction::spec_parse(t, regs) matches Some((n, v, r)) && core_instruction(v) is Var8),
        (bits_u8(t[1], 4, 4) == 15 && bits_u8(t[1], 0, 4) == 6 && bits_u8(t[0], 0, 4) == 0) ==> (Tableinstruction::spec_parse(t, regs) matches Some((n, v, r)) && core_instruction(v) is Var9),
        (bits_u8(t[1], 4, 4) == 10 && bits_u8(t[1], 0, 4) == 1 && bits_u8(t[0], 0, 4) == 0) ==> (Tableinstruction::spec_parse(t, regs) matches Some((n, v, r)) && core_instruction(v) is Var10),
        (bits_u8(t[1], 4, 4) == 10 && bits_u8(t[1], 0, 4) == 2 && bits_u8(t[0], 0, 4) == 0) ==> (Tableinstruction::spec_parse(t, regs) matches Some((n, v, r)) && core_instruction(v) is Var11),
        (bits_u8(t[1], 4, 4) == 10 && bits_u8(t[1], 0, 4) == 6 && bits_u8(t[0], 0, 4) == 0) ==> (Tableinstruction::spec_parse(t, regs) matches Some((n, v, r)) && core_instruction(v) is Var12),
        (bits_u8(t[1], 4, 4) == 13 && bits_u8(t[1], 0, 4) == 10 && bits_u8(t[0], 0, 4) == 0 && nfctx_of(regs) == 1) ==> (Tableinstruction::spec_parse(t, regs) matches Some((n, v, r)) && core_instruction(v) is Var13),
        (bits_u8(t[1], 4, 4) == 13 && bits_u8(t[1], 0, 4) == 10 && bits_u8(t[0], 0, 4) == 0 && nfctx_of(regs) == 2) ==> (Tableinstruction::spec_parse(t, regs) matches Some((n, v, r)) && core_instruction(v) is Var14),
        (bits_u8(t[1], 4, 4) == 13 && bits_u8(t[1], 0, 4) == 10 && bits_u8(t[0], 0, 4) == 0 && nfctx_of(regs) == 3) ==> (Tableinstruction::spec_parse(t, regs) matches Some((n, v, r)) && core_instruction(v) is Var15),
        (bits_u8(t[1], 4, 4) == 12 && bits_u8(t[1], 0, 4) == 0) ==> (Tableinstruction::spec_parse(t, regs) matches Some((n, v, r)) && core_instruction(v) is Var23),
        (bits_u8(t[1], 4, 4) == 12 && bits_u8(t[1], 0, 4) == 1) ==> (Tableinstruction::spec_parse(t, regs) matches Some((n, v, r)) && core_instruction(v) is Var24),
        (bits_u8(t[1], 4, 4) == 12 && bits_u8(t[1], 0, 4) == 2) ==> (Tableinstruction::spec_parse(t, regs) matches Some((n, v, r)) && core_instruction(v) is Var25),
        (bits_u8(t[1], 4, 4) == 12 && bits_u8(t[1], 0, 4) == 3) ==> (Tableinstruction::spec_parse(t, regs) matches Some((n, v, r)) && core_instruction(v) is Var26),
        (bits_u8(t[1], 4, 4) == 12 && bits_u8(t[1], 0, 4) == 4) ==> (Tableinstruction::spec_parse(t, regs) matches Some((n, v, r)) && core_instruction(v) is Var27),
        (bits_u8(t[1], 4, 4) == 12 && bits_u8(t[1], 0, 4) == 5) ==> (Tableinstruction::spec_parse(t, regs) matches Some((n, v, r)) && core_instruction(v) is Var28),
        (bits_u8(t[1], 4, 4) == 12 && bits_u8(t[1], 0, 4) == 6) ==> (Tableinstruction::spec_parse(t, regs) matches Some((n, v, r)) && core_instruction(v) is Var29),
        (bits_u8(t[1], 4, 4) == 12 && bits_u8(t[1], 0, 4) == 7) ==> (Tableinstruction::spec_parse(t, regs) matches Some((n, v, r)) && core_instruction(v) is Var30),
        (bits_u8(t[1], 4, 4) == 13 && bits_u8(t[1], 0, 4) == 0) ==> (Tableinstruction::spec_parse(t, regs) matches Some((n, v, r)) && core_instruction(v) is Var39),
        (bits_u8(t[1], 4, 4) == 13 && bits_u8(t[1], 0, 4) == 1) ==> (Tableinstruction::spec_parse(t, regs) matches Some((n, v, r)) && core_instruction(v) is Var40),
        (bits_u8(t[1], 4, 4) == 13 && bits_u8(t[1], 0, 4) == 2) ==> (Tableinstruction::spec_parse(t, regs) matches Some((n, v, r)) && core_instruction(v) is Var41),
        (bits_u8(t[1], 4, 4) == 13 && bits_u8(t[1], 0, 4) == 3) ==> (Tableinstruction::spec_parse(t, regs) matches Some((n, v, r)) && core_instruction(v) is Var42),
        (bits_u8(t[1], 4, 4) == 13 && bits_u8(t[1], 0, 4) == 4) ==> (Tableinstruction::spec_parse(t, regs) matches Some((n, v, r)) && core_instruction(v) is Var43),
        (bits_u8(t[1], 4, 4) == 13 && bits_u8(t[1], 0, 4) == 5) ==> (Tableinstruction::spec_parse(t, regs) matches Some((n, v, r)) && core_instruction(v) is Var44),
        (bits_u8(t[1], 4, 4) == 13 && bits_u8(t[1], 0, 4) == 8) ==> (Tableinstruction::spec_parse(t, regs) matches Some((n, v, r)) && core_instruction(v) is Var45),
        (bits_u8(t[1], 4, 4) == 13 && bits_u8(t[1], 0, 4) == 15) ==> (Tableinstruction::spec_parse(t, regs) matches Some((n, v, r)) && core_instruction(v) is Var51),
        (bits_u8(t[1], 4, 4) == 14 && bits_u8(t[0], 3, 1) == 0) ==> (Tableinstruction::spec_parse(t, regs) matches Some((n, v, r)) && core_instruction(v) is Var52),
        (bits_u8(t[1], 4, 4) == 14 && bits_u8(t[0], 3, 1) == 1) ==> (Tableinstruction::spec_parse(t, regs) matches Some((n, v, r)) && core_instruction(v) is Var53),
        (bits_u8(t[1], 4, 4) == 15 && bits_u8(t[1], 0, 4) == 5) ==> (Tableinstruction::spec_parse(t, regs) matches Some((n, v, r)) && core_instruction(v) is Var54),
        (bits_u8(t[1], 4, 4) == 10 && bits_u8(t[1], 0, 4) == 4) ==> (Tableinstruction::spec_parse(t, regs) matches Some((n, v, r)) && core_instruction(v) is Var55),
        (bits_u8(t[1], 4, 4) == 10 && bits_u8(t[1], 0, 4) == 5) ==> (Tableinstruction::spec_parse(t, regs) matches Some((n, v, r)) && core_instruction(v) is Var56),
        (bits_u8(t[1], 4, 4) == 15 && bits_u8(t[1], 0, 4) >= 8) ==> (Tableinstruction::spec_parse(t, regs) matches Some((n, v, r)) && core_instruction(v) is Var57),
{
    if bits_u8(t[1], 4, 4) == 13 && bits_u8(t[1], 0, 4) == 14 && bits_u8(t[0], 0, 4) == 0 {
        lemma_decodes_form4(t, regs);
    }
    if bits_u8(t[1], 4, 4) == 13 && bits_u8(t[1], 0, 4) == 14 && bits_u8(t[0], 0, 4) == 1 {
        lemma_decodes_form5(t, regs);
    }
    if bits_u8(t[1], 4, 4) == 15 && bits_u8(t[1], 0, 4) == 2 && bits_u8(t[0], 0, 4) == 0 {
        lemma_decodes_form7(t, regs);
    }
    if bits_u8(t[1], 4, 4) == 15 && bits_u8(t[1], 0, 4) == 3 && bits_u8(t[0], 0, 4) == 0 {
        lemma_decodes_form8(t, regs);
    }
    if bits_u8(t[1], 4, 4) == 15 && bits_u8(t[1], 0, 4) == 6 && bits_u8(t[0], 0, 4) == 0 {
        lemma_decodes_form9(t, regs);
    }
    if bits_u8(t[1], 4, 4) == 10 && bits_u8(t[1], 0, 4) == 1 && bits_u8(t[0], 0, 4) == 0 {
        lemma_decodes_form10(t, regs);
    }
    if bits_u8(t[1], 4, 4) == 10 && bits_u8(t[1], 0, 4) == 2 && bits_u8(t[0], 0, 4) == 0 {
        lemma_decodes_form11(t, regs);
    }
    if bits_u8(t[1], 4, 4) == 10 && bits_u8(t[1], 0, 4) == 6 && bits_u8(t[0], 0, 4) == 0 {
        lemma_decodes_form12(t, regs);
    }
    if bits_u8(t[1], 4, 4) == 13 && bits_u8(t[1], 0, 4) == 10 && bits_u8(t[0], 0, 4) == 0 && nfctx_of(regs) == 1 {
        lemma_decodes_form13(t, regs);
    }
    if bits_u8(t[1], 4, 4) == 13 && bits_u8(t[1], 0, 4) == 10 && bits_u8(t[0], 0, 4) == 0 && nfctx_of(regs) == 2 {
        lemma_decodes_form14(t, regs);
    }
    if bits_u8(t[1], 4, 4) == 13 && bits_u8(t[1], 0, 4) == 10 && bits_u8(t[0], 0, 4) == 0 && nfctx_of(regs) == 3 {
        lemma_decodes_form15(t, regs);
    }
    if bits_u8(t[1], 4, 4) == 12 && bits_u8(t[1], 0, 4) == 0 {
        lemma_decodes_form23(t, regs);
    }
    if bits_u8(t[1], 4, 4) == 12 && bits_u8(t[1], 0, 4) == 1 {
        lemma_decodes_form24(t, regs);
    }
    if bits_u8(t[1], 4, 4) == 12 && bits_u8(t[1], 0, 4) == 2 {
        lemma_decodes_form25(t, regs);
    }
    if bits_u8(t[1], 4, 4) == 12 && bits_u8(t[1], 0, 4) == 3 {
        lemma_decodes_form26(t, regs);
    }
    if bits_u8(t[1], 4, 4) == 12 && bits_u8(t[1], 0, 4) == 4 {
        lemma_decodes_form27(t, regs);
    }
    if bits_u8(t[1], 4, 4) == 12 && bits_u8(t[1], 0, 4) == 5 {
        lemma_decodes_form28(t, regs);
    }
    if bits_u8(t[1], 4, 4) == 12 && bits_u8(t[1], 0, 4) == 6 {
        lemma_decodes_form29(t, regs);
    }
    if bits_u8(t[1], 4, 4) == 12 && bits_u8(t[1], 0, 4) == 7 {
        lemma_decodes_form30(t, regs);
    }
    if bits_u8(t[1], 4, 4) == 13 && bits_u8(t[1], 0, 4) == 0 {
        lemma_decodes_form39(t, regs);
    }
    if bits_u8(t[1], 4, 4) == 13 && bits_u8(t[1], 0, 4) == 1 {
        lemma_decodes_form40(t, regs);
    }
    if bits_u8(t[1], 4, 4) == 13 && bits_u8(t[1], 0, 4) == 2 {
        lemma_decodes_form41(t, regs);
    }
    if bits_u8(t[1], 4, 4) == 13 && bits_u8(t[1], 0, 4) == 3 {
        lemma_decodes_form42(t, regs);
    }
    if bits_u8(t[1], 4, 4) == 13 && bits_u8(t[1], 0, 4) == 4 {
        lemma_decodes_form43(t, regs);
    }
    if bits_u8(t[1], 4, 4) == 13 && bits_u8(t[1], 0, 4) == 5 {
        lemma_decodes_form44(t, regs);
    }
    if bits_u8(t[1], 4, 4) == 13 && bits_u8(t[1], 0, 4) == 8 {
        lemma_decodes_form45(t, regs);
    }
    if bits_u8(t[1], 4, 4) == 13 && bits_u8(t[1], 0, 4) == 15 {
        lemma_decodes_form51(t, regs);
    }
    if bits_u8(t[1], 4, 4) == 14 && bits_u8(t[0], 3, 1) == 0 {
        lemma_decodes_form52(t, regs);
    }
    if bits_u8(t[1], 4, 4) == 14 && bits_u8(t[0], 3, 1) == 1 {
        lemma_decodes_form53(t, regs);
    }
    if bits_u8(t[1], 4, 4) == 15 && bits_u8(t[1], 0, 4) == 5 {
        lemma_decodes_form54(t, regs);
    }
    if bits_u8(t[1], 4, 4) == 10 && bits_u8(t[1], 0, 4) == 4 {
        lemma_decodes_form55(t, regs);
    }
    if bits_u8(t[1], 4, 4) == 10 && bits_u8(t[1], 0, 4) == 5 {
        lemma_decodes_form56(t, regs);
    }
    if bits_u8(t[1], 4, 4) == 15 && bits_u8(t[1], 0, 4) >= 8 {
        lemma_decodes_form57(t, regs);
    }
}

/// The two's complement value of a 4-bit field fits in 4 bits.
proof fn lemma_sign_extend_4(v: u16)
    requires
        v < 16,
    ensures
        -8 <= sign_extend(v, 4) < 8,
{
    assert((1u32 << 3u32) == 8 && (1u32 << 4u32) == 16) by (bit_vector);
}

/// The two's complement value of a 2-bit field fits in 2 bits.
proof fn lemma_sign_extend_2(v: u16)
    requires
        v < 4,
    ensures
        -2 <= sign_extend(v, 2) < 2,
{
    assert((1u32 << 1u32) == 2 && (1u32 << 2u32) == 4) by (bit_vector);
}

proof fn lemma_form1(t: Seq<u8>, regs: Seq<u8>, inst_start: u32, inst_next: u32)
    requires
        regs.len() == 8,
    ensures
        Tableinstruction::spec_parse(t, regs) matches Some((n, v, r)) ==> core_instruction(v) is Var1 ==> {
            &&& n == 2
            &&& bits_u8(t[1], 4, 4) == 15
            &&& bits_u8(t[1], 0, 4) == 4
            &&& t[0] == 0
            &&& v.spec_display(r, inst_start, inst_next) == seq![DisplayElement::Literal("ret")]
        },
{
    lemma_decoded(t, regs, inst_start, inst_next);
    if t.len() >= 2 {
        lemma_byte_fields(t[0]);
    }
}

proof fn lemma_form2(t: Seq<u8>, regs: Seq<u8>, inst_start: u32, inst_next: u32)
    requires
        regs.len() == 8,
    ensures
        Tableinstruction::spec_parse(t, regs) matches Some((n, v, r)) ==> core_instruction(v) is Var2 ==> {
            &&& n == 2
            &&& bits_u8(t[1], 4, 4) == 10
            &&& bits_u8(t[1], 0, 4) == 3
            &&& t[0] == 0
            &&& v.spec_display(r, inst_start, inst_next) == seq![DisplayElement::Literal("user_three")]
        },
{
    lemma_decoded(t, regs, inst_start, inst_next);
    if t.len() >= 2 {
        lemma_byte_fields(t[0]);
    }
}

proof fn lemma_form3(t: Seq<u8>, regs: Seq<u8>, inst_start: u32, inst_next: u32)
    requires
        regs.len() == 8,
    ensures
        Tableinstruction::spec_parse(t, regs) matches Some((n, v, r)) ==> core_instruction(v) is Var3 ==> {
            &&& n == 2
            &&& bits_u8(t[1], 4, 4) == 10
            &&& bits_u8(t[1], 0, 4) == 8
            &&& t[0] == 0
            &&& v.spec_display(r, inst_start, inst_next) == seq![DisplayElement::Literal("unimpl")]
        },
{
    lemma_decoded(t, regs, inst_start, inst_next);
    if t.len() >= 2 {
        lemma_byte_fields(t[0]);
    }
}

proof fn lemma_form6(t: Seq<u8>, regs: Seq<u8>, inst_start: u32, inst_next: u32)
    requires
        regs.len() == 8,
    ensures
        Tableinstruction::spec_parse(t, regs) matches Some((n, v, r)) ==> core_instruction(v) is Var6 ==> {
            &&& n == 2
            &&& bits_u8(t[1], 4, 4) == 8
            &&& bits_u8(t[1], 0, 4) == 0
            &&& bits_u8(t[0], 4, 4) == 0
            &&& bits_u8(t[0], 3, 1) == 0
            &&& v.spec_display(r, inst_start, inst_next) == seq![DisplayElement::Literal("sk")] + TableCC::spec_parse(t).unwrap().spec_display()
        },
{
    lemma_decoded(t, regs, inst_start, inst_next);
    if t.len() >= 2 {
        lemma_byte_fields(t[0]);
    }
}

proof fn lemma_form16(t: Seq<u8>, regs: Seq<u8>, inst_start: u32, inst_next: u32)
    requires
        regs.len() == 8,
    ensures
        Tableinstruction::spec_parse(t, regs) matches Some((n, v, r)) ==> core_instruction(v) is Var16 ==> {
            &&& n == 2
            &&& bits_u8(t[1], 4, 4) == 15
            &&& bits_u8(t[1], 0, 4) == 0
            &&& bits_u8(t[0], 3, 1) == 0
            &&& v.spec_display(r, inst_start, inst_next) == seq![DisplayElement::Literal("br")] + TableCC::spec_parse(t).unwrap().spec_display() + seq![DisplayElement::Literal(" "), DisplayElement::Register(register_of(bits_u8(t[0], 4, 4)))]
        },
{
    lemma_decoded(t, regs, inst_start, inst_next);
    if t.len() >= 2 {
        lemma_byte_fields(t[0]);
    }
}

proof fn lemma_form17(t: Seq<u8>, regs: Seq<u8>, inst_start: u32, inst_next: u32)
    requires
        regs.len() == 8,
    ensures
        Tableinstruction::spec_parse(t, regs) matches Some((n, v, r)) ==> core_instruction(v) is Var17 ==> {
            &&& n == 2
            &&& bits_u8(t[1], 4, 4) == 15
            &&& bits_u8(t[1], 0, 4) == 1
            &&& bits_u8(t[0], 3, 1) == 0
            &&& v.spec_display(r, inst_start, inst_next) == seq![DisplayElement::Literal("brds")] + TableCC::spec_parse(t).unwrap().spec_display() + seq![DisplayElement::Literal(" "), DisplayElement::Register(register_of(bits_u8(t[0], 4, 4)))]
        },
{
    lemma_decoded(t, regs, inst_start, inst_next);
    if t.len() >= 2 {
        lemma_byte_fields(t[0]);
    }
}

proof fn lemma_form18(t: Seq<u8>, regs: Seq<u8>, inst_start: u32, inst_next: u32)
    requires
        regs.len() == 8,
    ensures
        Tableinstruction::spec_parse(t, regs) matches Some((n, v, r)) ==> core_instruction(v) is Var18 ==> {
            &&& n == 2
            &&& bits_u8(t[1], 4, 4) == 15
            &&& bits_u8(t[1], 0, 4) == 6
            &&& bits_u8(t[0], 3, 1) == 1
            &&& v.spec_display(r, inst_start, inst_next) == seq![DisplayElement::Literal("call")] + TableCC::spec_parse(t).unwrap().spec_display() + seq![DisplayElement::Literal(" "), DisplayElement::Register(register_of(bits_u8(t[0], 4, 4)))]
        },
{
    lemma_decoded(t, regs, inst_start, inst_next);
    if t.len() >= 2 {
        lemma_byte_fields(t[0]);
    }
}

proof fn lemma_form19(t: Seq<u8>, regs: Seq<u8>, inst_start: u32, inst_next: u32)
    requires
        regs.len() == 8,
    ensures
        Tableinstruction::spec_parse(t, regs) matches Some((n, v, r)) ==> core_instruction(v) is Var19 ==> {
            &&& n == 2
            &&& bits_u8(t[1], 4, 4) == 13
            &&& bits_u8(t[1], 0, 4) == 9
            &&& bits_u8(t[0], 4, 4) == 0
            &&& v.spec_display(r, inst_start, inst_next) == seq![DisplayElement::Literal("fctx"), DisplayElement::Literal(" "), DisplayElement::Literal("#"), DisplayElement::Number(true, (bits_u8(t[0], 0, 4)) as i64)]
            &&& r == with_fctx(entry_regs(regs), bits_u8(t[0], 0, 4))
            &&& v.spec_sets(r, inst_start, inst_next) == seq![GlobalSetRequest::Fctx(Some(inst_next), bits_u8(t[0], 0, 4) as i64)]
        },
{
    lemma_decoded(t, regs, inst_start, inst_next);
    if t.len() >= 2 {
        lemma_byte_fields(t[0]);
    }
    if t.len() >= 2 {
        let b = t[0];
        assert(bits_u8(b, 0, 4) < 16) by (bit_vector);
        law_phase_read_after_write(regs, 1);
        law_fctx_read_after_write(entry_regs(regs), bits_u8(b, 0, 4));
    }
}

proof fn lemma_form20(t: Seq<u8>, regs: Seq<u8>, inst_start: u32, inst_next: u32)
    requires
        regs.len() == 8,
    ensures
        Tableinstruction::spec_parse(t, regs) matches Some((n, v, r)) ==> core_instruction(v) is Var20 ==> {
            &&& n == 4
            &&& bits_u8(t[1], 4, 4) == 13
            &&& bits_u8(t[1], 0, 4) == 9
            &&& bits_u8(t[0], 4, 4) == 2
            &&& v.spec_display(r, inst_start, inst_next) == seq![DisplayElement::Literal("nfctx"), DisplayElement::Literal(" "), DisplayElement::Number(true, (inst_start + sign_extend(t[2] as u16, 8)) as i64), DisplayElement::Literal(","), DisplayElement::Literal("#"), DisplayElement::Number(true, (bits_u8(t[0], 0, 4)) as i64)]
            &&& r == with_nfctx(entry_regs(regs), bits_u8(t[0], 0, 4))
            &&& v.spec_sets(r, inst_start, inst_next) == seq![GlobalSetRequest::Nfctx(Some((inst_start + sign_extend(t[2] as u16, 8)) as u32), bits_u8(t[0], 0, 4) as i64)]
        },
{
    lemma_decoded(t, regs, inst_start, inst_next);
    if t.len() >= 2 {
        lemma_byte_fields(t[0]);
    }
    if t.len() >= 4 {
        lemma_byte_fields(t[2]);
        lemma_sign_extend_8(t[2] as u16);
        assert(t.subrange(2, t.len() as int)[0] == t[2]);
        let b = t[0];
        assert(bits_u8(b, 0, 4) < 16) by (bit_vector);
        law_phase_read_after_write(regs, 1);
        law_nfctx_read_after_write(entry_regs(regs), bits_u8(b, 0, 4));
    }
}

proof fn lemma_form21(t: Seq<u8>, regs: Seq<u8>, inst_start: u32, inst_next: u32)
    requires
        regs.len() == 8,
    ensures
        Tableinstruction::spec_parse(t, regs) matches Some((n, v, r)) ==> core_instruction(v) is Var21 ==> {
            &&& n == 2
            &&& bits_u8(t[1], 4, 4) == 13
            &&& bits_u8(t[1], 0, 4) == 9
            &&& bits_u8(t[0], 4, 4) == 1
            &&& v.spec_display(r, inst_start, inst_next) == seq![DisplayElement::Literal("nfctx"), DisplayElement::Literal(" "), DisplayElement::Literal("#"), DisplayElement::Number(true, (bits_u8(t[0], 0, 4)) as i64)]
            &&& r == with_nfctx(entry_regs(regs), bits_u8(t[0], 0, 4))
            &&& v.spec_sets(r, inst_start, inst_next) == seq![GlobalSetRequest::Nfctx(Some(inst_next), bits_u8(t[0], 0, 4) as i64)]
        },
{
    lemma_decoded(t, regs, inst_start, inst_next);
    if t.len() >= 2 {
        lemma_byte_fields(t[0]);
    }
    if t.len() >= 2 {
        let b = t[0];
        assert(bits_u8(b, 0, 4) < 16) by (bit_vector);
        law_phase_read_after_write(regs, 1);
        law_nfctx_read_after_write(entry_regs(regs), bits_u8(b, 0, 4));
    }
}

proof fn lemma_form22(t: Seq<u8>, regs: Seq<u8>, inst_start: u32, inst_next: u32)
    requires
        regs.len() == 8,
    ensures
        Tableinstruction::spec_parse(t, regs) matches Some((n, v, r)) ==> core_instruction(v) is Var22 ==> {
            &&& n == 2 + bits_u8(t[0], 0, 4)
            &&& bits_u8(t[1], 4, 4) == 13
            &&& bits_u8(t[1], 0, 4) == 9
            &&& bits_u8(t[0], 4, 4) == 3
            &&& v.spec_display(r, inst_start, inst_next) == seq![DisplayElement::Literal("nop"), DisplayElement::Literal(" "), DisplayElement::Literal("#"), DisplayElement::Number(true, (bits_u8(t[0], 0, 4) + 2) as i64)]
            &&& r == with_counter(entry_regs(regs), 0)
        },
{
    lemma_decoded(t, regs, inst_start, inst_next);
    if t.len() >= 2 {
        lemma_byte_fields(t[0]);
    }
}

proof fn lemma_form31(t: Seq<u8>, regs: Seq<u8>, inst_start: u32, inst_next: u32)
    requires
        regs.len() == 8,
    ensures
        Tableinstruction::spec_parse(t, regs) matches Some((n, v, r)) ==> core_instruction(v) is Var31 ==> {
            &&& n == 2
            &&& bits_u8(t[1], 4, 4) == 12
            &&& bits_u8(t[1], 0, 4) == 8
            &&& v.spec_display(r, inst_start, inst_next) == seq![DisplayElement::Literal("add"), DisplayElement::Literal("  "), DisplayElement::Register(register_of(bits_u8(t[0], 4, 4))), DisplayElement::Literal(", "), DisplayElement::Literal("#"), DisplayElement::Number(true, (sign_extend(bits_u8(t[0], 0, 4) as u16, 4)) as i64)]
        },
{
    lemma_decoded(t, regs, inst_start, inst_next);
    if t.len() >= 2 {
        lemma_byte_fields(t[0]);
    }
    if t.len() >= 1 {
        lemma_byte_fields(t[0]);
        lemma_sign_extend_4(bits_u8(t[0], 0, 4) as u16);
    }
}

proof fn lemma_form32(t: Seq<u8>, regs: Seq<u8>, inst_start: u32, inst_next: u32)
    requires
        regs.len() == 8,
    ensures
        Tableinstruction::spec_parse(t, regs) matches Some((n, v, r)) ==> core_instruction(v) is Var32 ==> {
            &&& n == 2
            &&& bits_u8(t[1], 4, 4) == 12
            &&& bits_u8(t[1], 0, 4) == 9
            &&& v.spec_display(r, inst_start, inst_next) == seq![DisplayElement::Literal("sub"), DisplayElement::Literal("  "), DisplayElement::Register(register_of(bits_u8(t[0], 4, 4))), DisplayElement::Literal(", "), DisplayElement::Literal("#"), DisplayElement::Number(true, (sign_extend(bits_u8(t[0], 0, 4) as u16, 4)) as i64)]
        },
{
    lemma_decoded(t, regs, inst_start, inst_next);
    if t.len() >= 2 {
        lemma_byte_fields(t[0]);
    }
    if t.len() >= 1 {
        lemma_byte_fields(t[0]);
        lemma_sign_extend_4(bits_u8(t[0], 0, 4) as u16);
    }
}

proof fn lemma_form33(t: Seq<u8>, regs: Seq<u8>, inst_start: u32, inst_next: u32)
    requires
        regs.len() == 8,
    ensures
        Tableinstruction::spec_parse(t, regs) matches Some((n, v, r)) ==> core_instruction(v) is Var33 ==> {
            &&& n == 2
            &&& bits_u8(t[1], 4, 4) == 12
            &&& bits_u8(t[1], 0, 4) == 10
            &&& v.spec_display(r, inst_start, inst_next) == seq![DisplayElement::Literal("rsub"), DisplayElement::Literal(" "), DisplayElement::Register(register_of(bits_u8(t[0], 4, 4))), DisplayElement::Literal(", "), DisplayElement::Literal("#"), DisplayElement::Number(true, (sign_extend(bits_u8(t[0], 0, 4) as u16, 4)) as i64)]
        },
{
    lemma_decoded(t, regs, inst_start, inst_next);
    if t.len() >= 2 {
        lemma_byte_fields(t[0]);
    }
    if t.len() >= 1 {
        lemma_byte_fields(t[0]);
        lemma_sign_extend_4(bits_u8(t[0], 0, 4) as u16);
    }
}

proof fn lemma_form34(t: Seq<u8>, regs: Seq<u8>, inst_start: u32, inst_next: u32)
    requires
        regs.len() == 8,
    ensures
        Tableinstruction::spec_parse(t, regs) matches Some((n, v, r)) ==> core_instruction(v) is Var34 ==> {
            &&& n == 2
            &&& bits_u8(t[1], 4, 4) == 12
            &&& bits_u8(t[1], 0, 4) == 11
            &&& v.spec_display(r, inst_start, inst_next) == seq![DisplayElement::Literal("mul"), DisplayElement::Literal("  "), DisplayElement::Register(register_of(bits_u8(t[0], 4, 4))), DisplayElement::Literal(", "), DisplayElement::Literal("#"), DisplayElement::Number(true, (sign_extend(bits_u8(t[0], 0, 4) as u16, 4)) as i64)]
        },
{
    lemma_decoded(t, regs, inst_start, inst_next);
    if t.len() >= 2 {
        lemma_byte_fields(t[0]);
    }
    if t.len() >= 1 {
        lemma_byte_fields(t[0]);
        lemma_sign_extend_4(bits_u8(t[0], 0, 4) as u16);
    }
}

proof fn lemma_form35(t: Seq<u8>, regs: Seq<u8>, inst_start: u32, inst_next: u32)
    requires
        regs.len() == 8,
    ensures
        Tableinstruction::spec_parse(t, regs) matches Some((n, v, r)) ==> core_instruction(v) is Var35 ==> {
            &&& n == 2
            &&& bits_u8(t[1], 4, 4) == 12
            &&& bits_u8(t[1], 0, 4) == 12
            &&& v.spec_display(r, inst_start, inst_next) == seq![DisplayElement::Literal("div"), DisplayElement::Literal("  "), DisplayElement::Register(register_of(bits_u8(t[0], 4, 4))), DisplayElement::Literal(", "), DisplayElement::Literal("#"), DisplayElement::Number(true, (sign_extend(bits_u8(t[0], 0, 4) as u16, 4)) as i64)]
        },
{
    lemma_decoded(t, regs, inst_start, inst_next);
    if t.len() >= 2 {
        lemma_byte_fields(t[0]);
    }
    if t.len() >= 1 {
        lemma_byte_fields(t[0]);
        lemma_sign_extend_4(bits_u8(t[0], 0, 4) as u16);
    }
}

proof fn lemma_form36(t: Seq<u8>, regs: Seq<u8>, inst_start: u32, inst_next: u32)
    requires
        regs.len() == 8,
    ensures
        Tableinstruction::spec_parse(t, regs) matches Some((n, v, r)) ==> core_instruction(v) is Var36 ==> {
            &&& n == 2
            &&& bits_u8(t[1], 4, 4) == 12
            &&& bits_u8(t[1], 0, 4) == 13
            &&& v.spec_display(r, inst_start, inst_next) == seq![DisplayElement::Literal("mod"), DisplayElement::Literal("  "), DisplayElement::Register(register_of(bits_u8(t[0], 4, 4))), DisplayElement::Literal(", "), DisplayElement::Literal("#"), DisplayElement::Number(true, (bits_u8(t[0], 0, 4)) as i64)]
        },
{
    lemma_decoded(t, regs, inst_start, inst_next);
    if t.len() >= 2 {
        lemma_byte_fields(t[0]);
    }
}

proof fn lemma_form37(t: Seq<u8>, regs: Seq<u8>, inst_start: u32, inst_next: u32)
    requires
        regs.len() == 8,
    ensures
        Tableinstruction::spec_parse(t, regs) matches Some((n, v, r)) ==> core_instruction(v) is Var37 ==> {
            &&& n == 2
            &&& bits_u8(t[1], 4, 4) == 12
            &&& bits_u8(t[1], 0, 4) == 14
            &&& v.spec_display(r, inst_start, inst_next) == seq![DisplayElement::Literal("cmp"), DisplayElement::Literal("  "), DisplayElement::Register(register_of(bits_u8(t[0], 4, 4))), DisplayElement::Literal(", "), DisplayElement::Literal("#"), DisplayElement::Number(true, (sign_extend(bits_u8(t[0], 0, 4) as u16, 4)) as i64)]
        },
{
    lemma_decoded(t, regs, inst_start, inst_next);
    if t.len() >= 2 {
        lemma_byte_fields(t[0]);
    }
    if t.len() >= 1 {
        lemma_byte_fields(t[0]);
        lemma_sign_extend_4(bits_u8(t[0], 0, 4) as u16);
    }
}

proof fn lemma_form38(t: Seq<u8>, regs: Seq<u8>, inst_start: u32, inst_next: u32)
    requires
        regs.len() == 8,
    ensures
        Tableinstruction::spec_parse(t, regs) matches Some((n, v, r)) ==> core_instruction(v) is Var38 ==> {
            &&& n == 2
            &&& bits_u8(t[1], 4, 4) == 12
            &&& bits_u8(t[1], 0, 4) == 15
            &&& v.spec_display(r, inst_start, inst_next) == seq![DisplayElement::Literal("ucmp"), DisplayElement::Literal(" "), DisplayElement::Register(register_of(bits_u8(t[0], 4, 4))), DisplayElement::Literal(", "), DisplayElement::Literal("#"), DisplayElement::Number(true, (bits_u8(t[0], 0, 4)) as i64)]
        },
{
    lemma_decoded(t, regs, inst_start, inst_next);
    if t.len() >= 2 {
        lemma_byte_fields(t[0]);
    }
}

proof fn lemma_form46(t: Seq<u8>, regs: Seq<u8>, inst_start: u32, inst_next: u32)
    requires
        regs.len() == 8,
    ensures
        Tableinstruction::spec_parse(t, regs) matches Some((n, v, r)) ==> core_instruction(v) is Var46 ==> {
            &&& n == 2
            &&& bits_u8(t[1], 4, 4) == 13
            &&& bits_u8(t[1], 0, 4) == 11
            &&& v.spec_display(r, inst_start, inst_next) == seq![DisplayElement::Literal("lsr"), DisplayElement::Literal("  "), DisplayElement::Register(register_of(bits_u8(t[0], 4, 4))), DisplayElement::Literal(", "), DisplayElement::Literal("#"), DisplayElement::Number(true, (bits_u8(t[0], 0, 4)) as i64)]
        },
{
    lemma_decoded(t, regs, inst_start, inst_next);
    if t.len() >= 2 {
        lemma_byte_fields(t[0]);
    }
}

proof fn lemma_form47(t: Seq<u8>, regs: Seq<u8>, inst_start: u32, inst_next: u32)
    requires
        regs.len() == 8,
    ensures
        Tableinstruction::spec_parse(t, regs) matches Some((n, v, r)) ==> core_instruction(v) is Var47 ==> {
            &&& n == 2
            &&& bits_u8(t[1], 4, 4) == 13
            &&& bits_u8(t[1], 0, 4) == 12
            &&& v.spec_display(r, inst_start, inst_next) == seq![DisplayElement::Literal("asr"), DisplayElement::Literal("  "), DisplayElement::Register(register_of(bits_u8(t[0], 4, 4))), DisplayElement::Literal(", "), DisplayElement::Literal("#"), DisplayElement::Number(true, (bits_u8(t[0], 0, 4)) as i64)]
        },
{
    lemma_decoded(t, regs, inst_start, inst_next);
    if t.len() >= 2 {
        lemma_byte_fields(t[0]);
    }
}

proof fn lemma_form48(t: Seq<u8>, regs: Seq<u8>, inst_start: u32, inst_next: u32)
    requires
        regs.len() == 8,
    ensures
        Tableinstruction::spec_parse(t, regs) matches Some((n, v, r)) ==> core_instruction(v) is Var48 ==> {
            &&& n == 2
            &&& bits_u8(t[1], 4, 4) == 13
            &&& bits_u8(t[1], 0, 4) == 13
            &&& v.spec_display(r, inst_start, inst_next) == seq![DisplayElement::Literal("lsl"), DisplayElement::Literal("  "), DisplayElement::Register(register_of(bits_u8(t[0], 4, 4))), DisplayElement::Literal(", "), DisplayElement::Literal("#"), DisplayElement::Number(true, (bits_u8(t[0], 0, 4)) as i64)]
        },
{
    lemma_decoded(t, regs, inst_start, inst_next);
    if t.len() >= 2 {
        lemma_byte_fields(t[0]);
    }
}

proof fn lemma_form49(t: Seq<u8>, regs: Seq<u8>, inst_start: u32, inst_next: u32)
    requires
        regs.len() == 8,
    ensures
        Tableinstruction::spec_parse(t, regs) matches Some((n, v, r)) ==> core_instruction(v) is Var49 ==> {
            &&& n == 2
            &&& bits_u8(t[1], 4, 4) == 13
            &&& bits_u8(t[1], 0, 4) == 6
            &&& v.spec_display(r, inst_start, inst_next) == seq![DisplayElement::Literal("load"), DisplayElement::Literal("  "), DisplayElement::Register(register_of(bits_u8(t[0], 4, 4))), DisplayElement::Literal(", "), DisplayElement::Literal("["), DisplayElement::Register(register_of(bits_u8(t[0], 0, 4))), DisplayElement::Literal("]")]
        },
{
    lemma_decoded(t, regs, inst_start, inst_next);
    if t.len() >= 2 {
        lemma_byte_fields(t[0]);
    }
}

proof fn lemma_form50(t: Seq<u8>, regs: Seq<u8>, inst_start: u32, inst_next: u32)
    requires
        regs.len() == 8,
    ensures
        Tableinstruction::spec_parse(t, regs) matches Some((n, v, r)) ==> core_instruction(v) is Var50 ==> {
            &&& n == 2
            &&& bits_u8(t[1], 4, 4) == 13
            &&& bits_u8(t[1], 0, 4) == 7
            &&& v.spec_display(r, inst_start, inst_next) == seq![DisplayElement::Literal("store"), DisplayElement::Literal(" "), DisplayElement::Literal("["), DisplayElement::Register(register_of(bits_u8(t[0], 4, 4))), DisplayElement::Literal("]"), DisplayElement::Literal(", "), DisplayElement::Register(register_of(bits_u8(t[0], 0, 4)))]
        },
{
    lemma_decoded(t, regs, inst_start, inst_next);
    if t.len() >= 2 {
        lemma_byte_fields(t[0]);
    }
}

proof fn lemma_form58(t: Seq<u8>, regs: Seq<u8>, inst_start: u32, inst_next: u32)
    requires
        regs.len() == 8,
    ensures
        Tableinstruction::spec_parse(t, regs) matches Some((n, v, r)) ==> core_instruction(v) is Var58 ==> {
            &&& n == 2
            &&& bits_u8(t[1], 6, 2) == 2
            &&& v.spec_display(r, inst_start, inst_next) == seq![DisplayElement::Literal("simm"), DisplayElement::Literal(" "), DisplayElement::Register(register_of(bits_u8(t[1], 0, 4))), DisplayElement::Literal(", "), DisplayElement::Literal("#"), DisplayElement::Number(true, (sign_extend(bits_u8(t[1], 4, 2) as u16, 2) * 256 + t[0]) as i64)]
        },
{
    lemma_decoded(t, regs, inst_start, inst_next);
    if t.len() >= 2 {
        lemma_byte_fields(t[0]);
    }
    if t.len() >= 2 {
        lemma_byte_fields(t[0]);
        lemma_byte_fields(t[1]);
        lemma_sign_extend_2(bits_u8(t[1], 4, 2) as u16);
    }
}

proof fn lemma_form59(t: Seq<u8>, regs: Seq<u8>, inst_start: u32, inst_next: u32)
    requires
        regs.len() == 8,
    ensures
        Tableinstruction::spec_parse(t, regs) matches Some((n, v, r)) ==> core_instruction(v) is Var59 ==> {
            &&& n == 2
            &&& bits_u8(t[1], 7, 1) == 0
            &&& v.spec_display(r, inst_start, inst_next) == seq![DisplayElement::Literal("imm"), DisplayElement::Literal("  "), DisplayElement::Register(register_of(bits_u8(t[1], 0, 4))), DisplayElement::Literal(", "), DisplayElement::Literal("#"), DisplayElement::Number(true, (bits_u8(t[1], 4, 2) * 256 + t[0]) as i64)]
        },
{
    lemma_decoded(t, regs, inst_start, inst_next);
    if t.len() >= 2 {
        lemma_byte_fields(t[0]);
    }
}

/// What the remaining instructions show, from their bytes: immediates from
/// the low nibble of the first byte (two's complement where the instruction
/// is signed), the 10-bit immediates of `simm` and `imm` from bits 12..13
/// and the first byte, memory operands in brackets, condition codes, the
/// context fields that `fctx`, `nfctx` and `nop` set, the values they pass
/// on, and the length of the multi-byte `nop`.
pub proof fn law_other_operands(t: Seq<u8>, regs: Seq<u8>, inst_start: u32, inst_next: u32)
    requires
        regs.len() == 8,
    ensures
        Tableinstruction::spec_parse(t, regs) matches Some((n, v, r)) ==> {
            &&& (core_instruction(v) is Var1 ==> {
                &&& n == 2
                &&& bits_u8(t[1], 4, 4) == 15
                &&& bits_u8(t[1], 0, 4) == 4
                &&& t[0] == 0
                &&& v.spec_display(r, inst_start, inst_next) == seq![DisplayElement::Literal("ret")]
            })
            &&& (core_instruction(v) is Var2 ==> {
                &&& n == 2
                &&& bits_u8(t[1], 4, 4) == 10
                &&& bits_u8(t[1], 0, 4) == 3
                &&& t[0] == 0
                &&& v.spec_display(r, inst_start, inst_next) == seq![DisplayElement::Literal("user_three")]
            })
            &&& (core_instruction(v) is Var3 ==> {
                &&& n == 2
                &&& bits_u8(t[1], 4, 4) == 10
                &&& bits_u8(t[1], 0, 4) == 8
                &&& t[0] == 0
                &&& v.spec_display(r, inst_start, inst_next) == seq![DisplayElement::Literal("unimpl")]
            })
            &&& (core_instruction(v) is Var6 ==> {
                &&& n == 2
                &&& bits_u8(t[1], 4, 4) == 8
                &&& bits_u8(t[1], 0, 4) == 0
                &&& bits_u8(t[0], 4, 4) == 0
                &&& bits_u8(t[0], 3, 1) == 0
                &&& v.spec_display(r, inst_start, inst_next) == seq![DisplayElement::Literal("sk")] + TableCC::spec_parse(t).unwrap().spec_display()
            })
            &&& (core_instruction(v) is Var16 ==> {
                &&& n == 2
                &&& bits_u8(t[1], 4, 4) == 15
                &&& bits_u8(t[1], 0, 4) == 0
                &&& bits_u8(t[0], 3, 1) == 0
                &&& v.spec_display(r, inst_start, inst_next) == seq![DisplayElement::Literal("br")] + TableCC::spec_parse(t).unwrap().spec_display() + seq![DisplayElement::Literal(" "), DisplayElement::Register(register_of(bits_u8(t[0], 4, 4)))]
            })
            &&& (core_instruction(v) is Var17 ==> {
                &&& n == 2
                &&& bits_u8(t[1], 4, 4) == 15
                &&& bits_u8(t[1], 0, 4) == 1
                &&& bits_u8(t[0], 3, 1) == 0
                &&& v.spec_display(r, inst_start, inst_next) == seq![DisplayElement::Literal("brds")] + TableCC::spec_parse(t).unwrap().spec_display() + seq![DisplayElement::Literal(" "), DisplayElement::Register(register_of(bits_u8(t[0], 4, 4)))]
            })
            &&& (core_instruction(v) is Var18 ==> {
                &&& n == 2
                &&& bits_u8(t[1], 4, 4) == 15
                &&& bits_u8(t[1], 0, 4) == 6
                &&& bits_u8(t[0], 3, 1) == 1
                &&& v.spec_display(r, inst_start, inst_next) == seq![DisplayElement::Literal("call")] + TableCC::spec_parse(t).unwrap().spec_display() + seq![DisplayElement::Literal(" "), DisplayElement::Register(register_of(bits_u8(t[0], 4, 4)))]
            })
            &&& (core_instruction(v) is Var19 ==> {
                &&& n == 2
                &&& bits_u8(t[1], 4, 4) == 13
                &&& bits_u8(t[1], 0, 4) == 9
                &&& bits_u8(t[0], 4, 4) == 0
                &&& v.spec_display(r, inst_start, inst_next) == seq![DisplayElement::Literal("fctx"), DisplayElement::Literal(" "), DisplayElement::Literal("#"), DisplayElement::Number(true, (bits_u8(t[0], 0, 4)) as i64)]
                &&& r == with_fctx(entry_regs(regs), bits_u8(t[0], 0, 4))
                &&& v.spec_sets(r, inst_start, inst_next) == seq![GlobalSetRequest::Fctx(Some(inst_next), bits_u8(t[0], 0, 4) as i64)]
            })
            &&& (core_instruction(v) is Var20 ==> {
                &&& n == 4
                &&& bits_u8(t[1], 4, 4) == 13
                &&& bits_u8(t[1], 0, 4) == 9
                &&& bits_u8(t[0], 4, 4) == 2
                &&& v.spec_display(r, inst_start, inst_next) == seq![DisplayElement::Literal("nfctx"), DisplayElement::Literal(" "), DisplayElement::Number(true, (inst_start + sign_extend(t[2] as u16, 8)) as i64), DisplayElement::Literal(","), DisplayElement::Literal("#"), DisplayElement::Number(true, (bits_u8(t[0], 0, 4)) as i64)]
                &&& r == with_nfctx(entry_regs(regs), bits_u8(t[0], 0, 4))
                &&& v.spec_sets(r, inst_start, inst_next) == seq![GlobalSetRequest::Nfctx(Some((inst_start + sign_extend(t[2] as u16, 8)) as u32), bits_u8(t[0], 0, 4) as i64)]
            })
            &&& (core_instruction(v) is Var21 ==> {
                &&& n == 2
                &&& bits_u8(t[1], 4, 4) == 13
                &&& bits_u8(t[1], 0, 4) == 9
                &&& bits_u8(t[0], 4, 4) == 1
                &&& v.spec_display(r, inst_start, inst_next) == seq![DisplayElement::Literal("nfctx"), DisplayElement::Literal(" "), DisplayElement::Literal("#"), DisplayElement::Number(true, (bits_u8(t[0], 0, 4)) as i64)]
                &&& r == with_nfctx(entry_regs(regs), bits_u8(t[0], 0, 4))
                &&& v.spec_sets(r, inst_start, inst_next) == seq![GlobalSetRequest::Nfctx(Some(inst_next), bits_u8(t[0], 0, 4) as i64)]
            })
            &&& (core_instruction(v) is Var22 ==> {
                &&& n == 2 + bits_u8(t[0], 0, 4)
                &&& bits_u8(t[1], 4, 4) == 13
                &&& bits_u8(t[1], 0, 4) == 9
                &&& bits_u8(t[0], 4, 4) == 3
                &&& v.spec_display(r, inst_start, inst_next) == seq![DisplayElement::Literal("nop"), DisplayElement::Literal(" "), DisplayElement::Literal("#"), DisplayElement::Number(true, (bits_u8(t[0], 0, 4) + 2) as i64)]
                &&& r == with_counter(entry_regs(regs), 0)
            })
            &&& (core_instruction(v) is Var31 ==> {
                &&& n == 2
                &&& bits_u8(t[1], 4, 4) == 12
                &&& bits_u8(t[1], 0, 4) == 8
                &&& v.spec_display(r, inst_start, inst_next) == seq![DisplayElement::Literal("add"), DisplayElement::Literal("  "), DisplayElement::Register(register_of(bits_u8(t[0], 4, 4))), DisplayElement::Literal(", "), DisplayElement::Literal("#"), DisplayElement::Number(true, (sign_extend(bits_u8(t[0], 0, 4) as u16, 4)) as i64)]
            })
            &&& (core_instruction(v) is Var32 ==> {
                &&& n == 2
                &&& bits_u8(t[1], 4, 4) == 12
                &&& bits_u8(t[1], 0, 4) == 9
                &&& v.spec_display(r, inst_start, inst_next) == seq![DisplayElement::Literal("sub"), DisplayElement::Literal("  "), DisplayElement::Register(register_of(bits_u8(t[0], 4, 4))), DisplayElement::Literal(", "), DisplayElement::Literal("#"), DisplayElement::Number(true, (sign_extend(bits_u8(t[0], 0, 4) as u16, 4)) as i64)]
            })
            &&& (core_instruction(v) is Var33 ==> {
                &&& n == 2
                &&& bits_u8(t[1], 4, 4) == 12
                &&& bits_u8(t[1], 0, 4) == 10
                &&& v.spec_display(r, inst_start, inst_next) == seq![DisplayElement::Literal("rsub"), DisplayElement::Literal(" "), DisplayElement::Register(register_of(bits_u8(t[0], 4, 4))), DisplayElement::Literal(", "), DisplayElement::Literal("#"), DisplayElement::Number(true, (sign_extend(bits_u8(t[0], 0, 4) as u16, 4)) as i64)]
            })
            &&& (core_instruction(v) is Var34 ==> {
                &&& n == 2
                &&& bits_u8(t[1], 4, 4) == 12
                &&& bits_u8(t[1], 0, 4) == 11
                &&& v.spec_display(r, inst_start, inst_next) == seq![DisplayElement::Literal("mul"), DisplayElement::Literal("  "), DisplayElement::Register(register_of(bits_u8(t[0], 4, 4))), DisplayElement::Literal(", "), DisplayElement::Literal("#"), DisplayElement::Number(true, (sign_extend(bits_u8(t[0], 0, 4) as u16, 4)) as i64)]
            })
            &&& (core_instruction(v) is Var35 ==> {
                &&& n == 2
                &&& bits_u8(t[1], 4, 4) == 12
                &&& bits_u8(t[1], 0, 4) == 12
                &&& v.spec_display(r, inst_start, inst_next) == seq![DisplayElement::Literal("div"), DisplayElement::Literal("  "), DisplayElement::Register(register_of(bits_u8(t[0], 4, 4))), DisplayElement::Literal(", "), DisplayElement::Literal("#"), DisplayElement::Number(true, (sign_extend(bits_u8(t[0], 0, 4) as u16, 4)) as i64)]
            })
            &&& (core_instruction(v) is Var36 ==> {
                &&& n == 2
                &&& bits_u8(t[1], 4, 4) == 12
                &&& bits_u8(t[1], 0, 4) == 13
                &&& v.spec_display(r, inst_start, inst_next) == seq![DisplayElement::Literal("mod"), DisplayElement::Literal("  "), DisplayElement::Register(register_of(bits_u8(t[0], 4, 4))), DisplayElement::Literal(", "), DisplayElement::Literal("#"), DisplayElement::Number(true, (bits_u8(t[0], 0, 4)) as i64)]
            })
            &&& (core_instruction(v) is Var37 ==> {
                &&& n == 2
                &&& bits_u8(t[1], 4, 4) == 12
                &&& bits_u8(t[1], 0, 4) == 14
                &&& v.spec_display(r, inst_start, inst_next) == seq![DisplayElement::Literal("cmp"), DisplayElement::Literal("  "), DisplayElement::Register(register_of(bits_u8(t[0], 4, 4))), DisplayElement::Literal(", "), DisplayElement::Literal("#"), DisplayElement::Number(true, (sign_extend(bits_u8(t[0], 0, 4) as u16, 4)) as i64)]
            })
            &&& (core_instruction(v) is Var38 ==> {
                &&& n == 2
                &&& bits_u8(t[1], 4, 4) == 12
                &&& bits_u8(t[1], 0, 4) == 15
                &&& v.spec_display(r, inst_start, inst_next) == seq![DisplayElement::Literal("ucmp"), DisplayElement::Literal(" "), DisplayElement::Register(register_of(bits_u8(t[0], 4, 4))), DisplayElement::Literal(", "), DisplayElement::Literal("#"), DisplayElement::Number(true, (bits_u8(t[0], 0, 4)) as i64)]
            })
            &&& (core_instruction(v) is Var46 ==> {
                &&& n == 2
                &&& bits_u8(t[1], 4, 4) == 13
                &&& bits_u8(t[1], 0, 4) == 11
                &&& v.spec_display(r, inst_start, inst_next) == seq![DisplayElement::Literal("lsr"), DisplayElement::Literal("  "), DisplayElement::Register(register_of(bits_u8(t[0], 4, 4))), DisplayElement::Literal(", "), DisplayElement::Literal("#"), DisplayElement::Number(true, (bits_u8(t[0], 0, 4)) as i64)]
            })
            &&& (core_instruction(v) is Var47 ==> {
                &&& n == 2
                &&& bits_u8(t[1], 4, 4) == 13
                &&& bits_u8(t[1], 0, 4) == 12
                &&& v.spec_display(r, inst_start, inst_next) == seq![DisplayElement::Literal("asr"), DisplayElement::Literal("  "), DisplayElement::Register(register_of(bits_u8(t[0], 4, 4))), DisplayElement::Literal(", "), DisplayElement::Literal("#"), DisplayElement::Number(true, (bits_u8(t[0], 0, 4)) as i64)]
            })
            &&& (core_instruction(v) is Var48 ==> {
                &&& n == 2
                &&& bits_u8(t[1], 4, 4) == 13
                &&& bits_u8(t[1], 0, 4) == 13
                &&& v.spec_display(r, inst_start, inst_next) == seq![DisplayElement::Literal("lsl"), DisplayElement::Literal("  "), DisplayElement::Register(register_of(bits_u8(t[0], 4, 4))), DisplayElement::Literal(", "), DisplayElement::Literal("#"), DisplayElement::Number(true, (bits_u8(t[0], 0, 4)) as i64)]
            })
            &&& (core_instruction(v) is Var49 ==> {
                &&& n == 2
                &&& bits_u8(t[1], 4, 4) == 13
                &&& bits_u8(t[1], 0, 4) == 6
                &&& v.spec_display(r, inst_start, inst_next) == seq![DisplayElement::Literal("load"), DisplayElement::Literal("  "), DisplayElement::Register(register_of(bits_u8(t[0], 4, 4))), DisplayElement::Literal(", "), DisplayElement::Literal("["), DisplayElement::Register(register_of(bits_u8(t[0], 0, 4))), DisplayElement::Literal("]")]
            })
            &&& (core_instruction(v) is Var50 ==> {
                &&& n == 2
                &&& bits_u8(t[1], 4, 4) == 13
                &&& bits_u8(t[1], 0, 4) == 7
                &&& v.spec_display(r, inst_start, inst_next) == seq![DisplayElement::Literal("store"), DisplayElement::Literal(" "), DisplayElement::Literal("["), DisplayElement::Register(register_of(bits_u8(t[0], 4, 4))), DisplayElement::Literal("]"), DisplayElement::Literal(", "), DisplayElement::Register(register_of(bits_u8(t[0], 0, 4)))]
            })
            &&& (core_instruction(v) is Var58 ==> {
                &&& n == 2
                &&& bits_u8(t[1], 6, 2) == 2
                &&& v.spec_display(r, inst_start, inst_next) == seq![DisplayElement::Literal("simm"), DisplayElement::Literal(" "), DisplayElement::Register(register_of(bits_u8(t[1], 0, 4))), DisplayElement::Literal(", "), DisplayElement::Literal("#"), DisplayElement::Number(true, (sign_extend(bits_u8(t[1], 4, 2) as u16, 2) * 256 + t[0]) as i64)]
            })
            &&& (core_instruction(v) is Var59 ==> {
                &&& n == 2
                &&& bits_u8(t[1], 7, 1) == 0
                &&& v.spec_display(r, inst_start, inst_next) == seq![DisplayElement::Literal("imm"), DisplayElement::Literal("  "), DisplayElement::Register(register_of(bits_u8(t[1], 0, 4))), DisplayElement::Literal(", "), DisplayElement::Literal("#"), DisplayElement::Number(true, (bits_u8(t[1], 4, 2) * 256 + t[0]) as i64)]
            })
        },
{
    lemma_form1(t, regs, inst_start, inst_next);
    lemma_form2(t, regs, inst_start, inst_next);
    lemma_form3(t, regs, inst_start, inst_next);
    lemma_form6(t, regs, inst_start, inst_next);
    lemma_form16(t, regs, inst_start, inst_next);
    lemma_form17(t, regs, inst_start, inst_next);
    lemma_form18(t, regs, inst_start, inst_next);
    lemma_form19(t, regs, inst_start, inst_next);
    lemma_form20(t, regs, inst_start, inst_next);
    lemma_form21(t, regs, inst_start, inst_next);
    lemma_form22(t, regs, inst_start, inst_next);
    lemma_form31(t, regs, inst_start, inst_next);
    lemma_form32(t, regs, inst_start, inst_next);
    lemma_form33(t, regs, inst_start, inst_next);
    lemma_form34(t, regs, inst_start, inst_next);
    lemma_form35(t, regs, inst_start, inst_next);
    lemma_form36(t, regs, inst_start, inst_next);
    lemma_form37(t, regs, inst_start, inst_next);
    lemma_form38(t, regs, inst_start, inst_next);
    lemma_form46(t, regs, inst_start, inst_next);
    lemma_form47(t, regs, inst_start, inst_next);
    lemma_form48(t, regs, inst_start, inst_next);
    lemma_form49(t, regs, inst_start, inst_next);
    lemma_form50(t, regs, inst_start, inst_next);
    lemma_form58(t, regs, inst_start, inst_next);
    lemma_form59(t, regs, inst_start, inst_next);
}

proof fn lemma_decodes_form1(t: Seq<u8>, regs: Seq<u8>)
    requires
        regs.len() == 8,
        phase_of(regs) <= 1,
        t.len() >= 2,
        bits_u8(t[1], 4, 4) == 15,
        bits_u8(t[1], 0, 4) == 4,
        t[0] == 0,
    ensures
        Tableinstruction::spec_parse(t, regs) matches Some((n, v, r)) && core_instruction(v) is Var1,
{
    lemma_byte_fields(t[0]);
    lemma_byte_fields(t[1]);
    law_phase_read_after_write(regs, 1);
    law_phase_keeps_nfctx(regs);
    assert forall|j: int| 1 <= j < 1 implies Tableinstruction::spec_form(j, t, entry_regs(regs)) is None by {}
    lemma_decodes_as(t, regs, 1);
}

proof fn lemma_decodes_form2(t: Seq<u8>, regs: Seq<u8>)
    requires
        regs.len() == 8,
        phase_of(regs) <= 1,
        t.len() >= 2,
        bits_u8(t[1], 4, 4) == 10,
        bits_u8(t[1], 0, 4) == 3,
        t[0] == 0,
    ensures
        Tableinstruction::spec_parse(t, regs) matches Some((n, v, r)) && core_instruction(v) is Var2,
{
    lemma_byte_fields(t[0]);
    lemma_byte_fields(t[1]);
    law_phase_read_after_write(regs, 1);
    law_phase_keeps_nfctx(regs);
    assert forall|j: int| 1 <= j < 2 implies Tableinstruction::spec_form(j, t, entry_regs(regs)) is None by {}
    lemma_decodes_as(t, regs, 2);
}

proof fn lemma_decodes_form3(t: Seq<u8>, regs: Seq<u8>)
    requires
        regs.len() == 8,
        phase_of(regs) <= 1,
        t.len() >= 2,
        bits_u8(t[1], 4, 4) == 10,
        bits_u8(t[1], 0, 4) == 8,
        t[0] == 0,
    ensures
        Tableinstruction::spec_parse(t, regs) matches Some((n, v, r)) && core_instruction(v) is Var3,
{
    lemma_byte_fields(t[0]);
    lemma_byte_fields(t[1]);
    law_phase_read_after_write(regs, 1);
    law_phase_keeps_nfctx(regs);
    assert forall|j: int| 1 <= j < 3 implies Tableinstruction::spec_form(j, t, entry_regs(regs)) is None by {}
    lemma_decodes_as(t, regs, 3);
}

proof fn lemma_decodes_form6(t: Seq<u8>, regs: Seq<u8>)
    requires
        regs.len() == 8,
        phase_of(regs) <= 1,
        t.len() >= 2,
        bits_u8(t[1], 4, 4) == 8,
        bits_u8(t[1], 0, 4) == 0,
        bits_u8(t[0], 4, 4) == 0,
        bits_u8(t[0], 3, 1) == 0,
    ensures
        Tableinstruction::spec_parse(t, regs) matches Some((n, v, r)) && core_instruction(v) is Var6,
{
    lemma_byte_fields(t[0]);
    lemma_byte_fields(t[1]);
    law_phase_read_after_write(regs, 1);
    law_phase_keeps_nfctx(regs);
    assert forall|j: int| 1 <= j < 6 implies Tableinstruction::spec_form(j, t, entry_regs(regs)) is None by {}
    lemma_decodes_as(t, regs, 6);
}

proof fn lemma_decodes_form16(t: Seq<u8>, regs: Seq<u8>)
    requires
        regs.len() == 8,
        phase_of(regs) <= 1,
        t.len() >= 2,
        bits_u8(t[1], 4, 4) == 15,
        bits_u8(t[1], 0, 4) == 0,
        bits_u8(t[0], 3, 1) == 0,
    ensures
        Tableinstruction::spec_parse(t, regs) matches Some((n, v, r)) && core_instruction(v) is Var16,
{
    lemma_byte_fields(t[0]);
    lemma_byte_fields(t[1]);
    law_phase_read_after_write(regs, 1);
    law_phase_keeps_nfctx(regs);
    assert forall|j: int| 1 <= j < 16 implies Tableinstruction::spec_form(j, t, entry_regs(regs)) is None by {}
    lemma_decodes_as(t, regs, 16);
}

proof fn lemma_decodes_form17(t: Seq<u8>, regs: Seq<u8>)
    requires
        regs.len() == 8,
        phase_of(regs) <= 1,
        t.len() >= 2,
        bits_u8(t[1], 4, 4) == 15,
        bits_u8(t[1], 0, 4) == 1,
        bits_u8(t[0], 3, 1) == 0,
    ensures
        Tableinstruction::spec_parse(t, regs) matches Some((n, v, r)) && core_instruction(v) is Var17,
{
    lemma_byte_fields(t[0]);
    lemma_byte_fields(t[1]);
    law_phase_read_after_write(regs, 1);
    law_phase_keeps_nfctx(regs);
    assert forall|j: int| 1 <= j < 17 implies Tableinstruction::spec_form(j, t, entry_regs(regs)) is None by {}
    lemma_decodes_as(t, regs, 17);
}

proof fn lemma_decodes_form18(t: Seq<u8>, regs: Seq<u8>)
    requires
        regs.len() == 8,
        phase_of(regs) <= 1,
        t.len() >= 2,
        bits_u8(t[1], 4, 4) == 15,
        bits_u8(t[1], 0, 4) == 6,
        bits_u8(t[0], 3, 1) == 1,
    ensures
        Tableinstruction::spec_parse(t, regs) matches Some((n, v, r)) && core_instruction(v) is Var18,
{
    lemma_byte_fields(t[0]);
    lemma_byte_fields(t[1]);
    law_phase_read_after_write(regs, 1);
    law_phase_keeps_nfctx(regs);
    assert forall|j: int| 1 <= j < 18 implies Tableinstruction::spec_form(j, t, entry_regs(regs)) is None by {}
    lemma_decodes_as(t, regs, 18);
}

proof fn lemma_decodes_form19(t: Seq<u8>, regs: Seq<u8>)
    requires
        regs.len() == 8,
        phase_of(regs) <= 1,
        t.len() >= 2,
        bits_u8(t[1], 4, 4) == 13,
        bits_u8(t[1], 0, 4) == 9,
        bits_u8(t[0], 4, 4) == 0,
    ensures
        Tableinstruction::spec_parse(t, regs) matches Some((n, v, r)) && core_instruction(v) is Var19,
{
    lemma_byte_fields(t[0]);
    lemma_byte_fields(t[1]);
    law_phase_read_after_write(regs, 1);
    law_phase_keeps_nfctx(regs);
    assert forall|j: int| 1 <= j < 19 implies Tableinstruction::spec_form(j, t, entry_regs(regs)) is None by {}
    lemma_decodes_as(t, regs, 19);
}

proof fn lemma_decodes_form20(t: Seq<u8>, regs: Seq<u8>)
    requires
        regs.len() == 8,
        phase_of(regs) <= 1,
        t.len() >= 2,
        bits_u8(t[1], 4, 4) == 13,
        bits_u8(t[1], 0, 4) == 9,
        bits_u8(t[0], 4, 4) == 2,
        t.len() >= 4,
    ensures
        Tableinstruction::spec_parse(t, regs) matches Some((n, v, r)) && core_instruction(v) is Var20,
{
    lemma_byte_fields(t[0]);
    lemma_byte_fields(t[1]);
    law_phase_read_after_write(regs, 1);
    law_phase_keeps_nfctx(regs);
    assert forall|j: int| 1 <= j < 20 implies Tableinstruction::spec_form(j, t, entry_regs(regs)) is None by {}
    lemma_decodes_as(t, regs, 20);
}

proof fn lemma_decodes_form21(t: Seq<u8>, regs: Seq<u8>)
    requires
        regs.len() == 8,
        phase_of(regs) <= 1,
        t.len() >= 2,
        bits_u8(t[1], 4, 4) == 13,
        bits_u8(t[1], 0, 4) == 9,
        bits_u8(t[0], 4, 4) == 1,
    ensures
        Tableinstruction::spec_parse(t, regs) matches Some((n, v, r)) && core_instruction(v) is Var21,
{
    lemma_byte_fields(t[0]);
    lemma_byte_fields(t[1]);
    law_phase_read_after_write(regs, 1);
    law_phase_keeps_nfctx(regs);
    assert forall|j: int| 1 <= j < 21 implies Tableinstruction::spec_form(j, t, entry_regs(regs)) is None by {}
    lemma_decodes_as(t, regs, 21);
}

proof fn lemma_decodes_form22(t: Seq<u8>, regs: Seq<u8>)
    requires
        regs.len() == 8,
        phase_of(regs) <= 1,
        t.len() >= 2,
        bits_u8(t[1], 4, 4) == 13,
        bits_u8(t[1], 0, 4) == 9,
        bits_u8(t[0], 4, 4) == 3,
        t.len() >= 2 + bits_u8(t[0], 0, 4),
    ensures
        Tableinstruction::spec_parse(t, regs) matches Some((n, v, r)) && core_instruction(v) is Var22,
{
    lemma_byte_fields(t[0]);
    lemma_byte_fields(t[1]);
    law_phase_read_after_write(regs, 1);
    law_phase_keeps_nfctx(regs);
    assert forall|j: int| 1 <= j < 22 implies Tableinstruction::spec_form(j, t, entry_regs(regs)) is None by {}
    lemma_decodes_as(t, regs, 22);
}

proof fn lemma_decodes_form31(t: Seq<u8>, regs: Seq<u8>)
    requires
        regs.len() == 8,
        phase_of(regs) <= 1,
        t.len() >= 2,
        bits_u8(t[1], 4, 4) == 12,
        bits_u8(t[1], 0, 4) == 8,
    ensures
        Tableinstruction::spec_parse(t, regs) matches Some((n, v, r)) && core_instruction(v) is Var31,
{
    lemma_byte_fields(t[0]);
    lemma_byte_fields(t[1]);
    law_phase_read_after_write(regs, 1);
    law_phase_keeps_nfctx(regs);
    assert forall|j: int| 1 <= j < 31 implies Tableinstruction::spec_form(j, t, entry_regs(regs)) is None by {}
    lemma_decodes_as(t, regs, 31);
}

proof fn lemma_decodes_form32(t: Seq<u8>, regs: Seq<u8>)
    requires
        regs.len() == 8,
        phase_of(regs) <= 1,
        t.len() >= 2,
        bits_u8(t[1], 4, 4) == 12,
        bits_u8(t[1], 0, 4) == 9,
    ensures
        Tableinstruction::spec_parse(t, regs) matches Some((n, v, r)) && core_instruction(v) is Var32,
{
    lemma_byte_fields(t[0]);
    lemma_byte_fields(t[1]);
    law_phase_read_after_write(regs, 1);
    law_phase_keeps_nfctx(regs);
    assert forall|j: int| 1 <= j < 32 implies Tableinstruction::spec_form(j, t, entry_regs(regs)) is None by {}
    lemma_decodes_as(t, regs, 32);
}

proof fn lemma_decodes_form33(t: Seq<u8>, regs: Seq<u8>)
    requires
        regs.len() == 8,
        phase_of(regs) <= 1,
        t.len() >= 2,
        bits_u8(t[1], 4, 4) == 12,
        bits_u8(t[1], 0, 4) == 10,
    ensures
        Tableinstruction::spec_parse(t, regs) matches Some((n, v, r)) && core_instruction(v) is Var33,
{
    lemma_byte_fields(t[0]);
    lemma_byte_fields(t[1]);
    law_phase_read_after_write(regs, 1);
    law_phase_keeps_nfctx(regs);
    assert forall|j: int| 1 <= j < 33 implies Tableinstruction::spec_form(j, t, entry_regs(regs)) is None by {}
    lemma_decodes_as(t, regs, 33);
}

proof fn lemma_decodes_form34(t: Seq<u8>, regs: Seq<u8>)
    requires
        regs.len() == 8,
        phase_of(regs) <= 1,
        t.len() >= 2,
        bits_u8(t[1], 4, 4) == 12,
        bits_u8(t[1], 0, 4) == 11,
    ensures
        Tableinstruction::spec_parse(t, regs) matches Some((n, v, r)) && core_instruction(v) is Var34,
{
    lemma_byte_fields(t[0]);
    lemma_byte_fields(t[1]);
    law_phase_read_after_write(regs, 1);
    law_phase_keeps_nfctx(regs);
    assert forall|j: int| 1 <= j < 34 implies Tableinstruction::spec_form(j, t, entry_regs(regs)) is None by {}
    lemma_decodes_as(t, regs, 34);
}

proof fn lemma_decodes_form35(t: Seq<u8>, regs: Seq<u8>)
    requires
        regs.len() == 8,
        phase_of(regs) <= 1,
        t.len() >= 2,
        bits_u8(t[1], 4, 4) == 12,
        bits_u8(t[1], 0, 4) == 12,
    ensures
        Tableinstruction::spec_parse(t, regs) matches Some((n, v, r)) && core_instruction(v) is Var35,
{
    lemma_byte_fields(t[0]);
    lemma_byte_fields(t[1]);
    law_phase_read_after_write(regs, 1);
    law_phase_keeps_nfctx(regs);
    assert forall|j: int| 1 <= j < 35 implies Tableinstruction::spec_form(j, t, entry_regs(regs)) is None by {}
    lemma_decodes_as(t, regs, 35);
}

proof fn lemma_decodes_form36(t: Seq<u8>, regs: Seq<u8>)
    requires
        regs.len() == 8,
        phase_of(regs) <= 1,
        t.len() >= 2,
        bits_u8(t[1], 4, 4) == 12,
        bits_u8(t[1], 0, 4) == 13,
    ensures
        Tableinstruction::spec_parse(t, regs) matches Some((n, v, r)) && core_instruction(v) is Var36,
{
    lemma_byte_fields(t[0]);
    lemma_byte_fields(t[1]);
    law_phase_read_after_write(regs, 1);
    law_phase_keeps_nfctx(regs);
    assert forall|j: int| 1 <= j < 36 implies Tableinstruction::spec_form(j, t, entry_regs(regs)) is None by {}
    lemma_decodes_as(t, regs, 36);
}

proof fn lemma_decodes_form37(t: Seq<u8>, regs: Seq<u8>)
    requires
        regs.len() == 8,
        phase_of(regs) <= 1,
        t.len() >= 2,
        bits_u8(t[1], 4, 4) == 12,
        bits_u8(t[1], 0, 4) == 14,
    ensures
        Tableinstruction::spec_parse(t, regs) matches Some((n, v, r)) && core_instruction(v) is Var37,
{
    lemma_byte_fields(t[0]);
    lemma_byte_fields(t[1]);
    law_phase_read_after_write(regs, 1);
    law_phase_keeps_nfctx(regs);
    assert forall|j: int| 1 <= j < 37 implies Tableinstruction::spec_form(j, t, entry_regs(regs)) is None by {}
    lemma_decodes_as(t, regs, 37);
}

proof fn lemma_decodes_form38(t: Seq<u8>, regs: Seq<u8>)
    requires
        regs.len() == 8,
        phase_of(regs) <= 1,
        t.len() >= 2,
        bits_u8(t[1], 4, 4) == 12,
        bits_u8(t[1], 0, 4) == 15,
    ensures
        Tableinstruction::spec_parse(t, regs) matches Some((n, v, r)) && core_instruction(v) is Var38,
{
    lemma_byte_fields(t[0]);
    lemma_byte_fields(t[1]);
    law_phase_read_after_write(regs, 1);
    law_phase_keeps_nfctx(regs);
    assert forall|j: int| 1 <= j < 38 implies Tableinstruction::spec_form(j, t, entry_regs(regs)) is None by {}
    lemma_decodes_as(t, regs, 38);
}

proof fn lemma_decodes_form46(t: Seq<u8>, regs: Seq<u8>)
    requires
        regs.len() == 8,
        phase_of(regs) <= 1,
        t.len() >= 2,
        bits_u8(t[1], 4, 4) == 13,
        bits_u8(t[1], 0, 4) == 11,
    ensures
        Tableinstruction::spec_parse(t, regs) matches Some((n, v, r)) && core_instruction(v) is Var46,
{
    lemma_byte_fields(t[0]);
    lemma_byte_fields(t[1]);
    law_phase_read_after_write(regs, 1);
    law_phase_keeps_nfctx(regs);
    assert forall|j: int| 1 <= j < 46 implies Tableinstruction::spec_form(j, t, entry_regs(regs)) is None by {}
    lemma_decodes_as(t, regs, 46);
}

proof fn lemma_decodes_form47(t: Seq<u8>, regs: Seq<u8>)
    requires
        regs.len() == 8,
        phase_of(regs) <= 1,
        t.len() >= 2,
        bits_u8(t[1], 4, 4) == 13,
        bits_u8(t[1], 0, 4) == 12,
    ensures
        Tableinstruction::spec_parse(t, regs) matches Some((n, v, r)) && core_instruction(v) is Var47,
{
    lemma_byte_fields(t[0]);
    lemma_byte_fields(t[1]);
    law_phase_read_after_write(regs, 1);
    law_phase_keeps_nfctx(regs);
    assert forall|j: int| 1 <= j < 47 implies Tableinstruction::spec_form(j, t, entry_regs(regs)) is None by {}
    lemma_decodes_as(t, regs, 47);
}

proof fn lemma_decodes_form48(t: Seq<u8>, regs: Seq<u8>)
    requires
        regs.len() == 8,
        phase_of(regs) <= 1,
        t.len() >= 2,
        bits_u8(t[1], 4, 4) == 13,
        bits_u8(t[1], 0, 4) == 13,
    ensures
        Tableinstruction::spec_parse(t, regs) matches Some((n, v, r)) && core_instruction(v) is Var48,
{
    lemma_byte_fields(t[0]);
    lemma_byte_fields(t[1]);
    law_phase_read_after_write(regs, 1);
    law_phase_keeps_nfctx(regs);
    assert forall|j: int| 1 <= j < 48 implies Tableinstruction::spec_form(j, t, entry_regs(regs)) is None by {}
    lemma_decodes_as(t, regs, 48);
}

proof fn lemma_decodes_form49(t: Seq<u8>, regs: Seq<u8>)
    requires
        regs.len() == 8,
        phase_of(regs) <= 1,
        t.len() >= 2,
        bits_u8(t[1], 4, 4) == 13,
        bits_u8(t[1], 0, 4) == 6,
    ensures
        Tableinstruction::spec_parse(t, regs) matches Some((n, v, r)) && core_instruction(v) is Var49,
{
    lemma_byte_fields(t[0]);
    lemma_byte_fields(t[1]);
    law_phase_read_after_write(regs, 1);
    law_phase_keeps_nfctx(regs);
    assert forall|j: int| 1 <= j < 49 implies Tableinstruction::spec_form(j, t, entry_regs(regs)) is None by {}
    lemma_decodes_as(t, regs, 49);
}

proof fn lemma_decodes_form50(t: Seq<u8>, regs: Seq<u8>)
    requires
        regs.len() == 8,
        phase_of(regs) <= 1,
        t.len() >= 2,
        bits_u8(t[1], 4, 4) == 13,
        bits_u8(t[1], 0, 4) == 7,
    ensures
        Tableinstruction::spec_parse(t, regs) matches Some((n, v, r)) && core_instruction(v) is Var50,
{
    lemma_byte_fields(t[0]);
    lemma_byte_fields(t[1]);
    law_phase_read_after_write(regs, 1);
    law_phase_keeps_nfctx(regs);
    assert forall|j: int| 1 <= j < 50 implies Tableinstruction::spec_form(j, t, entry_regs(regs)) is None by {}
    lemma_decodes_as(t, regs, 50);
}

proof fn lemma_decodes_form58(t: Seq<u8>, regs: Seq<u8>)
    requires
        regs.len() == 8,
        phase_of(regs) <= 1,
        t.len() >= 2,
        bits_u8(t[1], 6, 2) == 2,
        (bits_u8(t[1], 4, 4) == 9 || bits_u8(t[1], 4, 4) == 11),
    ensures
        Tableinstruction::spec_parse(t, regs) matches Some((n, v, r)) && core_instruction(v) is Var58,
{
    lemma_byte_fields(t[0]);
    lemma_byte_fields(t[1]);
    law_phase_read_after_write(regs, 1);
    law_phase_keeps_nfctx(regs);
    assert forall|j: int| 1 <= j < 58 implies Tableinstruction::spec_form(j, t, entry_regs(regs)) is None by {}
    lemma_decodes_as(t, regs, 58);
}

proof fn lemma_decodes_form59(t: Seq<u8>, regs: Seq<u8>)
    requires
        regs.len() == 8,
        phase_of(regs) <= 1,
        t.len() >= 2,
        bits_u8(t[1], 7, 1) == 0,
    ensures
        Tableinstruction::spec_parse(t, regs) matches Some((n, v, r)) && core_instruction(v) is Var59,
{
    lemma_byte_fields(t[0]);
    lemma_byte_fields(t[1]);
    law_phase_read_after_write(regs, 1);
    law_phase_keeps_nfctx(regs);
    assert forall|j: int| 1 <= j < 59 implies Tableinstruction::spec_form(j, t, entry_regs(regs)) is None by {}
    lemma_decodes_as(t, regs, 59);
}

/// Which of the remaining instructions the bytes hold, in phases 0 and 1,
/// whatever else they hold; a single byte `0xf7` is the one-byte `nop`.
pub proof fn law_other_opcodes(t: Seq<u8>, regs: Seq<u8>)
    requires
        regs.len() == 8,
        phase_of(regs) <= 1,
    ensures
        t.len() >= 2 && (bits_u8(t[1], 4, 4) == 15 && bits_u8(t[1], 0, 4) == 4 && t[0] == 0) ==> (Tableinstruction::spec_parse(t, regs) matches Some((n, v, r)) && core_instruction(v) is Var1),
        t.len() >= 2 && (bits_u8(t[1], 4, 4) == 10 && bits_u8(t[1], 0, 4) == 3 && t[0] == 0) ==> (Tableinstruction::spec_parse(t, regs) matches Some((n, v, r)) && core_instruction(v) is Var2),
        t.len() >= 2 && (bits_u8(t[1], 4, 4) == 10 && bits_u8(t[1], 0, 4) == 8 && t[0] == 0) ==> (Tableinstruction::spec_parse(t, regs) matches Some((n, v, r)) && core_instruction(v) is Var3),
        t.len() >= 2 && (bits_u8(t[1], 4, 4) == 8 && bits_u8(t[1], 0, 4) == 0 && bits_u8(t[0], 4, 4) == 0 && bits_u8(t[0], 3, 1) == 0) ==> (Tableinstruction::spec_parse(t, regs) matches Some((n, v, r)) && core_instruction(v) is Var6),
        t.len() >= 2 && (bits_u8(t[1], 4, 4) == 15 && bits_u8(t[1], 0, 4) == 0 && bits_u8(t[0], 3, 1) == 0) ==> (Tableinstruction::spec_parse(t, regs) matches Some((n, v, r)) && core_instruction(v) is Var16),
        t.len() >= 2 && (bits_u8(t[1], 4, 4) == 15 && bits_u8(t[1], 0, 4) == 1 && bits_u8(t[0], 3, 1) == 0) ==> (Tableinstruction::spec_parse(t, regs) matches Some((n, v, r)) && core_instruction(v) is Var17),
        t.len() >= 2 && (bits_u8(t[1], 4, 4) == 15 && bits_u8(t[1], 0, 4) == 6 && bits_u8(t[0], 3, 1) == 1) ==> (Tableinstruction::spec_parse(t, regs) matches Some((n, v, r)) && core_instruction(v) is Var18),
        t.len() >= 2 && (bits_u8(t[1], 4, 4) == 13 && bits_u8(t[1], 0, 4) == 9 && bits_u8(t[0], 4, 4) == 0) ==> (Tableinstruction::spec_parse(t, regs) matches Some((n, v, r)) && core_instruction(v) is Var19),
        t.len() >= 2 && (bits_u8(t[1], 4, 4) == 13 && bits_u8(t[1], 0, 4) == 9 && bits_u8(t[0], 4, 4) == 2 && t.len() >= 4) ==> (Tableinstruction::spec_parse(t, regs) matches Some((n, v, r)) && core_instruction(v) is Var20),
        t.len() >= 2 && (bits_u8(t[1], 4, 4) == 13 && bits_u8(t[1], 0, 4) == 9 && bits_u8(t[0], 4, 4) == 1) ==> (Tableinstruction::spec_parse(t, regs) matches Some((n, v, r)) && core_instruction(v) is Var21),
        t.len() >= 2 && (bits_u8(t[1], 4, 4) == 13 && bits_u8(t[1], 0, 4) == 9 && bits_u8(t[0], 4, 4) == 3 && t.len() >= 2 + bits_u8(t[0], 0, 4)) ==> (Tableinstruction::spec_parse(t, regs) matches Some((n, v, r)) && core_instruction(v) is Var22),
        t.len() >= 2 && (bits_u8(t[1], 4, 4) == 12 && bits_u8(t[1], 0, 4) == 8) ==> (Tableinstruction::spec_parse(t, regs) matches Some((n, v, r)) && core_instruction(v) is Var31),
        t.len() >= 2 && (bits_u8(t[1], 4, 4) == 12 && bits_u8(t[1], 0, 4) == 9) ==> (Tableinstruction::spec_parse(t, regs) matches Some((n, v, r)) && core_instruction(v) is Var32),
        t.len() >= 2 && (bits_u8(t[1], 4, 4) == 12 && bits_u8(t[1], 0, 4) == 10) ==> (Tableinstruction::spec_parse(t, regs) matches Some((n, v, r)) && core_instruction(v) is Var33),
        t.len() >= 2 && (bits_u8(t[1], 4, 4) == 12 && bits_u8(t[1], 0, 4) == 11) ==> (Tableinstruction::spec_parse(t, regs) matches Some((n, v, r)) && core_instruction(v) is Var34),
        t.len() >= 2 && (bits_u8(t[1], 4, 4) == 12 && bits_u8(t[1], 0, 4) == 12) ==> (Tableinstruction::spec_parse(t, regs) matches Some((n, v, r)) && core_instruction(v) is Var35),
        t.len() >= 2 && (bits_u8(t[1], 4, 4) == 12 && bits_u8(t[1], 0, 4) == 13) ==> (Tableinstruction::spec_parse(t, regs) matches Some((n, v, r)) && core_instruction(v) is Var36),
        t.len() >= 2 && (bits_u8(t[1], 4, 4) == 12 && bits_u8(t[1], 0, 4) == 14) ==> (Tableinstruction::spec_parse(t, regs) matches Some((n, v, r)) && core_instruction(v) is Var37),
        t.len() >= 2 && (bits_u8(t[1], 4, 4) == 12 && bits_u8(t[1], 0, 4) == 15) ==> (Tableinstruction::spec_parse(t, regs) matches Some((n, v, r)) && core_instruction(v) is Var38),
        t.len() >= 2 && (bits_u8(t[1], 4, 4) == 13 && bits_u8(t[1], 0, 4) == 11) ==> (Tableinstruction::spec_parse(t, regs) matches Some((n, v, r)) && core_instruction(v) is Var46),
        t.len() >= 2 && (bits_u8(t[1], 4, 4) == 13 && bits_u8(t[1], 0, 4) == 12) ==> (Tableinstruction::spec_parse(t, regs) matches Some((n, v, r)) && core_instruction(v) is Var47),
        t.len() >= 2 && (bits_u8(t[1], 4, 4) == 13 && bits_u8(t[1], 0, 4) == 13) ==> (Tableinstruction::spec_parse(t, regs) matches Some((n, v, r)) && core_instruction(v) is Var48),
        t.len() >= 2 && (bits_u8(t[1], 4, 4) == 13 && bits_u8(t[1], 0, 4) == 6) ==> (Tableinstruction::spec_parse(t, regs) matches Some((n, v, r)) && core_instruction(v) is Var49),
        t.len() >= 2 && (bits_u8(t[1], 4, 4) == 13 && bits_u8(t[1], 0, 4) == 7) ==> (Tableinstruction::spec_parse(t, regs) matches Some((n, v, r)) && core_instruction(v) is Var50),
        t.len() >= 2 && (bits_u8(t[1], 6, 2) == 2 && (bits_u8(t[1], 4, 4) == 9 || bits_u8(t[1], 4, 4) == 11)) ==> (Tableinstruction::spec_parse(t, regs) matches Some((n, v, r)) && core_instruction(v) is Var58),
        t.len() >= 2 && (bits_u8(t[1], 7, 1) == 0) ==> (Tableinstruction::spec_parse(t, regs) matches Some((n, v, r)) && core_instruction(v) is Var59),
        t.len() == 1 && t[0] == 0xf7u8 ==> (Tableinstruction::spec_parse(t, regs) matches Some((n, v, r)) && n == 1
            && core_instruction(v) is Var60 && v.spec_display(r, 0, 0) == seq![DisplayElement::Literal("nop"), DisplayElement::Literal(" "), DisplayElement::Literal("#"), DisplayElement::Number(true, (1) as i64)]),
{
    if t.len() >= 2 && bits_u8(t[1], 4, 4) == 15 && bits_u8(t[1], 0, 4) == 4 && t[0] == 0 {
        lemma_decodes_form1(t, regs);
    }
    if t.len() >= 2 && bits_u8(t[1], 4, 4) == 10 && bits_u8(t[1], 0, 4) == 3 && t[0] == 0 {
        lemma_decodes_form2(t, regs);
    }
    if t.len() >= 2 && bits_u8(t[1], 4, 4) == 10 && bits_u8(t[1], 0, 4) == 8 && t[0] == 0 {
        lemma_decodes_form3(t, regs);
    }
    if t.len() >= 2 && bits_u8(t[1], 4, 4) == 8 && bits_u8(t[1], 0, 4) == 0 && bits_u8(t[0], 4, 4) == 0 && bits_u8(t[0], 3, 1) == 0 {
        lemma_decodes_form6(t, regs);
    }
    if t.len() >= 2 && bits_u8(t[1], 4, 4) == 15 && bits_u8(t[1], 0, 4) == 0 && bits_u8(t[0], 3, 1) == 0 {
        lemma_decodes_form16(t, regs);
    }
    if t.len() >= 2 && bits_u8(t[1], 4, 4) == 15 && bits_u8(t[1], 0, 4) == 1 && bits_u8(t[0], 3, 1) == 0 {
        lemma_decodes_form17(t, regs);
    }
    if t.len() >= 2 && bits_u8(t[1], 4, 4) == 15 && bits_u8(t[1], 0, 4) == 6 && bits_u8(t[0], 3, 1) == 1 {
        lemma_decodes_form18(t, regs);
    }
    if t.len() >= 2 && bits_u8(t[1], 4, 4) == 13 && bits_u8(t[1], 0, 4) == 9 && bits_u8(t[0], 4, 4) == 0 {
        lemma_decodes_form19(t, regs);
    }
    if t.len() >= 2 && bits_u8(t[1], 4, 4) == 13 && bits_u8(t[1], 0, 4) == 9 && bits_u8(t[0], 4, 4) == 2 && t.len() >= 4 {
        lemma_decodes_form20(t, regs);
    }
    if t.len() >= 2 && bits_u8(t[1], 4, 4) == 13 && bits_u8(t[1], 0, 4) == 9 && bits_u8(t[0], 4, 4) == 1 {
        lemma_decodes_form21(t, regs);
    }
    if t.len() >= 2 && bits_u8(t[1], 4, 4) == 13 && bits_u8(t[1], 0, 4) == 9 && bits_u8(t[0], 4, 4) == 3 && t.len() >= 2 + bits_u8(t[0], 0, 4) {
        lemma_decodes_form22(t, regs);
    }
    if t.len() >= 2 && bits_u8(t[1], 4, 4) == 12 && bits_u8(t[1], 0, 4) == 8 {
        lemma_decodes_form31(t, regs);
    }
    if t.len() >= 2 && bits_u8(t[1], 4, 4) == 12 && bits_u8(t[1], 0, 4) == 9 {
        lemma_decodes_form32(t, regs);
    }
    if t.len() >= 2 && bits_u8(t[1], 4, 4) == 12 && bits_u8(t[1], 0, 4) == 10 {
        lemma_decodes_form33(t, regs);
    }
    if t.len() >= 2 && bits_u8(t[1], 4, 4) == 12 && bits_u8(t[1], 0, 4) == 11 {
        lemma_decodes_form34(t, regs);
    }
    if t.len() >= 2 && bits_u8(t[1], 4, 4) == 12 && bits_u8(t[1], 0, 4) == 12 {
        lemma_decodes_form35(t, regs);
    }
    if t.len() >= 2 && bits_u8(t[1], 4, 4) == 12 && bits_u8(t[1], 0, 4) == 13 {
        lemma_decodes_form36(t, regs);
    }
    if t.len() >= 2 && bits_u8(t[1], 4, 4) == 12 && bits_u8(t[1], 0, 4) == 14 {
        lemma_decodes_form37(t, regs);
    }
    if t.len() >= 2 && bits_u8(t[1], 4, 4) == 12 && bits_u8(t[1], 0, 4) == 15 {
        lemma_decodes_form38(t, regs);
    }
    if t.len() >= 2 && bits_u8(t[1], 4, 4) == 13 && bits_u8(t[1], 0, 4) == 11 {
        lemma_decodes_form46(t, regs);
    }
    if t.len() >= 2 && bits_u8(t[1], 4, 4) == 13 && bits_u8(t[1], 0, 4) == 12 {
        lemma_decodes_form47(t, regs);
    }
    if t.len() >= 2 && bits_u8(t[1], 4, 4) == 13 && bits_u8(t[1], 0, 4) == 13 {
        lemma_decodes_form48(t, regs);
    }
    if t.len() >= 2 && bits_u8(t[1], 4, 4) == 13 && bits_u8(t[1], 0, 4) == 6 {
        lemma_decodes_form49(t, regs);
    }
    if t.len() >= 2 && bits_u8(t[1], 4, 4) == 13 && bits_u8(t[1], 0, 4) == 7 {
        lemma_decodes_form50(t, regs);
    }
    if t.len() >= 2 && bits_u8(t[1], 6, 2) == 2 && (bits_u8(t[1], 4, 4) == 9 || bits_u8(t[1], 4, 4) == 11) {
        lemma_decodes_form58(t, regs);
    }
    if t.len() >= 2 && bits_u8(t[1], 7, 1) == 0 {
        lemma_decodes_form59(t, regs);
    }
    if t.len() == 1 && t[0] == 0xf7u8 {
        lemma_byte_fields(t[0]);
        law_phase_read_after_write(regs, 1);
        assert forall|j: int| 1 <= j < 60 implies Tableinstruction::spec_form(j, t, entry_regs(regs)) is None by {}
        lemma_decodes_as(t, regs, 60);
        lemma_decoded(t, regs, 0, 0);
    }
}

/// The condition code in bits 0..2 of the first byte is shown by name: `eq`,
/// `ne`, `lt`, `le`, `lo`, `mi`, `vs`, and nothing for code 7 (always).
pub proof fn law_condition_code_names(t: Seq<u8>)
    ensures
        TableCC::spec_parse(t) is Some <==> t.len() >= 2,
        TableCC::spec_parse(t) matches Some(c) ==> {
            &&& bits_u8(t[0], 0, 3) == 0 ==> c.spec_display() == seq![DisplayElement::Literal("eq")]
            &&& bits_u8(t[0], 0, 3) == 1 ==> c.spec_display() == seq![DisplayElement::Literal("ne")]
            &&& bits_u8(t[0], 0, 3) == 2 ==> c.spec_display() == seq![DisplayElement::Literal("lt")]
            &&& bits_u8(t[0], 0, 3) == 3 ==> c.spec_display() == seq![DisplayElement::Literal("le")]
            &&& bits_u8(t[0], 0, 3) == 4 ==> c.spec_display() == seq![DisplayElement::Literal("lo")]
            &&& bits_u8(t[0], 0, 3) == 5 ==> c.spec_display() == seq![DisplayElement::Literal("mi")]
            &&& bits_u8(t[0], 0, 3) == 6 ==> c.spec_display() == seq![DisplayElement::Literal("vs")]
            &&& bits_u8(t[0], 0, 3) == 7 ==> c.spec_display() == seq![DisplayElement::Literal(""), DisplayElement::Literal("")]
        },
{
}

} // verus!
