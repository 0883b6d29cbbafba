//! The instruction table of the Toy processor and the decoder that runs
//! it: an instruction is the first of the table's constructors, in order,
//! whose pattern the token bytes and the context match.
use vstd::prelude::*;
use vstd::slice::slice_subrange;
use crate::bits::{bits_u8, insert_bits_u8};
use crate::context::{
    ContextTrait, ContextregisterTrait, lemma_store_byte, SpacesStruct, GlobalSetRequest, GlobalSetTrait, phase_of, with_phase, fctx_of, with_fctx, nfctx_of,
    with_nfctx, counter_of, with_counter,
};
use crate::display::DisplayElement;
use crate::tokens::{
    TokenParser, TokenField_rs, TokenField_rt, TokenField_rd, TokenField_imm0003, op8_of, op1515_of,
    op1415_of, op1215_of, op1111_of, op0811_of, op0407_of, op0007_of, op0003_of, op0303_of, rs_of,
    rt_of, rd_of, imm0003_of,
};
use crate::laws::{law_decode_length, law_decode_phase, law_decode_text_nonempty};
use crate::tables::{
    lit, reg, push_all, nop_bytes, lemma_counter_write, TableCC, TableCOND, TableSimm4, TableImm4,
    TableSimm10, TableImm10, TableRel8, TableRel82, TableRel11, TableRS, TableRT, TablenfctxSetAddr,
    TableNopCnt, TableNopByte, TableOne, OneVar0,
};

verus! {

/// Writing the phase field and reading it back gives the value written.
pub proof fn lemma_phase_write(b: u8, v: u8)
    requires
        v < 4,
    ensures
        bits_u8(insert_bits_u8(b, v, 0, 2), 0, 2) == v,
{
    assert(bits_u8(insert_bits_u8(b, v, 0, 2), 0, 2) == v) by (bit_vector)
        requires
            v < 4,
    ;
}

/// 1 while the decoder is still to enter its main table (phase 0), 0 after.
pub open spec fn phase_measure(regs: Seq<u8>) -> nat {
    if phase_of(regs) == 0 {
        1
    } else {
        0
    }
}

/// The entry constructor: in phase 0 it moves the context to phase 1 and
/// decodes the instruction from the main table.
#[derive(Debug)]
pub struct instructionVar0 {
    pub instruction: Box<Tableinstruction>,
}

impl instructionVar0 {
    pub open spec fn spec_parse(t: Seq<u8>, regs: Seq<u8>) -> Option<(nat, Self, Seq<u8>)> {
        if phase_of(regs) == 0 {
            match Tableinstruction::spec_first(t, with_phase(regs, 1), 1) {
                Some((n, v, r)) => Some((n, instructionVar0 { instruction: Box::new(v) }, r)),
                None => None,
            }
        } else {
            None
        }
    }

    /// Enters phase 1 and decodes from the main table.
    pub fn parse(tokens: &[u8], context: &mut SpacesStruct, inst_start: u32) -> (r: Option<(u32, Self)>)
        requires
            old(context)@.len() == 8,
        ensures
            match Self::spec_parse(tokens@, old(context)@) {
                Some((n, v, regs)) => r == Some((n as u32, v)) && final(context)@ == regs,
                None => r is None && *final(context) == *old(context),
            },
            r matches Some((_, v)) ==> v.instruction.wf(),
        decreases phase_measure(old(context)@), 0nat,
    {
        let ghost regs = context@;
        let mut pattern_len: u32 = 0;
        let mut context_instance = *context;
        let mut block_0_len: u32 = 0;
        if context_instance.register().read_phase_disassembly() != 0i64 {
            return None;
        }
        let tmp = 1i64;
        let ghost before = context_instance.register;
        context_instance.register_mut().write_phase_disassembly(tmp);
        proof {
            lemma_store_byte(before, 1, insert_bits_u8(regs[1], 1, 0, 2), context_instance.register);
            lemma_phase_write(regs[1], 1);
            assert(phase_of(context_instance@) == 1);
        }
        let instruction = if let Some((len, table)) = Tableinstruction::parse(
            tokens,
            &mut context_instance,
            inst_start,
        ) {
            if len > block_0_len {
                block_0_len = len;
            }
            Box::new(table)
        } else {
            return None;
        };
        pattern_len = pattern_len + block_0_len;
        *context = context_instance;
        Some((pattern_len, Self { instruction }))
    }

    /// Appends the decoded instruction's text.
    pub fn display_extend(
        &self,
        display: &mut Vec<DisplayElement>,
        context: &SpacesStruct,
        inst_start: u32,
        inst_next: u32,
        global_set: &mut Vec<GlobalSetRequest>,
    )
        requires
            self.instruction.wf(),
            self.instruction.display_ok(inst_start),
        ensures
            final(display)@ == old(display)@ + self.instruction.spec_display(context@, inst_start, inst_next),
            final(global_set)@ == old(global_set)@ + self.instruction.spec_sets(context@, inst_start, inst_next),
        decreases *self,
    {
        self.instruction.display_extend(display, context, inst_start, inst_next, global_set);
    }
}

/// The main instruction table.
#[derive(Debug)]
pub enum Tableinstruction {
    Var0(instructionVar0),
    Var1(instructionVar1),
    Var2(instructionVar2),
    Var3(instructionVar3),
    Var4(instructionVar4),
    Var5(instructionVar5),
    Var6(instructionVar6),
    Var7(instructionVar7),
    Var8(instructionVar8),
    Var9(instructionVar9),
    Var10(instructionVar10),
    Var11(instructionVar11),
    Var12(instructionVar12),
    Var13(instructionVar13),
    Var14(instructionVar14),
    Var15(instructionVar15),
    Var16(instructionVar16),
    Var17(instructionVar17),
    Var18(instructionVar18),
    Var19(instructionVar19),
    Var20(instructionVar20),
    Var21(instructionVar21),
    Var22(instructionVar22),
    Var23(instructionVar23),
    Var24(instructionVar24),
    Var25(instructionVar25),
    Var26(instructionVar26),
    Var27(instructionVar27),
    Var28(instructionVar28),
    Var29(instructionVar29),
    Var30(instructionVar30),
    Var31(instructionVar31),
    Var32(instructionVar32),
    Var33(instructionVar33),
    Var34(instructionVar34),
    Var35(instructionVar35),
    Var36(instructionVar36),
    Var37(instructionVar37),
    Var38(instructionVar38),
    Var39(instructionVar39),
    Var40(instructionVar40),
    Var41(instructionVar41),
    Var42(instructionVar42),
    Var43(instructionVar43),
    Var44(instructionVar44),
    Var45(instructionVar45),
    Var46(instructionVar46),
    Var47(instructionVar47),
    Var48(instructionVar48),
    Var49(instructionVar49),
    Var50(instructionVar50),
    Var51(instructionVar51),
    Var52(instructionVar52),
    Var53(instructionVar53),
    Var54(instructionVar54),
    Var55(instructionVar55),
    Var56(instructionVar56),
    Var57(instructionVar57),
    Var58(instructionVar58),
    Var59(instructionVar59),
    Var60(instructionVar60),
}

impl Tableinstruction {
    /// Constructor `k` (1 to 60) of the table, if the token bytes `t` and the
    /// context registers `regs` match its pattern.
    pub open spec fn spec_form(k: int, t: Seq<u8>, regs: Seq<u8>) -> Option<(nat, Tableinstruction, Seq<u8>)> {
        if k <= 15 {
            Self::spec_form_a(k, t, regs)
        } else if k <= 30 {
            Self::spec_form_b(k, t, regs)
        } else if k <= 45 {
            Self::spec_form_c(k, t, regs)
        } else {
            Self::spec_form_d(k, t, regs)
        }
    }

    /// Constructors 1 to 15.
    pub open spec fn spec_form_a(k: int, t: Seq<u8>, regs: Seq<u8>) -> Option<(nat, Tableinstruction, Seq<u8>)> {
        if k == 1 {
            match instructionVar1::spec_parse(t, regs) {
                Some((len, v, r)) => Some((len, Tableinstruction::Var1(v), r)),
                None => None,
            }
        } else if k == 2 {
            match instructionVar2::spec_parse(t, regs) {
                Some((len, v, r)) => Some((len, Tableinstruction::Var2(v), r)),
                None => None,
            }
        } else if k == 3 {
            match instructionVar3::spec_parse(t, regs) {
                Some((len, v, r)) => Some((len, Tableinstruction::Var3(v), r)),
                None => None,
            }
        } else if k == 4 {
            match instructionVar4::spec_parse(t, regs) {
                Some((len, v, r)) => Some((len, Tableinstruction::Var4(v), r)),
                None => None,
            }
        } else if k == 5 {
            match instructionVar5::spec_parse(t, regs) {
                Some((len, v, r)) => Some((len, Tableinstruction::Var5(v), r)),
                None => None,
            }
        } else if k == 6 {
            match instructionVar6::spec_parse(t, regs) {
                Some((len, v, r)) => Some((len, Tableinstruction::Var6(v), r)),
                None => None,
            }
        } else if k == 7 {
            match instructionVar7::spec_parse(t, regs) {
                Some((len, v, r)) => Some((len, Tableinstruction::Var7(v), r)),
                None => None,
            }
        } else if k == 8 {
            match instructionVar8::spec_parse(t, regs) {
                Some((len, v, r)) => Some((len, Tableinstruction::Var8(v), r)),
                None => None,
            }
        } else if k == 9 {
            match instructionVar9::spec_parse(t, regs) {
                Some((len, v, r)) => Some((len, Tableinstruction::Var9(v), r)),
                None => None,
            }
        } else if k == 10 {
            match instructionVar10::spec_parse(t, regs) {
                Some((len, v, r)) => Some((len, Tableinstruction::Var10(v), r)),
                None => None,
            }
        } else if k == 11 {
            match instructionVar11::spec_parse(t, regs) {
                Some((len, v, r)) => Some((len, Tableinstruction::Var11(v), r)),
                None => None,
            }
        } else if k == 12 {
            match instructionVar12::spec_parse(t, regs) {
                Some((len, v, r)) => Some((len, Tableinstruction::Var12(v), r)),
                None => None,
            }
        } else if k == 13 {
            match instructionVar13::spec_parse(t, regs) {
                Some((len, v, r)) => Some((len, Tableinstruction::Var13(v), r)),
                None => None,
            }
        } else if k == 14 {
            match instructionVar14::spec_parse(t, regs) {
                Some((len, v, r)) => Some((len, Tableinstruction::Var14(v), r)),
                None => None,
            }
        } else if k == 15 {
            match instructionVar15::spec_parse(t, regs) {
                Some((len, v, r)) => Some((len, Tableinstruction::Var15(v), r)),
                None => None,
            }
        } else {
            None
        }
    }

    /// Constructors 16 to 30.
    pub open spec fn spec_form_b(k: int, t: Seq<u8>, regs: Seq<u8>) -> Option<(nat, Tableinstruction, Seq<u8>)> {
        if k == 16 {
            match instructionVar16::spec_parse(t, regs) {
                Some((len, v, r)) => Some((len, Tableinstruction::Var16(v), r)),
                None => None,
            }
        } else if k == 17 {
            match instructionVar17::spec_parse(t, regs) {
                Some((len, v, r)) => Some((len, Tableinstruction::Var17(v), r)),
                None => None,
            }
        } else if k == 18 {
            match instructionVar18::spec_parse(t, regs) {
                Some((len, v, r)) => Some((len, Tableinstruction::Var18(v), r)),
                None => None,
            }
        } else if k == 19 {
            match instructionVar19::spec_parse(t, regs) {
                Some((len, v, r)) => Some((len, Tableinstruction::Var19(v), r)),
                None => None,
            }
        } else if k == 20 {
            match instructionVar20::spec_parse(t, regs) {
                Some((len, v, r)) => Some((len, Tableinstruction::Var20(v), r)),
                None => None,
            }
        } else if k == 21 {
            match instructionVar21::spec_parse(t, regs) {
                Some((len, v, r)) => Some((len, Tableinstruction::Var21(v), r)),
                None => None,
            }
        } else if k == 22 {
            match instructionVar22::spec_parse(t, regs) {
                Some((len, v, r)) => Some((len, Tableinstruction::Var22(v), r)),
                None => None,
            }
        } else if k == 23 {
            match instructionVar23::spec_parse(t, regs) {
                Some((len, v, r)) => Some((len, Tableinstruction::Var23(v), r)),
                None => None,
            }
        } else if k == 24 {
            match instructionVar24::spec_parse(t, regs) {
                Some((len, v, r)) => Some((len, Tableinstruction::Var24(v), r)),
                None => None,
            }
        } else if k == 25 {
            match instructionVar25::spec_parse(t, regs) {
                Some((len, v, r)) => Some((len, Tableinstruction::Var25(v), r)),
                None => None,
            }
        } else if k == 26 {
            match instructionVar26::spec_parse(t, regs) {
                Some((len, v, r)) => Some((len, Tableinstruction::Var26(v), r)),
                None => None,
            }
        } else if k == 27 {
            match instructionVar27::spec_parse(t, regs) {
                Some((len, v, r)) => Some((len, Tableinstruction::Var27(v), r)),
                None => None,
            }
        } else if k == 28 {
            match instructionVar28::spec_parse(t, regs) {
                Some((len, v, r)) => Some((len, Tableinstruction::Var28(v), r)),
                None => None,
            }
        } else if k == 29 {
            match instructionVar29::spec_parse(t, regs) {
                Some((len, v, r)) => Some((len, Tableinstruction::Var29(v), r)),
                None => None,
            }
        } else if k == 30 {
            match instructionVar30::spec_parse(t, regs) {
                Some((len, v, r)) => Some((len, Tableinstruction::Var30(v), r)),
                None => None,
            }
        } else {
            None
        }
    }

    /// Constructors 31 to 45.
    pub open spec fn spec_form_c(k: int, t: Seq<u8>, regs: Seq<u8>) -> Option<(nat, Tableinstruction, Seq<u8>)> {
        if k == 31 {
            match instructionVar31::spec_parse(t, regs) {
                Some((len, v, r)) => Some((len, Tableinstruction::Var31(v), r)),
                None => None,
            }
        } else if k == 32 {
            match instructionVar32::spec_parse(t, regs) {
                Some((len, v, r)) => Some((len, Tableinstruction::Var32(v), r)),
                None => None,
            }
        } else if k == 33 {
            match instructionVar33::spec_parse(t, regs) {
                Some((len, v, r)) => Some((len, Tableinstruction::Var33(v), r)),
                None => None,
            }
        } else if k == 34 {
            match instructionVar34::spec_parse(t, regs) {
                Some((len, v, r)) => Some((len, Tableinstruction::Var34(v), r)),
                None => None,
            }
        } else if k == 35 {
            match instructionVar35::spec_parse(t, regs) {
                Some((len, v, r)) => Some((len, Tableinstruction::Var35(v), r)),
                None => None,
            }
        } else if k == 36 {
            match instructionVar36::spec_parse(t, regs) {
                Some((len, v, r)) => Some((len, Tableinstruction::Var36(v), r)),
                None => None,
            }
        } else if k == 37 {
            match instructionVar37::spec_parse(t, regs) {
                Some((len, v, r)) => Some((len, Tableinstruction::Var37(v), r)),
                None => None,
            }
        } else if k == 38 {
            match instructionVar38::spec_parse(t, regs) {
                Some((len, v, r)) => Some((len, Tableinstruction::Var38(v), r)),
                None => None,
            }
        } else if k == 39 {
            match instructionVar39::spec_parse(t, regs) {
                Some((len, v, r)) => Some((len, Tableinstruction::Var39(v), r)),
                None => None,
            }
        } else if k == 40 {
            match instructionVar40::spec_parse(t, regs) {
                Some((len, v, r)) => Some((len, Tableinstruction::Var40(v), r)),
                None => None,
            }
        } else if k == 41 {
            match instructionVar41::spec_parse(t, regs) {
                Some((len, v, r)) => Some((len, Tableinstruction::Var41(v), r)),
                None => None,
            }
        } else if k == 42 {
            match instructionVar42::spec_parse(t, regs) {
                Some((len, v, r)) => Some((len, Tableinstruction::Var42(v), r)),
                None => None,
            }
        } else if k == 43 {
            match instructionVar43::spec_parse(t, regs) {
                Some((len, v, r)) => Some((len, Tableinstruction::Var43(v), r)),
                None => None,
            }
        } else if k == 44 {
            match instructionVar44::spec_parse(t, regs) {
                Some((len, v, r)) => Some((len, Tableinstruction::Var44(v), r)),
                None => None,
            }
        } else if k == 45 {
            match instructionVar45::spec_parse(t, regs) {
                Some((len, v, r)) => Some((len, Tableinstruction::Var45(v), r)),
                None => None,
            }
        } else {
            None
        }
    }

    /// Constructors 46 to 60.
    pub open spec fn spec_form_d(k: int, t: Seq<u8>, regs: Seq<u8>) -> Option<(nat, Tableinstruction, Seq<u8>)> {
        if k == 46 {
            match instructionVar46::spec_parse(t, regs) {
                Some((len, v, r)) => Some((len, Tableinstruction::Var46(v), r)),
                None => None,
            }
        } else if k == 47 {
            match instructionVar47::spec_parse(t, regs) {
                Some((len, v, r)) => Some((len, Tableinstruction::Var47(v), r)),
                None => None,
            }
        } else if k == 48 {
            match instructionVar48::spec_parse(t, regs) {
                Some((len, v, r)) => Some((len, Tableinstruction::Var48(v), r)),
                None => None,
            }
        } else if k == 49 {
            match instructionVar49::spec_parse(t, regs) {
                Some((len, v, r)) => Some((len, Tableinstruction::Var49(v), r)),
                None => None,
            }
        } else if k == 50 {
            match instructionVar50::spec_parse(t, regs) {
                Some((len, v, r)) => Some((len, Tableinstruction::Var50(v), r)),
                None => None,
            }
        } else if k == 51 {
            match instructionVar51::spec_parse(t, regs) {
                Some((len, v, r)) => Some((len, Tableinstruction::Var51(v), r)),
                None => None,
            }
        } else if k == 52 {
            match instructionVar52::spec_parse(t, regs) {
                Some((len, v, r)) => Some((len, Tableinstruction::Var52(v), r)),
                None => None,
            }
        } else if k == 53 {
            match instructionVar53::spec_parse(t, regs) {
                Some((len, v, r)) => Some((len, Tableinstruction::Var53(v), r)),
                None => None,
            }
        } else if k == 54 {
            match instructionVar54::spec_parse(t, regs) {
                Some((len, v, r)) => Some((len, Tableinstruction::Var54(v), r)),
                None => None,
            }
        } else if k == 55 {
            match instructionVar55::spec_parse(t, regs) {
                Some((len, v, r)) => Some((len, Tableinstruction::Var55(v), r)),
                None => None,
            }
        } else if k == 56 {
            match instructionVar56::spec_parse(t, regs) {
                Some((len, v, r)) => Some((len, Tableinstruction::Var56(v), r)),
                None => None,
            }
        } else if k == 57 {
            match instructionVar57::spec_parse(t, regs) {
                Some((len, v, r)) => Some((len, Tableinstruction::Var57(v), r)),
                None => None,
            }
        } else if k == 58 {
            match instructionVar58::spec_parse(t, regs) {
                Some((len, v, r)) => Some((len, Tableinstruction::Var58(v), r)),
                None => None,
            }
        } else if k == 59 {
            match instructionVar59::spec_parse(t, regs) {
                Some((len, v, r)) => Some((len, Tableinstruction::Var59(v), r)),
                None => None,
            }
        } else if k == 60 {
            match instructionVar60::spec_parse(t, regs) {
                Some((len, v, r)) => Some((len, Tableinstruction::Var60(v), r)),
                None => None,
            }
        } else {
            None
        }
    }

    /// The first of the constructors `k` to 60 whose pattern matches.
    pub open spec fn spec_first(t: Seq<u8>, regs: Seq<u8>, k: int) -> Option<(nat, Tableinstruction, Seq<u8>)>
        decreases 61 - k,
    {
        if k < 1 || k > 60 {
            None
        } else {
            match Self::spec_form(k, t, regs) {
                Some(x) => Some(x),
                None => Self::spec_first(t, regs, k + 1),
            }
        }
    }

    /// What the table decodes from the token bytes `t` under the context
    /// registers `regs`: the instruction's length, the decoded instruction,
    /// and the context registers after it; `None` when no constructor
    /// matches.
    pub open spec fn spec_parse(t: Seq<u8>, regs: Seq<u8>) -> Option<(nat, Tableinstruction, Seq<u8>)> {
        match instructionVar0::spec_parse(t, regs) {
            Some((n, v, r)) => Some((n, Tableinstruction::Var0(v), r)),
            None => Self::spec_first(t, regs, 1),
        }
    }

    /// Whether the register fields are in range.
    pub open spec fn wf(&self) -> bool
        decreases *self,
    {
        match self {
            Tableinstruction::Var0(x) => x.instruction.wf(),
            Tableinstruction::Var1(x) => x.wf(),
            Tableinstruction::Var2(x) => x.wf(),
            Tableinstruction::Var3(x) => x.wf(),
            Tableinstruction::Var4(x) => x.wf(),
            Tableinstruction::Var5(x) => x.wf(),
            Tableinstruction::Var6(x) => x.wf(),
            Tableinstruction::Var7(x) => x.wf(),
            Tableinstruction::Var8(x) => x.wf(),
            Tableinstruction::Var9(x) => x.wf(),
            Tableinstruction::Var10(x) => x.wf(),
            Tableinstruction::Var11(x) => x.wf(),
            Tableinstruction::Var12(x) => x.wf(),
            Tableinstruction::Var13(x) => x.wf(),
            Tableinstruction::Var14(x) => x.wf(),
            Tableinstruction::Var15(x) => x.wf(),
            Tableinstruction::Var16(x) => x.wf(),
            Tableinstruction::Var17(x) => x.wf(),
            Tableinstruction::Var18(x) => x.wf(),
            Tableinstruction::Var19(x) => x.wf(),
            Tableinstruction::Var20(x) => x.wf(),
            Tableinstruction::Var21(x) => x.wf(),
            Tableinstruction::Var22(_) => true,
            Tableinstruction::Var23(x) => x.wf(),
            Tableinstruction::Var24(x) => x.wf(),
            Tableinstruction::Var25(x) => x.wf(),
            Tableinstruction::Var26(x) => x.wf(),
            Tableinstruction::Var27(x) => x.wf(),
            Tableinstruction::Var28(x) => x.wf(),
            Tableinstruction::Var29(x) => x.wf(),
            Tableinstruction::Var30(x) => x.wf(),
            Tableinstruction::Var31(x) => x.wf(),
            Tableinstruction::Var32(x) => x.wf(),
            Tableinstruction::Var33(x) => x.wf(),
            Tableinstruction::Var34(x) => x.wf(),
            Tableinstruction::Var35(x) => x.wf(),
            Tableinstruction::Var36(x) => x.wf(),
            Tableinstruction::Var37(x) => x.wf(),
            Tableinstruction::Var38(x) => x.wf(),
            Tableinstruction::Var39(x) => x.wf(),
            Tableinstruction::Var40(x) => x.wf(),
            Tableinstruction::Var41(x) => x.wf(),
            Tableinstruction::Var42(x) => x.wf(),
            Tableinstruction::Var43(x) => x.wf(),
            Tableinstruction::Var44(x) => x.wf(),
            Tableinstruction::Var45(x) => x.wf(),
            Tableinstruction::Var46(x) => x.wf(),
            Tableinstruction::Var47(x) => x.wf(),
            Tableinstruction::Var48(x) => x.wf(),
            Tableinstruction::Var49(x) => x.wf(),
            Tableinstruction::Var50(x) => x.wf(),
            Tableinstruction::Var51(x) => x.wf(),
            Tableinstruction::Var52(x) => x.wf(),
            Tableinstruction::Var53(x) => x.wf(),
            Tableinstruction::Var54(x) => x.wf(),
            Tableinstruction::Var55(x) => x.wf(),
            Tableinstruction::Var56(x) => x.wf(),
            Tableinstruction::Var57(x) => x.wf(),
            Tableinstruction::Var58(x) => x.wf(),
            Tableinstruction::Var59(x) => x.wf(),
            Tableinstruction::Var60(_) => true,
        }
    }

    /// Whether showing the instruction at `inst_start` names only valid
    /// 32-bit addresses.
    pub open spec fn display_ok(&self, inst_start: u32) -> bool
        decreases *self,
    {
        match self {
            Tableinstruction::Var0(x) => x.instruction.display_ok(inst_start),
            Tableinstruction::Var20(x) => x.display_ok(inst_start),
            _ => true,
        }
    }

    /// The instruction's text, shown at `inst_start` with the following
    /// instruction at `inst_next`, under the context registers `regs`.
    pub open spec fn spec_display(&self, regs: Seq<u8>, inst_start: u32, inst_next: u32) -> Seq<DisplayElement>
        decreases *self,
    {
        match self {
            Tableinstruction::Var0(x) => x.instruction.spec_display(regs, inst_start, inst_next),
            Tableinstruction::Var1(x) => x.spec_display(regs, inst_start, inst_next),
            Tableinstruction::Var2(x) => x.spec_display(regs, inst_start, inst_next),
            Tableinstruction::Var3(x) => x.spec_display(regs, inst_start, inst_next),
            Tableinstruction::Var4(x) => x.spec_display(regs, inst_start, inst_next),
            Tableinstruction::Var5(x) => x.spec_display(regs, inst_start, inst_next),
            Tableinstruction::Var6(x) => x.spec_display(regs, inst_start, inst_next),
            Tableinstruction::Var7(x) => x.spec_display(regs, inst_start, inst_next),
            Tableinstruction::Var8(x) => x.spec_display(regs, inst_start, inst_next),
            Tableinstruction::Var9(x) => x.spec_display(regs, inst_start, inst_next),
            Tableinstruction::Var10(x) => x.spec_display(regs, inst_start, inst_next),
            Tableinstruction::Var11(x) => x.spec_display(regs, inst_start, inst_next),
            Tableinstruction::Var12(x) => x.spec_display(regs, inst_start, inst_next),
            Tableinstruction::Var13(x) => x.spec_display(regs, inst_start, inst_next),
            Tableinstruction::Var14(x) => x.spec_display(regs, inst_start, inst_next),
            Tableinstruction::Var15(x) => x.spec_display(regs, inst_start, inst_next),
            Tableinstruction::Var16(x) => x.spec_display(regs, inst_start, inst_next),
            Tableinstruction::Var17(x) => x.spec_display(regs, inst_start, inst_next),
            Tableinstruction::Var18(x) => x.spec_display(regs, inst_start, inst_next),
            Tableinstruction::Var19(x) => x.spec_display(regs, inst_start, inst_next),
            Tableinstruction::Var20(x) => x.spec_display(regs, inst_start, inst_next),
            Tableinstruction::Var21(x) => x.spec_display(regs, inst_start, inst_next),
            Tableinstruction::Var22(x) => x.spec_display(regs, inst_start, inst_next),
            Tableinstruction::Var23(x) => x.spec_display(regs, inst_start, inst_next),
            Tableinstruction::Var24(x) => x.spec_display(regs, inst_start, inst_next),
            Tableinstruction::Var25(x) => x.spec_display(regs, inst_start, inst_next),
            Tableinstruction::Var26(x) => x.spec_display(regs, inst_start, inst_next),
            Tableinstruction::Var27(x) => x.spec_display(regs, inst_start, inst_next),
            Tableinstruction::Var28(x) => x.spec_display(regs, inst_start, inst_next),
            Tableinstruction::Var29(x) => x.spec_display(regs, inst_start, inst_next),
            Tableinstruction::Var30(x) => x.spec_display(regs, inst_start, inst_next),
            Tableinstruction::Var31(x) => x.spec_display(regs, inst_start, inst_next),
            Tableinstruction::Var32(x) => x.spec_display(regs, inst_start, inst_next),
            Tableinstruction::Var33(x) => x.spec_display(regs, inst_start, inst_next),
            Tableinstruction::Var34(x) => x.spec_display(regs, inst_start, inst_next),
            Tableinstruction::Var35(x) => x.spec_display(regs, inst_start, inst_next),
            Tableinstruction::Var36(x) => x.spec_display(regs, inst_start, inst_next),
            Tableinstruction::Var37(x) => x.spec_display(regs, inst_start, inst_next),
            Tableinstruction::Var38(x) => x.spec_display(regs, inst_start, inst_next),
            Tableinstruction::Var39(x) => x.spec_display(regs, inst_start, inst_next),
            Tableinstruction::Var40(x) => x.spec_display(regs, inst_start, inst_next),
            Tableinstruction::Var41(x) => x.spec_display(regs, inst_start, inst_next),
            Tableinstruction::Var42(x) => x.spec_display(regs, inst_start, inst_next),
            Tableinstruction::Var43(x) => x.spec_display(regs, inst_start, inst_next),
            Tableinstruction::Var44(x) => x.spec_display(regs, inst_start, inst_next),
            Tableinstruction::Var45(x) => x.spec_display(regs, inst_start, inst_next),
            Tableinstruction::Var46(x) => x.spec_display(regs, inst_start, inst_next),
            Tableinstruction::Var47(x) => x.spec_display(regs, inst_start, inst_next),
            Tableinstruction::Var48(x) => x.spec_display(regs, inst_start, inst_next),
            Tableinstruction::Var49(x) => x.spec_display(regs, inst_start, inst_next),
            Tableinstruction::Var50(x) => x.spec_display(regs, inst_start, inst_next),
            Tableinstruction::Var51(x) => x.spec_display(regs, inst_start, inst_next),
            Tableinstruction::Var52(x) => x.spec_display(regs, inst_start, inst_next),
            Tableinstruction::Var53(x) => x.spec_display(regs, inst_start, inst_next),
            Tableinstruction::Var54(x) => x.spec_display(regs, inst_start, inst_next),
            Tableinstruction::Var55(x) => x.spec_display(regs, inst_start, inst_next),
            Tableinstruction::Var56(x) => x.spec_display(regs, inst_start, inst_next),
            Tableinstruction::Var57(x) => x.spec_display(regs, inst_start, inst_next),
            Tableinstruction::Var58(x) => x.spec_display(regs, inst_start, inst_next),
            Tableinstruction::Var59(x) => x.spec_display(regs, inst_start, inst_next),
            Tableinstruction::Var60(x) => x.spec_display(regs, inst_start, inst_next),
        }
    }

    /// The context values that showing the instruction passes on to other
    /// addresses.
    pub open spec fn spec_sets(&self, regs: Seq<u8>, inst_start: u32, inst_next: u32) -> Seq<GlobalSetRequest>
        decreases *self,
    {
        match self {
            Tableinstruction::Var0(x) => x.instruction.spec_sets(regs, inst_start, inst_next),
            Tableinstruction::Var19(x) => x.spec_sets(regs, inst_start, inst_next),
            Tableinstruction::Var20(x) => x.spec_sets(regs, inst_start, inst_next),
            Tableinstruction::Var21(x) => x.spec_sets(regs, inst_start, inst_next),
            _ => Seq::empty(),
        }
    }

    /// Tries constructor `k` of the table.
    fn parse_form(k: u8, tokens: &[u8], context: &mut SpacesStruct, inst_start: u32) -> (r: Option<(u32, Tableinstruction)>)
        requires
            1 <= k <= 60,
            old(context)@.len() == 8,
        ensures
            match Self::spec_form(k as int, tokens@, old(context)@) {
                Some((n, v, regs)) => r == Some((n as u32, v)) && final(context)@ == regs,
                None => r is None && *final(context) == *old(context),
            },
            r matches Some((_, v)) ==> v.wf(),
    {
        if k <= 15 {
            Self::parse_form_a(k, tokens, context, inst_start)
        } else if k <= 30 {
            Self::parse_form_b(k, tokens, context, inst_start)
        } else if k <= 45 {
            Self::parse_form_c(k, tokens, context, inst_start)
        } else {
            Self::parse_form_d(k, tokens, context, inst_start)
        }
    }

    /// Tries constructor `k`, one of 1 to 15.
    fn parse_form_a(k: u8, tokens: &[u8], context: &mut SpacesStruct, inst_start: u32) -> (r: Option<(u32, Tableinstruction)>)
        requires
            1 <= k <= 15,
            old(context)@.len() == 8,
        ensures
            match Self::spec_form_a(k as int, tokens@, old(context)@) {
                Some((n, v, regs)) => r == Some((n as u32, v)) && final(context)@ == regs,
                None => r is None && *final(context) == *old(context),
            },
            r matches Some((_, v)) ==> v.wf(),
    {
        match k {
            1 => {
                if let Some((inst_len, parsed)) = instructionVar1::parse(tokens, context, inst_start) {
                    Some((inst_len, Tableinstruction::Var1(parsed)))
                } else {
                    None
                }
            },
            2 => {
                if let Some((inst_len, parsed)) = instructionVar2::parse(tokens, context, inst_start) {
                    Some((inst_len, Tableinstruction::Var2(parsed)))
                } else {
                    None
                }
            },
            3 => {
                if let Some((inst_len, parsed)) = instructionVar3::parse(tokens, context, inst_start) {
                    Some((inst_len, Tableinstruction::Var3(parsed)))
                } else {
                    None
                }
            },
            4 => {
                if let Some((inst_len, parsed)) = instructionVar4::parse(tokens, context, inst_start) {
                    Some((inst_len, Tableinstruction::Var4(parsed)))
                } else {
                    None
                }
            },
            5 => {
                if let Some((inst_len, parsed)) = instructionVar5::parse(tokens, context, inst_start) {
                    Some((inst_len, Tableinstruction::Var5(parsed)))
                } else {
                    None
                }
            },
            6 => {
                if let Some((inst_len, parsed)) = instructionVar6::parse(tokens, context, inst_start) {
                    Some((inst_len, Tableinstruction::Var6(parsed)))
                } else {
                    None
                }
            },
            7 => {
                if let Some((inst_len, parsed)) = instructionVar7::parse(tokens, context, inst_start) {
                    Some((inst_len, Tableinstruction::Var7(parsed)))
                } else {
                    None
                }
            },
            8 => {
                if let Some((inst_len, parsed)) = instructionVar8::parse(tokens, context, inst_start) {
                    Some((inst_len, Tableinstruction::Var8(parsed)))
                } else {
                    None
                }
            },
            9 => {
                if let Some((inst_len, parsed)) = instructionVar9::parse(tokens, context, inst_start) {
                    Some((inst_len, Tableinstruction::Var9(parsed)))
                } else {
                    None
                }
            },
            10 => {
                if let Some((inst_len, parsed)) = instructionVar10::parse(tokens, context, inst_start) {
                    Some((inst_len, Tableinstruction::Var10(parsed)))
                } else {
                    None
                }
            },
            11 => {
                if let Some((inst_len, parsed)) = instructionVar11::parse(tokens, context, inst_start) {
                    Some((inst_len, Tableinstruction::Var11(parsed)))
                } else {
                    None
                }
            },
            12 => {
                if let Some((inst_len, parsed)) = instructionVar12::parse(tokens, context, inst_start) {
                    Some((inst_len, Tableinstruction::Var12(parsed)))
                } else {
                    None
                }
            },
            13 => {
                if let Some((inst_len, parsed)) = instructionVar13::parse(tokens, context, inst_start) {
                    Some((inst_len, Tableinstruction::Var13(parsed)))
                } else {
                    None
                }
            },
            14 => {
                if let Some((inst_len, parsed)) = instructionVar14::parse(tokens, context, inst_start) {
                    Some((inst_len, Tableinstruction::Var14(parsed)))
                } else {
                    None
                }
            },
            _ => {
                if let Some((inst_len, parsed)) = instructionVar15::parse(tokens, context, inst_start) {
                    Some((inst_len, Tableinstruction::Var15(parsed)))
                } else {
                    None
                }
            },
        }
    }

    /// Tries constructor `k`, one of 16 to 30.
    fn parse_form_b(k: u8, tokens: &[u8], context: &mut SpacesStruct, inst_start: u32) -> (r: Option<(u32, Tableinstruction)>)
        requires
            16 <= k <= 30,
            old(context)@.len() == 8,
        ensures
            match Self::spec_form_b(k as int, tokens@, old(context)@) {
                Some((n, v, regs)) => r == Some((n as u32, v)) && final(context)@ == regs,
                None => r is None && *final(context) == *old(context),
            },
            r matches Some((_, v)) ==> v.wf(),
    {
        match k {
            16 => {
                if let Some((inst_len, parsed)) = instructionVar16::parse(tokens, context, inst_start) {
                    Some((inst_len, Tableinstruction::Var16(parsed)))
                } else {
                    None
                }
            },
            17 => {
                if let Some((inst_len, parsed)) = instructionVar17::parse(tokens, context, inst_start) {
                    Some((inst_len, Tableinstruction::Var17(parsed)))
                } else {
                    None
                }
            },
            18 => {
                if let Some((inst_len, parsed)) = instructionVar18::parse(tokens, context, inst_start) {
                    Some((inst_len, Tableinstruction::Var18(parsed)))
                } else {
                    None
                }
            },
            19 => {
                if let Some((inst_len, parsed)) = instructionVar19::parse(tokens, context, inst_start) {
                    Some((inst_len, Tableinstruction::Var19(parsed)))
                } else {
                    None
                }
            },
            20 => {
                if let Some((inst_len, parsed)) = instructionVar20::parse(tokens, context, inst_start) {
                    Some((inst_len, Tableinstruction::Var20(parsed)))
                } else {
                    None
                }
            },
            21 => {
                if let Some((inst_len, parsed)) = instructionVar21::parse(tokens, context, inst_start) {
                    Some((inst_len, Tableinstruction::Var21(parsed)))
                } else {
                    None
                }
            },
            22 => {
                if let Some((inst_len, parsed)) = instructionVar22::parse(tokens, context, inst_start) {
                    Some((inst_len, Tableinstruction::Var22(parsed)))
                } else {
                    None
                }
            },
            23 => {
                if let Some((inst_len, parsed)) = instructionVar23::parse(tokens, context, inst_start) {
                    Some((inst_len, Tableinstruction::Var23(parsed)))
                } else {
                    None
                }
            },
            24 => {
                if let Some((inst_len, parsed)) = instructionVar24::parse(tokens, context, inst_start) {
                    Some((inst_len, Tableinstruction::Var24(parsed)))
                } else {
                    None
                }
            },
            25 => {
                if let Some((inst_len, parsed)) = instructionVar25::parse(tokens, context, inst_start) {
                    Some((inst_len, Tableinstruction::Var25(parsed)))
                } else {
                    None
                }
            },
            26 => {
                if let Some((inst_len, parsed)) = instructionVar26::parse(tokens, context, inst_start) {
                    Some((inst_len, Tableinstruction::Var26(parsed)))
                } else {
                    None
                }
            },
            27 => {
                if let Some((inst_len, parsed)) = instructionVar27::parse(tokens, context, inst_start) {
                    Some((inst_len, Tableinstruction::Var27(parsed)))
                } else {
                    None
                }
            },
            28 => {
                if let Some((inst_len, parsed)) = instructionVar28::parse(tokens, context, inst_start) {
                    Some((inst_len, Tableinstruction::Var28(parsed)))
                } else {
                    None
                }
            },
            29 => {
                if let Some((inst_len, parsed)) = instructionVar29::parse(tokens, context, inst_start) {
                    Some((inst_len, Tableinstruction::Var29(parsed)))
                } else {
                    None
                }
            },
            _ => {
                if let Some((inst_len, parsed)) = instructionVar30::parse(tokens, context, inst_start) {
                    Some((inst_len, Tableinstruction::Var30(parsed)))
                } else {
                    None
                }
            },
        }
    }

    /// Tries constructor `k`, one of 31 to 45.
    fn parse_form_c(k: u8, tokens: &[u8], context: &mut SpacesStruct, inst_start: u32) -> (r: Option<(u32, Tableinstruction)>)
        requires
            31 <= k <= 45,
            old(context)@.len() == 8,
        ensures
            match Self::spec_form_c(k as int, tokens@, old(context)@) {
                Some((n, v, regs)) => r == Some((n as u32, v)) && final(context)@ == regs,
                None => r is None && *final(context) == *old(context),
            },
            r matches Some((_, v)) ==> v.wf(),
    {
        match k {
            31 => {
                if let Some((inst_len, parsed)) = instructionVar31::parse(tokens, context, inst_start) {
                    Some((inst_len, Tableinstruction::Var31(parsed)))
                } else {
                    None
                }
            },
            32 => {
                if let Some((inst_len, parsed)) = instructionVar32::parse(tokens, context, inst_start) {
                    Some((inst_len, Tableinstruction::Var32(parsed)))
                } else {
                    None
                }
            },
            33 => {
                if let Some((inst_len, parsed)) = instructionVar33::parse(tokens, context, inst_start) {
                    Some((inst_len, Tableinstruction::Var33(parsed)))
                } else {
                    None
                }
            },
            34 => {
                if let Some((inst_len, parsed)) = instructionVar34::parse(tokens, context, inst_start) {
                    Some((inst_len, Tableinstruction::Var34(parsed)))
                } else {
                    None
                }
            },
            35 => {
                if let Some((inst_len, parsed)) = instructionVar35::parse(tokens, context, inst_start) {
                    Some((inst_len, Tableinstruction::Var35(parsed)))
                } else {
                    None
                }
            },
            36 => {
                if let Some((inst_len, parsed)) = instructionVar36::parse(tokens, context, inst_start) {
                    Some((inst_len, Tableinstruction::Var36(parsed)))
                } else {
                    None
                }
            },
            37 => {
                if let Some((inst_len, parsed)) = instructionVar37::parse(tokens, context, inst_start) {
                    Some((inst_len, Tableinstruction::Var37(parsed)))
                } else {
                    None
                }
            },
            38 => {
                if let Some((inst_len, parsed)) = instructionVar38::parse(tokens, context, inst_start) {
                    Some((inst_len, Tableinstruction::Var38(parsed)))
                } else {
                    None
                }
            },
            39 => {
                if let Some((inst_len, parsed)) = instructionVar39::parse(tokens, context, inst_start) {
                    Some((inst_len, Tableinstruction::Var39(parsed)))
                } else {
                    None
                }
            },
            40 => {
                if let Some((inst_len, parsed)) = instructionVar40::parse(tokens, context, inst_start) {
                    Some((inst_len, Tableinstruction::Var40(parsed)))
                } else {
                    None
                }
            },
            41 => {
                if let Some((inst_len, parsed)) = instructionVar41::parse(tokens, context, inst_start) {
                    Some((inst_len, Tableinstruction::Var41(parsed)))
                } else {
                    None
                }
            },
            42 => {
                if let Some((inst_len, parsed)) = instructionVar42::parse(tokens, context, inst_start) {
                    Some((inst_len, Tableinstruction::Var42(parsed)))
                } else {
                    None
                }
            },
            43 => {
                if let Some((inst_len, parsed)) = instructionVar43::parse(tokens, context, inst_start) {
                    Some((inst_len, Tableinstruction::Var43(parsed)))
                } else {
                    None
                }
            },
            44 => {
                if let Some((inst_len, parsed)) = instructionVar44::parse(tokens, context, inst_start) {
                    Some((inst_len, Tableinstruction::Var44(parsed)))
                } else {
                    None
                }
            },
            _ => {
                if let Some((inst_len, parsed)) = instructionVar45::parse(tokens, context, inst_start) {
                    Some((inst_len, Tableinstruction::Var45(parsed)))
                } else {
                    None
                }
            },
        }
    }

    /// Tries constructor `k`, one of 46 to 60.
    fn parse_form_d(k: u8, tokens: &[u8], context: &mut SpacesStruct, inst_start: u32) -> (r: Option<(u32, Tableinstruction)>)
        requires
            46 <= k <= 60,
            old(context)@.len() == 8,
        ensures
            match Self::spec_form_d(k as int, tokens@, old(context)@) {
                Some((n, v, regs)) => r == Some((n as u32, v)) && final(context)@ == regs,
                None => r is None && *final(context) == *old(context),
            },
            r matches Some((_, v)) ==> v.wf(),
    {
        match k {
            46 => {
                if let Some((inst_len, parsed)) = instructionVar46::parse(tokens, context, inst_start) {
                    Some((inst_len, Tableinstruction::Var46(parsed)))
                } else {
                    None
                }
            },
            47 => {
                if let Some((inst_len, parsed)) = instructionVar47::parse(tokens, context, inst_start) {
                    Some((inst_len, Tableinstruction::Var47(parsed)))
                } else {
                    None
                }
            },
            48 => {
                if let Some((inst_len, parsed)) = instructionVar48::parse(tokens, context, inst_start) {
                    Some((inst_len, Tableinstruction::Var48(parsed)))
                } else {
                    None
                }
            },
            49 => {
                if let Some((inst_len, parsed)) = instructionVar49::parse(tokens, context, inst_start) {
                    Some((inst_len, Tableinstruction::Var49(parsed)))
                } else {
                    None
                }
            },
            50 => {
                if let Some((inst_len, parsed)) = instructionVar50::parse(tokens, context, inst_start) {
                    Some((inst_len, Tableinstruction::Var50(parsed)))
                } else {
                    None
                }
            },
            51 => {
                if let Some((inst_len, parsed)) = instructionVar51::parse(tokens, context, inst_start) {
                    Some((inst_len, Tableinstruction::Var51(parsed)))
                } else {
                    None
                }
            },
            52 => {
                if let Some((inst_len, parsed)) = instructionVar52::parse(tokens, context, inst_start) {
                    Some((inst_len, Tableinstruction::Var52(parsed)))
                } else {
                    None
                }
            },
            53 => {
                if let Some((inst_len, parsed)) = instructionVar53::parse(tokens, context, inst_start) {
                    Some((inst_len, Tableinstruction::Var53(parsed)))
                } else {
                    None
                }
            },
            54 => {
                if let Some((inst_len, parsed)) = instructionVar54::parse(tokens, context, inst_start) {
                    Some((inst_len, Tableinstruction::Var54(parsed)))
                } else {
                    None
                }
            },
            55 => {
                if let Some((inst_len, parsed)) = instructionVar55::parse(tokens, context, inst_start) {
                    Some((inst_len, Tableinstruction::Var55(parsed)))
                } else {
                    None
                }
            },
            56 => {
                if let Some((inst_len, parsed)) = instructionVar56::parse(tokens, context, inst_start) {
                    Some((inst_len, Tableinstruction::Var56(parsed)))
                } else {
                    None
                }
            },
            57 => {
                if let Some((inst_len, parsed)) = instructionVar57::parse(tokens, context, inst_start) {
                    Some((inst_len, Tableinstruction::Var57(parsed)))
                } else {
                    None
                }
            },
            58 => {
                if let Some((inst_len, parsed)) = instructionVar58::parse(tokens, context, inst_start) {
                    Some((inst_len, Tableinstruction::Var58(parsed)))
                } else {
                    None
                }
            },
            59 => {
                if let Some((inst_len, parsed)) = instructionVar59::parse(tokens, context, inst_start) {
                    Some((inst_len, Tableinstruction::Var59(parsed)))
                } else {
                    None
                }
            },
            _ => {
                if let Some((inst_len, parsed)) = instructionVar60::parse(tokens, context, inst_start) {
                    Some((inst_len, Tableinstruction::Var60(parsed)))
                } else {
                    None
                }
            },
        }
    }

    /// Decodes an instruction: tries the table's constructors in order and
    /// takes the first that matches, updating the context as it says.
    pub fn parse(tokens_param: &[u8], context_param: &mut SpacesStruct, inst_start: u32) -> (r: Option<(u32, Tableinstruction)>)
        requires
            old(context_param)@.len() == 8,
        ensures
            match Self::spec_parse(tokens_param@, old(context_param)@) {
                Some((n, v, regs)) => r == Some((n as u32, v)) && final(context_param)@ == regs,
                None => r is None && *final(context_param) == *old(context_param),
            },
            r matches Some((_, v)) ==> v.wf(),
        decreases phase_measure(old(context_param)@), 1nat,
    {
        let ghost regs = context_param@;
        let mut context_current = *context_param;
        if let Some((inst_len, parsed)) = instructionVar0::parse(
            tokens_param,
            &mut context_current,
            inst_start,
        ) {
            *context_param = context_current;
            return Some((inst_len, Tableinstruction::Var0(parsed)));
        }
        let mut k: u8 = 1;
        while k <= 60
            invariant
                1 <= k <= 61,
                context_current == *context_param,
                context_param@ == regs,
                *context_param == *old(context_param),
                regs == old(context_param)@,
                regs.len() == 8,
                Self::spec_parse(tokens_param@, regs) == Self::spec_first(tokens_param@, regs, k as int),
            decreases 61 - k,
        {
            if let Some((inst_len, parsed)) = Self::parse_form(
                k,
                tokens_param,
                &mut context_current,
                inst_start,
            ) {
                *context_param = context_current;
                return Some((inst_len, parsed));
            }
            k = k + 1;
        }
        None
    }

    /// Appends the instruction's text to `display`, and the context values
    /// it passes on to `global_set`.
    pub fn display_extend(
        &self,
        display: &mut Vec<DisplayElement>,
        context: &SpacesStruct,
        inst_start: u32,
        inst_next: u32,
        global_set_param: &mut Vec<GlobalSetRequest>,
    )
        requires
            self.wf(),
            self.display_ok(inst_start),
        ensures
            final(display)@ == old(display)@ + self.spec_display(context@, inst_start, inst_next),
            final(global_set_param)@ == old(global_set_param)@ + self.spec_sets(context@, inst_start, inst_next),
        decreases *self,
    {
        match self {
            Tableinstruction::Var0(x) => x.display_extend(display, context, inst_start, inst_next, global_set_param),
            Tableinstruction::Var1(x) => x.display_extend(display, context, inst_start, inst_next, global_set_param),
            Tableinstruction::Var2(x) => x.display_extend(display, context, inst_start, inst_next, global_set_param),
            Tableinstruction::Var3(x) => x.display_extend(display, context, inst_start, inst_next, global_set_param),
            Tableinstruction::Var4(x) => x.display_extend(display, context, inst_start, inst_next, global_set_param),
            Tableinstruction::Var5(x) => x.display_extend(display, context, inst_start, inst_next, global_set_param),
            Tableinstruction::Var6(x) => x.display_extend(display, context, inst_start, inst_next, global_set_param),
            Tableinstruction::Var7(x) => x.display_extend(display, context, inst_start, inst_next, global_set_param),
            Tableinstruction::Var8(x) => x.display_extend(display, context, inst_start, inst_next, global_set_param),
            Tableinstruction::Var9(x) => x.display_extend(display, context, inst_start, inst_next, global_set_param),
            Tableinstruction::Var10(x) => x.display_extend(display, context, inst_start, inst_next, global_set_param),
            Tableinstruction::Var11(x) => x.display_extend(display, context, inst_start, inst_next, global_set_param),
            Tableinstruction::Var12(x) => x.display_extend(display, context, inst_start, inst_next, global_set_param),
            Tableinstruction::Var13(x) => x.display_extend(display, context, inst_start, inst_next, global_set_param),
            Tableinstruction::Var14(x) => x.display_extend(display, context, inst_start, inst_next, global_set_param),
            Tableinstruction::Var15(x) => x.display_extend(display, context, inst_start, inst_next, global_set_param),
            Tableinstruction::Var16(x) => x.display_extend(display, context, inst_start, inst_next, global_set_param),
            Tableinstruction::Var17(x) => x.display_extend(display, context, inst_start, inst_next, global_set_param),
            Tableinstruction::Var18(x) => x.display_extend(display, context, inst_start, inst_next, global_set_param),
            Tableinstruction::Var19(x) => x.display_extend(display, context, inst_start, inst_next, global_set_param),
            Tableinstruction::Var20(x) => x.display_extend(display, context, inst_start, inst_next, global_set_param),
            Tableinstruction::Var21(x) => x.display_extend(display, context, inst_start, inst_next, global_set_param),
            Tableinstruction::Var22(x) => x.display_extend(display, context, inst_start, inst_next, global_set_param),
            Tableinstruction::Var23(x) => x.display_extend(display, context, inst_start, inst_next, global_set_param),
            Tableinstruction::Var24(x) => x.display_extend(display, context, inst_start, inst_next, global_set_param),
            Tableinstruction::Var25(x) => x.display_extend(display, context, inst_start, inst_next, global_set_param),
            Tableinstruction::Var26(x) => x.display_extend(display, context, inst_start, inst_next, global_set_param),
            Tableinstruction::Var27(x) => x.display_extend(display, context, inst_start, inst_next, global_set_param),
            Tableinstruction::Var28(x) => x.display_extend(display, context, inst_start, inst_next, global_set_param),
            Tableinstruction::Var29(x) => x.display_extend(display, context, inst_start, inst_next, global_set_param),
            Tableinstruction::Var30(x) => x.display_extend(display, context, inst_start, inst_next, global_set_param),
            Tableinstruction::Var31(x) => x.display_extend(display, context, inst_start, inst_next, global_set_param),
            Tableinstruction::Var32(x) => x.display_extend(display, context, inst_start, inst_next, global_set_param),
            Tableinstruction::Var33(x) => x.display_extend(display, context, inst_start, inst_next, global_set_param),
            Tableinstruction::Var34(x) => x.display_extend(display, context, inst_start, inst_next, global_set_param),
            Tableinstruction::Var35(x) => x.display_extend(display, context, inst_start, inst_next, global_set_param),
            Tableinstruction::Var36(x) => x.display_extend(display, context, inst_start, inst_next, global_set_param),
            Tableinstruction::Var37(x) => x.display_extend(display, context, inst_start, inst_next, global_set_param),
            Tableinstruction::Var38(x) => x.display_extend(display, context, inst_start, inst_next, global_set_param),
            Tableinstruction::Var39(x) => x.display_extend(display, context, inst_start, inst_next, global_set_param),
            Tableinstruction::Var40(x) => x.display_extend(display, context, inst_start, inst_next, global_set_param),
            Tableinstruction::Var41(x) => x.display_extend(display, context, inst_start, inst_next, global_set_param),
            Tableinstruction::Var42(x) => x.display_extend(display, context, inst_start, inst_next, global_set_param),
            Tableinstruction::Var43(x) => x.display_extend(display, context, inst_start, inst_next, global_set_param),
            Tableinstruction::Var44(x) => x.display_extend(display, context, inst_start, inst_next, global_set_param),
            Tableinstruction::Var45(x) => x.display_extend(display, context, inst_start, inst_next, global_set_param),
            Tableinstruction::Var46(x) => x.display_extend(display, context, inst_start, inst_next, global_set_param),
            Tableinstruction::Var47(x) => x.display_extend(display, context, inst_start, inst_next, global_set_param),
            Tableinstruction::Var48(x) => x.display_extend(display, context, inst_start, inst_next, global_set_param),
            Tableinstruction::Var49(x) => x.display_extend(display, context, inst_start, inst_next, global_set_param),
            Tableinstruction::Var50(x) => x.display_extend(display, context, inst_start, inst_next, global_set_param),
            Tableinstruction::Var51(x) => x.display_extend(display, context, inst_start, inst_next, global_set_param),
            Tableinstruction::Var52(x) => x.display_extend(display, context, inst_start, inst_next, global_set_param),
            Tableinstruction::Var53(x) => x.display_extend(display, context, inst_start, inst_next, global_set_param),
            Tableinstruction::Var54(x) => x.display_extend(display, context, inst_start, inst_next, global_set_param),
            Tableinstruction::Var55(x) => x.display_extend(display, context, inst_start, inst_next, global_set_param),
            Tableinstruction::Var56(x) => x.display_extend(display, context, inst_start, inst_next, global_set_param),
            Tableinstruction::Var57(x) => x.display_extend(display, context, inst_start, inst_next, global_set_param),
            Tableinstruction::Var58(x) => x.display_extend(display, context, inst_start, inst_next, global_set_param),
            Tableinstruction::Var59(x) => x.display_extend(display, context, inst_start, inst_next, global_set_param),
            Tableinstruction::Var60(x) => x.display_extend(display, context, inst_start, inst_next, global_set_param),
        }
    }
}
/// The instruction `ret`.
#[derive(Clone, Copy, Debug)]
pub struct instructionVar1 {
}

impl instructionVar1 {
    /// The instruction read from the token bytes `t` under the context
    /// registers `regs`: its length, value and the context after it.
    pub open spec fn spec_parse(t: Seq<u8>, regs: Seq<u8>) -> Option<(nat, Self, Seq<u8>)> {
        if phase_of(regs) == 1 && t.len() >= 2 && op1215_of(t) == 15 && op0811_of(t) == 4 && op0007_of(t) == 0 {
            Some((2, instructionVar1 {}, regs))
        } else {
            None
        }
    }

    pub open spec fn wf(&self) -> bool {
        true
    }

    pub open spec fn spec_display(&self, regs: Seq<u8>, inst_start: u32, inst_next: u32) -> Seq<DisplayElement> {
        seq![lit("ret")]
    }

    /// Matches the instruction's pattern and reads its operands.
    pub fn parse(tokens: &[u8], context: &mut SpacesStruct, inst_start: u32) -> (r: Option<(u32, Self)>)
        ensures
            *final(context) == *old(context),
            r == (match Self::spec_parse(tokens@, old(context)@) {
                Some((n, v, _)) => Some((n as u32, v)),
                None => None,
            }),
            r matches Some((_, v)) ==> v.wf(),
    {
        let mut pattern_len: u32 = 0;
        let mut block_0_len: u32 = 2;
        let token_parser = TokenParser::<2>::new(tokens)?;
        if context.register().read_phase_disassembly() != 1i64 {
            return None;
        }
        if token_parser.TokenFieldop1215().disassembly() != 15i64 {
            return None;
        }
        if token_parser.TokenFieldop0811().disassembly() != 4i64 {
            return None;
        }
        if token_parser.TokenFieldop0007().disassembly() != 0i64 {
            return None;
        }
        pattern_len = pattern_len + block_0_len;
        Some((pattern_len, Self {}))
    }

    /// Appends the instruction's text to `display`.
    pub fn display_extend(
        &self,
        display: &mut Vec<DisplayElement>,
        context: &SpacesStruct,
        inst_start: u32,
        inst_next: u32,
        global_set: &mut Vec<GlobalSetRequest>,
    )
        requires
            self.wf(),
        ensures
            final(display)@ == old(display)@ + self.spec_display(context@, inst_start, inst_next),
            final(global_set)@ == old(global_set)@,
    {
        push_all(display, &[DisplayElement::Literal("ret")]);
        assert(display@ =~= old(display)@ + self.spec_display(context@, inst_start, inst_next));
    }
}

/// The instruction `user_three`.
#[derive(Clone, Copy, Debug)]
pub struct instructionVar2 {
}

impl instructionVar2 {
    /// The instruction read from the token bytes `t` under the context
    /// registers `regs`: its length, value and the context after it.
    pub open spec fn spec_parse(t: Seq<u8>, regs: Seq<u8>) -> Option<(nat, Self, Seq<u8>)> {
        if phase_of(regs) == 1 && t.len() >= 2 && op1215_of(t) == 10 && op0811_of(t) == 3 && op0007_of(t) == 0 {
            Some((2, instructionVar2 {}, regs))
        } else {
            None
        }
    }

    pub open spec fn wf(&self) -> bool {
        true
    }

    pub open spec fn spec_display(&self, regs: Seq<u8>, inst_start: u32, inst_next: u32) -> Seq<DisplayElement> {
        seq![lit("user_three")]
    }

    /// Matches the instruction's pattern and reads its operands.
    pub fn parse(tokens: &[u8], context: &mut SpacesStruct, inst_start: u32) -> (r: Option<(u32, Self)>)
        ensures
            *final(context) == *old(context),
            r == (match Self::spec_parse(tokens@, old(context)@) {
                Some((n, v, _)) => Some((n as u32, v)),
                None => None,
            }),
            r matches Some((_, v)) ==> v.wf(),
    {
        let mut pattern_len: u32 = 0;
        let mut block_0_len: u32 = 2;
        let token_parser = TokenParser::<2>::new(tokens)?;
        if context.register().read_phase_disassembly() != 1i64 {
            return None;
        }
        if token_parser.TokenFieldop1215().disassembly() != 10i64 {
            return None;
        }
        if token_parser.TokenFieldop0811().disassembly() != 3i64 {
            return None;
        }
        if token_parser.TokenFieldop0007().disassembly() != 0i64 {
            return None;
        }
        pattern_len = pattern_len + block_0_len;
        Some((pattern_len, Self {}))
    }

    /// Appends the instruction's text to `display`.
    pub fn display_extend(
        &self,
        display: &mut Vec<DisplayElement>,
        context: &SpacesStruct,
        inst_start: u32,
        inst_next: u32,
        global_set: &mut Vec<GlobalSetRequest>,
    )
        requires
            self.wf(),
        ensures
            final(display)@ == old(display)@ + self.spec_display(context@, inst_start, inst_next),
            final(global_set)@ == old(global_set)@,
    {
        push_all(display, &[DisplayElement::Literal("user_three")]);
        assert(display@ =~= old(display)@ + self.spec_display(context@, inst_start, inst_next));
    }
}

/// The instruction `unimpl`.
#[derive(Clone, Copy, Debug)]
pub struct instructionVar3 {
}

impl instructionVar3 {
    /// The instruction read from the token bytes `t` under the context
    /// registers `regs`: its length, value and the context after it.
    pub open spec fn spec_parse(t: Seq<u8>, regs: Seq<u8>) -> Option<(nat, Self, Seq<u8>)> {
        if phase_of(regs) == 1 && t.len() >= 2 && op1215_of(t) == 10 && op0811_of(t) == 8 && op0007_of(t) == 0 {
            Some((2, instructionVar3 {}, regs))
        } else {
            None
        }
    }

    pub open spec fn wf(&self) -> bool {
        true
    }

    pub open spec fn spec_display(&self, regs: Seq<u8>, inst_start: u32, inst_next: u32) -> Seq<DisplayElement> {
        seq![lit("unimpl")]
    }

    /// Matches the instruction's pattern and reads its operands.
    pub fn parse(tokens: &[u8], context: &mut SpacesStruct, inst_start: u32) -> (r: Option<(u32, Self)>)
        ensures
            *final(context) == *old(context),
            r == (match Self::spec_parse(tokens@, old(context)@) {
                Some((n, v, _)) => Some((n as u32, v)),
                None => None,
            }),
            r matches Some((_, v)) ==> v.wf(),
    {
        let mut pattern_len: u32 = 0;
        let mut block_0_len: u32 = 2;
        let token_parser = TokenParser::<2>::new(tokens)?;
        if context.register().read_phase_disassembly() != 1i64 {
            return None;
        }
        if token_parser.TokenFieldop1215().disassembly() != 10i64 {
            return None;
        }
        if token_parser.TokenFieldop0811().disassembly() != 8i64 {
            return None;
        }
        if token_parser.TokenFieldop0007().disassembly() != 0i64 {
            return None;
        }
        pattern_len = pattern_len + block_0_len;
        Some((pattern_len, Self {}))
    }

    /// Appends the instruction's text to `display`.
    pub fn display_extend(
        &self,
        display: &mut Vec<DisplayElement>,
        context: &SpacesStruct,
        inst_start: u32,
        inst_next: u32,
        global_set: &mut Vec<GlobalSetRequest>,
    )
        requires
            self.wf(),
        ensures
            final(display)@ == old(display)@ + self.spec_display(context@, inst_start, inst_next),
            final(global_set)@ == old(global_set)@,
    {
        push_all(display, &[DisplayElement::Literal("unimpl")]);
        assert(display@ =~= old(display)@ + self.spec_display(context@, inst_start, inst_next));
    }
}

/// The instruction `inv rs`.
#[derive(Clone, Copy, Debug)]
pub struct instructionVar4 {
    pub rs: TokenField_rs,
}

impl instructionVar4 {
    /// The instruction read from the token bytes `t` under the context
    /// registers `regs`: its length, value and the context after it.
    pub open spec fn spec_parse(t: Seq<u8>, regs: Seq<u8>) -> Option<(nat, Self, Seq<u8>)> {
        if phase_of(regs) == 1 && t.len() >= 2 && op1215_of(t) == 13 && op0811_of(t) == 14 && op0003_of(t) == 0 {
            Some((2, instructionVar4 { rs: TokenField_rs(rs_of(t)) }, regs))
        } else {
            None
        }
    }

    pub open spec fn wf(&self) -> bool {
        self.rs.0 < 16
    }

    pub open spec fn spec_display(&self, regs: Seq<u8>, inst_start: u32, inst_next: u32) -> Seq<DisplayElement> {
        seq![lit("inv"), lit("  "), reg(self.rs.0)]
    }

    /// Matches the instruction's pattern and reads its operands.
    pub fn parse(tokens: &[u8], context: &mut SpacesStruct, inst_start: u32) -> (r: Option<(u32, Self)>)
        ensures
            *final(context) == *old(context),
            r == (match Self::spec_parse(tokens@, old(context)@) {
                Some((n, v, _)) => Some((n as u32, v)),
                None => None,
            }),
            r matches Some((_, v)) ==> v.wf(),
    {
        let mut pattern_len: u32 = 0;
        let mut block_0_len: u32 = 2;
        let token_parser = TokenParser::<2>::new(tokens)?;
        if context.register().read_phase_disassembly() != 1i64 {
            return None;
        }
        if token_parser.TokenFieldop1215().disassembly() != 13i64 {
            return None;
        }
        if token_parser.TokenFieldop0811().disassembly() != 14i64 {
            return None;
        }
        if token_parser.TokenFieldop0003().disassembly() != 0i64 {
            return None;
        }
        let rs = token_parser.TokenFieldrs();
        pattern_len = pattern_len + block_0_len;
        Some((pattern_len, Self { rs }))
    }

    /// Appends the instruction's text to `display`.
    pub fn display_extend(
        &self,
        display: &mut Vec<DisplayElement>,
        context: &SpacesStruct,
        inst_start: u32,
        inst_next: u32,
        global_set: &mut Vec<GlobalSetRequest>,
    )
        requires
            self.wf(),
        ensures
            final(display)@ == old(display)@ + self.spec_display(context@, inst_start, inst_next),
            final(global_set)@ == old(global_set)@,
    {
        push_all(display, &[DisplayElement::Literal("inv"), DisplayElement::Literal("  "), self.rs.display()]);
        assert(display@ =~= old(display)@ + self.spec_display(context@, inst_start, inst_next));
    }
}

/// The instruction `neg rs`.
#[derive(Clone, Copy, Debug)]
pub struct instructionVar5 {
    pub rs: TokenField_rs,
}

impl instructionVar5 {
    /// The instruction read from the token bytes `t` under the context
    /// registers `regs`: its length, value and the context after it.
    pub open spec fn spec_parse(t: Seq<u8>, regs: Seq<u8>) -> Option<(nat, Self, Seq<u8>)> {
        if phase_of(regs) == 1 && t.len() >= 2 && op1215_of(t) == 13 && op0811_of(t) == 14 && op0003_of(t) == 1 {
            Some((2, instructionVar5 { rs: TokenField_rs(rs_of(t)) }, regs))
        } else {
            None
        }
    }

    pub open spec fn wf(&self) -> bool {
        self.rs.0 < 16
    }

    pub open spec fn spec_display(&self, regs: Seq<u8>, inst_start: u32, inst_next: u32) -> Seq<DisplayElement> {
        seq![lit("neg"), lit("  "), reg(self.rs.0)]
    }

    /// Matches the instruction's pattern and reads its operands.
    pub fn parse(tokens: &[u8], context: &mut SpacesStruct, inst_start: u32) -> (r: Option<(u32, Self)>)
        ensures
            *final(context) == *old(context),
            r == (match Self::spec_parse(tokens@, old(context)@) {
                Some((n, v, _)) => Some((n as u32, v)),
                None => None,
            }),
            r matches Some((_, v)) ==> v.wf(),
    {
        let mut pattern_len: u32 = 0;
        let mut block_0_len: u32 = 2;
        let token_parser = TokenParser::<2>::new(tokens)?;
        if context.register().read_phase_disassembly() != 1i64 {
            return None;
        }
        if token_parser.TokenFieldop1215().disassembly() != 13i64 {
            return None;
        }
        if token_parser.TokenFieldop0811().disassembly() != 14i64 {
            return None;
        }
        if token_parser.TokenFieldop0003().disassembly() != 1i64 {
            return None;
        }
        let rs = token_parser.TokenFieldrs();
        pattern_len = pattern_len + block_0_len;
        Some((pattern_len, Self { rs }))
    }

    /// Appends the instruction's text to `display`.
    pub fn display_extend(
        &self,
        display: &mut Vec<DisplayElement>,
        context: &SpacesStruct,
        inst_start: u32,
        inst_next: u32,
        global_set: &mut Vec<GlobalSetRequest>,
    )
        requires
            self.wf(),
        ensures
            final(display)@ == old(display)@ + self.spec_display(context@, inst_start, inst_next),
            final(global_set)@ == old(global_set)@,
    {
        push_all(display, &[DisplayElement::Literal("neg"), DisplayElement::Literal("  "), self.rs.display()]);
        assert(display@ =~= old(display)@ + self.spec_display(context@, inst_start, inst_next));
    }
}

/// The instruction `sk` on a condition (skip).
#[derive(Clone, Copy, Debug)]
pub struct instructionVar6 {
    pub CC: TableCC,
    pub Rel82: TableRel82,
}

impl instructionVar6 {
    /// The instruction read from the token bytes `t` under the context
    /// registers `regs`: its length, value and the context after it.
    pub open spec fn spec_parse(t: Seq<u8>, regs: Seq<u8>) -> Option<(nat, Self, Seq<u8>)> {
        if phase_of(regs) == 1 && t.len() >= 2 && op1215_of(t) == 8 && op0811_of(t) == 0 && op0407_of(t) == 0 && op0303_of(t) == 0 {
            Some((2, instructionVar6 { CC: TableCC::spec_parse(t).unwrap(), Rel82: TableRel82::spec_parse(t).unwrap() }, regs))
        } else {
            None
        }
    }

    pub open spec fn wf(&self) -> bool {
        self.Rel82.wf()
    }

    pub open spec fn spec_display(&self, regs: Seq<u8>, inst_start: u32, inst_next: u32) -> Seq<DisplayElement> {
        seq![lit("sk")] + self.CC.spec_display()
    }

    /// Matches the instruction's pattern and reads its operands.
    pub fn parse(tokens: &[u8], context: &mut SpacesStruct, inst_start: u32) -> (r: Option<(u32, Self)>)
        ensures
            *final(context) == *old(context),
            r == (match Self::spec_parse(tokens@, old(context)@) {
                Some((n, v, _)) => Some((n as u32, v)),
                None => None,
            }),
            r matches Some((_, v)) ==> v.wf(),
    {
        let mut pattern_len: u32 = 0;
        let mut block_0_len: u32 = 2;
        let token_parser = TokenParser::<2>::new(tokens)?;
        if context.register().read_phase_disassembly() != 1i64 {
            return None;
        }
        if token_parser.TokenFieldop1215().disassembly() != 8i64 {
            return None;
        }
        if token_parser.TokenFieldop0811().disassembly() != 0i64 {
            return None;
        }
        if token_parser.TokenFieldop0407().disassembly() != 0i64 {
            return None;
        }
        if token_parser.TokenFieldop0303().disassembly() != 0i64 {
            return None;
        }
        let CC = if let Some((len, table)) = TableCC::parse(tokens) {
            if len > block_0_len {
                block_0_len = len;
            }
            table
        } else {
            return None;
        };
        let Rel82 = if let Some((len, table)) = TableRel82::parse(tokens) {
            if len > block_0_len {
                block_0_len = len;
            }
            table
        } else {
            return None;
        };
        pattern_len = pattern_len + block_0_len;
        Some((pattern_len, Self { CC, Rel82 }))
    }

    /// Appends the instruction's text to `display`.
    pub fn display_extend(
        &self,
        display: &mut Vec<DisplayElement>,
        context: &SpacesStruct,
        inst_start: u32,
        inst_next: u32,
        global_set: &mut Vec<GlobalSetRequest>,
    )
        requires
            self.wf(),
        ensures
            final(display)@ == old(display)@ + self.spec_display(context@, inst_start, inst_next),
            final(global_set)@ == old(global_set)@,
    {
        push_all(display, &[DisplayElement::Literal("sk")]);
        self.CC.display_extend(display, context, inst_start, inst_next, global_set);
        assert(display@ =~= old(display)@ + self.spec_display(context@, inst_start, inst_next));
    }
}

/// The instruction `push rs`.
#[derive(Clone, Copy, Debug)]
pub struct instructionVar7 {
    pub rs: TokenField_rs,
}

impl instructionVar7 {
    /// The instruction read from the token bytes `t` under the context
    /// registers `regs`: its length, value and the context after it.
    pub open spec fn spec_parse(t: Seq<u8>, regs: Seq<u8>) -> Option<(nat, Self, Seq<u8>)> {
        if phase_of(regs) == 1 && t.len() >= 2 && op1215_of(t) == 15 && op0811_of(t) == 2 && op0003_of(t) == 0 {
            Some((2, instructionVar7 { rs: TokenField_rs(rs_of(t)) }, regs))
        } else {
            None
        }
    }

    pub open spec fn wf(&self) -> bool {
        self.rs.0 < 16
    }

    pub open spec fn spec_display(&self, regs: Seq<u8>, inst_start: u32, inst_next: u32) -> Seq<DisplayElement> {
        seq![lit("push"), lit(" "), reg(self.rs.0)]
    }

    /// Matches the instruction's pattern and reads its operands.
    pub fn parse(tokens: &[u8], context: &mut SpacesStruct, inst_start: u32) -> (r: Option<(u32, Self)>)
        ensures
            *final(context) == *old(context),
            r == (match Self::spec_parse(tokens@, old(context)@) {
                Some((n, v, _)) => Some((n as u32, v)),
                None => None,
            }),
            r matches Some((_, v)) ==> v.wf(),
    {
        let mut pattern_len: u32 = 0;
        let mut block_0_len: u32 = 2;
        let token_parser = TokenParser::<2>::new(tokens)?;
        if context.register().read_phase_disassembly() != 1i64 {
            return None;
        }
        if token_parser.TokenFieldop1215().disassembly() != 15i64 {
            return None;
        }
        if token_parser.TokenFieldop0811().disassembly() != 2i64 {
            return None;
        }
        if token_parser.TokenFieldop0003().disassembly() != 0i64 {
            return None;
        }
        let rs = token_parser.TokenFieldrs();
        pattern_len = pattern_len + block_0_len;
        Some((pattern_len, Self { rs }))
    }

    /// Appends the instruction's text to `display`.
    pub fn display_extend(
        &self,
        display: &mut Vec<DisplayElement>,
        context: &SpacesStruct,
        inst_start: u32,
        inst_next: u32,
        global_set: &mut Vec<GlobalSetRequest>,
    )
        requires
            self.wf(),
        ensures
            final(display)@ == old(display)@ + self.spec_display(context@, inst_start, inst_next),
            final(global_set)@ == old(global_set)@,
    {
        push_all(display, &[DisplayElement::Literal("push"), DisplayElement::Literal(" "), self.rs.display()]);
        assert(display@ =~= old(display)@ + self.spec_display(context@, inst_start, inst_next));
    }
}

/// The instruction `pop rs`.
#[derive(Clone, Copy, Debug)]
pub struct instructionVar8 {
    pub rs: TokenField_rs,
}

impl instructionVar8 {
    /// The instruction read from the token bytes `t` under the context
    /// registers `regs`: its length, value and the context after it.
    pub open spec fn spec_parse(t: Seq<u8>, regs: Seq<u8>) -> Option<(nat, Self, Seq<u8>)> {
        if phase_of(regs) == 1 && t.len() >= 2 && op1215_of(t) == 15 && op0811_of(t) == 3 && op0003_of(t) == 0 {
            Some((2, instructionVar8 { rs: TokenField_rs(rs_of(t)) }, regs))
        } else {
            None
        }
    }

    pub open spec fn wf(&self) -> bool {
        self.rs.0 < 16
    }

    pub open spec fn spec_display(&self, regs: Seq<u8>, inst_start: u32, inst_next: u32) -> Seq<DisplayElement> {
        seq![lit("pop"), lit(" "), reg(self.rs.0)]
    }

    /// Matches the instruction's pattern and reads its operands.
    pub fn parse(tokens: &[u8], context: &mut SpacesStruct, inst_start: u32) -> (r: Option<(u32, Self)>)
        ensures
            *final(context) == *old(context),
            r == (match Self::spec_parse(tokens@, old(context)@) {
                Some((n, v, _)) => Some((n as u32, v)),
                None => None,
            }),
            r matches Some((_, v)) ==> v.wf(),
    {
        let mut pattern_len: u32 = 0;
        let mut block_0_len: u32 = 2;
        let token_parser = TokenParser::<2>::new(tokens)?;
        if context.register().read_phase_disassembly() != 1i64 {
            return None;
        }
        if token_parser.TokenFieldop1215().disassembly() != 15i64 {
            return None;
        }
        if token_parser.TokenFieldop0811().disassembly() != 3i64 {
            return None;
        }
        if token_parser.TokenFieldop0003().disassembly() != 0i64 {
            return None;
        }
        let rs = token_parser.TokenFieldrs();
        pattern_len = pattern_len + block_0_len;
        Some((pattern_len, Self { rs }))
    }

    /// Appends the instruction's text to `display`.
    pub fn display_extend(
        &self,
        display: &mut Vec<DisplayElement>,
        context: &SpacesStruct,
        inst_start: u32,
        inst_next: u32,
        global_set: &mut Vec<GlobalSetRequest>,
    )
        requires
            self.wf(),
        ensures
            final(display)@ == old(display)@ + self.spec_display(context@, inst_start, inst_next),
            final(global_set)@ == old(global_set)@,
    {
        push_all(display, &[DisplayElement::Literal("pop"), DisplayElement::Literal(" "), self.rs.display()]);
        assert(display@ =~= old(display)@ + self.spec_display(context@, inst_start, inst_next));
    }
}

/// The instruction `call rs`.
#[derive(Clone, Copy, Debug)]
pub struct instructionVar9 {
    pub rs: TokenField_rs,
}

impl instructionVar9 {
    /// The instruction read from the token bytes `t` under the context
    /// registers `regs`: its length, value and the context after it.
    pub open spec fn spec_parse(t: Seq<u8>, regs: Seq<u8>) -> Option<(nat, Self, Seq<u8>)> {
        if phase_of(regs) == 1 && t.len() >= 2 && op1215_of(t) == 15 && op0811_of(t) == 6 && op0003_of(t) == 0 {
            Some((2, instructionVar9 { rs: TokenField_rs(rs_of(t)) }, regs))
        } else {
            None
        }
    }

    pub open spec fn wf(&self) -> bool {
        self.rs.0 < 16
    }

    pub open spec fn spec_display(&self, regs: Seq<u8>, inst_start: u32, inst_next: u32) -> Seq<DisplayElement> {
        seq![lit("call"), lit(" "), reg(self.rs.0)]
    }

    /// Matches the instruction's pattern and reads its operands.
    pub fn parse(tokens: &[u8], context: &mut SpacesStruct, inst_start: u32) -> (r: Option<(u32, Self)>)
        ensures
            *final(context) == *old(context),
            r == (match Self::spec_parse(tokens@, old(context)@) {
                Some((n, v, _)) => Some((n as u32, v)),
                None => None,
            }),
            r matches Some((_, v)) ==> v.wf(),
    {
        let mut pattern_len: u32 = 0;
        let mut block_0_len: u32 = 2;
        let token_parser = TokenParser::<2>::new(tokens)?;
        if context.register().read_phase_disassembly() != 1i64 {
            return None;
        }
        if token_parser.TokenFieldop1215().disassembly() != 15i64 {
            return None;
        }
        if token_parser.TokenFieldop0811().disassembly() != 6i64 {
            return None;
        }
        if token_parser.TokenFieldop0003().disassembly() != 0i64 {
            return None;
        }
        let rs = token_parser.TokenFieldrs();
        pattern_len = pattern_len + block_0_len;
        Some((pattern_len, Self { rs }))
    }

    /// Appends the instruction's text to `display`.
    pub fn display_extend(
        &self,
        display: &mut Vec<DisplayElement>,
        context: &SpacesStruct,
        inst_start: u32,
        inst_next: u32,
        global_set: &mut Vec<GlobalSetRequest>,
    )
        requires
            self.wf(),
        ensures
            final(display)@ == old(display)@ + self.spec_display(context@, inst_start, inst_next),
            final(global_set)@ == old(global_set)@,
    {
        push_all(display, &[DisplayElement::Literal("call"), DisplayElement::Literal(" "), self.rs.display()]);
        assert(display@ =~= old(display)@ + self.spec_display(context@, inst_start, inst_next));
    }
}

/// The instruction `user_one rs`.
#[derive(Clone, Copy, Debug)]
pub struct instructionVar10 {
    pub rs: TokenField_rs,
}

impl instructionVar10 {
    /// The instruction read from the token bytes `t` under the context
    /// registers `regs`: its length, value and the context after it.
    pub open spec fn spec_parse(t: Seq<u8>, regs: Seq<u8>) -> Option<(nat, Self, Seq<u8>)> {
        if phase_of(regs) == 1 && t.len() >= 2 && op1215_of(t) == 10 && op0811_of(t) == 1 && op0003_of(t) == 0 {
            Some((2, instructionVar10 { rs: TokenField_rs(rs_of(t)) }, regs))
        } else {
            None
        }
    }

    pub open spec fn wf(&self) -> bool {
        self.rs.0 < 16
    }

    pub open spec fn spec_display(&self, regs: Seq<u8>, inst_start: u32, inst_next: u32) -> Seq<DisplayElement> {
        seq![lit("user_one"), lit(" "), reg(self.rs.0)]
    }

    /// Matches the instruction's pattern and reads its operands.
    pub fn parse(tokens: &[u8], context: &mut SpacesStruct, inst_start: u32) -> (r: Option<(u32, Self)>)
        ensures
            *final(context) == *old(context),
            r == (match Self::spec_parse(tokens@, old(context)@) {
                Some((n, v, _)) => Some((n as u32, v)),
                None => None,
            }),
            r matches Some((_, v)) ==> v.wf(),
    {
        let mut pattern_len: u32 = 0;
        let mut block_0_len: u32 = 2;
        let token_parser = TokenParser::<2>::new(tokens)?;
        if context.register().read_phase_disassembly() != 1i64 {
            return None;
        }
        if token_parser.TokenFieldop1215().disassembly() != 10i64 {
            return None;
        }
        if token_parser.TokenFieldop0811().disassembly() != 1i64 {
            return None;
        }
        if token_parser.TokenFieldop0003().disassembly() != 0i64 {
            return None;
        }
        let rs = token_parser.TokenFieldrs();
        pattern_len = pattern_len + block_0_len;
        Some((pattern_len, Self { rs }))
    }

    /// Appends the instruction's text to `display`.
    pub fn display_extend(
        &self,
        display: &mut Vec<DisplayElement>,
        context: &SpacesStruct,
        inst_start: u32,
        inst_next: u32,
        global_set: &mut Vec<GlobalSetRequest>,
    )
        requires
            self.wf(),
        ensures
            final(display)@ == old(display)@ + self.spec_display(context@, inst_start, inst_next),
            final(global_set)@ == old(global_set)@,
    {
        push_all(display, &[DisplayElement::Literal("user_one"), DisplayElement::Literal(" "), self.rs.display()]);
        assert(display@ =~= old(display)@ + self.spec_display(context@, inst_start, inst_next));
    }
}

/// The instruction `user_two rs`.
#[derive(Clone, Copy, Debug)]
pub struct instructionVar11 {
    pub rs: TokenField_rs,
}

impl instructionVar11 {
    /// The instruction read from the token bytes `t` under the context
    /// registers `regs`: its length, value and the context after it.
    pub open spec fn spec_parse(t: Seq<u8>, regs: Seq<u8>) -> Option<(nat, Self, Seq<u8>)> {
        if phase_of(regs) == 1 && t.len() >= 2 && op1215_of(t) == 10 && op0811_of(t) == 2 && op0003_of(t) == 0 {
            Some((2, instructionVar11 { rs: TokenField_rs(rs_of(t)) }, regs))
        } else {
            None
        }
    }

    pub open spec fn wf(&self) -> bool {
        self.rs.0 < 16
    }

    pub open spec fn spec_display(&self, regs: Seq<u8>, inst_start: u32, inst_next: u32) -> Seq<DisplayElement> {
        seq![lit("user_two"), lit(" "), reg(self.rs.0)]
    }

    /// Matches the instruction's pattern and reads its operands.
    pub fn parse(tokens: &[u8], context: &mut SpacesStruct, inst_start: u32) -> (r: Option<(u32, Self)>)
        ensures
            *final(context) == *old(context),
            r == (match Self::spec_parse(tokens@, old(context)@) {
                Some((n, v, _)) => Some((n as u32, v)),
                None => None,
            }),
            r matches Some((_, v)) ==> v.wf(),
    {
        let mut pattern_len: u32 = 0;
        let mut block_0_len: u32 = 2;
        let token_parser = TokenParser::<2>::new(tokens)?;
        if context.register().read_phase_disassembly() != 1i64 {
            return None;
        }
        if token_parser.TokenFieldop1215().disassembly() != 10i64 {
            return None;
        }
        if token_parser.TokenFieldop0811().disassembly() != 2i64 {
            return None;
        }
        if token_parser.TokenFieldop0003().disassembly() != 0i64 {
            return None;
        }
        let rs = token_parser.TokenFieldrs();
        pattern_len = pattern_len + block_0_len;
        Some((pattern_len, Self { rs }))
    }

    /// Appends the instruction's text to `display`.
    pub fn display_extend(
        &self,
        display: &mut Vec<DisplayElement>,
        context: &SpacesStruct,
        inst_start: u32,
        inst_next: u32,
        global_set: &mut Vec<GlobalSetRequest>,
    )
        requires
            self.wf(),
        ensures
            final(display)@ == old(display)@ + self.spec_display(context@, inst_start, inst_next),
            final(global_set)@ == old(global_set)@,
    {
        push_all(display, &[DisplayElement::Literal("user_two"), DisplayElement::Literal(" "), self.rs.display()]);
        assert(display@ =~= old(display)@ + self.spec_display(context@, inst_start, inst_next));
    }
}

/// The instruction `user_six rs`.
#[derive(Clone, Copy, Debug)]
pub struct instructionVar12 {
    pub rs: TokenField_rs,
}

impl instructionVar12 {
    /// The instruction read from the token bytes `t` under the context
    /// registers `regs`: its length, value and the context after it.
    pub open spec fn spec_parse(t: Seq<u8>, regs: Seq<u8>) -> Option<(nat, Self, Seq<u8>)> {
        if phase_of(regs) == 1 && t.len() >= 2 && op1215_of(t) == 10 && op0811_of(t) == 6 && op0003_of(t) == 0 {
            Some((2, instructionVar12 { rs: TokenField_rs(rs_of(t)) }, regs))
        } else {
            None
        }
    }

    pub open spec fn wf(&self) -> bool {
        self.rs.0 < 16
    }

    pub open spec fn spec_display(&self, regs: Seq<u8>, inst_start: u32, inst_next: u32) -> Seq<DisplayElement> {
        seq![lit("user_six"), lit(" "), reg(self.rs.0)]
    }

    /// Matches the instruction's pattern and reads its operands.
    pub fn parse(tokens: &[u8], context: &mut SpacesStruct, inst_start: u32) -> (r: Option<(u32, Self)>)
        ensures
            *final(context) == *old(context),
            r == (match Self::spec_parse(tokens@, old(context)@) {
                Some((n, v, _)) => Some((n as u32, v)),
                None => None,
            }),
            r matches Some((_, v)) ==> v.wf(),
    {
        let mut pattern_len: u32 = 0;
        let mut block_0_len: u32 = 2;
        let token_parser = TokenParser::<2>::new(tokens)?;
        if context.register().read_phase_disassembly() != 1i64 {
            return None;
        }
        if token_parser.TokenFieldop1215().disassembly() != 10i64 {
            return None;
        }
        if token_parser.TokenFieldop0811().disassembly() != 6i64 {
            return None;
        }
        if token_parser.TokenFieldop0003().disassembly() != 0i64 {
            return None;
        }
        let rs = token_parser.TokenFieldrs();
        pattern_len = pattern_len + block_0_len;
        Some((pattern_len, Self { rs }))
    }

    /// Appends the instruction's text to `display`.
    pub fn display_extend(
        &self,
        display: &mut Vec<DisplayElement>,
        context: &SpacesStruct,
        inst_start: u32,
        inst_next: u32,
        global_set: &mut Vec<GlobalSetRequest>,
    )
        requires
            self.wf(),
        ensures
            final(display)@ == old(display)@ + self.spec_display(context@, inst_start, inst_next),
            final(global_set)@ == old(global_set)@,
    {
        push_all(display, &[DisplayElement::Literal("user_six"), DisplayElement::Literal(" "), self.rs.display()]);
        assert(display@ =~= old(display)@ + self.spec_display(context@, inst_start, inst_next));
    }
}

/// The instruction `cop1 rs`, when `nfctx` is 1.
#[derive(Clone, Copy, Debug)]
pub struct instructionVar13 {
    pub rs: TokenField_rs,
}

impl instructionVar13 {
    /// The instruction read from the token bytes `t` under the context
    /// registers `regs`: its length, value and the context after it.
    pub open spec fn spec_parse(t: Seq<u8>, regs: Seq<u8>) -> Option<(nat, Self, Seq<u8>)> {
        if phase_of(regs) == 1 && t.len() >= 2 && op1215_of(t) == 13 && op0811_of(t) == 10 && op0003_of(t) == 0 && nfctx_of(regs) == 1 {
            Some((2, instructionVar13 { rs: TokenField_rs(rs_of(t)) }, regs))
        } else {
            None
        }
    }

    pub open spec fn wf(&self) -> bool {
        self.rs.0 < 16
    }

    pub open spec fn spec_display(&self, regs: Seq<u8>, inst_start: u32, inst_next: u32) -> Seq<DisplayElement> {
        seq![lit("cop1"), lit(" "), reg(self.rs.0)]
    }

    /// Matches the instruction's pattern and reads its operands.
    pub fn parse(tokens: &[u8], context: &mut SpacesStruct, inst_start: u32) -> (r: Option<(u32, Self)>)
        ensures
            *final(context) == *old(context),
            r == (match Self::spec_parse(tokens@, old(context)@) {
                Some((n, v, _)) => Some((n as u32, v)),
                None => None,
            }),
            r matches Some((_, v)) ==> v.wf(),
    {
        let mut pattern_len: u32 = 0;
        let mut block_0_len: u32 = 2;
        let token_parser = TokenParser::<2>::new(tokens)?;
        if context.register().read_phase_disassembly() != 1i64 {
            return None;
        }
        if token_parser.TokenFieldop1215().disassembly() != 13i64 {
            return None;
        }
        if token_parser.TokenFieldop0811().disassembly() != 10i64 {
            return None;
        }
        if token_parser.TokenFieldop0003().disassembly() != 0i64 {
            return None;
        }
        if context.register().read_nfctx_disassembly() != 1i64 {
            return None;
        }
        let rs = token_parser.TokenFieldrs();
        pattern_len = pattern_len + block_0_len;
        Some((pattern_len, Self { rs }))
    }

    /// Appends the instruction's text to `display`.
    pub fn display_extend(
        &self,
        display: &mut Vec<DisplayElement>,
        context: &SpacesStruct,
        inst_start: u32,
        inst_next: u32,
        global_set: &mut Vec<GlobalSetRequest>,
    )
        requires
            self.wf(),
        ensures
            final(display)@ == old(display)@ + self.spec_display(context@, inst_start, inst_next),
            final(global_set)@ == old(global_set)@,
    {
        push_all(display, &[DisplayElement::Literal("cop1"), DisplayElement::Literal(" "), self.rs.display()]);
        assert(display@ =~= old(display)@ + self.spec_display(context@, inst_start, inst_next));
    }
}

/// The instruction `cop2 rs`, when `nfctx` is 2.
#[derive(Clone, Copy, Debug)]
pub struct instructionVar14 {
    pub rs: TokenField_rs,
}

impl instructionVar14 {
    /// The instruction read from the token bytes `t` under the context
    /// registers `regs`: its length, value and the context after it.
    pub open spec fn spec_parse(t: Seq<u8>, regs: Seq<u8>) -> Option<(nat, Self, Seq<u8>)> {
        if phase_of(regs) == 1 && t.len() >= 2 && op1215_of(t) == 13 && op0811_of(t) == 10 && op0003_of(t) == 0 && nfctx_of(regs) == 2 {
            Some((2, instructionVar14 { rs: TokenField_rs(rs_of(t)) }, regs))
        } else {
            None
        }
    }

    pub open spec fn wf(&self) -> bool {
        self.rs.0 < 16
    }

    pub open spec fn spec_display(&self, regs: Seq<u8>, inst_start: u32, inst_next: u32) -> Seq<DisplayElement> {
        seq![lit("cop2"), lit(" "), reg(self.rs.0)]
    }

    /// Matches the instruction's pattern and reads its operands.
    pub fn parse(tokens: &[u8], context: &mut SpacesStruct, inst_start: u32) -> (r: Option<(u32, Self)>)
        ensures
            *final(context) == *old(context),
            r == (match Self::spec_parse(tokens@, old(context)@) {
                Some((n, v, _)) => Some((n as u32, v)),
                None => None,
            }),
            r matches Some((_, v)) ==> v.wf(),
    {
        let mut pattern_len: u32 = 0;
        let mut block_0_len: u32 = 2;
        let token_parser = TokenParser::<2>::new(tokens)?;
        if context.register().read_phase_disassembly() != 1i64 {
            return None;
        }
        if token_parser.TokenFieldop1215().disassembly() != 13i64 {
            return None;
        }
        if token_parser.TokenFieldop0811().disassembly() != 10i64 {
            return None;
        }
        if token_parser.TokenFieldop0003().disassembly() != 0i64 {
            return None;
        }
        if context.register().read_nfctx_disassembly() != 2i64 {
            return None;
        }
        let rs = token_parser.TokenFieldrs();
        pattern_len = pattern_len + block_0_len;
        Some((pattern_len, Self { rs }))
    }

    /// Appends the instruction's text to `display`.
    pub fn display_extend(
        &self,
        display: &mut Vec<DisplayElement>,
        context: &SpacesStruct,
        inst_start: u32,
        inst_next: u32,
        global_set: &mut Vec<GlobalSetRequest>,
    )
        requires
            self.wf(),
        ensures
            final(display)@ == old(display)@ + self.spec_display(context@, inst_start, inst_next),
            final(global_set)@ == old(global_set)@,
    {
        push_all(display, &[DisplayElement::Literal("cop2"), DisplayElement::Literal(" "), self.rs.display()]);
        assert(display@ =~= old(display)@ + self.spec_display(context@, inst_start, inst_next));
    }
}

/// The instruction `cop3 rs`, when `nfctx` is 3.
#[derive(Clone, Copy, Debug)]
pub struct instructionVar15 {
    pub rs: TokenField_rs,
}

impl instructionVar15 {
    /// The instruction read from the token bytes `t` under the context
    /// registers `regs`: its length, value and the context after it.
    pub open spec fn spec_parse(t: Seq<u8>, regs: Seq<u8>) -> Option<(nat, Self, Seq<u8>)> {
        if phase_of(regs) == 1 && t.len() >= 2 && op1215_of(t) == 13 && op0811_of(t) == 10 && op0003_of(t) == 0 && nfctx_of(regs) == 3 {
            Some((2, instructionVar15 { rs: TokenField_rs(rs_of(t)) }, regs))
        } else {
            None
        }
    }

    pub open spec fn wf(&self) -> bool {
        self.rs.0 < 16
    }

    pub open spec fn spec_display(&self, regs: Seq<u8>, inst_start: u32, inst_next: u32) -> Seq<DisplayElement> {
        seq![lit("cop3"), lit(" "), reg(self.rs.0)]
    }

    /// Matches the instruction's pattern and reads its operands.
    pub fn parse(tokens: &[u8], context: &mut SpacesStruct, inst_start: u32) -> (r: Option<(u32, Self)>)
        ensures
            *final(context) == *old(context),
            r == (match Self::spec_parse(tokens@, old(context)@) {
                Some((n, v, _)) => Some((n as u32, v)),
                None => None,
            }),
            r matches Some((_, v)) ==> v.wf(),
    {
        let mut pattern_len: u32 = 0;
        let mut block_0_len: u32 = 2;
        let token_parser = TokenParser::<2>::new(tokens)?;
        if context.register().read_phase_disassembly() != 1i64 {
            return None;
        }
        if token_parser.TokenFieldop1215().disassembly() != 13i64 {
            return None;
        }
        if token_parser.TokenFieldop0811().disassembly() != 10i64 {
            return None;
        }
        if token_parser.TokenFieldop0003().disassembly() != 0i64 {
            return None;
        }
        if context.register().read_nfctx_disassembly() != 3i64 {
            return None;
        }
        let rs = token_parser.TokenFieldrs();
        pattern_len = pattern_len + block_0_len;
        Some((pattern_len, Self { rs }))
    }

    /// Appends the instruction's text to `display`.
    pub fn display_extend(
        &self,
        display: &mut Vec<DisplayElement>,
        context: &SpacesStruct,
        inst_start: u32,
        inst_next: u32,
        global_set: &mut Vec<GlobalSetRequest>,
    )
        requires
            self.wf(),
        ensures
            final(display)@ == old(display)@ + self.spec_display(context@, inst_start, inst_next),
            final(global_set)@ == old(global_set)@,
    {
        push_all(display, &[DisplayElement::Literal("cop3"), DisplayElement::Literal(" "), self.rs.display()]);
        assert(display@ =~= old(display)@ + self.spec_display(context@, inst_start, inst_next));
    }
}

/// The instruction `br` on a condition to a register.
#[derive(Clone, Copy, Debug)]
pub struct instructionVar16 {
    pub COND: TableCOND,
    pub rs: TokenField_rs,
}

impl instructionVar16 {
    /// The instruction read from the token bytes `t` under the context
    /// registers `regs`: its length, value and the context after it.
    pub open spec fn spec_parse(t: Seq<u8>, regs: Seq<u8>) -> Option<(nat, Self, Seq<u8>)> {
        if phase_of(regs) == 1 && t.len() >= 2 && op1215_of(t) == 15 && op0811_of(t) == 0 && op0303_of(t) == 0 {
            Some((2, instructionVar16 { COND: TableCOND::spec_parse(t).unwrap(), rs: TokenField_rs(rs_of(t)) }, regs))
        } else {
            None
        }
    }

    pub open spec fn wf(&self) -> bool {
        self.rs.0 < 16
    }

    pub open spec fn spec_display(&self, regs: Seq<u8>, inst_start: u32, inst_next: u32) -> Seq<DisplayElement> {
        seq![lit("br")] + self.COND.spec_display() + seq![lit(" "), reg(self.rs.0)]
    }

    /// Matches the instruction's pattern and reads its operands.
    pub fn parse(tokens: &[u8], context: &mut SpacesStruct, inst_start: u32) -> (r: Option<(u32, Self)>)
        ensures
            *final(context) == *old(context),
            r == (match Self::spec_parse(tokens@, old(context)@) {
                Some((n, v, _)) => Some((n as u32, v)),
                None => None,
            }),
            r matches Some((_, v)) ==> v.wf(),
    {
        let mut pattern_len: u32 = 0;
        let mut block_0_len: u32 = 2;
        let token_parser = TokenParser::<2>::new(tokens)?;
        if context.register().read_phase_disassembly() != 1i64 {
            return None;
        }
        if token_parser.TokenFieldop1215().disassembly() != 15i64 {
            return None;
        }
        if token_parser.TokenFieldop0811().disassembly() != 0i64 {
            return None;
        }
        if token_parser.TokenFieldop0303().disassembly() != 0i64 {
            return None;
        }
        let COND = if let Some((len, table)) = TableCOND::parse(tokens) {
            if len > block_0_len {
                block_0_len = len;
            }
            table
        } else {
            return None;
        };
        let rs = token_parser.TokenFieldrs();
        pattern_len = pattern_len + block_0_len;
        Some((pattern_len, Self { COND, rs }))
    }

    /// Appends the instruction's text to `display`.
    pub fn display_extend(
        &self,
        display: &mut Vec<DisplayElement>,
        context: &SpacesStruct,
        inst_start: u32,
        inst_next: u32,
        global_set: &mut Vec<GlobalSetRequest>,
    )
        requires
            self.wf(),
        ensures
            final(display)@ == old(display)@ + self.spec_display(context@, inst_start, inst_next),
            final(global_set)@ == old(global_set)@,
    {
        push_all(display, &[DisplayElement::Literal("br")]);
        self.COND.display_extend(display, context, inst_start, inst_next, global_set);
        push_all(display, &[DisplayElement::Literal(" "), self.rs.display()]);
        assert(display@ =~= old(display)@ + self.spec_display(context@, inst_start, inst_next));
    }
}

/// The instruction `brds` on a condition to a register.
#[derive(Clone, Copy, Debug)]
pub struct instructionVar17 {
    pub COND: TableCOND,
    pub rs: TokenField_rs,
}

impl instructionVar17 {
    /// The instruction read from the token bytes `t` under the context
    /// registers `regs`: its length, value and the context after it.
    pub open spec fn spec_parse(t: Seq<u8>, regs: Seq<u8>) -> Option<(nat, Self, Seq<u8>)> {
        if phase_of(regs) == 1 && t.len() >= 2 && op1215_of(t) == 15 && op0811_of(t) == 1 && op0303_of(t) == 0 {
            Some((2, instructionVar17 { COND: TableCOND::spec_parse(t).unwrap(), rs: TokenField_rs(rs_of(t)) }, regs))
        } else {
            None
        }
    }

    pub open spec fn wf(&self) -> bool {
        self.rs.0 < 16
    }

    pub open spec fn spec_display(&self, regs: Seq<u8>, inst_start: u32, inst_next: u32) -> Seq<DisplayElement> {
        seq![lit("brds")] + self.COND.spec_display() + seq![lit(" "), reg(self.rs.0)]
    }

    /// Matches the instruction's pattern and reads its operands.
    pub fn parse(tokens: &[u8], context: &mut SpacesStruct, inst_start: u32) -> (r: Option<(u32, Self)>)
        ensures
            *final(context) == *old(context),
            r == (match Self::spec_parse(tokens@, old(context)@) {
                Some((n, v, _)) => Some((n as u32, v)),
                None => None,
            }),
            r matches Some((_, v)) ==> v.wf(),
    {
        let mut pattern_len: u32 = 0;
        let mut block_0_len: u32 = 2;
        let token_parser = TokenParser::<2>::new(tokens)?;
        if context.register().read_phase_disassembly() != 1i64 {
            return None;
        }
        if token_parser.TokenFieldop1215().disassembly() != 15i64 {
            return None;
        }
        if token_parser.TokenFieldop0811().disassembly() != 1i64 {
            return None;
        }
        if token_parser.TokenFieldop0303().disassembly() != 0i64 {
            return None;
        }
        let COND = if let Some((len, table)) = TableCOND::parse(tokens) {
            if len > block_0_len {
                block_0_len = len;
            }
            table
        } else {
            return None;
        };
        let rs = token_parser.TokenFieldrs();
        pattern_len = pattern_len + block_0_len;
        Some((pattern_len, Self { COND, rs }))
    }

    /// Appends the instruction's text to `display`.
    pub fn display_extend(
        &self,
        display: &mut Vec<DisplayElement>,
        context: &SpacesStruct,
        inst_start: u32,
        inst_next: u32,
        global_set: &mut Vec<GlobalSetRequest>,
    )
        requires
            self.wf(),
        ensures
            final(display)@ == old(display)@ + self.spec_display(context@, inst_start, inst_next),
            final(global_set)@ == old(global_set)@,
    {
        push_all(display, &[DisplayElement::Literal("brds")]);
        self.COND.display_extend(display, context, inst_start, inst_next, global_set);
        push_all(display, &[DisplayElement::Literal(" "), self.rs.display()]);
        assert(display@ =~= old(display)@ + self.spec_display(context@, inst_start, inst_next));
    }
}

/// The instruction `call` on a condition to a register.
#[derive(Clone, Copy, Debug)]
pub struct instructionVar18 {
    pub COND: TableCOND,
    pub rs: TokenField_rs,
}

impl instructionVar18 {
    /// The instruction read from the token bytes `t` under the context
    /// registers `regs`: its length, value and the context after it.
    pub open spec fn spec_parse(t: Seq<u8>, regs: Seq<u8>) -> Option<(nat, Self, Seq<u8>)> {
        if phase_of(regs) == 1 && t.len() >= 2 && op1215_of(t) == 15 && op0811_of(t) == 6 && op0303_of(t) == 1 {
            Some((2, instructionVar18 { COND: TableCOND::spec_parse(t).unwrap(), rs: TokenField_rs(rs_of(t)) }, regs))
        } else {
            None
        }
    }

    pub open spec fn wf(&self) -> bool {
        self.rs.0 < 16
    }

    pub open spec fn spec_display(&self, regs: Seq<u8>, inst_start: u32, inst_next: u32) -> Seq<DisplayElement> {
        seq![lit("call")] + self.COND.spec_display() + seq![lit(" "), reg(self.rs.0)]
    }

    /// Matches the instruction's pattern and reads its operands.
    pub fn parse(tokens: &[u8], context: &mut SpacesStruct, inst_start: u32) -> (r: Option<(u32, Self)>)
        ensures
            *final(context) == *old(context),
            r == (match Self::spec_parse(tokens@, old(context)@) {
                Some((n, v, _)) => Some((n as u32, v)),
                None => None,
            }),
            r matches Some((_, v)) ==> v.wf(),
    {
        let mut pattern_len: u32 = 0;
        let mut block_0_len: u32 = 2;
        let token_parser = TokenParser::<2>::new(tokens)?;
        if context.register().read_phase_disassembly() != 1i64 {
            return None;
        }
        if token_parser.TokenFieldop1215().disassembly() != 15i64 {
            return None;
        }
        if token_parser.TokenFieldop0811().disassembly() != 6i64 {
            return None;
        }
        if token_parser.TokenFieldop0303().disassembly() != 1i64 {
            return None;
        }
        let COND = if let Some((len, table)) = TableCOND::parse(tokens) {
            if len > block_0_len {
                block_0_len = len;
            }
            table
        } else {
            return None;
        };
        let rs = token_parser.TokenFieldrs();
        pattern_len = pattern_len + block_0_len;
        Some((pattern_len, Self { COND, rs }))
    }

    /// Appends the instruction's text to `display`.
    pub fn display_extend(
        &self,
        display: &mut Vec<DisplayElement>,
        context: &SpacesStruct,
        inst_start: u32,
        inst_next: u32,
        global_set: &mut Vec<GlobalSetRequest>,
    )
        requires
            self.wf(),
        ensures
            final(display)@ == old(display)@ + self.spec_display(context@, inst_start, inst_next),
            final(global_set)@ == old(global_set)@,
    {
        push_all(display, &[DisplayElement::Literal("call")]);
        self.COND.display_extend(display, context, inst_start, inst_next, global_set);
        push_all(display, &[DisplayElement::Literal(" "), self.rs.display()]);
        assert(display@ =~= old(display)@ + self.spec_display(context@, inst_start, inst_next));
    }
}

/// The instruction `add rs, rt`.
#[derive(Clone, Copy, Debug)]
pub struct instructionVar23 {
    pub rs: TokenField_rs,
    pub rt: TokenField_rt,
}

impl instructionVar23 {
    /// The instruction read from the token bytes `t` under the context
    /// registers `regs`: its length, value and the context after it.
    pub open spec fn spec_parse(t: Seq<u8>, regs: Seq<u8>) -> Option<(nat, Self, Seq<u8>)> {
        if phase_of(regs) == 1 && t.len() >= 2 && op1215_of(t) == 12 && op0811_of(t) == 0 {
            Some((2, instructionVar23 { rs: TokenField_rs(rs_of(t)), rt: TokenField_rt(rt_of(t)) }, regs))
        } else {
            None
        }
    }

    pub open spec fn wf(&self) -> bool {
        self.rs.0 < 16 && self.rt.0 < 16
    }

    pub open spec fn spec_display(&self, regs: Seq<u8>, inst_start: u32, inst_next: u32) -> Seq<DisplayElement> {
        seq![lit("add"), lit("  "), reg(self.rs.0), lit(", "), reg(self.rt.0)]
    }

    /// Matches the instruction's pattern and reads its operands.
    pub fn parse(tokens: &[u8], context: &mut SpacesStruct, inst_start: u32) -> (r: Option<(u32, Self)>)
        ensures
            *final(context) == *old(context),
            r == (match Self::spec_parse(tokens@, old(context)@) {
                Some((n, v, _)) => Some((n as u32, v)),
                None => None,
            }),
            r matches Some((_, v)) ==> v.wf(),
    {
        let mut pattern_len: u32 = 0;
        let mut block_0_len: u32 = 2;
        let token_parser = TokenParser::<2>::new(tokens)?;
        if context.register().read_phase_disassembly() != 1i64 {
            return None;
        }
        if token_parser.TokenFieldop1215().disassembly() != 12i64 {
            return None;
        }
        if token_parser.TokenFieldop0811().disassembly() != 0i64 {
            return None;
        }
        let rs = token_parser.TokenFieldrs();
        let rt = token_parser.TokenFieldrt();
        pattern_len = pattern_len + block_0_len;
        Some((pattern_len, Self { rs, rt }))
    }

    /// Appends the instruction's text to `display`.
    pub fn display_extend(
        &self,
        display: &mut Vec<DisplayElement>,
        context: &SpacesStruct,
        inst_start: u32,
        inst_next: u32,
        global_set: &mut Vec<GlobalSetRequest>,
    )
        requires
            self.wf(),
        ensures
            final(display)@ == old(display)@ + self.spec_display(context@, inst_start, inst_next),
            final(global_set)@ == old(global_set)@,
    {
        push_all(display, &[DisplayElement::Literal("add"), DisplayElement::Literal("  "), self.rs.display(), DisplayElement::Literal(", "), self.rt.display()]);
        assert(display@ =~= old(display)@ + self.spec_display(context@, inst_start, inst_next));
    }
}

/// The instruction `sub rs, rt`.
#[derive(Clone, Copy, Debug)]
pub struct instructionVar24 {
    pub rs: TokenField_rs,
    pub rt: TokenField_rt,
}

impl instructionVar24 {
    /// The instruction read from the token bytes `t` under the context
    /// registers `regs`: its length, value and the context after it.
    pub open spec fn spec_parse(t: Seq<u8>, regs: Seq<u8>) -> Option<(nat, Self, Seq<u8>)> {
        if phase_of(regs) == 1 && t.len() >= 2 && op1215_of(t) == 12 && op0811_of(t) == 1 {
            Some((2, instructionVar24 { rs: TokenField_rs(rs_of(t)), rt: TokenField_rt(rt_of(t)) }, regs))
        } else {
            None
        }
    }

    pub open spec fn wf(&self) -> bool {
        self.rs.0 < 16 && self.rt.0 < 16
    }

    pub open spec fn spec_display(&self, regs: Seq<u8>, inst_start: u32, inst_next: u32) -> Seq<DisplayElement> {
        seq![lit("sub"), lit("  "), reg(self.rs.0), lit(", "), reg(self.rt.0)]
    }

    /// Matches the instruction's pattern and reads its operands.
    pub fn parse(tokens: &[u8], context: &mut SpacesStruct, inst_start: u32) -> (r: Option<(u32, Self)>)
        ensures
            *final(context) == *old(context),
            r == (match Self::spec_parse(tokens@, old(context)@) {
                Some((n, v, _)) => Some((n as u32, v)),
                None => None,
            }),
            r matches Some((_, v)) ==> v.wf(),
    {
        let mut pattern_len: u32 = 0;
        let mut block_0_len: u32 = 2;
        let token_parser = TokenParser::<2>::new(tokens)?;
        if context.register().read_phase_disassembly() != 1i64 {
            return None;
        }
        if token_parser.TokenFieldop1215().disassembly() != 12i64 {
            return None;
        }
        if token_parser.TokenFieldop0811().disassembly() != 1i64 {
            return None;
        }
        let rs = token_parser.TokenFieldrs();
        let rt = token_parser.TokenFieldrt();
        pattern_len = pattern_len + block_0_len;
        Some((pattern_len, Self { rs, rt }))
    }

    /// Appends the instruction's text to `display`.
    pub fn display_extend(
        &self,
        display: &mut Vec<DisplayElement>,
        context: &SpacesStruct,
        inst_start: u32,
        inst_next: u32,
        global_set: &mut Vec<GlobalSetRequest>,
    )
        requires
            self.wf(),
        ensures
            final(display)@ == old(display)@ + self.spec_display(context@, inst_start, inst_next),
            final(global_set)@ == old(global_set)@,
    {
        push_all(display, &[DisplayElement::Literal("sub"), DisplayElement::Literal("  "), self.rs.display(), DisplayElement::Literal(", "), self.rt.display()]);
        assert(display@ =~= old(display)@ + self.spec_display(context@, inst_start, inst_next));
    }
}

/// The instruction `rsub rs, rt`.
#[derive(Clone, Copy, Debug)]
pub struct instructionVar25 {
    pub rs: TokenField_rs,
    pub rt: TokenField_rt,
}

impl instructionVar25 {
    /// The instruction read from the token bytes `t` under the context
    /// registers `regs`: its length, value and the context after it.
    pub open spec fn spec_parse(t: Seq<u8>, regs: Seq<u8>) -> Option<(nat, Self, Seq<u8>)> {
        if phase_of(regs) == 1 && t.len() >= 2 && op1215_of(t) == 12 && op0811_of(t) == 2 {
            Some((2, instructionVar25 { rs: TokenField_rs(rs_of(t)), rt: TokenField_rt(rt_of(t)) }, regs))
        } else {
            None
        }
    }

    pub open spec fn wf(&self) -> bool {
        self.rs.0 < 16 && self.rt.0 < 16
    }

    pub open spec fn spec_display(&self, regs: Seq<u8>, inst_start: u32, inst_next: u32) -> Seq<DisplayElement> {
        seq![lit("rsub"), lit(" "), reg(self.rs.0), lit(", "), reg(self.rt.0)]
    }

    /// Matches the instruction's pattern and reads its operands.
    pub fn parse(tokens: &[u8], context: &mut SpacesStruct, inst_start: u32) -> (r: Option<(u32, Self)>)
        ensures
            *final(context) == *old(context),
            r == (match Self::spec_parse(tokens@, old(context)@) {
                Some((n, v, _)) => Some((n as u32, v)),
                None => None,
            }),
            r matches Some((_, v)) ==> v.wf(),
    {
        let mut pattern_len: u32 = 0;
        let mut block_0_len: u32 = 2;
        let token_parser = TokenParser::<2>::new(tokens)?;
        if context.register().read_phase_disassembly() != 1i64 {
            return None;
        }
        if token_parser.TokenFieldop1215().disassembly() != 12i64 {
            return None;
        }
        if token_parser.TokenFieldop0811().disassembly() != 2i64 {
            return None;
        }
        let rs = token_parser.TokenFieldrs();
        let rt = token_parser.TokenFieldrt();
        pattern_len = pattern_len + block_0_len;
        Some((pattern_len, Self { rs, rt }))
    }

    /// Appends the instruction's text to `display`.
    pub fn display_extend(
        &self,
        display: &mut Vec<DisplayElement>,
        context: &SpacesStruct,
        inst_start: u32,
        inst_next: u32,
        global_set: &mut Vec<GlobalSetRequest>,
    )
        requires
            self.wf(),
        ensures
            final(display)@ == old(display)@ + self.spec_display(context@, inst_start, inst_next),
            final(global_set)@ == old(global_set)@,
    {
        push_all(display, &[DisplayElement::Literal("rsub"), DisplayElement::Literal(" "), self.rs.display(), DisplayElement::Literal(", "), self.rt.display()]);
        assert(display@ =~= old(display)@ + self.spec_display(context@, inst_start, inst_next));
    }
}

/// The instruction `mul rs, rt`.
#[derive(Clone, Copy, Debug)]
pub struct instructionVar26 {
    pub rs: TokenField_rs,
    pub rt: TokenField_rt,
}

impl instructionVar26 {
    /// The instruction read from the token bytes `t` under the context
    /// registers `regs`: its length, value and the context after it.
    pub open spec fn spec_parse(t: Seq<u8>, regs: Seq<u8>) -> Option<(nat, Self, Seq<u8>)> {
        if phase_of(regs) == 1 && t.len() >= 2 && op1215_of(t) == 12 && op0811_of(t) == 3 {
            Some((2, instructionVar26 { rs: TokenField_rs(rs_of(t)), rt: TokenField_rt(rt_of(t)) }, regs))
        } else {
            None
        }
    }

    pub open spec fn wf(&self) -> bool {
        self.rs.0 < 16 && self.rt.0 < 16
    }

    pub open spec fn spec_display(&self, regs: Seq<u8>, inst_start: u32, inst_next: u32) -> Seq<DisplayElement> {
        seq![lit("mul"), lit("  "), reg(self.rs.0), lit(", "), reg(self.rt.0)]
    }

    /// Matches the instruction's pattern and reads its operands.
    pub fn parse(tokens: &[u8], context: &mut SpacesStruct, inst_start: u32) -> (r: Option<(u32, Self)>)
        ensures
            *final(context) == *old(context),
            r == (match Self::spec_parse(tokens@, old(context)@) {
                Some((n, v, _)) => Some((n as u32, v)),
                None => None,
            }),
            r matches Some((_, v)) ==> v.wf(),
    {
        let mut pattern_len: u32 = 0;
        let mut block_0_len: u32 = 2;
        let token_parser = TokenParser::<2>::new(tokens)?;
        if context.register().read_phase_disassembly() != 1i64 {
            return None;
        }
        if token_parser.TokenFieldop1215().disassembly() != 12i64 {
            return None;
        }
        if token_parser.TokenFieldop0811().disassembly() != 3i64 {
            return None;
        }
        let rs = token_parser.TokenFieldrs();
        let rt = token_parser.TokenFieldrt();
        pattern_len = pattern_len + block_0_len;
        Some((pattern_len, Self { rs, rt }))
    }

    /// Appends the instruction's text to `display`.
    pub fn display_extend(
        &self,
        display: &mut Vec<DisplayElement>,
        context: &SpacesStruct,
        inst_start: u32,
        inst_next: u32,
        global_set: &mut Vec<GlobalSetRequest>,
    )
        requires
            self.wf(),
        ensures
            final(display)@ == old(display)@ + self.spec_display(context@, inst_start, inst_next),
            final(global_set)@ == old(global_set)@,
    {
        push_all(display, &[DisplayElement::Literal("mul"), DisplayElement::Literal("  "), self.rs.display(), DisplayElement::Literal(", "), self.rt.display()]);
        assert(display@ =~= old(display)@ + self.spec_display(context@, inst_start, inst_next));
    }
}

/// The instruction `div rs, rt`.
#[derive(Clone, Copy, Debug)]
pub struct instructionVar27 {
    pub rs: TokenField_rs,
    pub rt: TokenField_rt,
}

impl instructionVar27 {
    /// The instruction read from the token bytes `t` under the context
    /// registers `regs`: its length, value and the context after it.
    pub open spec fn spec_parse(t: Seq<u8>, regs: Seq<u8>) -> Option<(nat, Self, Seq<u8>)> {
        if phase_of(regs) == 1 && t.len() >= 2 && op1215_of(t) == 12 && op0811_of(t) == 4 {
            Some((2, instructionVar27 { rs: TokenField_rs(rs_of(t)), rt: TokenField_rt(rt_of(t)) }, regs))
        } else {
            None
        }
    }

    pub open spec fn wf(&self) -> bool {
        self.rs.0 < 16 && self.rt.0 < 16
    }

    pub open spec fn spec_display(&self, regs: Seq<u8>, inst_start: u32, inst_next: u32) -> Seq<DisplayElement> {
        seq![lit("div"), lit("  "), reg(self.rs.0), lit(", "), reg(self.rt.0)]
    }

    /// Matches the instruction's pattern and reads its operands.
    pub fn parse(tokens: &[u8], context: &mut SpacesStruct, inst_start: u32) -> (r: Option<(u32, Self)>)
        ensures
            *final(context) == *old(context),
            r == (match Self::spec_parse(tokens@, old(context)@) {
                Some((n, v, _)) => Some((n as u32, v)),
                None => None,
            }),
            r matches Some((_, v)) ==> v.wf(),
    {
        let mut pattern_len: u32 = 0;
        let mut block_0_len: u32 = 2;
        let token_parser = TokenParser::<2>::new(tokens)?;
        if context.register().read_phase_disassembly() != 1i64 {
            return None;
        }
        if token_parser.TokenFieldop1215().disassembly() != 12i64 {
            return None;
        }
        if token_parser.TokenFieldop0811().disassembly() != 4i64 {
            return None;
        }
        let rs = token_parser.TokenFieldrs();
        let rt = token_parser.TokenFieldrt();
        pattern_len = pattern_len + block_0_len;
        Some((pattern_len, Self { rs, rt }))
    }

    /// Appends the instruction's text to `display`.
    pub fn display_extend(
        &self,
        display: &mut Vec<DisplayElement>,
        context: &SpacesStruct,
        inst_start: u32,
        inst_next: u32,
        global_set: &mut Vec<GlobalSetRequest>,
    )
        requires
            self.wf(),
        ensures
            final(display)@ == old(display)@ + self.spec_display(context@, inst_start, inst_next),
            final(global_set)@ == old(global_set)@,
    {
        push_all(display, &[DisplayElement::Literal("div"), DisplayElement::Literal("  "), self.rs.display(), DisplayElement::Literal(", "), self.rt.display()]);
        assert(display@ =~= old(display)@ + self.spec_display(context@, inst_start, inst_next));
    }
}

/// The instruction `mod rs, rt`.
#[derive(Clone, Copy, Debug)]
pub struct instructionVar28 {
    pub rs: TokenField_rs,
    pub rt: TokenField_rt,
}

impl instructionVar28 {
    /// The instruction read from the token bytes `t` under the context
    /// registers `regs`: its length, value and the context after it.
    pub open spec fn spec_parse(t: Seq<u8>, regs: Seq<u8>) -> Option<(nat, Self, Seq<u8>)> {
        if phase_of(regs) == 1 && t.len() >= 2 && op1215_of(t) == 12 && op0811_of(t) == 5 {
            Some((2, instructionVar28 { rs: TokenField_rs(rs_of(t)), rt: TokenField_rt(rt_of(t)) }, regs))
        } else {
            None
        }
    }

    pub open spec fn wf(&self) -> bool {
        self.rs.0 < 16 && self.rt.0 < 16
    }

    pub open spec fn spec_display(&self, regs: Seq<u8>, inst_start: u32, inst_next: u32) -> Seq<DisplayElement> {
        seq![lit("mod"), lit("  "), reg(self.rs.0), lit(", "), reg(self.rt.0)]
    }

    /// Matches the instruction's pattern and reads its operands.
    pub fn parse(tokens: &[u8], context: &mut SpacesStruct, inst_start: u32) -> (r: Option<(u32, Self)>)
        ensures
            *final(context) == *old(context),
            r == (match Self::spec_parse(tokens@, old(context)@) {
                Some((n, v, _)) => Some((n as u32, v)),
                None => None,
            }),
            r matches Some((_, v)) ==> v.wf(),
    {
        let mut pattern_len: u32 = 0;
        let mut block_0_len: u32 = 2;
        let token_parser = TokenParser::<2>::new(tokens)?;
        if context.register().read_phase_disassembly() != 1i64 {
            return None;
        }
        if token_parser.TokenFieldop1215().disassembly() != 12i64 {
            return None;
        }
        if token_parser.TokenFieldop0811().disassembly() != 5i64 {
            return None;
        }
        let rs = token_parser.TokenFieldrs();
        let rt = token_parser.TokenFieldrt();
        pattern_len = pattern_len + block_0_len;
        Some((pattern_len, Self { rs, rt }))
    }

    /// Appends the instruction's text to `display`.
    pub fn display_extend(
        &self,
        display: &mut Vec<DisplayElement>,
        context: &SpacesStruct,
        inst_start: u32,
        inst_next: u32,
        global_set: &mut Vec<GlobalSetRequest>,
    )
        requires
            self.wf(),
        ensures
            final(display)@ == old(display)@ + self.spec_display(context@, inst_start, inst_next),
            final(global_set)@ == old(global_set)@,
    {
        push_all(display, &[DisplayElement::Literal("mod"), DisplayElement::Literal("  "), self.rs.display(), DisplayElement::Literal(", "), self.rt.display()]);
        assert(display@ =~= old(display)@ + self.spec_display(context@, inst_start, inst_next));
    }
}

/// The instruction `cmp rs, rt`.
#[derive(Clone, Copy, Debug)]
pub struct instructionVar29 {
    pub rs: TokenField_rs,
    pub rt: TokenField_rt,
}

impl instructionVar29 {
    /// The instruction read from the token bytes `t` under the context
    /// registers `regs`: its length, value and the context after it.
    pub open spec fn spec_parse(t: Seq<u8>, regs: Seq<u8>) -> Option<(nat, Self, Seq<u8>)> {
        if phase_of(regs) == 1 && t.len() >= 2 && op1215_of(t) == 12 && op0811_of(t) == 6 {
            Some((2, instructionVar29 { rs: TokenField_rs(rs_of(t)), rt: TokenField_rt(rt_of(t)) }, regs))
        } else {
            None
        }
    }

    pub open spec fn wf(&self) -> bool {
        self.rs.0 < 16 && self.rt.0 < 16
    }

    pub open spec fn spec_display(&self, regs: Seq<u8>, inst_start: u32, inst_next: u32) -> Seq<DisplayElement> {
        seq![lit("cmp"), lit("  "), reg(self.rs.0), lit(", "), reg(self.rt.0)]
    }

    /// Matches the instruction's pattern and reads its operands.
    pub fn parse(tokens: &[u8], context: &mut SpacesStruct, inst_start: u32) -> (r: Option<(u32, Self)>)
        ensures
            *final(context) == *old(context),
            r == (match Self::spec_parse(tokens@, old(context)@) {
                Some((n, v, _)) => Some((n as u32, v)),
                None => None,
            }),
            r matches Some((_, v)) ==> v.wf(),
    {
        let mut pattern_len: u32 = 0;
        let mut block_0_len: u32 = 2;
        let token_parser = TokenParser::<2>::new(tokens)?;
        if context.register().read_phase_disassembly() != 1i64 {
            return None;
        }
        if token_parser.TokenFieldop1215().disassembly() != 12i64 {
            return None;
        }
        if token_parser.TokenFieldop0811().disassembly() != 6i64 {
            return None;
        }
        let rs = token_parser.TokenFieldrs();
        let rt = token_parser.TokenFieldrt();
        pattern_len = pattern_len + block_0_len;
        Some((pattern_len, Self { rs, rt }))
    }

    /// Appends the instruction's text to `display`.
    pub fn display_extend(
        &self,
        display: &mut Vec<DisplayElement>,
        context: &SpacesStruct,
        inst_start: u32,
        inst_next: u32,
        global_set: &mut Vec<GlobalSetRequest>,
    )
        requires
            self.wf(),
        ensures
            final(display)@ == old(display)@ + self.spec_display(context@, inst_start, inst_next),
            final(global_set)@ == old(global_set)@,
    {
        push_all(display, &[DisplayElement::Literal("cmp"), DisplayElement::Literal("  "), self.rs.display(), DisplayElement::Literal(", "), self.rt.display()]);
        assert(display@ =~= old(display)@ + self.spec_display(context@, inst_start, inst_next));
    }
}

/// The instruction `ucmp rs, rt`.
#[derive(Clone, Copy, Debug)]
pub struct instructionVar30 {
    pub rs: TokenField_rs,
    pub rt: TokenField_rt,
}

impl instructionVar30 {
    /// The instruction read from the token bytes `t` under the context
    /// registers `regs`: its length, value and the context after it.
    pub open spec fn spec_parse(t: Seq<u8>, regs: Seq<u8>) -> Option<(nat, Self, Seq<u8>)> {
        if phase_of(regs) == 1 && t.len() >= 2 && op1215_of(t) == 12 && op0811_of(t) == 7 {
            Some((2, instructionVar30 { rs: TokenField_rs(rs_of(t)), rt: TokenField_rt(rt_of(t)) }, regs))
        } else {
            None
        }
    }

    pub open spec fn wf(&self) -> bool {
        self.rs.0 < 16 && self.rt.0 < 16
    }

    pub open spec fn spec_display(&self, regs: Seq<u8>, inst_start: u32, inst_next: u32) -> Seq<DisplayElement> {
        seq![lit("ucmp"), lit(" "), reg(self.rs.0), lit(", "), reg(self.rt.0)]
    }

    /// Matches the instruction's pattern and reads its operands.
    pub fn parse(tokens: &[u8], context: &mut SpacesStruct, inst_start: u32) -> (r: Option<(u32, Self)>)
        ensures
            *final(context) == *old(context),
            r == (match Self::spec_parse(tokens@, old(context)@) {
                Some((n, v, _)) => Some((n as u32, v)),
                None => None,
            }),
            r matches Some((_, v)) ==> v.wf(),
    {
        let mut pattern_len: u32 = 0;
        let mut block_0_len: u32 = 2;
        let token_parser = TokenParser::<2>::new(tokens)?;
        if context.register().read_phase_disassembly() != 1i64 {
            return None;
        }
        if token_parser.TokenFieldop1215().disassembly() != 12i64 {
            return None;
        }
        if token_parser.TokenFieldop0811().disassembly() != 7i64 {
            return None;
        }
        let rs = token_parser.TokenFieldrs();
        let rt = token_parser.TokenFieldrt();
        pattern_len = pattern_len + block_0_len;
        Some((pattern_len, Self { rs, rt }))
    }

    /// Appends the instruction's text to `display`.
    pub fn display_extend(
        &self,
        display: &mut Vec<DisplayElement>,
        context: &SpacesStruct,
        inst_start: u32,
        inst_next: u32,
        global_set: &mut Vec<GlobalSetRequest>,
    )
        requires
            self.wf(),
        ensures
            final(display)@ == old(display)@ + self.spec_display(context@, inst_start, inst_next),
            final(global_set)@ == old(global_set)@,
    {
        push_all(display, &[DisplayElement::Literal("ucmp"), DisplayElement::Literal(" "), self.rs.display(), DisplayElement::Literal(", "), self.rt.display()]);
        assert(display@ =~= old(display)@ + self.spec_display(context@, inst_start, inst_next));
    }
}

/// The instruction `add rs, #imm`.
#[derive(Clone, Copy, Debug)]
pub struct instructionVar31 {
    pub Simm4: TableSimm4,
    pub rs: TokenField_rs,
}

impl instructionVar31 {
    /// The instruction read from the token bytes `t` under the context
    /// registers `regs`: its length, value and the context after it.
    pub open spec fn spec_parse(t: Seq<u8>, regs: Seq<u8>) -> Option<(nat, Self, Seq<u8>)> {
        if phase_of(regs) == 1 && t.len() >= 2 && op1215_of(t) == 12 && op0811_of(t) == 8 {
            Some((2, instructionVar31 { Simm4: TableSimm4::spec_parse(t).unwrap(), rs: TokenField_rs(rs_of(t)) }, regs))
        } else {
            None
        }
    }

    pub open spec fn wf(&self) -> bool {
        self.Simm4.wf() && self.rs.0 < 16
    }

    pub open spec fn spec_display(&self, regs: Seq<u8>, inst_start: u32, inst_next: u32) -> Seq<DisplayElement> {
        seq![lit("add"), lit("  "), reg(self.rs.0), lit(", ")] + self.Simm4.spec_display(inst_start)
    }

    /// Matches the instruction's pattern and reads its operands.
    pub fn parse(tokens: &[u8], context: &mut SpacesStruct, inst_start: u32) -> (r: Option<(u32, Self)>)
        ensures
            *final(context) == *old(context),
            r == (match Self::spec_parse(tokens@, old(context)@) {
                Some((n, v, _)) => Some((n as u32, v)),
                None => None,
            }),
            r matches Some((_, v)) ==> v.wf(),
    {
        let mut pattern_len: u32 = 0;
        let mut block_0_len: u32 = 2;
        let token_parser = TokenParser::<2>::new(tokens)?;
        if context.register().read_phase_disassembly() != 1i64 {
            return None;
        }
        if token_parser.TokenFieldop1215().disassembly() != 12i64 {
            return None;
        }
        if token_parser.TokenFieldop0811().disassembly() != 8i64 {
            return None;
        }
        let Simm4 = if let Some((len, table)) = TableSimm4::parse(tokens) {
            if len > block_0_len {
                block_0_len = len;
            }
            table
        } else {
            return None;
        };
        let rs = token_parser.TokenFieldrs();
        pattern_len = pattern_len + block_0_len;
        Some((pattern_len, Self { Simm4, rs }))
    }

    /// Appends the instruction's text to `display`.
    pub fn display_extend(
        &self,
        display: &mut Vec<DisplayElement>,
        context: &SpacesStruct,
        inst_start: u32,
        inst_next: u32,
        global_set: &mut Vec<GlobalSetRequest>,
    )
        requires
            self.wf(),
        ensures
            final(display)@ == old(display)@ + self.spec_display(context@, inst_start, inst_next),
            final(global_set)@ == old(global_set)@,
    {
        push_all(display, &[DisplayElement::Literal("add"), DisplayElement::Literal("  "), self.rs.display(), DisplayElement::Literal(", ")]);
        self.Simm4.display_extend(display, context, inst_start, inst_next, global_set);
        assert(display@ =~= old(display)@ + self.spec_display(context@, inst_start, inst_next));
    }
}

/// The instruction `sub rs, #imm`.
#[derive(Clone, Copy, Debug)]
pub struct instructionVar32 {
    pub Simm4: TableSimm4,
    pub rs: TokenField_rs,
}

impl instructionVar32 {
    /// The instruction read from the token bytes `t` under the context
    /// registers `regs`: its length, value and the context after it.
    pub open spec fn spec_parse(t: Seq<u8>, regs: Seq<u8>) -> Option<(nat, Self, Seq<u8>)> {
        if phase_of(regs) == 1 && t.len() >= 2 && op1215_of(t) == 12 && op0811_of(t) == 9 {
            Some((2, instructionVar32 { Simm4: TableSimm4::spec_parse(t).unwrap(), rs: TokenField_rs(rs_of(t)) }, regs))
        } else {
            None
        }
    }

    pub open spec fn wf(&self) -> bool {
        self.Simm4.wf() && self.rs.0 < 16
    }

    pub open spec fn spec_display(&self, regs: Seq<u8>, inst_start: u32, inst_next: u32) -> Seq<DisplayElement> {
        seq![lit("sub"), lit("  "), reg(self.rs.0), lit(", ")] + self.Simm4.spec_display(inst_start)
    }

    /// Matches the instruction's pattern and reads its operands.
    pub fn parse(tokens: &[u8], context: &mut SpacesStruct, inst_start: u32) -> (r: Option<(u32, Self)>)
        ensures
            *final(context) == *old(context),
            r == (match Self::spec_parse(tokens@, old(context)@) {
                Some((n, v, _)) => Some((n as u32, v)),
                None => None,
            }),
            r matches Some((_, v)) ==> v.wf(),
    {
        let mut pattern_len: u32 = 0;
        let mut block_0_len: u32 = 2;
        let token_parser = TokenParser::<2>::new(tokens)?;
        if context.register().read_phase_disassembly() != 1i64 {
            return None;
        }
        if token_parser.TokenFieldop1215().disassembly() != 12i64 {
            return None;
        }
        if token_parser.TokenFieldop0811().disassembly() != 9i64 {
            return None;
        }
        let Simm4 = if let Some((len, table)) = TableSimm4::parse(tokens) {
            if len > block_0_len {
                block_0_len = len;
            }
            table
        } else {
            return None;
        };
        let rs = token_parser.TokenFieldrs();
        pattern_len = pattern_len + block_0_len;
        Some((pattern_len, Self { Simm4, rs }))
    }

    /// Appends the instruction's text to `display`.
    pub fn display_extend(
        &self,
        display: &mut Vec<DisplayElement>,
        context: &SpacesStruct,
        inst_start: u32,
        inst_next: u32,
        global_set: &mut Vec<GlobalSetRequest>,
    )
        requires
            self.wf(),
        ensures
            final(display)@ == old(display)@ + self.spec_display(context@, inst_start, inst_next),
            final(global_set)@ == old(global_set)@,
    {
        push_all(display, &[DisplayElement::Literal("sub"), DisplayElement::Literal("  "), self.rs.display(), DisplayElement::Literal(", ")]);
        self.Simm4.display_extend(display, context, inst_start, inst_next, global_set);
        assert(display@ =~= old(display)@ + self.spec_display(context@, inst_start, inst_next));
    }
}

/// The instruction `rsub rs, #imm`.
#[derive(Clone, Copy, Debug)]
pub struct instructionVar33 {
    pub Simm4: TableSimm4,
    pub rs: TokenField_rs,
}

impl instructionVar33 {
    /// The instruction read from the token bytes `t` under the context
    /// registers `regs`: its length, value and the context after it.
    pub open spec fn spec_parse(t: Seq<u8>, regs: Seq<u8>) -> Option<(nat, Self, Seq<u8>)> {
        if phase_of(regs) == 1 && t.len() >= 2 && op1215_of(t) == 12 && op0811_of(t) == 10 {
            Some((2, instructionVar33 { Simm4: TableSimm4::spec_parse(t).unwrap(), rs: TokenField_rs(rs_of(t)) }, regs))
        } else {
            None
        }
    }

    pub open spec fn wf(&self) -> bool {
        self.Simm4.wf() && self.rs.0 < 16
    }

    pub open spec fn spec_display(&self, regs: Seq<u8>, inst_start: u32, inst_next: u32) -> Seq<DisplayElement> {
        seq![lit("rsub"), lit(" "), reg(self.rs.0), lit(", ")] + self.Simm4.spec_display(inst_start)
    }

    /// Matches the instruction's pattern and reads its operands.
    pub fn parse(tokens: &[u8], context: &mut SpacesStruct, inst_start: u32) -> (r: Option<(u32, Self)>)
        ensures
            *final(context) == *old(context),
            r == (match Self::spec_parse(tokens@, old(context)@) {
                Some((n, v, _)) => Some((n as u32, v)),
                None => None,
            }),
            r matches Some((_, v)) ==> v.wf(),
    {
        let mut pattern_len: u32 = 0;
        let mut block_0_len: u32 = 2;
        let token_parser = TokenParser::<2>::new(tokens)?;
        if context.register().read_phase_disassembly() != 1i64 {
            return None;
        }
        if token_parser.TokenFieldop1215().disassembly() != 12i64 {
            return None;
        }
        if token_parser.TokenFieldop0811().disassembly() != 10i64 {
            return None;
        }
        let Simm4 = if let Some((len, table)) = TableSimm4::parse(tokens) {
            if len > block_0_len {
                block_0_len = len;
            }
            table
        } else {
            return None;
        };
        let rs = token_parser.TokenFieldrs();
        pattern_len = pattern_len + block_0_len;
        Some((pattern_len, Self { Simm4, rs }))
    }

    /// Appends the instruction's text to `display`.
    pub fn display_extend(
        &self,
        display: &mut Vec<DisplayElement>,
        context: &SpacesStruct,
        inst_start: u32,
        inst_next: u32,
        global_set: &mut Vec<GlobalSetRequest>,
    )
        requires
            self.wf(),
        ensures
            final(display)@ == old(display)@ + self.spec_display(context@, inst_start, inst_next),
            final(global_set)@ == old(global_set)@,
    {
        push_all(display, &[DisplayElement::Literal("rsub"), DisplayElement::Literal(" "), self.rs.display(), DisplayElement::Literal(", ")]);
        self.Simm4.display_extend(display, context, inst_start, inst_next, global_set);
        assert(display@ =~= old(display)@ + self.spec_display(context@, inst_start, inst_next));
    }
}

/// The instruction `mul rs, #imm`.
#[derive(Clone, Copy, Debug)]
pub struct instructionVar34 {
    pub Simm4: TableSimm4,
    pub rs: TokenField_rs,
}

impl instructionVar34 {
    /// The instruction read from the token bytes `t` under the context
    /// registers `regs`: its length, value and the context after it.
    pub open spec fn spec_parse(t: Seq<u8>, regs: Seq<u8>) -> Option<(nat, Self, Seq<u8>)> {
        if phase_of(regs) == 1 && t.len() >= 2 && op1215_of(t) == 12 && op0811_of(t) == 11 {
            Some((2, instructionVar34 { Simm4: TableSimm4::spec_parse(t).unwrap(), rs: TokenField_rs(rs_of(t)) }, regs))
        } else {
            None
        }
    }

    pub open spec fn wf(&self) -> bool {
        self.Simm4.wf() && self.rs.0 < 16
    }

    pub open spec fn spec_display(&self, regs: Seq<u8>, inst_start: u32, inst_next: u32) -> Seq<DisplayElement> {
        seq![lit("mul"), lit("  "), reg(self.rs.0), lit(", ")] + self.Simm4.spec_display(inst_start)
    }

    /// Matches the instruction's pattern and reads its operands.
    pub fn parse(tokens: &[u8], context: &mut SpacesStruct, inst_start: u32) -> (r: Option<(u32, Self)>)
        ensures
            *final(context) == *old(context),
            r == (match Self::spec_parse(tokens@, old(context)@) {
                Some((n, v, _)) => Some((n as u32, v)),
                None => None,
            }),
            r matches Some((_, v)) ==> v.wf(),
    {
        let mut pattern_len: u32 = 0;
        let mut block_0_len: u32 = 2;
        let token_parser = TokenParser::<2>::new(tokens)?;
        if context.register().read_phase_disassembly() != 1i64 {
            return None;
        }
        if token_parser.TokenFieldop1215().disassembly() != 12i64 {
            return None;
        }
        if token_parser.TokenFieldop0811().disassembly() != 11i64 {
            return None;
        }
        let Simm4 = if let Some((len, table)) = TableSimm4::parse(tokens) {
            if len > block_0_len {
                block_0_len = len;
            }
            table
        } else {
            return None;
        };
        let rs = token_parser.TokenFieldrs();
        pattern_len = pattern_len + block_0_len;
        Some((pattern_len, Self { Simm4, rs }))
    }

    /// Appends the instruction's text to `display`.
    pub fn display_extend(
        &self,
        display: &mut Vec<DisplayElement>,
        context: &SpacesStruct,
        inst_start: u32,
        inst_next: u32,
        global_set: &mut Vec<GlobalSetRequest>,
    )
        requires
            self.wf(),
        ensures
            final(display)@ == old(display)@ + self.spec_display(context@, inst_start, inst_next),
            final(global_set)@ == old(global_set)@,
    {
        push_all(display, &[DisplayElement::Literal("mul"), DisplayElement::Literal("  "), self.rs.display(), DisplayElement::Literal(", ")]);
        self.Simm4.display_extend(display, context, inst_start, inst_next, global_set);
        assert(display@ =~= old(display)@ + self.spec_display(context@, inst_start, inst_next));
    }
}

/// The instruction `div rs, #imm`.
#[derive(Clone, Copy, Debug)]
pub struct instructionVar35 {
    pub Simm4: TableSimm4,
    pub rs: TokenField_rs,
}

impl instructionVar35 {
    /// The instruction read from the token bytes `t` under the context
    /// registers `regs`: its length, value and the context after it.
    pub open spec fn spec_parse(t: Seq<u8>, regs: Seq<u8>) -> Option<(nat, Self, Seq<u8>)> {
        if phase_of(regs) == 1 && t.len() >= 2 && op1215_of(t) == 12 && op0811_of(t) == 12 {
            Some((2, instructionVar35 { Simm4: TableSimm4::spec_parse(t).unwrap(), rs: TokenField_rs(rs_of(t)) }, regs))
        } else {
            None
        }
    }

    pub open spec fn wf(&self) -> bool {
        self.Simm4.wf() && self.rs.0 < 16
    }

    pub open spec fn spec_display(&self, regs: Seq<u8>, inst_start: u32, inst_next: u32) -> Seq<DisplayElement> {
        seq![lit("div"), lit("  "), reg(self.rs.0), lit(", ")] + self.Simm4.spec_display(inst_start)
    }

    /// Matches the instruction's pattern and reads its operands.
    pub fn parse(tokens: &[u8], context: &mut SpacesStruct, inst_start: u32) -> (r: Option<(u32, Self)>)
        ensures
            *final(context) == *old(context),
            r == (match Self::spec_parse(tokens@, old(context)@) {
                Some((n, v, _)) => Some((n as u32, v)),
                None => None,
            }),
            r matches Some((_, v)) ==> v.wf(),
    {
        let mut pattern_len: u32 = 0;
        let mut block_0_len: u32 = 2;
        let token_parser = TokenParser::<2>::new(tokens)?;
        if context.register().read_phase_disassembly() != 1i64 {
            return None;
        }
        if token_parser.TokenFieldop1215().disassembly() != 12i64 {
            return None;
        }
        if token_parser.TokenFieldop0811().disassembly() != 12i64 {
            return None;
        }
        let Simm4 = if let Some((len, table)) = TableSimm4::parse(tokens) {
            if len > block_0_len {
                block_0_len = len;
            }
            table
        } else {
            return None;
        };
        let rs = token_parser.TokenFieldrs();
        pattern_len = pattern_len + block_0_len;
        Some((pattern_len, Self { Simm4, rs }))
    }

    /// Appends the instruction's text to `display`.
    pub fn display_extend(
        &self,
        display: &mut Vec<DisplayElement>,
        context: &SpacesStruct,
        inst_start: u32,
        inst_next: u32,
        global_set: &mut Vec<GlobalSetRequest>,
    )
        requires
            self.wf(),
        ensures
            final(display)@ == old(display)@ + self.spec_display(context@, inst_start, inst_next),
            final(global_set)@ == old(global_set)@,
    {
        push_all(display, &[DisplayElement::Literal("div"), DisplayElement::Literal("  "), self.rs.display(), DisplayElement::Literal(", ")]);
        self.Simm4.display_extend(display, context, inst_start, inst_next, global_set);
        assert(display@ =~= old(display)@ + self.spec_display(context@, inst_start, inst_next));
    }
}

/// The instruction `mod rs, #imm`.
#[derive(Clone, Copy, Debug)]
pub struct instructionVar36 {
    pub Imm4: TableImm4,
    pub rs: TokenField_rs,
}

impl instructionVar36 {
    /// The instruction read from the token bytes `t` under the context
    /// registers `regs`: its length, value and the context after it.
    pub open spec fn spec_parse(t: Seq<u8>, regs: Seq<u8>) -> Option<(nat, Self, Seq<u8>)> {
        if phase_of(regs) == 1 && t.len() >= 2 && op1215_of(t) == 12 && op0811_of(t) == 13 {
            Some((2, instructionVar36 { Imm4: TableImm4::spec_parse(t).unwrap(), rs: TokenField_rs(rs_of(t)) }, regs))
        } else {
            None
        }
    }

    pub open spec fn wf(&self) -> bool {
        self.Imm4.wf() && self.rs.0 < 16
    }

    pub open spec fn spec_display(&self, regs: Seq<u8>, inst_start: u32, inst_next: u32) -> Seq<DisplayElement> {
        seq![lit("mod"), lit("  "), reg(self.rs.0), lit(", ")] + self.Imm4.spec_display(inst_start)
    }

    /// Matches the instruction's pattern and reads its operands.
    pub fn parse(tokens: &[u8], context: &mut SpacesStruct, inst_start: u32) -> (r: Option<(u32, Self)>)
        ensures
            *final(context) == *old(context),
            r == (match Self::spec_parse(tokens@, old(context)@) {
                Some((n, v, _)) => Some((n as u32, v)),
                None => None,
            }),
            r matches Some((_, v)) ==> v.wf(),
    {
        let mut pattern_len: u32 = 0;
        let mut block_0_len: u32 = 2;
        let token_parser = TokenParser::<2>::new(tokens)?;
        if context.register().read_phase_disassembly() != 1i64 {
            return None;
        }
        if token_parser.TokenFieldop1215().disassembly() != 12i64 {
            return None;
        }
        if token_parser.TokenFieldop0811().disassembly() != 13i64 {
            return None;
        }
        let Imm4 = if let Some((len, table)) = TableImm4::parse(tokens) {
            if len > block_0_len {
                block_0_len = len;
            }
            table
        } else {
            return None;
        };
        let rs = token_parser.TokenFieldrs();
        pattern_len = pattern_len + block_0_len;
        Some((pattern_len, Self { Imm4, rs }))
    }

    /// Appends the instruction's text to `display`.
    pub fn display_extend(
        &self,
        display: &mut Vec<DisplayElement>,
        context: &SpacesStruct,
        inst_start: u32,
        inst_next: u32,
        global_set: &mut Vec<GlobalSetRequest>,
    )
        requires
            self.wf(),
        ensures
            final(display)@ == old(display)@ + self.spec_display(context@, inst_start, inst_next),
            final(global_set)@ == old(global_set)@,
    {
        push_all(display, &[DisplayElement::Literal("mod"), DisplayElement::Literal("  "), self.rs.display(), DisplayElement::Literal(", ")]);
        self.Imm4.display_extend(display, context, inst_start, inst_next, global_set);
        assert(display@ =~= old(display)@ + self.spec_display(context@, inst_start, inst_next));
    }
}

/// The instruction `cmp rs, #imm`.
#[derive(Clone, Copy, Debug)]
pub struct instructionVar37 {
    pub Simm4: TableSimm4,
    pub rs: TokenField_rs,
}

impl instructionVar37 {
    /// The instruction read from the token bytes `t` under the context
    /// registers `regs`: its length, value and the context after it.
    pub open spec fn spec_parse(t: Seq<u8>, regs: Seq<u8>) -> Option<(nat, Self, Seq<u8>)> {
        if phase_of(regs) == 1 && t.len() >= 2 && op1215_of(t) == 12 && op0811_of(t) == 14 {
            Some((2, instructionVar37 { Simm4: TableSimm4::spec_parse(t).unwrap(), rs: TokenField_rs(rs_of(t)) }, regs))
        } else {
            None
        }
    }

    pub open spec fn wf(&self) -> bool {
        self.Simm4.wf() && self.rs.0 < 16
    }

    pub open spec fn spec_display(&self, regs: Seq<u8>, inst_start: u32, inst_next: u32) -> Seq<DisplayElement> {
        seq![lit("cmp"), lit("  "), reg(self.rs.0), lit(", ")] + self.Simm4.spec_display(inst_start)
    }

    /// Matches the instruction's pattern and reads its operands.
    pub fn parse(tokens: &[u8], context: &mut SpacesStruct, inst_start: u32) -> (r: Option<(u32, Self)>)
        ensures
            *final(context) == *old(context),
            r == (match Self::spec_parse(tokens@, old(context)@) {
                Some((n, v, _)) => Some((n as u32, v)),
                None => None,
            }),
            r matches Some((_, v)) ==> v.wf(),
    {
        let mut pattern_len: u32 = 0;
        let mut block_0_len: u32 = 2;
        let token_parser = TokenParser::<2>::new(tokens)?;
        if context.register().read_phase_disassembly() != 1i64 {
            return None;
        }
        if token_parser.TokenFieldop1215().disassembly() != 12i64 {
            return None;
        }
        if token_parser.TokenFieldop0811().disassembly() != 14i64 {
            return None;
        }
        let Simm4 = if let Some((len, table)) = TableSimm4::parse(tokens) {
            if len > block_0_len {
                block_0_len = len;
            }
            table
        } else {
            return None;
        };
        let rs = token_parser.TokenFieldrs();
        pattern_len = pattern_len + block_0_len;
        Some((pattern_len, Self { Simm4, rs }))
    }

    /// Appends the instruction's text to `display`.
    pub fn display_extend(
        &self,
        display: &mut Vec<DisplayElement>,
        context: &SpacesStruct,
        inst_start: u32,
        inst_next: u32,
        global_set: &mut Vec<GlobalSetRequest>,
    )
        requires
            self.wf(),
        ensures
            final(display)@ == old(display)@ + self.spec_display(context@, inst_start, inst_next),
            final(global_set)@ == old(global_set)@,
    {
        push_all(display, &[DisplayElement::Literal("cmp"), DisplayElement::Literal("  "), self.rs.display(), DisplayElement::Literal(", ")]);
        self.Simm4.display_extend(display, context, inst_start, inst_next, global_set);
        assert(display@ =~= old(display)@ + self.spec_display(context@, inst_start, inst_next));
    }
}

/// The instruction `ucmp rs, #imm`.
#[derive(Clone, Copy, Debug)]
pub struct instructionVar38 {
    pub Imm4: TableImm4,
    pub rs: TokenField_rs,
}

impl instructionVar38 {
    /// The instruction read from the token bytes `t` under the context
    /// registers `regs`: its length, value and the context after it.
    pub open spec fn spec_parse(t: Seq<u8>, regs: Seq<u8>) -> Option<(nat, Self, Seq<u8>)> {
        if phase_of(regs) == 1 && t.len() >= 2 && op1215_of(t) == 12 && op0811_of(t) == 15 {
            Some((2, instructionVar38 { Imm4: TableImm4::spec_parse(t).unwrap(), rs: TokenField_rs(rs_of(t)) }, regs))
        } else {
            None
        }
    }

    pub open spec fn wf(&self) -> bool {
        self.Imm4.wf() && self.rs.0 < 16
    }

    pub open spec fn spec_display(&self, regs: Seq<u8>, inst_start: u32, inst_next: u32) -> Seq<DisplayElement> {
        seq![lit("ucmp"), lit(" "), reg(self.rs.0), lit(", ")] + self.Imm4.spec_display(inst_start)
    }

    /// Matches the instruction's pattern and reads its operands.
    pub fn parse(tokens: &[u8], context: &mut SpacesStruct, inst_start: u32) -> (r: Option<(u32, Self)>)
        ensures
            *final(context) == *old(context),
            r == (match Self::spec_parse(tokens@, old(context)@) {
                Some((n, v, _)) => Some((n as u32, v)),
                None => None,
            }),
            r matches Some((_, v)) ==> v.wf(),
    {
        let mut pattern_len: u32 = 0;
        let mut block_0_len: u32 = 2;
        let token_parser = TokenParser::<2>::new(tokens)?;
        if context.register().read_phase_disassembly() != 1i64 {
            return None;
        }
        if token_parser.TokenFieldop1215().disassembly() != 12i64 {
            return None;
        }
        if token_parser.TokenFieldop0811().disassembly() != 15i64 {
            return None;
        }
        let Imm4 = if let Some((len, table)) = TableImm4::parse(tokens) {
            if len > block_0_len {
                block_0_len = len;
            }
            table
        } else {
            return None;
        };
        let rs = token_parser.TokenFieldrs();
        pattern_len = pattern_len + block_0_len;
        Some((pattern_len, Self { Imm4, rs }))
    }

    /// Appends the instruction's text to `display`.
    pub fn display_extend(
        &self,
        display: &mut Vec<DisplayElement>,
        context: &SpacesStruct,
        inst_start: u32,
        inst_next: u32,
        global_set: &mut Vec<GlobalSetRequest>,
    )
        requires
            self.wf(),
        ensures
            final(display)@ == old(display)@ + self.spec_display(context@, inst_start, inst_next),
            final(global_set)@ == old(global_set)@,
    {
        push_all(display, &[DisplayElement::Literal("ucmp"), DisplayElement::Literal(" "), self.rs.display(), DisplayElement::Literal(", ")]);
        self.Imm4.display_extend(display, context, inst_start, inst_next, global_set);
        assert(display@ =~= old(display)@ + self.spec_display(context@, inst_start, inst_next));
    }
}

/// The instruction `and rs, rt`.
#[derive(Clone, Copy, Debug)]
pub struct instructionVar39 {
    pub rs: TokenField_rs,
    pub rt: TokenField_rt,
}

impl instructionVar39 {
    /// The instruction read from the token bytes `t` under the context
    /// registers `regs`: its length, value and the context after it.
    pub open spec fn spec_parse(t: Seq<u8>, regs: Seq<u8>) -> Option<(nat, Self, Seq<u8>)> {
        if phase_of(regs) == 1 && t.len() >= 2 && op1215_of(t) == 13 && op0811_of(t) == 0 {
            Some((2, instructionVar39 { rs: TokenField_rs(rs_of(t)), rt: TokenField_rt(rt_of(t)) }, regs))
        } else {
            None
        }
    }

    pub open spec fn wf(&self) -> bool {
        self.rs.0 < 16 && self.rt.0 < 16
    }

    pub open spec fn spec_display(&self, regs: Seq<u8>, inst_start: u32, inst_next: u32) -> Seq<DisplayElement> {
        seq![lit("and"), lit(" "), reg(self.rs.0), lit(", "), reg(self.rt.0)]
    }

    /// Matches the instruction's pattern and reads its operands.
    pub fn parse(tokens: &[u8], context: &mut SpacesStruct, inst_start: u32) -> (r: Option<(u32, Self)>)
        ensures
            *final(context) == *old(context),
            r == (match Self::spec_parse(tokens@, old(context)@) {
                Some((n, v, _)) => Some((n as u32, v)),
                None => None,
            }),
            r matches Some((_, v)) ==> v.wf(),
    {
        let mut pattern_len: u32 = 0;
        let mut block_0_len: u32 = 2;
        let token_parser = TokenParser::<2>::new(tokens)?;
        if context.register().read_phase_disassembly() != 1i64 {
            return None;
        }
        if token_parser.TokenFieldop1215().disassembly() != 13i64 {
            return None;
        }
        if token_parser.TokenFieldop0811().disassembly() != 0i64 {
            return None;
        }
        let rs = token_parser.TokenFieldrs();
        let rt = token_parser.TokenFieldrt();
        pattern_len = pattern_len + block_0_len;
        Some((pattern_len, Self { rs, rt }))
    }

    /// Appends the instruction's text to `display`.
    pub fn display_extend(
        &self,
        display: &mut Vec<DisplayElement>,
        context: &SpacesStruct,
        inst_start: u32,
        inst_next: u32,
        global_set: &mut Vec<GlobalSetRequest>,
    )
        requires
            self.wf(),
        ensures
            final(display)@ == old(display)@ + self.spec_display(context@, inst_start, inst_next),
            final(global_set)@ == old(global_set)@,
    {
        push_all(display, &[DisplayElement::Literal("and"), DisplayElement::Literal(" "), self.rs.display(), DisplayElement::Literal(", "), self.rt.display()]);
        assert(display@ =~= old(display)@ + self.spec_display(context@, inst_start, inst_next));
    }
}

/// The instruction `or rs, rt`.
#[derive(Clone, Copy, Debug)]
pub struct instructionVar40 {
    pub rs: TokenField_rs,
    pub rt: TokenField_rt,
}

impl instructionVar40 {
    /// The instruction read from the token bytes `t` under the context
    /// registers `regs`: its length, value and the context after it.
    pub open spec fn spec_parse(t: Seq<u8>, regs: Seq<u8>) -> Option<(nat, Self, Seq<u8>)> {
        if phase_of(regs) == 1 && t.len() >= 2 && op1215_of(t) == 13 && op0811_of(t) == 1 {
            Some((2, instructionVar40 { rs: TokenField_rs(rs_of(t)), rt: TokenField_rt(rt_of(t)) }, regs))
        } else {
            None
        }
    }

    pub open spec fn wf(&self) -> bool {
        self.rs.0 < 16 && self.rt.0 < 16
    }

    pub open spec fn spec_display(&self, regs: Seq<u8>, inst_start: u32, inst_next: u32) -> Seq<DisplayElement> {
        seq![lit("or"), lit("  "), reg(self.rs.0), lit(", "), reg(self.rt.0)]
    }

    /// Matches the instruction's pattern and reads its operands.
    pub fn parse(tokens: &[u8], context: &mut SpacesStruct, inst_start: u32) -> (r: Option<(u32, Self)>)
        ensures
            *final(context) == *old(context),
            r == (match Self::spec_parse(tokens@, old(context)@) {
                Some((n, v, _)) => Some((n as u32, v)),
                None => None,
            }),
            r matches Some((_, v)) ==> v.wf(),
    {
        let mut pattern_len: u32 = 0;
        let mut block_0_len: u32 = 2;
        let token_parser = TokenParser::<2>::new(tokens)?;
        if context.register().read_phase_disassembly() != 1i64 {
            return None;
        }
        if token_parser.TokenFieldop1215().disassembly() != 13i64 {
            return None;
        }
        if token_parser.TokenFieldop0811().disassembly() != 1i64 {
            return None;
        }
        let rs = token_parser.TokenFieldrs();
        let rt = token_parser.TokenFieldrt();
        pattern_len = pattern_len + block_0_len;
        Some((pattern_len, Self { rs, rt }))
    }

    /// Appends the instruction's text to `display`.
    pub fn display_extend(
        &self,
        display: &mut Vec<DisplayElement>,
        context: &SpacesStruct,
        inst_start: u32,
        inst_next: u32,
        global_set: &mut Vec<GlobalSetRequest>,
    )
        requires
            self.wf(),
        ensures
            final(display)@ == old(display)@ + self.spec_display(context@, inst_start, inst_next),
            final(global_set)@ == old(global_set)@,
    {
        push_all(display, &[DisplayElement::Literal("or"), DisplayElement::Literal("  "), self.rs.display(), DisplayElement::Literal(", "), self.rt.display()]);
        assert(display@ =~= old(display)@ + self.spec_display(context@, inst_start, inst_next));
    }
}

/// The instruction `xor rs, rt`.
#[derive(Clone, Copy, Debug)]
pub struct instructionVar41 {
    pub rs: TokenField_rs,
    pub rt: TokenField_rt,
}

impl instructionVar41 {
    /// The instruction read from the token bytes `t` under the context
    /// registers `regs`: its length, value and the context after it.
    pub open spec fn spec_parse(t: Seq<u8>, regs: Seq<u8>) -> Option<(nat, Self, Seq<u8>)> {
        if phase_of(regs) == 1 && t.len() >= 2 && op1215_of(t) == 13 && op0811_of(t) == 2 {
            Some((2, instructionVar41 { rs: TokenField_rs(rs_of(t)), rt: TokenField_rt(rt_of(t)) }, regs))
        } else {
            None
        }
    }

    pub open spec fn wf(&self) -> bool {
        self.rs.0 < 16 && self.rt.0 < 16
    }

    pub open spec fn spec_display(&self, regs: Seq<u8>, inst_start: u32, inst_next: u32) -> Seq<DisplayElement> {
        seq![lit("xor"), lit(" "), reg(self.rs.0), lit(", "), reg(self.rt.0)]
    }

    /// Matches the instruction's pattern and reads its operands.
    pub fn parse(tokens: &[u8], context: &mut SpacesStruct, inst_start: u32) -> (r: Option<(u32, Self)>)
        ensures
            *final(context) == *old(context),
            r == (match Self::spec_parse(tokens@, old(context)@) {
                Some((n, v, _)) => Some((n as u32, v)),
                None => None,
            }),
            r matches Some((_, v)) ==> v.wf(),
    {
        let mut pattern_len: u32 = 0;
        let mut block_0_len: u32 = 2;
        let token_parser = TokenParser::<2>::new(tokens)?;
        if context.register().read_phase_disassembly() != 1i64 {
            return None;
        }
        if token_parser.TokenFieldop1215().disassembly() != 13i64 {
            return None;
        }
        if token_parser.TokenFieldop0811().disassembly() != 2i64 {
            return None;
        }
        let rs = token_parser.TokenFieldrs();
        let rt = token_parser.TokenFieldrt();
        pattern_len = pattern_len + block_0_len;
        Some((pattern_len, Self { rs, rt }))
    }

    /// Appends the instruction's text to `display`.
    pub fn display_extend(
        &self,
        display: &mut Vec<DisplayElement>,
        context: &SpacesStruct,
        inst_start: u32,
        inst_next: u32,
        global_set: &mut Vec<GlobalSetRequest>,
    )
        requires
            self.wf(),
        ensures
            final(display)@ == old(display)@ + self.spec_display(context@, inst_start, inst_next),
            final(global_set)@ == old(global_set)@,
    {
        push_all(display, &[DisplayElement::Literal("xor"), DisplayElement::Literal(" "), self.rs.display(), DisplayElement::Literal(", "), self.rt.display()]);
        assert(display@ =~= old(display)@ + self.spec_display(context@, inst_start, inst_next));
    }
}

/// The instruction `lsr rs, rt`.
#[derive(Clone, Copy, Debug)]
pub struct instructionVar42 {
    pub rs: TokenField_rs,
    pub rt: TokenField_rt,
}

impl instructionVar42 {
    /// The instruction read from the token bytes `t` under the context
    /// registers `regs`: its length, value and the context after it.
    pub open spec fn spec_parse(t: Seq<u8>, regs: Seq<u8>) -> Option<(nat, Self, Seq<u8>)> {
        if phase_of(regs) == 1 && t.len() >= 2 && op1215_of(t) == 13 && op0811_of(t) == 3 {
            Some((2, instructionVar42 { rs: TokenField_rs(rs_of(t)), rt: TokenField_rt(rt_of(t)) }, regs))
        } else {
            None
        }
    }

    pub open spec fn wf(&self) -> bool {
        self.rs.0 < 16 && self.rt.0 < 16
    }

    pub open spec fn spec_display(&self, regs: Seq<u8>, inst_start: u32, inst_next: u32) -> Seq<DisplayElement> {
        seq![lit("lsr"), lit(" "), reg(self.rs.0), lit(", "), reg(self.rt.0)]
    }

    /// Matches the instruction's pattern and reads its operands.
    pub fn parse(tokens: &[u8], context: &mut SpacesStruct, inst_start: u32) -> (r: Option<(u32, Self)>)
        ensures
            *final(context) == *old(context),
            r == (match Self::spec_parse(tokens@, old(context)@) {
                Some((n, v, _)) => Some((n as u32, v)),
                None => None,
            }),
            r matches Some((_, v)) ==> v.wf(),
    {
        let mut pattern_len: u32 = 0;
        let mut block_0_len: u32 = 2;
        let token_parser = TokenParser::<2>::new(tokens)?;
        if context.register().read_phase_disassembly() != 1i64 {
            return None;
        }
        if token_parser.TokenFieldop1215().disassembly() != 13i64 {
            return None;
        }
        if token_parser.TokenFieldop0811().disassembly() != 3i64 {
            return None;
        }
        let rs = token_parser.TokenFieldrs();
        let rt = token_parser.TokenFieldrt();
        pattern_len = pattern_len + block_0_len;
        Some((pattern_len, Self { rs, rt }))
    }

    /// Appends the instruction's text to `display`.
    pub fn display_extend(
        &self,
        display: &mut Vec<DisplayElement>,
        context: &SpacesStruct,
        inst_start: u32,
        inst_next: u32,
        global_set: &mut Vec<GlobalSetRequest>,
    )
        requires
            self.wf(),
        ensures
            final(display)@ == old(display)@ + self.spec_display(context@, inst_start, inst_next),
            final(global_set)@ == old(global_set)@,
    {
        push_all(display, &[DisplayElement::Literal("lsr"), DisplayElement::Literal(" "), self.rs.display(), DisplayElement::Literal(", "), self.rt.display()]);
        assert(display@ =~= old(display)@ + self.spec_display(context@, inst_start, inst_next));
    }
}

/// The instruction `asr rs, rt`.
#[derive(Clone, Copy, Debug)]
pub struct instructionVar43 {
    pub rs: TokenField_rs,
    pub rt: TokenField_rt,
}

impl instructionVar43 {
    /// The instruction read from the token bytes `t` under the context
    /// registers `regs`: its length, value and the context after it.
    pub open spec fn spec_parse(t: Seq<u8>, regs: Seq<u8>) -> Option<(nat, Self, Seq<u8>)> {
        if phase_of(regs) == 1 && t.len() >= 2 && op1215_of(t) == 13 && op0811_of(t) == 4 {
            Some((2, instructionVar43 { rs: TokenField_rs(rs_of(t)), rt: TokenField_rt(rt_of(t)) }, regs))
        } else {
            None
        }
    }

    pub open spec fn wf(&self) -> bool {
        self.rs.0 < 16 && self.rt.0 < 16
    }

    pub open spec fn spec_display(&self, regs: Seq<u8>, inst_start: u32, inst_next: u32) -> Seq<DisplayElement> {
        seq![lit("asr"), lit(" "), reg(self.rs.0), lit(", "), reg(self.rt.0)]
    }

    /// Matches the instruction's pattern and reads its operands.
    pub fn parse(tokens: &[u8], context: &mut SpacesStruct, inst_start: u32) -> (r: Option<(u32, Self)>)
        ensures
            *final(context) == *old(context),
            r == (match Self::spec_parse(tokens@, old(context)@) {
                Some((n, v, _)) => Some((n as u32, v)),
                None => None,
            }),
            r matches Some((_, v)) ==> v.wf(),
    {
        let mut pattern_len: u32 = 0;
        let mut block_0_len: u32 = 2;
        let token_parser = TokenParser::<2>::new(tokens)?;
        if context.register().read_phase_disassembly() != 1i64 {
            return None;
        }
        if token_parser.TokenFieldop1215().disassembly() != 13i64 {
            return None;
        }
        if token_parser.TokenFieldop0811().disassembly() != 4i64 {
            return None;
        }
        let rs = token_parser.TokenFieldrs();
        let rt = token_parser.TokenFieldrt();
        pattern_len = pattern_len + block_0_len;
        Some((pattern_len, Self { rs, rt }))
    }

    /// Appends the instruction's text to `display`.
    pub fn display_extend(
        &self,
        display: &mut Vec<DisplayElement>,
        context: &SpacesStruct,
        inst_start: u32,
        inst_next: u32,
        global_set: &mut Vec<GlobalSetRequest>,
    )
        requires
            self.wf(),
        ensures
            final(display)@ == old(display)@ + self.spec_display(context@, inst_start, inst_next),
            final(global_set)@ == old(global_set)@,
    {
        push_all(display, &[DisplayElement::Literal("asr"), DisplayElement::Literal(" "), self.rs.display(), DisplayElement::Literal(", "), self.rt.display()]);
        assert(display@ =~= old(display)@ + self.spec_display(context@, inst_start, inst_next));
    }
}

/// The instruction `lsl rs, rt`.
#[derive(Clone, Copy, Debug)]
pub struct instructionVar44 {
    pub rs: TokenField_rs,
    pub rt: TokenField_rt,
}

impl instructionVar44 {
    /// The instruction read from the token bytes `t` under the context
    /// registers `regs`: its length, value and the context after it.
    pub open spec fn spec_parse(t: Seq<u8>, regs: Seq<u8>) -> Option<(nat, Self, Seq<u8>)> {
        if phase_of(regs) == 1 && t.len() >= 2 && op1215_of(t) == 13 && op0811_of(t) == 5 {
            Some((2, instructionVar44 { rs: TokenField_rs(rs_of(t)), rt: TokenField_rt(rt_of(t)) }, regs))
        } else {
            None
        }
    }

    pub open spec fn wf(&self) -> bool {
        self.rs.0 < 16 && self.rt.0 < 16
    }

    pub open spec fn spec_display(&self, regs: Seq<u8>, inst_start: u32, inst_next: u32) -> Seq<DisplayElement> {
        seq![lit("lsl"), lit(" "), reg(self.rs.0), lit(", "), reg(self.rt.0)]
    }

    /// Matches the instruction's pattern and reads its operands.
    pub fn parse(tokens: &[u8], context: &mut SpacesStruct, inst_start: u32) -> (r: Option<(u32, Self)>)
        ensures
            *final(context) == *old(context),
            r == (match Self::spec_parse(tokens@, old(context)@) {
                Some((n, v, _)) => Some((n as u32, v)),
                None => None,
            }),
            r matches Some((_, v)) ==> v.wf(),
    {
        let mut pattern_len: u32 = 0;
        let mut block_0_len: u32 = 2;
        let token_parser = TokenParser::<2>::new(tokens)?;
        if context.register().read_phase_disassembly() != 1i64 {
            return None;
        }
        if token_parser.TokenFieldop1215().disassembly() != 13i64 {
            return None;
        }
        if token_parser.TokenFieldop0811().disassembly() != 5i64 {
            return None;
        }
        let rs = token_parser.TokenFieldrs();
        let rt = token_parser.TokenFieldrt();
        pattern_len = pattern_len + block_0_len;
        Some((pattern_len, Self { rs, rt }))
    }

    /// Appends the instruction's text to `display`.
    pub fn display_extend(
        &self,
        display: &mut Vec<DisplayElement>,
        context: &SpacesStruct,
        inst_start: u32,
        inst_next: u32,
        global_set: &mut Vec<GlobalSetRequest>,
    )
        requires
            self.wf(),
        ensures
            final(display)@ == old(display)@ + self.spec_display(context@, inst_start, inst_next),
            final(global_set)@ == old(global_set)@,
    {
        push_all(display, &[DisplayElement::Literal("lsl"), DisplayElement::Literal(" "), self.rs.display(), DisplayElement::Literal(", "), self.rt.display()]);
        assert(display@ =~= old(display)@ + self.spec_display(context@, inst_start, inst_next));
    }
}

/// The instruction `saa rs, rt`.
#[derive(Clone, Copy, Debug)]
pub struct instructionVar45 {
    pub rs: TokenField_rs,
    pub rt: TokenField_rt,
}

impl instructionVar45 {
    /// The instruction read from the token bytes `t` under the context
    /// registers `regs`: its length, value and the context after it.
    pub open spec fn spec_parse(t: Seq<u8>, regs: Seq<u8>) -> Option<(nat, Self, Seq<u8>)> {
        if phase_of(regs) == 1 && t.len() >= 2 && op1215_of(t) == 13 && op0811_of(t) == 8 {
            Some((2, instructionVar45 { rs: TokenField_rs(rs_of(t)), rt: TokenField_rt(rt_of(t)) }, regs))
        } else {
            None
        }
    }

    pub open spec fn wf(&self) -> bool {
        self.rs.0 < 16 && self.rt.0 < 16
    }

    pub open spec fn spec_display(&self, regs: Seq<u8>, inst_start: u32, inst_next: u32) -> Seq<DisplayElement> {
        seq![lit("saa"), lit(" "), reg(self.rs.0), lit(", "), reg(self.rt.0)]
    }

    /// Matches the instruction's pattern and reads its operands.
    pub fn parse(tokens: &[u8], context: &mut SpacesStruct, inst_start: u32) -> (r: Option<(u32, Self)>)
        ensures
            *final(context) == *old(context),
            r == (match Self::spec_parse(tokens@, old(context)@) {
                Some((n, v, _)) => Some((n as u32, v)),
                None => None,
            }),
            r matches Some((_, v)) ==> v.wf(),
    {
        let mut pattern_len: u32 = 0;
        let mut block_0_len: u32 = 2;
        let token_parser = TokenParser::<2>::new(tokens)?;
        if context.register().read_phase_disassembly() != 1i64 {
            return None;
        }
        if token_parser.TokenFieldop1215().disassembly() != 13i64 {
            return None;
        }
        if token_parser.TokenFieldop0811().disassembly() != 8i64 {
            return None;
        }
        let rs = token_parser.TokenFieldrs();
        let rt = token_parser.TokenFieldrt();
        pattern_len = pattern_len + block_0_len;
        Some((pattern_len, Self { rs, rt }))
    }

    /// Appends the instruction's text to `display`.
    pub fn display_extend(
        &self,
        display: &mut Vec<DisplayElement>,
        context: &SpacesStruct,
        inst_start: u32,
        inst_next: u32,
        global_set: &mut Vec<GlobalSetRequest>,
    )
        requires
            self.wf(),
        ensures
            final(display)@ == old(display)@ + self.spec_display(context@, inst_start, inst_next),
            final(global_set)@ == old(global_set)@,
    {
        push_all(display, &[DisplayElement::Literal("saa"), DisplayElement::Literal(" "), self.rs.display(), DisplayElement::Literal(", "), self.rt.display()]);
        assert(display@ =~= old(display)@ + self.spec_display(context@, inst_start, inst_next));
    }
}

/// The instruction `lsr rs, #imm`.
#[derive(Clone, Copy, Debug)]
pub struct instructionVar46 {
    pub Imm4: TableImm4,
    pub rs: TokenField_rs,
}

impl instructionVar46 {
    /// The instruction read from the token bytes `t` under the context
    /// registers `regs`: its length, value and the context after it.
    pub open spec fn spec_parse(t: Seq<u8>, regs: Seq<u8>) -> Option<(nat, Self, Seq<u8>)> {
        if phase_of(regs) == 1 && t.len() >= 2 && op1215_of(t) == 13 && op0811_of(t) == 11 {
            Some((2, instructionVar46 { Imm4: TableImm4::spec_parse(t).unwrap(), rs: TokenField_rs(rs_of(t)) }, regs))
        } else {
            None
        }
    }

    pub open spec fn wf(&self) -> bool {
        self.Imm4.wf() && self.rs.0 < 16
    }

    pub open spec fn spec_display(&self, regs: Seq<u8>, inst_start: u32, inst_next: u32) -> Seq<DisplayElement> {
        seq![lit("lsr"), lit("  "), reg(self.rs.0), lit(", ")] + self.Imm4.spec_display(inst_start)
    }

    /// Matches the instruction's pattern and reads its operands.
    pub fn parse(tokens: &[u8], context: &mut SpacesStruct, inst_start: u32) -> (r: Option<(u32, Self)>)
        ensures
            *final(context) == *old(context),
            r == (match Self::spec_parse(tokens@, old(context)@) {
                Some((n, v, _)) => Some((n as u32, v)),
                None => None,
            }),
            r matches Some((_, v)) ==> v.wf(),
    {
        let mut pattern_len: u32 = 0;
        let mut block_0_len: u32 = 2;
        let token_parser = TokenParser::<2>::new(tokens)?;
        if context.register().read_phase_disassembly() != 1i64 {
            return None;
        }
        if token_parser.TokenFieldop1215().disassembly() != 13i64 {
            return None;
        }
        if token_parser.TokenFieldop0811().disassembly() != 11i64 {
            return None;
        }
        let Imm4 = if let Some((len, table)) = TableImm4::parse(tokens) {
            if len > block_0_len {
                block_0_len = len;
            }
            table
        } else {
            return None;
        };
        let rs = token_parser.TokenFieldrs();
        pattern_len = pattern_len + block_0_len;
        Some((pattern_len, Self { Imm4, rs }))
    }

    /// Appends the instruction's text to `display`.
    pub fn display_extend(
        &self,
        display: &mut Vec<DisplayElement>,
        context: &SpacesStruct,
        inst_start: u32,
        inst_next: u32,
        global_set: &mut Vec<GlobalSetRequest>,
    )
        requires
            self.wf(),
        ensures
            final(display)@ == old(display)@ + self.spec_display(context@, inst_start, inst_next),
            final(global_set)@ == old(global_set)@,
    {
        push_all(display, &[DisplayElement::Literal("lsr"), DisplayElement::Literal("  "), self.rs.display(), DisplayElement::Literal(", ")]);
        self.Imm4.display_extend(display, context, inst_start, inst_next, global_set);
        assert(display@ =~= old(display)@ + self.spec_display(context@, inst_start, inst_next));
    }
}

/// The instruction `asr rs, #imm`.
#[derive(Clone, Copy, Debug)]
pub struct instructionVar47 {
    pub Imm4: TableImm4,
    pub rs: TokenField_rs,
}

impl instructionVar47 {
    /// The instruction read from the token bytes `t` under the context
    /// registers `regs`: its length, value and the context after it.
    pub open spec fn spec_parse(t: Seq<u8>, regs: Seq<u8>) -> Option<(nat, Self, Seq<u8>)> {
        if phase_of(regs) == 1 && t.len() >= 2 && op1215_of(t) == 13 && op0811_of(t) == 12 {
            Some((2, instructionVar47 { Imm4: TableImm4::spec_parse(t).unwrap(), rs: TokenField_rs(rs_of(t)) }, regs))
        } else {
            None
        }
    }

    pub open spec fn wf(&self) -> bool {
        self.Imm4.wf() && self.rs.0 < 16
    }

    pub open spec fn spec_display(&self, regs: Seq<u8>, inst_start: u32, inst_next: u32) -> Seq<DisplayElement> {
        seq![lit("asr"), lit("  "), reg(self.rs.0), lit(", ")] + self.Imm4.spec_display(inst_start)
    }

    /// Matches the instruction's pattern and reads its operands.
    pub fn parse(tokens: &[u8], context: &mut SpacesStruct, inst_start: u32) -> (r: Option<(u32, Self)>)
        ensures
            *final(context) == *old(context),
            r == (match Self::spec_parse(tokens@, old(context)@) {
                Some((n, v, _)) => Some((n as u32, v)),
                None => None,
            }),
            r matches Some((_, v)) ==> v.wf(),
    {
        let mut pattern_len: u32 = 0;
        let mut block_0_len: u32 = 2;
        let token_parser = TokenParser::<2>::new(tokens)?;
        if context.register().read_phase_disassembly() != 1i64 {
            return None;
        }
        if token_parser.TokenFieldop1215().disassembly() != 13i64 {
            return None;
        }
        if token_parser.TokenFieldop0811().disassembly() != 12i64 {
            return None;
        }
        let Imm4 = if let Some((len, table)) = TableImm4::parse(tokens) {
            if len > block_0_len {
                block_0_len = len;
            }
            table
        } else {
            return None;
        };
        let rs = token_parser.TokenFieldrs();
        pattern_len = pattern_len + block_0_len;
        Some((pattern_len, Self { Imm4, rs }))
    }

    /// Appends the instruction's text to `display`.
    pub fn display_extend(
        &self,
        display: &mut Vec<DisplayElement>,
        context: &SpacesStruct,
        inst_start: u32,
        inst_next: u32,
        global_set: &mut Vec<GlobalSetRequest>,
    )
        requires
            self.wf(),
        ensures
            final(display)@ == old(display)@ + self.spec_display(context@, inst_start, inst_next),
            final(global_set)@ == old(global_set)@,
    {
        push_all(display, &[DisplayElement::Literal("asr"), DisplayElement::Literal("  "), self.rs.display(), DisplayElement::Literal(", ")]);
        self.Imm4.display_extend(display, context, inst_start, inst_next, global_set);
        assert(display@ =~= old(display)@ + self.spec_display(context@, inst_start, inst_next));
    }
}

/// The instruction `lsl rs, #imm`.
#[derive(Clone, Copy, Debug)]
pub struct instructionVar48 {
    pub Imm4: TableImm4,
    pub rs: TokenField_rs,
}

impl instructionVar48 {
    /// The instruction read from the token bytes `t` under the context
    /// registers `regs`: its length, value and the context after it.
    pub open spec fn spec_parse(t: Seq<u8>, regs: Seq<u8>) -> Option<(nat, Self, Seq<u8>)> {
        if phase_of(regs) == 1 && t.len() >= 2 && op1215_of(t) == 13 && op0811_of(t) == 13 {
            Some((2, instructionVar48 { Imm4: TableImm4::spec_parse(t).unwrap(), rs: TokenField_rs(rs_of(t)) }, regs))
        } else {
            None
        }
    }

    pub open spec fn wf(&self) -> bool {
        self.Imm4.wf() && self.rs.0 < 16
    }

    pub open spec fn spec_display(&self, regs: Seq<u8>, inst_start: u32, inst_next: u32) -> Seq<DisplayElement> {
        seq![lit("lsl"), lit("  "), reg(self.rs.0), lit(", ")] + self.Imm4.spec_display(inst_start)
    }

    /// Matches the instruction's pattern and reads its operands.
    pub fn parse(tokens: &[u8], context: &mut SpacesStruct, inst_start: u32) -> (r: Option<(u32, Self)>)
        ensures
            *final(context) == *old(context),
            r == (match Self::spec_parse(tokens@, old(context)@) {
                Some((n, v, _)) => Some((n as u32, v)),
                None => None,
            }),
            r matches Some((_, v)) ==> v.wf(),
    {
        let mut pattern_len: u32 = 0;
        let mut block_0_len: u32 = 2;
        let token_parser = TokenParser::<2>::new(tokens)?;
        if context.register().read_phase_disassembly() != 1i64 {
            return None;
        }
        if token_parser.TokenFieldop1215().disassembly() != 13i64 {
            return None;
        }
        if token_parser.TokenFieldop0811().disassembly() != 13i64 {
            return None;
        }
        let Imm4 = if let Some((len, table)) = TableImm4::parse(tokens) {
            if len > block_0_len {
                block_0_len = len;
            }
            table
        } else {
            return None;
        };
        let rs = token_parser.TokenFieldrs();
        pattern_len = pattern_len + block_0_len;
        Some((pattern_len, Self { Imm4, rs }))
    }

    /// Appends the instruction's text to `display`.
    pub fn display_extend(
        &self,
        display: &mut Vec<DisplayElement>,
        context: &SpacesStruct,
        inst_start: u32,
        inst_next: u32,
        global_set: &mut Vec<GlobalSetRequest>,
    )
        requires
            self.wf(),
        ensures
            final(display)@ == old(display)@ + self.spec_display(context@, inst_start, inst_next),
            final(global_set)@ == old(global_set)@,
    {
        push_all(display, &[DisplayElement::Literal("lsl"), DisplayElement::Literal("  "), self.rs.display(), DisplayElement::Literal(", ")]);
        self.Imm4.display_extend(display, context, inst_start, inst_next, global_set);
        assert(display@ =~= old(display)@ + self.spec_display(context@, inst_start, inst_next));
    }
}

/// The instruction `load rs, [rt]`.
#[derive(Clone, Copy, Debug)]
pub struct instructionVar49 {
    pub RT: TableRT,
    pub rs: TokenField_rs,
}

impl instructionVar49 {
    /// The instruction read from the token bytes `t` under the context
    /// registers `regs`: its length, value and the context after it.
    pub open spec fn spec_parse(t: Seq<u8>, regs: Seq<u8>) -> Option<(nat, Self, Seq<u8>)> {
        if phase_of(regs) == 1 && t.len() >= 2 && op1215_of(t) == 13 && op0811_of(t) == 6 {
            Some((2, instructionVar49 { RT: TableRT::spec_parse(t).unwrap(), rs: TokenField_rs(rs_of(t)) }, regs))
        } else {
            None
        }
    }

    pub open spec fn wf(&self) -> bool {
        self.RT.wf() && self.rs.0 < 16
    }

    pub open spec fn spec_display(&self, regs: Seq<u8>, inst_start: u32, inst_next: u32) -> Seq<DisplayElement> {
        seq![lit("load"), lit("  "), reg(self.rs.0), lit(", ")] + self.RT.spec_display(inst_start)
    }

    /// Matches the instruction's pattern and reads its operands.
    pub fn parse(tokens: &[u8], context: &mut SpacesStruct, inst_start: u32) -> (r: Option<(u32, Self)>)
        ensures
            *final(context) == *old(context),
            r == (match Self::spec_parse(tokens@, old(context)@) {
                Some((n, v, _)) => Some((n as u32, v)),
                None => None,
            }),
            r matches Some((_, v)) ==> v.wf(),
    {
        let mut pattern_len: u32 = 0;
        let mut block_0_len: u32 = 2;
        let token_parser = TokenParser::<2>::new(tokens)?;
        if context.register().read_phase_disassembly() != 1i64 {
            return None;
        }
        if token_parser.TokenFieldop1215().disassembly() != 13i64 {
            return None;
        }
        if token_parser.TokenFieldop0811().disassembly() != 6i64 {
            return None;
        }
        let RT = if let Some((len, table)) = TableRT::parse(tokens) {
            if len > block_0_len {
                block_0_len = len;
            }
            table
        } else {
            return None;
        };
        let rs = token_parser.TokenFieldrs();
        pattern_len = pattern_len + block_0_len;
        Some((pattern_len, Self { RT, rs }))
    }

    /// Appends the instruction's text to `display`.
    pub fn display_extend(
        &self,
        display: &mut Vec<DisplayElement>,
        context: &SpacesStruct,
        inst_start: u32,
        inst_next: u32,
        global_set: &mut Vec<GlobalSetRequest>,
    )
        requires
            self.wf(),
        ensures
            final(display)@ == old(display)@ + self.spec_display(context@, inst_start, inst_next),
            final(global_set)@ == old(global_set)@,
    {
        push_all(display, &[DisplayElement::Literal("load"), DisplayElement::Literal("  "), self.rs.display(), DisplayElement::Literal(", ")]);
        self.RT.display_extend(display, context, inst_start, inst_next, global_set);
        assert(display@ =~= old(display)@ + self.spec_display(context@, inst_start, inst_next));
    }
}

/// The instruction `store [rs], rt`.
#[derive(Clone, Copy, Debug)]
pub struct instructionVar50 {
    pub RS: TableRS,
    pub rt: TokenField_rt,
}

impl instructionVar50 {
    /// The instruction read from the token bytes `t` under the context
    /// registers `regs`: its length, value and the context after it.
    pub open spec fn spec_parse(t: Seq<u8>, regs: Seq<u8>) -> Option<(nat, Self, Seq<u8>)> {
        if phase_of(regs) == 1 && t.len() >= 2 && op1215_of(t) == 13 && op0811_of(t) == 7 {
            Some((2, instructionVar50 { RS: TableRS::spec_parse(t).unwrap(), rt: TokenField_rt(rt_of(t)) }, regs))
        } else {
            None
        }
    }

    pub open spec fn wf(&self) -> bool {
        self.RS.wf() && self.rt.0 < 16
    }

    pub open spec fn spec_display(&self, regs: Seq<u8>, inst_start: u32, inst_next: u32) -> Seq<DisplayElement> {
        seq![lit("store"), lit(" ")] + self.RS.spec_display(inst_start) + seq![lit(", "), reg(self.rt.0)]
    }

    /// Matches the instruction's pattern and reads its operands.
    pub fn parse(tokens: &[u8], context: &mut SpacesStruct, inst_start: u32) -> (r: Option<(u32, Self)>)
        ensures
            *final(context) == *old(context),
            r == (match Self::spec_parse(tokens@, old(context)@) {
                Some((n, v, _)) => Some((n as u32, v)),
                None => None,
            }),
            r matches Some((_, v)) ==> v.wf(),
    {
        let mut pattern_len: u32 = 0;
        let mut block_0_len: u32 = 2;
        let token_parser = TokenParser::<2>::new(tokens)?;
        if context.register().read_phase_disassembly() != 1i64 {
            return None;
        }
        if token_parser.TokenFieldop1215().disassembly() != 13i64 {
            return None;
        }
        if token_parser.TokenFieldop0811().disassembly() != 7i64 {
            return None;
        }
        let RS = if let Some((len, table)) = TableRS::parse(tokens) {
            if len > block_0_len {
                block_0_len = len;
            }
            table
        } else {
            return None;
        };
        let rt = token_parser.TokenFieldrt();
        pattern_len = pattern_len + block_0_len;
        Some((pattern_len, Self { RS, rt }))
    }

    /// Appends the instruction's text to `display`.
    pub fn display_extend(
        &self,
        display: &mut Vec<DisplayElement>,
        context: &SpacesStruct,
        inst_start: u32,
        inst_next: u32,
        global_set: &mut Vec<GlobalSetRequest>,
    )
        requires
            self.wf(),
        ensures
            final(display)@ == old(display)@ + self.spec_display(context@, inst_start, inst_next),
            final(global_set)@ == old(global_set)@,
    {
        push_all(display, &[DisplayElement::Literal("store"), DisplayElement::Literal(" ")]);
        self.RS.display_extend(display, context, inst_start, inst_next, global_set);
        push_all(display, &[DisplayElement::Literal(", "), self.rt.display()]);
        assert(display@ =~= old(display)@ + self.spec_display(context@, inst_start, inst_next));
    }
}

/// The instruction `mov rs, rt`.
#[derive(Clone, Copy, Debug)]
pub struct instructionVar51 {
    pub rs: TokenField_rs,
    pub rt: TokenField_rt,
}

impl instructionVar51 {
    /// The instruction read from the token bytes `t` under the context
    /// registers `regs`: its length, value and the context after it.
    pub open spec fn spec_parse(t: Seq<u8>, regs: Seq<u8>) -> Option<(nat, Self, Seq<u8>)> {
        if phase_of(regs) == 1 && t.len() >= 2 && op1215_of(t) == 13 && op0811_of(t) == 15 {
            Some((2, instructionVar51 { rs: TokenField_rs(rs_of(t)), rt: TokenField_rt(rt_of(t)) }, regs))
        } else {
            None
        }
    }

    pub open spec fn wf(&self) -> bool {
        self.rs.0 < 16 && self.rt.0 < 16
    }

    pub open spec fn spec_display(&self, regs: Seq<u8>, inst_start: u32, inst_next: u32) -> Seq<DisplayElement> {
        seq![lit("mov"), lit("   "), reg(self.rs.0), lit(", "), reg(self.rt.0)]
    }

    /// Matches the instruction's pattern and reads its operands.
    pub fn parse(tokens: &[u8], context: &mut SpacesStruct, inst_start: u32) -> (r: Option<(u32, Self)>)
        ensures
            *final(context) == *old(context),
            r == (match Self::spec_parse(tokens@, old(context)@) {
                Some((n, v, _)) => Some((n as u32, v)),
                None => None,
            }),
            r matches Some((_, v)) ==> v.wf(),
    {
        let mut pattern_len: u32 = 0;
        let mut block_0_len: u32 = 2;
        let token_parser = TokenParser::<2>::new(tokens)?;
        if context.register().read_phase_disassembly() != 1i64 {
            return None;
        }
        if token_parser.TokenFieldop1215().disassembly() != 13i64 {
            return None;
        }
        if token_parser.TokenFieldop0811().disassembly() != 15i64 {
            return None;
        }
        let rs = token_parser.TokenFieldrs();
        let rt = token_parser.TokenFieldrt();
        pattern_len = pattern_len + block_0_len;
        Some((pattern_len, Self { rs, rt }))
    }

    /// Appends the instruction's text to `display`.
    pub fn display_extend(
        &self,
        display: &mut Vec<DisplayElement>,
        context: &SpacesStruct,
        inst_start: u32,
        inst_next: u32,
        global_set: &mut Vec<GlobalSetRequest>,
    )
        requires
            self.wf(),
        ensures
            final(display)@ == old(display)@ + self.spec_display(context@, inst_start, inst_next),
            final(global_set)@ == old(global_set)@,
    {
        push_all(display, &[DisplayElement::Literal("mov"), DisplayElement::Literal("   "), self.rs.display(), DisplayElement::Literal(", "), self.rt.display()]);
        assert(display@ =~= old(display)@ + self.spec_display(context@, inst_start, inst_next));
    }
}

/// The instruction `br` on a condition to a relative address.
#[derive(Clone, Copy, Debug)]
pub struct instructionVar52 {
    pub COND: TableCOND,
    pub Rel82: TableRel82,
}

impl instructionVar52 {
    /// The instruction read from the token bytes `t` under the context
    /// registers `regs`: its length, value and the context after it.
    pub open spec fn spec_parse(t: Seq<u8>, regs: Seq<u8>) -> Option<(nat, Self, Seq<u8>)> {
        if phase_of(regs) == 1 && t.len() >= 2 && op1215_of(t) == 14 && op0303_of(t) == 0 {
            Some((2, instructionVar52 { COND: TableCOND::spec_parse(t).unwrap(), Rel82: TableRel82::spec_parse(t).unwrap() }, regs))
        } else {
            None
        }
    }

    pub open spec fn wf(&self) -> bool {
        self.Rel82.wf()
    }

    pub open spec fn spec_display(&self, regs: Seq<u8>, inst_start: u32, inst_next: u32) -> Seq<DisplayElement> {
        seq![lit("br")] + self.COND.spec_display() + seq![lit(" ")] + self.Rel82.spec_display(inst_start)
    }

    /// Matches the instruction's pattern and reads its operands.
    pub fn parse(tokens: &[u8], context: &mut SpacesStruct, inst_start: u32) -> (r: Option<(u32, Self)>)
        ensures
            *final(context) == *old(context),
            r == (match Self::spec_parse(tokens@, old(context)@) {
                Some((n, v, _)) => Some((n as u32, v)),
                None => None,
            }),
            r matches Some((_, v)) ==> v.wf(),
    {
        let mut pattern_len: u32 = 0;
        let mut block_0_len: u32 = 2;
        let token_parser = TokenParser::<2>::new(tokens)?;
        if context.register().read_phase_disassembly() != 1i64 {
            return None;
        }
        if token_parser.TokenFieldop1215().disassembly() != 14i64 {
            return None;
        }
        if token_parser.TokenFieldop0303().disassembly() != 0i64 {
            return None;
        }
        let COND = if let Some((len, table)) = TableCOND::parse(tokens) {
            if len > block_0_len {
                block_0_len = len;
            }
            table
        } else {
            return None;
        };
        let Rel82 = if let Some((len, table)) = TableRel82::parse(tokens) {
            if len > block_0_len {
                block_0_len = len;
            }
            table
        } else {
            return None;
        };
        pattern_len = pattern_len + block_0_len;
        Some((pattern_len, Self { COND, Rel82 }))
    }

    /// Appends the instruction's text to `display`.
    pub fn display_extend(
        &self,
        display: &mut Vec<DisplayElement>,
        context: &SpacesStruct,
        inst_start: u32,
        inst_next: u32,
        global_set: &mut Vec<GlobalSetRequest>,
    )
        requires
            self.wf(),
        ensures
            final(display)@ == old(display)@ + self.spec_display(context@, inst_start, inst_next),
            final(global_set)@ == old(global_set)@,
    {
        push_all(display, &[DisplayElement::Literal("br")]);
        self.COND.display_extend(display, context, inst_start, inst_next, global_set);
        push_all(display, &[DisplayElement::Literal(" ")]);
        self.Rel82.display_extend(display, context, inst_start, inst_next, global_set);
        assert(display@ =~= old(display)@ + self.spec_display(context@, inst_start, inst_next));
    }
}

/// The instruction `brds` on a condition to a relative address.
#[derive(Clone, Copy, Debug)]
pub struct instructionVar53 {
    pub COND: TableCOND,
    pub Rel82: TableRel82,
}

impl instructionVar53 {
    /// The instruction read from the token bytes `t` under the context
    /// registers `regs`: its length, value and the context after it.
    pub open spec fn spec_parse(t: Seq<u8>, regs: Seq<u8>) -> Option<(nat, Self, Seq<u8>)> {
        if phase_of(regs) == 1 && t.len() >= 2 && op1215_of(t) == 14 && op0303_of(t) == 1 {
            Some((2, instructionVar53 { COND: TableCOND::spec_parse(t).unwrap(), Rel82: TableRel82::spec_parse(t).unwrap() }, regs))
        } else {
            None
        }
    }

    pub open spec fn wf(&self) -> bool {
        self.Rel82.wf()
    }

    pub open spec fn spec_display(&self, regs: Seq<u8>, inst_start: u32, inst_next: u32) -> Seq<DisplayElement> {
        seq![lit("brds")] + self.COND.spec_display() + seq![lit(" ")] + self.Rel82.spec_display(inst_start)
    }

    /// Matches the instruction's pattern and reads its operands.
    pub fn parse(tokens: &[u8], context: &mut SpacesStruct, inst_start: u32) -> (r: Option<(u32, Self)>)
        ensures
            *final(context) == *old(context),
            r == (match Self::spec_parse(tokens@, old(context)@) {
                Some((n, v, _)) => Some((n as u32, v)),
                None => None,
            }),
            r matches Some((_, v)) ==> v.wf(),
    {
        let mut pattern_len: u32 = 0;
        let mut block_0_len: u32 = 2;
        let token_parser = TokenParser::<2>::new(tokens)?;
        if context.register().read_phase_disassembly() != 1i64 {
            return None;
        }
        if token_parser.TokenFieldop1215().disassembly() != 14i64 {
            return None;
        }
        if token_parser.TokenFieldop0303().disassembly() != 1i64 {
            return None;
        }
        let COND = if let Some((len, table)) = TableCOND::parse(tokens) {
            if len > block_0_len {
                block_0_len = len;
            }
            table
        } else {
            return None;
        };
        let Rel82 = if let Some((len, table)) = TableRel82::parse(tokens) {
            if len > block_0_len {
                block_0_len = len;
            }
            table
        } else {
            return None;
        };
        pattern_len = pattern_len + block_0_len;
        Some((pattern_len, Self { COND, Rel82 }))
    }

    /// Appends the instruction's text to `display`.
    pub fn display_extend(
        &self,
        display: &mut Vec<DisplayElement>,
        context: &SpacesStruct,
        inst_start: u32,
        inst_next: u32,
        global_set: &mut Vec<GlobalSetRequest>,
    )
        requires
            self.wf(),
        ensures
            final(display)@ == old(display)@ + self.spec_display(context@, inst_start, inst_next),
            final(global_set)@ == old(global_set)@,
    {
        push_all(display, &[DisplayElement::Literal("brds")]);
        self.COND.display_extend(display, context, inst_start, inst_next, global_set);
        push_all(display, &[DisplayElement::Literal(" ")]);
        self.Rel82.display_extend(display, context, inst_start, inst_next, global_set);
        assert(display@ =~= old(display)@ + self.spec_display(context@, inst_start, inst_next));
    }
}

/// The instruction `callds` to a relative address.
#[derive(Clone, Copy, Debug)]
pub struct instructionVar54 {
    pub Rel8: TableRel8,
}

impl instructionVar54 {
    /// The instruction read from the token bytes `t` under the context
    /// registers `regs`: its length, value and the context after it.
    pub open spec fn spec_parse(t: Seq<u8>, regs: Seq<u8>) -> Option<(nat, Self, Seq<u8>)> {
        if phase_of(regs) == 1 && t.len() >= 2 && op1215_of(t) == 15 && op0811_of(t) == 5 {
            Some((2, instructionVar54 { Rel8: TableRel8::spec_parse(t).unwrap() }, regs))
        } else {
            None
        }
    }

    pub open spec fn wf(&self) -> bool {
        self.Rel8.wf()
    }

    pub open spec fn spec_display(&self, regs: Seq<u8>, inst_start: u32, inst_next: u32) -> Seq<DisplayElement> {
        seq![lit("callds"), lit(" ")] + self.Rel8.spec_display(inst_start)
    }

    /// Matches the instruction's pattern and reads its operands.
    pub fn parse(tokens: &[u8], context: &mut SpacesStruct, inst_start: u32) -> (r: Option<(u32, Self)>)
        ensures
            *final(context) == *old(context),
            r == (match Self::spec_parse(tokens@, old(context)@) {
                Some((n, v, _)) => Some((n as u32, v)),
                None => None,
            }),
            r matches Some((_, v)) ==> v.wf(),
    {
        let mut pattern_len: u32 = 0;
        let mut block_0_len: u32 = 2;
        let token_parser = TokenParser::<2>::new(tokens)?;
        if context.register().read_phase_disassembly() != 1i64 {
            return None;
        }
        if token_parser.TokenFieldop1215().disassembly() != 15i64 {
            return None;
        }
        if token_parser.TokenFieldop0811().disassembly() != 5i64 {
            return None;
        }
        let Rel8 = if let Some((len, table)) = TableRel8::parse(tokens) {
            if len > block_0_len {
                block_0_len = len;
            }
            table
        } else {
            return None;
        };
        pattern_len = pattern_len + block_0_len;
        Some((pattern_len, Self { Rel8 }))
    }

    /// Appends the instruction's text to `display`.
    pub fn display_extend(
        &self,
        display: &mut Vec<DisplayElement>,
        context: &SpacesStruct,
        inst_start: u32,
        inst_next: u32,
        global_set: &mut Vec<GlobalSetRequest>,
    )
        requires
            self.wf(),
        ensures
            final(display)@ == old(display)@ + self.spec_display(context@, inst_start, inst_next),
            final(global_set)@ == old(global_set)@,
    {
        push_all(display, &[DisplayElement::Literal("callds"), DisplayElement::Literal(" ")]);
        self.Rel8.display_extend(display, context, inst_start, inst_next, global_set);
        assert(display@ =~= old(display)@ + self.spec_display(context@, inst_start, inst_next));
    }
}

/// The instruction `user_four rs rt`.
#[derive(Clone, Copy, Debug)]
pub struct instructionVar55 {
    pub rs: TokenField_rs,
    pub rt: TokenField_rt,
}

impl instructionVar55 {
    /// The instruction read from the token bytes `t` under the context
    /// registers `regs`: its length, value and the context after it.
    pub open spec fn spec_parse(t: Seq<u8>, regs: Seq<u8>) -> Option<(nat, Self, Seq<u8>)> {
        if phase_of(regs) == 1 && t.len() >= 2 && op1215_of(t) == 10 && op0811_of(t) == 4 {
            Some((2, instructionVar55 { rs: TokenField_rs(rs_of(t)), rt: TokenField_rt(rt_of(t)) }, regs))
        } else {
            None
        }
    }

    pub open spec fn wf(&self) -> bool {
        self.rs.0 < 16 && self.rt.0 < 16
    }

    pub open spec fn spec_display(&self, regs: Seq<u8>, inst_start: u32, inst_next: u32) -> Seq<DisplayElement> {
        seq![lit("user_four"), lit(" "), reg(self.rs.0), lit(" "), reg(self.rt.0)]
    }

    /// Matches the instruction's pattern and reads its operands.
    pub fn parse(tokens: &[u8], context: &mut SpacesStruct, inst_start: u32) -> (r: Option<(u32, Self)>)
        ensures
            *final(context) == *old(context),
            r == (match Self::spec_parse(tokens@, old(context)@) {
                Some((n, v, _)) => Some((n as u32, v)),
                None => None,
            }),
            r matches Some((_, v)) ==> v.wf(),
    {
        let mut pattern_len: u32 = 0;
        let mut block_0_len: u32 = 2;
        let token_parser = TokenParser::<2>::new(tokens)?;
        if context.register().read_phase_disassembly() != 1i64 {
            return None;
        }
        if token_parser.TokenFieldop1215().disassembly() != 10i64 {
            return None;
        }
        if token_parser.TokenFieldop0811().disassembly() != 4i64 {
            return None;
        }
        let rs = token_parser.TokenFieldrs();
        let rt = token_parser.TokenFieldrt();
        pattern_len = pattern_len + block_0_len;
        Some((pattern_len, Self { rs, rt }))
    }

    /// Appends the instruction's text to `display`.
    pub fn display_extend(
        &self,
        display: &mut Vec<DisplayElement>,
        context: &SpacesStruct,
        inst_start: u32,
        inst_next: u32,
        global_set: &mut Vec<GlobalSetRequest>,
    )
        requires
            self.wf(),
        ensures
            final(display)@ == old(display)@ + self.spec_display(context@, inst_start, inst_next),
            final(global_set)@ == old(global_set)@,
    {
        push_all(display, &[DisplayElement::Literal("user_four"), DisplayElement::Literal(" "), self.rs.display(), DisplayElement::Literal(" "), self.rt.display()]);
        assert(display@ =~= old(display)@ + self.spec_display(context@, inst_start, inst_next));
    }
}

/// The instruction `user_five` to a relative address.
#[derive(Clone, Copy, Debug)]
pub struct instructionVar56 {
    pub Rel8: TableRel8,
}

impl instructionVar56 {
    /// The instruction read from the token bytes `t` under the context
    /// registers `regs`: its length, value and the context after it.
    pub open spec fn spec_parse(t: Seq<u8>, regs: Seq<u8>) -> Option<(nat, Self, Seq<u8>)> {
        if phase_of(regs) == 1 && t.len() >= 2 && op1215_of(t) == 10 && op0811_of(t) == 5 {
            Some((2, instructionVar56 { Rel8: TableRel8::spec_parse(t).unwrap() }, regs))
        } else {
            None
        }
    }

    pub open spec fn wf(&self) -> bool {
        self.Rel8.wf()
    }

    pub open spec fn spec_display(&self, regs: Seq<u8>, inst_start: u32, inst_next: u32) -> Seq<DisplayElement> {
        seq![lit("user_five"), lit(" ")] + self.Rel8.spec_display(inst_start)
    }

    /// Matches the instruction's pattern and reads its operands.
    pub fn parse(tokens: &[u8], context: &mut SpacesStruct, inst_start: u32) -> (r: Option<(u32, Self)>)
        ensures
            *final(context) == *old(context),
            r == (match Self::spec_parse(tokens@, old(context)@) {
                Some((n, v, _)) => Some((n as u32, v)),
                None => None,
            }),
            r matches Some((_, v)) ==> v.wf(),
    {
        let mut pattern_len: u32 = 0;
        let mut block_0_len: u32 = 2;
        let token_parser = TokenParser::<2>::new(tokens)?;
        if context.register().read_phase_disassembly() != 1i64 {
            return None;
        }
        if token_parser.TokenFieldop1215().disassembly() != 10i64 {
            return None;
        }
        if token_parser.TokenFieldop0811().disassembly() != 5i64 {
            return None;
        }
        let Rel8 = if let Some((len, table)) = TableRel8::parse(tokens) {
            if len > block_0_len {
                block_0_len = len;
            }
            table
        } else {
            return None;
        };
        pattern_len = pattern_len + block_0_len;
        Some((pattern_len, Self { Rel8 }))
    }

    /// Appends the instruction's text to `display`.
    pub fn display_extend(
        &self,
        display: &mut Vec<DisplayElement>,
        context: &SpacesStruct,
        inst_start: u32,
        inst_next: u32,
        global_set: &mut Vec<GlobalSetRequest>,
    )
        requires
            self.wf(),
        ensures
            final(display)@ == old(display)@ + self.spec_display(context@, inst_start, inst_next),
            final(global_set)@ == old(global_set)@,
    {
        push_all(display, &[DisplayElement::Literal("user_five"), DisplayElement::Literal(" ")]);
        self.Rel8.display_extend(display, context, inst_start, inst_next, global_set);
        assert(display@ =~= old(display)@ + self.spec_display(context@, inst_start, inst_next));
    }
}

/// The instruction `call` to a relative address.
#[derive(Clone, Copy, Debug)]
pub struct instructionVar57 {
    pub Rel11: TableRel11,
}

impl instructionVar57 {
    /// The instruction read from the token bytes `t` under the context
    /// registers `regs`: its length, value and the context after it.
    pub open spec fn spec_parse(t: Seq<u8>, regs: Seq<u8>) -> Option<(nat, Self, Seq<u8>)> {
        if phase_of(regs) == 1 && t.len() >= 2 && op1215_of(t) == 15 && op1111_of(t) == 1 {
            Some((2, instructionVar57 { Rel11: TableRel11::spec_parse(t).unwrap() }, regs))
        } else {
            None
        }
    }

    pub open spec fn wf(&self) -> bool {
        self.Rel11.wf()
    }

    pub open spec fn spec_display(&self, regs: Seq<u8>, inst_start: u32, inst_next: u32) -> Seq<DisplayElement> {
        seq![lit("call"), lit(" ")] + self.Rel11.spec_display(inst_start)
    }

    /// Matches the instruction's pattern and reads its operands.
    pub fn parse(tokens: &[u8], context: &mut SpacesStruct, inst_start: u32) -> (r: Option<(u32, Self)>)
        ensures
            *final(context) == *old(context),
            r == (match Self::spec_parse(tokens@, old(context)@) {
                Some((n, v, _)) => Some((n as u32, v)),
                None => None,
            }),
            r matches Some((_, v)) ==> v.wf(),
    {
        let mut pattern_len: u32 = 0;
        let mut block_0_len: u32 = 2;
        let token_parser = TokenParser::<2>::new(tokens)?;
        if context.register().read_phase_disassembly() != 1i64 {
            return None;
        }
        if token_parser.TokenFieldop1215().disassembly() != 15i64 {
            return None;
        }
        if token_parser.TokenFieldop1111().disassembly() != 1i64 {
            return None;
        }
        let Rel11 = if let Some((len, table)) = TableRel11::parse(tokens) {
            if len > block_0_len {
                block_0_len = len;
            }
            table
        } else {
            return None;
        };
        pattern_len = pattern_len + block_0_len;
        Some((pattern_len, Self { Rel11 }))
    }

    /// Appends the instruction's text to `display`.
    pub fn display_extend(
        &self,
        display: &mut Vec<DisplayElement>,
        context: &SpacesStruct,
        inst_start: u32,
        inst_next: u32,
        global_set: &mut Vec<GlobalSetRequest>,
    )
        requires
            self.wf(),
        ensures
            final(display)@ == old(display)@ + self.spec_display(context@, inst_start, inst_next),
            final(global_set)@ == old(global_set)@,
    {
        push_all(display, &[DisplayElement::Literal("call"), DisplayElement::Literal(" ")]);
        self.Rel11.display_extend(display, context, inst_start, inst_next, global_set);
        assert(display@ =~= old(display)@ + self.spec_display(context@, inst_start, inst_next));
    }
}

/// The instruction `simm rd, #imm` (signed 10-bit immediate).
#[derive(Clone, Copy, Debug)]
pub struct instructionVar58 {
    pub Simm10: TableSimm10,
    pub rd: TokenField_rd,
}

impl instructionVar58 {
    /// The instruction read from the token bytes `t` under the context
    /// registers `regs`: its length, value and the context after it.
    pub open spec fn spec_parse(t: Seq<u8>, regs: Seq<u8>) -> Option<(nat, Self, Seq<u8>)> {
        if phase_of(regs) == 1 && t.len() >= 2 && op1415_of(t) == 2 {
            Some((2, instructionVar58 { Simm10: TableSimm10::spec_parse(t).unwrap(), rd: TokenField_rd(rd_of(t)) }, regs))
        } else {
            None
        }
    }

    pub open spec fn wf(&self) -> bool {
        self.Simm10.wf() && self.rd.0 < 16
    }

    pub open spec fn spec_display(&self, regs: Seq<u8>, inst_start: u32, inst_next: u32) -> Seq<DisplayElement> {
        seq![lit("simm"), lit(" "), reg(self.rd.0), lit(", ")] + self.Simm10.spec_display(inst_start)
    }

    /// Matches the instruction's pattern and reads its operands.
    pub fn parse(tokens: &[u8], context: &mut SpacesStruct, inst_start: u32) -> (r: Option<(u32, Self)>)
        ensures
            *final(context) == *old(context),
            r == (match Self::spec_parse(tokens@, old(context)@) {
                Some((n, v, _)) => Some((n as u32, v)),
                None => None,
            }),
            r matches Some((_, v)) ==> v.wf(),
    {
        let mut pattern_len: u32 = 0;
        let mut block_0_len: u32 = 2;
        let token_parser = TokenParser::<2>::new(tokens)?;
        if context.register().read_phase_disassembly() != 1i64 {
            return None;
        }
        if token_parser.TokenFieldop1415().disassembly() != 2i64 {
            return None;
        }
        let Simm10 = if let Some((len, table)) = TableSimm10::parse(tokens) {
            if len > block_0_len {
                block_0_len = len;
            }
            table
        } else {
            return None;
        };
        let rd = token_parser.TokenFieldrd();
        pattern_len = pattern_len + block_0_len;
        Some((pattern_len, Self { Simm10, rd }))
    }

    /// Appends the instruction's text to `display`.
    pub fn display_extend(
        &self,
        display: &mut Vec<DisplayElement>,
        context: &SpacesStruct,
        inst_start: u32,
        inst_next: u32,
        global_set: &mut Vec<GlobalSetRequest>,
    )
        requires
            self.wf(),
        ensures
            final(display)@ == old(display)@ + self.spec_display(context@, inst_start, inst_next),
            final(global_set)@ == old(global_set)@,
    {
        push_all(display, &[DisplayElement::Literal("simm"), DisplayElement::Literal(" "), self.rd.display(), DisplayElement::Literal(", ")]);
        self.Simm10.display_extend(display, context, inst_start, inst_next, global_set);
        assert(display@ =~= old(display)@ + self.spec_display(context@, inst_start, inst_next));
    }
}

/// The instruction `imm rd, #imm` (10-bit immediate).
#[derive(Clone, Copy, Debug)]
pub struct instructionVar59 {
    pub Imm10: TableImm10,
    pub rd: TokenField_rd,
}

impl instructionVar59 {
    /// The instruction read from the token bytes `t` under the context
    /// registers `regs`: its length, value and the context after it.
    pub open spec fn spec_parse(t: Seq<u8>, regs: Seq<u8>) -> Option<(nat, Self, Seq<u8>)> {
        if phase_of(regs) == 1 && t.len() >= 2 && op1515_of(t) == 0 {
            Some((2, instructionVar59 { Imm10: TableImm10::spec_parse(t).unwrap(), rd: TokenField_rd(rd_of(t)) }, regs))
        } else {
            None
        }
    }

    pub open spec fn wf(&self) -> bool {
        self.Imm10.wf() && self.rd.0 < 16
    }

    pub open spec fn spec_display(&self, regs: Seq<u8>, inst_start: u32, inst_next: u32) -> Seq<DisplayElement> {
        seq![lit("imm"), lit("  "), reg(self.rd.0), lit(", ")] + self.Imm10.spec_display(inst_start)
    }

    /// Matches the instruction's pattern and reads its operands.
    pub fn parse(tokens: &[u8], context: &mut SpacesStruct, inst_start: u32) -> (r: Option<(u32, Self)>)
        ensures
            *final(context) == *old(context),
            r == (match Self::spec_parse(tokens@, old(context)@) {
                Some((n, v, _)) => Some((n as u32, v)),
                None => None,
            }),
            r matches Some((_, v)) ==> v.wf(),
    {
        let mut pattern_len: u32 = 0;
        let mut block_0_len: u32 = 2;
        let token_parser = TokenParser::<2>::new(tokens)?;
        if context.register().read_phase_disassembly() != 1i64 {
            return None;
        }
        if token_parser.TokenFieldop1515().disassembly() != 0i64 {
            return None;
        }
        let Imm10 = if let Some((len, table)) = TableImm10::parse(tokens) {
            if len > block_0_len {
                block_0_len = len;
            }
            table
        } else {
            return None;
        };
        let rd = token_parser.TokenFieldrd();
        pattern_len = pattern_len + block_0_len;
        Some((pattern_len, Self { Imm10, rd }))
    }

    /// Appends the instruction's text to `display`.
    pub fn display_extend(
        &self,
        display: &mut Vec<DisplayElement>,
        context: &SpacesStruct,
        inst_start: u32,
        inst_next: u32,
        global_set: &mut Vec<GlobalSetRequest>,
    )
        requires
            self.wf(),
        ensures
            final(display)@ == old(display)@ + self.spec_display(context@, inst_start, inst_next),
            final(global_set)@ == old(global_set)@,
    {
        push_all(display, &[DisplayElement::Literal("imm"), DisplayElement::Literal("  "), self.rd.display(), DisplayElement::Literal(", ")]);
        self.Imm10.display_extend(display, context, inst_start, inst_next, global_set);
        assert(display@ =~= old(display)@ + self.spec_display(context@, inst_start, inst_next));
    }
}
/// The instruction `fctx #imm`: sets `fctx` to the immediate, and passes
/// that value on to the next instruction.
#[derive(Clone, Copy, Debug)]
pub struct instructionVar19 {
    pub imm0003: TokenField_imm0003,
    pub Imm4: TableImm4,
}

impl instructionVar19 {
    pub open spec fn spec_parse(t: Seq<u8>, regs: Seq<u8>) -> Option<(nat, Self, Seq<u8>)> {
        if phase_of(regs) == 1 && t.len() >= 2 && op1215_of(t) == 13 && op0811_of(t) == 9 && rs_of(t)
            == 0 {
            Some((
                2,
                instructionVar19 {
                    imm0003: TokenField_imm0003(imm0003_of(t)),
                    Imm4: TableImm4::spec_parse(t).unwrap(),
                },
                with_fctx(regs, imm0003_of(t)),
            ))
        } else {
            None
        }
    }

    pub open spec fn wf(&self) -> bool {
        self.Imm4.wf()
    }

    pub open spec fn spec_display(&self, regs: Seq<u8>, inst_start: u32, inst_next: u32) -> Seq<DisplayElement> {
        seq![lit("fctx"), lit(" ")] + self.Imm4.spec_display(inst_start)
    }

    pub open spec fn spec_sets(&self, regs: Seq<u8>, inst_start: u32, inst_next: u32) -> Seq<GlobalSetRequest> {
        seq![GlobalSetRequest::Fctx(Some(inst_next), fctx_of(regs) as i64)]
    }

    /// Matches the pattern, sets `fctx` and reads the immediate.
    pub fn parse(tokens: &[u8], context: &mut SpacesStruct, inst_start: u32) -> (r: Option<(u32, Self)>)
        ensures
            match Self::spec_parse(tokens@, old(context)@) {
                Some((n, v, regs)) => r == Some((n as u32, v)) && final(context)@ == regs,
                None => r is None && *final(context) == *old(context),
            },
            r matches Some((_, v)) ==> v.wf(),
    {
        let mut pattern_len: u32 = 0;
        let mut context_instance = *context;
        let mut block_0_len: u32 = 2;
        let token_parser = TokenParser::<2>::new(tokens)?;
        if context_instance.register().read_phase_disassembly() != 1i64 {
            return None;
        }
        if token_parser.TokenFieldop1215().disassembly() != 13i64 {
            return None;
        }
        if token_parser.TokenFieldop0811().disassembly() != 9i64 {
            return None;
        }
        if token_parser.TokenFieldrs().disassembly() != 0i64 {
            return None;
        }
        let tmp = token_parser.TokenFieldimm0003().disassembly();
        context_instance.register_mut().write_fctx_disassembly(tmp);
        let Imm4 = if let Some((len, table)) = TableImm4::parse(tokens) {
            if len > block_0_len {
                block_0_len = len;
            }
            table
        } else {
            return None;
        };
        let imm0003 = token_parser.TokenFieldimm0003();
        pattern_len = pattern_len + block_0_len;
        *context = context_instance;
        Some((pattern_len, Self { Imm4, imm0003 }))
    }

    /// Passes `fctx` on to the next instruction and appends the text.
    pub fn display_extend(
        &self,
        display: &mut Vec<DisplayElement>,
        context: &SpacesStruct,
        inst_start: u32,
        inst_next: u32,
        global_set: &mut Vec<GlobalSetRequest>,
    )
        requires
            self.wf(),
        ensures
            final(display)@ == old(display)@ + self.spec_display(context@, inst_start, inst_next),
            final(global_set)@ == old(global_set)@ + self.spec_sets(context@, inst_start, inst_next),
    {
        global_set.push(GlobalSetRequest::Fctx(Some(inst_next), context.register().read_fctx_disassembly()));
        push_all(display, &[DisplayElement::Literal("fctx"), DisplayElement::Literal(" ")]);
        self.Imm4.display_extend(display, context, inst_start, inst_next, global_set);
        assert(display@ =~= old(display)@ + self.spec_display(context@, inst_start, inst_next));
        assert(global_set@ =~= old(global_set)@ + self.spec_sets(context@, inst_start, inst_next));
    }
}

/// The instruction `nfctx addr, #imm` (two tokens): sets `nfctx` to the
/// immediate and passes that value on to the address named by the second
/// token.
#[derive(Clone, Copy, Debug)]
pub struct instructionVar20 {
    pub Imm4: TableImm4,
    pub nfctxSetAddr: TablenfctxSetAddr,
}

impl instructionVar20 {
    pub open spec fn spec_parse(t: Seq<u8>, regs: Seq<u8>) -> Option<(nat, Self, Seq<u8>)> {
        if phase_of(regs) == 1 && t.len() >= 4 && op1215_of(t) == 13 && op0811_of(t) == 9 && rs_of(t)
            == 2 {
            Some((
                4,
                instructionVar20 {
                    Imm4: TableImm4::spec_parse(t).unwrap(),
                    nfctxSetAddr: TablenfctxSetAddr::spec_parse(t, regs).unwrap().0,
                },
                with_nfctx(regs, imm0003_of(t)),
            ))
        } else {
            None
        }
    }

    pub open spec fn wf(&self) -> bool {
        self.Imm4.wf()
    }

    pub open spec fn display_ok(&self, inst_start: u32) -> bool {
        self.nfctxSetAddr.display_ok(inst_start)
    }

    pub open spec fn spec_display(&self, regs: Seq<u8>, inst_start: u32, inst_next: u32) -> Seq<DisplayElement> {
        seq![lit("nfctx"), lit(" ")] + self.nfctxSetAddr.spec_display(inst_start) + seq![lit(",")]
            + self.Imm4.spec_display(inst_start)
    }

    pub open spec fn spec_sets(&self, regs: Seq<u8>, inst_start: u32, inst_next: u32) -> Seq<GlobalSetRequest> {
        self.nfctxSetAddr.spec_sets(regs, inst_start)
    }

    /// The first token's pattern and immediate.
    fn sub_pattern_c30(tokens: &[u8], context_param: &mut SpacesStruct, inst_start: u32) -> (r: Option<(TableImm4, u32)>)
        ensures
            *final(context_param) == *old(context_param),
            r == (if phase_of(old(context_param)@) == 1 && tokens@.len() >= 2 && op1215_of(tokens@) == 13
                && op0811_of(tokens@) == 9 && rs_of(tokens@) == 2 {
                Some((TableImm4::spec_parse(tokens@).unwrap(), 2u32))
            } else {
                None
            }),
            r matches Some((v, _)) ==> v.wf(),
    {
        let mut pattern_len: u32 = 0;
        let mut block_0_len: u32 = 2;
        let token_parser = TokenParser::<2>::new(tokens)?;
        if context_param.register().read_phase_disassembly() != 1i64 {
            return None;
        }
        if token_parser.TokenFieldop1215().disassembly() != 13i64 {
            return None;
        }
        if token_parser.TokenFieldop0811().disassembly() != 9i64 {
            return None;
        }
        if token_parser.TokenFieldrs().disassembly() != 2i64 {
            return None;
        }
        let Imm4 = if let Some((len, table)) = TableImm4::parse(tokens) {
            if len > block_0_len {
                block_0_len = len;
            }
            table
        } else {
            return None;
        };
        pattern_len = pattern_len + block_0_len;
        Some((Imm4, pattern_len))
    }

    /// Matches the pattern and reads both tokens, setting `nfctx`.
    pub fn parse(tokens: &[u8], context: &mut SpacesStruct, inst_start: u32) -> (r: Option<(u32, Self)>)
        ensures
            match Self::spec_parse(tokens@, old(context)@) {
                Some((n, v, regs)) => r == Some((n as u32, v)) && final(context)@ == regs,
                None => r is None && *final(context) == *old(context),
            },
            r matches Some((_, v)) ==> v.wf(),
    {
        let mut pattern_len: u32 = 0;
        let mut context_instance = *context;
        let mut block_0_len: u32 = 0;
        let (Imm4, sub_len) = Self::sub_pattern_c30(tokens, &mut context_instance, inst_start)?;
        if sub_len > block_0_len {
            block_0_len = sub_len;
        }
        let nfctxSetAddr = if let Some((len, table)) = TablenfctxSetAddr::parse(
            tokens,
            &mut context_instance,
        ) {
            if len > block_0_len {
                block_0_len = len;
            }
            table
        } else {
            return None;
        };
        pattern_len = pattern_len + block_0_len;
        *context = context_instance;
        Some((pattern_len, Self { Imm4, nfctxSetAddr }))
    }

    /// Appends the instruction's text, passing `nfctx` on to the named
    /// address.
    pub fn display_extend(
        &self,
        display: &mut Vec<DisplayElement>,
        context: &SpacesStruct,
        inst_start: u32,
        inst_next: u32,
        global_set: &mut Vec<GlobalSetRequest>,
    )
        requires
            self.wf(),
            self.display_ok(inst_start),
        ensures
            final(display)@ == old(display)@ + self.spec_display(context@, inst_start, inst_next),
            final(global_set)@ == old(global_set)@ + self.spec_sets(context@, inst_start, inst_next),
    {
        push_all(display, &[DisplayElement::Literal("nfctx"), DisplayElement::Literal(" ")]);
        self.nfctxSetAddr.display_extend(display, context, inst_start, inst_next, global_set);
        push_all(display, &[DisplayElement::Literal(",")]);
        self.Imm4.display_extend(display, context, inst_start, inst_next, global_set);
        assert(display@ =~= old(display)@ + self.spec_display(context@, inst_start, inst_next));
    }
}

/// The instruction `nfctx #imm`: sets `nfctx` to the immediate, and passes
/// that value on to the next instruction.
#[derive(Clone, Copy, Debug)]
pub struct instructionVar21 {
    pub imm0003: TokenField_imm0003,
    pub Imm4: TableImm4,
}

impl instructionVar21 {
    pub open spec fn spec_parse(t: Seq<u8>, regs: Seq<u8>) -> Option<(nat, Self, Seq<u8>)> {
        if phase_of(regs) == 1 && t.len() >= 2 && op1215_of(t) == 13 && op0811_of(t) == 9 && rs_of(t)
            == 1 {
            Some((
                2,
                instructionVar21 {
                    imm0003: TokenField_imm0003(imm0003_of(t)),
                    Imm4: TableImm4::spec_parse(t).unwrap(),
                },
                with_nfctx(regs, imm0003_of(t)),
            ))
        } else {
            None
        }
    }

    pub open spec fn wf(&self) -> bool {
        self.Imm4.wf()
    }

    pub open spec fn spec_display(&self, regs: Seq<u8>, inst_start: u32, inst_next: u32) -> Seq<DisplayElement> {
        seq![lit("nfctx"), lit(" ")] + self.Imm4.spec_display(inst_start)
    }

    pub open spec fn spec_sets(&self, regs: Seq<u8>, inst_start: u32, inst_next: u32) -> Seq<GlobalSetRequest> {
        seq![GlobalSetRequest::Nfctx(Some(inst_next), nfctx_of(regs) as i64)]
    }

    /// Matches the pattern, sets `nfctx` and reads the immediate.
    pub fn parse(tokens: &[u8], context: &mut SpacesStruct, inst_start: u32) -> (r: Option<(u32, Self)>)
        ensures
            match Self::spec_parse(tokens@, old(context)@) {
                Some((n, v, regs)) => r == Some((n as u32, v)) && final(context)@ == regs,
                None => r is None && *final(context) == *old(context),
            },
            r matches Some((_, v)) ==> v.wf(),
    {
        let mut pattern_len: u32 = 0;
        let mut context_instance = *context;
        let mut block_0_len: u32 = 2;
        let token_parser = TokenParser::<2>::new(tokens)?;
        if context_instance.register().read_phase_disassembly() != 1i64 {
            return None;
        }
        if token_parser.TokenFieldop1215().disassembly() != 13i64 {
            return None;
        }
        if token_parser.TokenFieldop0811().disassembly() != 9i64 {
            return None;
        }
        if token_parser.TokenFieldrs().disassembly() != 1i64 {
            return None;
        }
        let tmp = token_parser.TokenFieldimm0003().disassembly();
        context_instance.register_mut().write_nfctx_disassembly(tmp);
        let Imm4 = if let Some((len, table)) = TableImm4::parse(tokens) {
            if len > block_0_len {
                block_0_len = len;
            }
            table
        } else {
            return None;
        };
        let imm0003 = token_parser.TokenFieldimm0003();
        pattern_len = pattern_len + block_0_len;
        *context = context_instance;
        Some((pattern_len, Self { Imm4, imm0003 }))
    }

    /// Passes `nfctx` on to the next instruction and appends the text.
    pub fn display_extend(
        &self,
        display: &mut Vec<DisplayElement>,
        context: &SpacesStruct,
        inst_start: u32,
        inst_next: u32,
        global_set: &mut Vec<GlobalSetRequest>,
    )
        requires
            self.wf(),
        ensures
            final(display)@ == old(display)@ + self.spec_display(context@, inst_start, inst_next),
            final(global_set)@ == old(global_set)@ + self.spec_sets(context@, inst_start, inst_next),
    {
        global_set.push(GlobalSetRequest::Nfctx(Some(inst_next), context.register().read_nfctx_disassembly()));
        push_all(display, &[DisplayElement::Literal("nfctx"), DisplayElement::Literal(" ")]);
        self.Imm4.display_extend(display, context, inst_start, inst_next, global_set);
        assert(display@ =~= old(display)@ + self.spec_display(context@, inst_start, inst_next));
        assert(global_set@ =~= old(global_set)@ + self.spec_sets(context@, inst_start, inst_next));
    }
}

/// The instruction `nop #n` over several bytes: the first token's immediate
/// says how many bytes follow it (the count shown is that number plus two,
/// the length of the token).
#[derive(Debug)]
pub struct instructionVar22 {
    pub imm0003: TokenField_imm0003,
    pub NopCnt: TableNopCnt,
    pub NopByte: TableNopByte,
}

impl instructionVar22 {
    pub open spec fn spec_parse(t: Seq<u8>, regs: Seq<u8>) -> Option<(nat, Self, Seq<u8>)> {
        if phase_of(regs) == 1 && t.len() >= 2 && op1215_of(t) == 13 && op0811_of(t) == 9 && rs_of(t)
            == 3 && t.len() >= 2 + imm0003_of(t) {
            Some((
                (2 + imm0003_of(t)) as nat,
                instructionVar22 {
                    imm0003: TokenField_imm0003(imm0003_of(t)),
                    NopCnt: TableNopCnt::spec_parse(t).unwrap(),
                    NopByte: nop_bytes(imm0003_of(t) as nat),
                },
                with_counter(regs, 0),
            ))
        } else {
            None
        }
    }

    pub open spec fn spec_display(&self, regs: Seq<u8>, inst_start: u32, inst_next: u32) -> Seq<DisplayElement> {
        seq![lit("nop"), lit(" ")] + self.NopCnt.spec_display()
    }

    /// Matches the pattern, then skips as many bytes as the immediate says,
    /// counting them down in the context `counter`.
    pub fn parse(tokens: &[u8], context: &mut SpacesStruct, inst_start: u32) -> (r: Option<(u32, Self)>)
        requires
            old(context)@.len() == 8,
        ensures
            match Self::spec_parse(tokens@, old(context)@) {
                Some((n, v, regs)) => r == Some((n as u32, v)) && final(context)@ == regs,
                None => r is None && *final(context) == *old(context),
            },
    {
        let ghost regs = context@;
        let mut pattern_len: u32 = 0;
        let mut context_instance = *context;
        let mut block_0_len: u32 = 2;
        let token_parser = TokenParser::<2>::new(tokens)?;
        if context_instance.register().read_phase_disassembly() != 1i64 {
            return None;
        }
        if token_parser.TokenFieldop1215().disassembly() != 13i64 {
            return None;
        }
        if token_parser.TokenFieldop0811().disassembly() != 9i64 {
            return None;
        }
        if token_parser.TokenFieldrs().disassembly() != 3i64 {
            return None;
        }
        let tmp = token_parser.TokenFieldimm0003().disassembly();
        context_instance.register_mut().write_counter_disassembly(tmp);
        let ghost n = imm0003_of(tokens@);
        proof {
            let b = tokens@[0];
            assert(bits_u8(b, 0, 4) < 16) by (bit_vector);
            lemma_counter_write(regs[1], n, 0);
            assert(counter_of(context_instance@) == n);
        }
        let NopCnt = if let Some((len, table)) = TableNopCnt::parse(tokens) {
            if len > block_0_len {
                block_0_len = len;
            }
            table
        } else {
            return None;
        };
        let imm0003 = token_parser.TokenFieldimm0003();
        pattern_len = pattern_len + block_0_len;
        let tokens_current = slice_subrange(tokens, 2, tokens.len());
        let mut block_1_len: u32 = 0;
        let NopByte = if let Some((len, table)) = TableNopByte::parse(
            tokens_current,
            &mut context_instance,
        ) {
            if len > block_1_len {
                block_1_len = len;
            }
            table
        } else {
            return None;
        };
        pattern_len = pattern_len + block_1_len;
        proof {
            lemma_counter_write(regs[1], n, 0);
            assert(with_counter(with_counter(regs, n), 0) =~= with_counter(regs, 0));
        }
        *context = context_instance;
        Some((pattern_len, Self { NopCnt, NopByte, imm0003 }))
    }

    /// Appends the instruction's text (the skipped bytes show nothing).
    pub fn display_extend(
        &self,
        display: &mut Vec<DisplayElement>,
        context: &SpacesStruct,
        inst_start: u32,
        inst_next: u32,
        global_set: &mut Vec<GlobalSetRequest>,
    )
        ensures
            final(display)@ == old(display)@ + self.spec_display(context@, inst_start, inst_next),
            final(global_set)@ == old(global_set)@,
    {
        push_all(display, &[DisplayElement::Literal("nop"), DisplayElement::Literal(" ")]);
        self.NopCnt.display_extend(display, context, inst_start, inst_next, global_set);
        assert(display@ =~= old(display)@ + self.spec_display(context@, inst_start, inst_next));
    }
}

/// The one-byte instruction `nop #1` (byte 0xf7).
#[derive(Clone, Copy, Debug)]
pub struct instructionVar60 {
    pub One: TableOne,
}

impl instructionVar60 {
    pub open spec fn spec_parse(t: Seq<u8>, regs: Seq<u8>) -> Option<(nat, Self, Seq<u8>)> {
        if phase_of(regs) == 1 && t.len() >= 1 && op8_of(t) == 247 {
            Some((1, instructionVar60 { One: TableOne::Var0(OneVar0 {}) }, regs))
        } else {
            None
        }
    }

    pub open spec fn spec_display(&self, regs: Seq<u8>, inst_start: u32, inst_next: u32) -> Seq<DisplayElement> {
        seq![lit("nop"), lit(" ")] + self.One.spec_display()
    }

    /// Matches the one-byte pattern.
    pub fn parse(tokens: &[u8], context: &mut SpacesStruct, inst_start: u32) -> (r: Option<(u32, Self)>)
        ensures
            *final(context) == *old(context),
            r == (match Self::spec_parse(tokens@, old(context)@) {
                Some((n, v, _)) => Some((n as u32, v)),
                None => None,
            }),
    {
        let mut pattern_len: u32 = 0;
        let mut block_0_len: u32 = 1;
        let token_parser = TokenParser::<1>::new(tokens)?;
        if context.register().read_phase_disassembly() != 1i64 {
            return None;
        }
        if token_parser.TokenFieldop8().disassembly() != 247i64 {
            return None;
        }
        let One = if let Some((len, table)) = TableOne::parse(tokens) {
            if len > block_0_len {
                block_0_len = len;
            }
            table
        } else {
            return None;
        };
        pattern_len = pattern_len + block_0_len;
        Some((pattern_len, Self { One }))
    }

    /// Appends the instruction's text.
    pub fn display_extend(
        &self,
        display: &mut Vec<DisplayElement>,
        context: &SpacesStruct,
        inst_start: u32,
        inst_next: u32,
        global_set: &mut Vec<GlobalSetRequest>,
    )
        ensures
            final(display)@ == old(display)@ + self.spec_display(context@, inst_start, inst_next),
            final(global_set)@ == old(global_set)@,
    {
        push_all(display, &[DisplayElement::Literal("nop"), DisplayElement::Literal(" ")]);
        self.One.display_extend(display, context, inst_start, inst_next, global_set);
        assert(display@ =~= old(display)@ + self.spec_display(context@, inst_start, inst_next));
    }
}

/// Whether decoding the token bytes `t` under the context registers `regs`
/// for an instruction at `inst_start` stays within 32-bit addresses: the
/// address after the instruction, and any address the instruction names for
/// a context value.
pub open spec fn decode_fits(t: Seq<u8>, regs: Seq<u8>, inst_start: u32) -> bool {
    match Tableinstruction::spec_parse(t, regs) {
        Some((n, v, _)) => inst_start + n <= u32::MAX && v.display_ok(inst_start),
        None => true,
    }
}

/// Decodes the instruction at the start of `tokens`, which lies at address
/// `inst_start`: returns the address of the next instruction, the
/// instruction's text, and the context values it sets at other addresses,
/// and updates `context`; `None` when the bytes hold no instruction.
pub fn decode_instruction(tokens: &[u8], context: &mut SpacesStruct, inst_start: u32) -> (r: Option<(u32, Vec<DisplayElement>, Vec<GlobalSetRequest>)>)
    requires
        decode_fits(tokens@, old(context)@, inst_start),
    ensures
        match Tableinstruction::spec_parse(tokens@, old(context)@) {
            Some((n, v, regs)) => r matches Some((inst_next, display, sets)) && inst_next == inst_start
                + n && display@ == v.spec_display(regs, inst_start, inst_next) && sets@ == v.spec_sets(
                regs,
                inst_start,
                inst_next,
            ) && final(context)@ == regs,
            None => r is None && *final(context) == *old(context),
        },
        r matches Some((inst_next, display, _)) ==> inst_start < inst_next <= inst_start + tokens@.len()
            && display@.len() >= 1 && phase_of(final(context)@) == 1,
{
    proof {
        law_decode_length(tokens@, context@);
        law_decode_phase(tokens@, context@);
    }
    let (inst_len, instruction) = Tableinstruction::parse(tokens, context, inst_start)?;
    proof {
        law_decode_text_nonempty(tokens@, old(context)@, inst_start, (inst_start + inst_len) as u32);
    }
    let inst_next = inst_start + inst_len;
    let mut display: Vec<DisplayElement> = Vec::new();
    let mut global_set: Vec<GlobalSetRequest> = Vec::new();
    instruction.display_extend(&mut display, context, inst_start, inst_next, &mut global_set);
    assert(display@ =~= instruction.spec_display(context@, inst_start, inst_next));
    assert(global_set@ =~= instruction.spec_sets(context@, inst_start, inst_next));
    Some((inst_next, display, global_set))
}

/// Decodes the instruction at the start of `tokens`, which lies at address
/// `inst_start`: returns the address of the next instruction and the
/// instruction's text, updates `context`, and hands the context values the
/// instruction sets at other addresses to `global_set`; `None` when the
/// bytes hold no instruction.
pub fn parse_instruction<G: GlobalSetTrait>(
    tokens: &[u8],
    context: &mut SpacesStruct,
    inst_start: u32,
    global_set: &mut G,
) -> (r: Option<(u32, Vec<DisplayElement>)>)
    requires
        decode_fits(tokens@, old(context)@, inst_start),
    ensures
        match Tableinstruction::spec_parse(tokens@, old(context)@) {
            Some((n, v, regs)) => r matches Some((inst_next, display)) && inst_next == inst_start + n
                && display@ == v.spec_display(regs, inst_start, inst_next) && final(context)@ == regs
                && (G::keeps_log() ==> final(global_set).log() == old(global_set).log() + v.spec_sets(
                regs,
                inst_start,
                inst_next,
            )),
            None => r is None && *final(context) == *old(context) && *final(global_set) == *old(global_set),
        },
        r matches Some((inst_next, display)) ==> inst_start < inst_next <= inst_start + tokens@.len()
            && display@.len() >= 1 && phase_of(final(context)@) == 1,
{
    let (inst_next, display, requests) = decode_instruction(tokens, context, inst_start)?;
    let n = requests.len();
    let mut i: usize = 0;
    while i < n
        invariant
            n == requests@.len(),
            0 <= i <= n,
            G::keeps_log() ==> global_set.log() == old(global_set).log() + requests@.subrange(0, i as int),
        decreases n - i,
    {
        match requests[i] {
            GlobalSetRequest::Fctx(address, value) => global_set.set_fctx(address, value),
            GlobalSetRequest::Nfctx(address, value) => global_set.set_nfctx(address, value),
            GlobalSetRequest::Phase(address, value) => global_set.set_phase(address, value),
            GlobalSetRequest::Counter(address, value) => global_set.set_counter(address, value),
        }
        proof {
            if G::keeps_log() {
                assert(requests@.subrange(0, i + 1) =~= requests@.subrange(0, i as int).push(requests@[i as int]));
                assert(old(global_set).log() + requests@.subrange(0, i + 1) =~= (old(global_set).log()
                    + requests@.subrange(0, i as int)).push(requests@[i as int]));
            }
        }
        i = i + 1;
    }
    proof {
        assert(requests@.subrange(0, n as int) =~= requests@);
    }
    Some((inst_next, display))
}

} // verus!
