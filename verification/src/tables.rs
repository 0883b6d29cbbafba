//! The sub-tables of the instruction set: operand forms (immediates,
//! relative addresses, register indirections), condition codes, and the
//! context-setting and byte-skipping constructors used by some instructions.
use vstd::prelude::*;
use vstd::slice::slice_subrange;
use crate::bits::{bits_u8, insert_bits_u8};
use crate::context::{ContextTrait, ContextregisterTrait, SpacesStruct, GlobalSetRequest, nfctx_of, with_nfctx, counter_of, with_counter};
use crate::display::{DisplayElement, register_of};
use crate::tokens::{
    TokenParser, TokenField_simm0003, TokenField_simm1213, TokenField_imm0007, TokenField_imm0003,
    TokenField_imm1213, TokenField_simm0007, TokenField_simm0411, TokenField_simm0010, TokenField_rs,
    TokenField_rt, TokenField_xsimm8, simm0003_of, simm1213_of, imm0007_of, imm0003_of, imm1213_of,
    simm0007_of, simm0411_of, simm0010_of, rs_of, rt_of, xsimm8_of, cc0002_of,
};

verus! {

/// A fixed piece of text.
pub open spec fn lit(s: &'static str) -> DisplayElement {
    DisplayElement::Literal(s)
}

/// A number shown in hexadecimal.
pub open spec fn hex(v: int) -> DisplayElement {
    DisplayElement::Number(true, v as i64)
}

/// The register named by a register field value.
pub open spec fn reg(n: u8) -> DisplayElement {
    DisplayElement::Register(register_of(n))
}

/// Appends `items` to `display`, in order.
pub fn push_all(display: &mut Vec<DisplayElement>, items: &[DisplayElement])
    ensures
        final(display)@ == old(display)@ + items@,
{
    let n = items.len();
    let mut i: usize = 0;
    while i < n
        invariant
            n == items@.len(),
            0 <= i <= n,
            display@ == old(display)@ + items@.subrange(0, i as int),
        decreases n - i,
    {
        display.push(items[i]);
        i = i + 1;
        assert(display@ =~= old(display)@ + items@.subrange(0, i as int));
    }
    assert(items@.subrange(0, n as int) =~= items@);
}

/// The `Simm4` operand form.
#[derive(Clone, Copy, Debug)]
pub struct Simm4Var0 {
    pub simm0003: TokenField_simm0003,
}

impl Simm4Var0 {
    /// The operand read from the token bytes `t`; `None` when `t` holds
    /// fewer than two bytes.
    pub open spec fn spec_parse(t: Seq<u8>) -> Option<Self> {
        if t.len() >= 2 {
            Some(Simm4Var0 { simm0003: TokenField_simm0003(simm0003_of(t) as i8) })
        } else {
            None
        }
    }

    /// Whether the fields are in the ranges their token bits allow.
    pub open spec fn wf(&self) -> bool {
        true
    }

    /// The operand's text.
    pub open spec fn spec_display(&self, inst_start: u32) -> Seq<DisplayElement> {
        seq![lit("#"), hex(self.simm0003.0 as int)]
    }

    /// Reads the operand from the first two token bytes.
    pub fn parse(tokens: &[u8]) -> (r: Option<(u32, Self)>)
        ensures
            r == (match Self::spec_parse(tokens@) {
                Some(v) => Some((2u32, v)),
                None => None,
            }),
            r matches Some((_, v)) ==> v.wf(),
    {
        let token_parser = TokenParser::<2>::new(tokens)?;
        let simm0003 = token_parser.TokenFieldsimm0003();
        Some((2, Self { simm0003 }))
    }

    /// Appends this operand's text to `display`.
    pub fn display_extend(
        &self,
        display: &mut Vec<DisplayElement>,
        context: &SpacesStruct,
        inst_start: u32,
        inst_next: u32,
        global_set: &mut Vec<GlobalSetRequest>,
    )
        ensures
            final(display)@ == old(display)@ + self.spec_display(inst_start),
            final(global_set)@ == old(global_set)@,
    {
        push_all(display, &[DisplayElement::Literal("#"), self.simm0003.display()]);
    }
}

/// The table of `Simm4` operand forms.
#[derive(Clone, Copy, Debug)]
pub enum TableSimm4 {
    Var0(Simm4Var0),
}

impl TableSimm4 {
    /// The table entry read from the token bytes `t`.
    pub open spec fn spec_parse(t: Seq<u8>) -> Option<Self> {
        match Simm4Var0::spec_parse(t) {
            Some(v) => Some(TableSimm4::Var0(v)),
            None => None,
        }
    }

    pub open spec fn wf(&self) -> bool {
        match self {
            TableSimm4::Var0(x) => x.wf(),
        }
    }

    pub open spec fn spec_display(&self, inst_start: u32) -> Seq<DisplayElement> {
        match self {
            TableSimm4::Var0(x) => x.spec_display(inst_start),
        }
    }

    /// Reads the table entry from the token bytes.
    pub fn parse(tokens: &[u8]) -> (r: Option<(u32, Self)>)
        ensures
            r == (match Self::spec_parse(tokens@) {
                Some(v) => Some((2u32, v)),
                None => None,
            }),
            r matches Some((_, v)) ==> v.wf(),
    {
        if let Some((inst_len, parsed)) = Simm4Var0::parse(tokens) {
            return Some((inst_len, TableSimm4::Var0(parsed)));
        }
        None
    }

    /// Appends this operand's text to `display`.
    pub fn display_extend(
        &self,
        display: &mut Vec<DisplayElement>,
        context: &SpacesStruct,
        inst_start: u32,
        inst_next: u32,
        global_set: &mut Vec<GlobalSetRequest>,
    )
        requires
            self.wf(),
        ensures
            final(display)@ == old(display)@ + self.spec_display(inst_start),
            final(global_set)@ == old(global_set)@,
    {
        match self {
            TableSimm4::Var0(x) => x.display_extend(display, context, inst_start, inst_next, global_set),
        }
    }
}

/// The `Imm4` operand form.
#[derive(Clone, Copy, Debug)]
pub struct Imm4Var0 {
    pub imm0003: TokenField_imm0003,
}

impl Imm4Var0 {
    /// The operand read from the token bytes `t`; `None` when `t` holds
    /// fewer than two bytes.
    pub open spec fn spec_parse(t: Seq<u8>) -> Option<Self> {
        if t.len() >= 2 {
            Some(Imm4Var0 { imm0003: TokenField_imm0003(imm0003_of(t)) })
        } else {
            None
        }
    }

    /// Whether the fields are in the ranges their token bits allow.
    pub open spec fn wf(&self) -> bool {
        true
    }

    /// The operand's text.
    pub open spec fn spec_display(&self, inst_start: u32) -> Seq<DisplayElement> {
        seq![lit("#"), hex(self.imm0003.0 as int)]
    }

    /// Reads the operand from the first two token bytes.
    pub fn parse(tokens: &[u8]) -> (r: Option<(u32, Self)>)
        ensures
            r == (match Self::spec_parse(tokens@) {
                Some(v) => Some((2u32, v)),
                None => None,
            }),
            r matches Some((_, v)) ==> v.wf(),
    {
        let token_parser = TokenParser::<2>::new(tokens)?;
        let imm0003 = token_parser.TokenFieldimm0003();
        Some((2, Self { imm0003 }))
    }

    /// Appends this operand's text to `display`.
    pub fn display_extend(
        &self,
        display: &mut Vec<DisplayElement>,
        context: &SpacesStruct,
        inst_start: u32,
        inst_next: u32,
        global_set: &mut Vec<GlobalSetRequest>,
    )
        ensures
            final(display)@ == old(display)@ + self.spec_display(inst_start),
            final(global_set)@ == old(global_set)@,
    {
        push_all(display, &[DisplayElement::Literal("#"), self.imm0003.display()]);
    }
}

/// The table of `Imm4` operand forms.
#[derive(Clone, Copy, Debug)]
pub enum TableImm4 {
    Var0(Imm4Var0),
}

impl TableImm4 {
    /// The table entry read from the token bytes `t`.
    pub open spec fn spec_parse(t: Seq<u8>) -> Option<Self> {
        match Imm4Var0::spec_parse(t) {
            Some(v) => Some(TableImm4::Var0(v)),
            None => None,
        }
    }

    pub open spec fn wf(&self) -> bool {
        match self {
            TableImm4::Var0(x) => x.wf(),
        }
    }

    pub open spec fn spec_display(&self, inst_start: u32) -> Seq<DisplayElement> {
        match self {
            TableImm4::Var0(x) => x.spec_display(inst_start),
        }
    }

    /// Reads the table entry from the token bytes.
    pub fn parse(tokens: &[u8]) -> (r: Option<(u32, Self)>)
        ensures
            r == (match Self::spec_parse(tokens@) {
                Some(v) => Some((2u32, v)),
                None => None,
            }),
            r matches Some((_, v)) ==> v.wf(),
    {
        if let Some((inst_len, parsed)) = Imm4Var0::parse(tokens) {
            return Some((inst_len, TableImm4::Var0(parsed)));
        }
        None
    }

    /// Appends this operand's text to `display`.
    pub fn display_extend(
        &self,
        display: &mut Vec<DisplayElement>,
        context: &SpacesStruct,
        inst_start: u32,
        inst_next: u32,
        global_set: &mut Vec<GlobalSetRequest>,
    )
        requires
            self.wf(),
        ensures
            final(display)@ == old(display)@ + self.spec_display(inst_start),
            final(global_set)@ == old(global_set)@,
    {
        match self {
            TableImm4::Var0(x) => x.display_extend(display, context, inst_start, inst_next, global_set),
        }
    }
}

/// The `Simm10` operand form.
#[derive(Clone, Copy, Debug)]
pub struct Simm10Var0 {
    pub simm1213: TokenField_simm1213,
    pub imm0007: TokenField_imm0007,
}

impl Simm10Var0 {
    /// The operand read from the token bytes `t`; `None` when `t` holds
    /// fewer than two bytes.
    pub open spec fn spec_parse(t: Seq<u8>) -> Option<Self> {
        if t.len() >= 2 {
            Some(Simm10Var0 { simm1213: TokenField_simm1213(simm1213_of(t) as i8), imm0007: TokenField_imm0007(imm0007_of(t)) })
        } else {
            None
        }
    }

    /// Whether the fields are in the ranges their token bits allow.
    pub open spec fn wf(&self) -> bool {
        true
    }

    /// The operand's text.
    pub open spec fn spec_display(&self, inst_start: u32) -> Seq<DisplayElement> {
        seq![lit("#"), hex(self.simm1213.0 * 256 + self.imm0007.0)]
    }

    /// Reads the operand from the first two token bytes.
    pub fn parse(tokens: &[u8]) -> (r: Option<(u32, Self)>)
        ensures
            r == (match Self::spec_parse(tokens@) {
                Some(v) => Some((2u32, v)),
                None => None,
            }),
            r matches Some((_, v)) ==> v.wf(),
    {
        let token_parser = TokenParser::<2>::new(tokens)?;
        let simm1213 = token_parser.TokenFieldsimm1213();
        let imm0007 = token_parser.TokenFieldimm0007();
        Some((2, Self { simm1213, imm0007 }))
    }

    /// Appends this operand's text to `display`.
    pub fn display_extend(
        &self,
        display: &mut Vec<DisplayElement>,
        context: &SpacesStruct,
        inst_start: u32,
        inst_next: u32,
        global_set: &mut Vec<GlobalSetRequest>,
    )
        ensures
            final(display)@ == old(display)@ + self.spec_display(inst_start),
            final(global_set)@ == old(global_set)@,
    {
        let computed: i64 = self.simm1213.disassembly() * 256 + self.imm0007.disassembly();
        push_all(display, &[DisplayElement::Literal("#"), DisplayElement::Number(true, computed)]);
    }
}

/// The table of `Simm10` operand forms.
#[derive(Clone, Copy, Debug)]
pub enum TableSimm10 {
    Var0(Simm10Var0),
}

impl TableSimm10 {
    /// The table entry read from the token bytes `t`.
    pub open spec fn spec_parse(t: Seq<u8>) -> Option<Self> {
        match Simm10Var0::spec_parse(t) {
            Some(v) => Some(TableSimm10::Var0(v)),
            None => None,
        }
    }

    pub open spec fn wf(&self) -> bool {
        match self {
            TableSimm10::Var0(x) => x.wf(),
        }
    }

    pub open spec fn spec_display(&self, inst_start: u32) -> Seq<DisplayElement> {
        match self {
            TableSimm10::Var0(x) => x.spec_display(inst_start),
        }
    }

    /// Reads the table entry from the token bytes.
    pub fn parse(tokens: &[u8]) -> (r: Option<(u32, Self)>)
        ensures
            r == (match Self::spec_parse(tokens@) {
                Some(v) => Some((2u32, v)),
                None => None,
            }),
            r matches Some((_, v)) ==> v.wf(),
    {
        if let Some((inst_len, parsed)) = Simm10Var0::parse(tokens) {
            return Some((inst_len, TableSimm10::Var0(parsed)));
        }
        None
    }

    /// Appends this operand's text to `display`.
    pub fn display_extend(
        &self,
        display: &mut Vec<DisplayElement>,
        context: &SpacesStruct,
        inst_start: u32,
        inst_next: u32,
        global_set: &mut Vec<GlobalSetRequest>,
    )
        requires
            self.wf(),
        ensures
            final(display)@ == old(display)@ + self.spec_display(inst_start),
            final(global_set)@ == old(global_set)@,
    {
        match self {
            TableSimm10::Var0(x) => x.display_extend(display, context, inst_start, inst_next, global_set),
        }
    }
}

/// The `Imm10` operand form.
#[derive(Clone, Copy, Debug)]
pub struct Imm10Var0 {
    pub imm1213: TokenField_imm1213,
    pub imm0007: TokenField_imm0007,
}

impl Imm10Var0 {
    /// The operand read from the token bytes `t`; `None` when `t` holds
    /// fewer than two bytes.
    pub open spec fn spec_parse(t: Seq<u8>) -> Option<Self> {
        if t.len() >= 2 {
            Some(Imm10Var0 { imm1213: TokenField_imm1213(imm1213_of(t)), imm0007: TokenField_imm0007(imm0007_of(t)) })
        } else {
            None
        }
    }

    /// Whether the fields are in the ranges their token bits allow.
    pub open spec fn wf(&self) -> bool {
        true
    }

    /// The operand's text.
    pub open spec fn spec_display(&self, inst_start: u32) -> Seq<DisplayElement> {
        seq![lit("#"), hex(self.imm1213.0 * 256 + self.imm0007.0)]
    }

    /// Reads the operand from the first two token bytes.
    pub fn parse(tokens: &[u8]) -> (r: Option<(u32, Self)>)
        ensures
            r == (match Self::spec_parse(tokens@) {
                Some(v) => Some((2u32, v)),
                None => None,
            }),
            r matches Some((_, v)) ==> v.wf(),
    {
        let token_parser = TokenParser::<2>::new(tokens)?;
        let imm1213 = token_parser.TokenFieldimm1213();
        let imm0007 = token_parser.TokenFieldimm0007();
        Some((2, Self { imm1213, imm0007 }))
    }

    /// Appends this operand's text to `display`.
    pub fn display_extend(
        &self,
        display: &mut Vec<DisplayElement>,
        context: &SpacesStruct,
        inst_start: u32,
        inst_next: u32,
        global_set: &mut Vec<GlobalSetRequest>,
    )
        ensures
            final(display)@ == old(display)@ + self.spec_display(inst_start),
            final(global_set)@ == old(global_set)@,
    {
        let computed: i64 = self.imm1213.disassembly() * 256 + self.imm0007.disassembly();
        push_all(display, &[DisplayElement::Literal("#"), DisplayElement::Number(true, computed)]);
    }
}

/// The table of `Imm10` operand forms.
#[derive(Clone, Copy, Debug)]
pub enum TableImm10 {
    Var0(Imm10Var0),
}

impl TableImm10 {
    /// The table entry read from the token bytes `t`.
    pub open spec fn spec_parse(t: Seq<u8>) -> Option<Self> {
        match Imm10Var0::spec_parse(t) {
            Some(v) => Some(TableImm10::Var0(v)),
            None => None,
        }
    }

    pub open spec fn wf(&self) -> bool {
        match self {
            TableImm10::Var0(x) => x.wf(),
        }
    }

    pub open spec fn spec_display(&self, inst_start: u32) -> Seq<DisplayElement> {
        match self {
            TableImm10::Var0(x) => x.spec_display(inst_start),
        }
    }

    /// Reads the table entry from the token bytes.
    pub fn parse(tokens: &[u8]) -> (r: Option<(u32, Self)>)
        ensures
            r == (match Self::spec_parse(tokens@) {
                Some(v) => Some((2u32, v)),
                None => None,
            }),
            r matches Some((_, v)) ==> v.wf(),
    {
        if let Some((inst_len, parsed)) = Imm10Var0::parse(tokens) {
            return Some((inst_len, TableImm10::Var0(parsed)));
        }
        None
    }

    /// Appends this operand's text to `display`.
    pub fn display_extend(
        &self,
        display: &mut Vec<DisplayElement>,
        context: &SpacesStruct,
        inst_start: u32,
        inst_next: u32,
        global_set: &mut Vec<GlobalSetRequest>,
    )
        requires
            self.wf(),
        ensures
            final(display)@ == old(display)@ + self.spec_display(inst_start),
            final(global_set)@ == old(global_set)@,
    {
        match self {
            TableImm10::Var0(x) => x.display_extend(display, context, inst_start, inst_next, global_set),
        }
    }
}

/// The `Rel8` operand form.
#[derive(Clone, Copy, Debug)]
pub struct Rel8Var0 {
    pub simm0007: TokenField_simm0007,
}

impl Rel8Var0 {
    /// The operand read from the token bytes `t`; `None` when `t` holds
    /// fewer than two bytes.
    pub open spec fn spec_parse(t: Seq<u8>) -> Option<Self> {
        if t.len() >= 2 {
            Some(Rel8Var0 { simm0007: TokenField_simm0007(simm0007_of(t) as i8) })
        } else {
            None
        }
    }

    /// Whether the fields are in the ranges their token bits allow.
    pub open spec fn wf(&self) -> bool {
        true
    }

    /// The operand's text.
    pub open spec fn spec_display(&self, inst_start: u32) -> Seq<DisplayElement> {
        seq![hex(inst_start + self.simm0007.0)]
    }

    /// Reads the operand from the first two token bytes.
    pub fn parse(tokens: &[u8]) -> (r: Option<(u32, Self)>)
        ensures
            r == (match Self::spec_parse(tokens@) {
                Some(v) => Some((2u32, v)),
                None => None,
            }),
            r matches Some((_, v)) ==> v.wf(),
    {
        let token_parser = TokenParser::<2>::new(tokens)?;
        let simm0007 = token_parser.TokenFieldsimm0007();
        Some((2, Self { simm0007 }))
    }

    /// Appends this operand's text to `display`.
    pub fn display_extend(
        &self,
        display: &mut Vec<DisplayElement>,
        context: &SpacesStruct,
        inst_start: u32,
        inst_next: u32,
        global_set: &mut Vec<GlobalSetRequest>,
    )
        ensures
            final(display)@ == old(display)@ + self.spec_display(inst_start),
            final(global_set)@ == old(global_set)@,
    {
        let addr: i64 = (inst_start as i64).wrapping_add(self.simm0007.disassembly());
        push_all(display, &[DisplayElement::Number(true, addr)]);
    }
}

/// The table of `Rel8` operand forms.
#[derive(Clone, Copy, Debug)]
pub enum TableRel8 {
    Var0(Rel8Var0),
}

impl TableRel8 {
    /// The table entry read from the token bytes `t`.
    pub open spec fn spec_parse(t: Seq<u8>) -> Option<Self> {
        match Rel8Var0::spec_parse(t) {
            Some(v) => Some(TableRel8::Var0(v)),
            None => None,
        }
    }

    pub open spec fn wf(&self) -> bool {
        match self {
            TableRel8::Var0(x) => x.wf(),
        }
    }

    pub open spec fn spec_display(&self, inst_start: u32) -> Seq<DisplayElement> {
        match self {
            TableRel8::Var0(x) => x.spec_display(inst_start),
        }
    }

    /// Reads the table entry from the token bytes.
    pub fn parse(tokens: &[u8]) -> (r: Option<(u32, Self)>)
        ensures
            r == (match Self::spec_parse(tokens@) {
                Some(v) => Some((2u32, v)),
                None => None,
            }),
            r matches Some((_, v)) ==> v.wf(),
    {
        if let Some((inst_len, parsed)) = Rel8Var0::parse(tokens) {
            return Some((inst_len, TableRel8::Var0(parsed)));
        }
        None
    }

    /// Appends this operand's text to `display`.
    pub fn display_extend(
        &self,
        display: &mut Vec<DisplayElement>,
        context: &SpacesStruct,
        inst_start: u32,
        inst_next: u32,
        global_set: &mut Vec<GlobalSetRequest>,
    )
        requires
            self.wf(),
        ensures
            final(display)@ == old(display)@ + self.spec_display(inst_start),
            final(global_set)@ == old(global_set)@,
    {
        match self {
            TableRel8::Var0(x) => x.display_extend(display, context, inst_start, inst_next, global_set),
        }
    }
}

/// The `Rel82` operand form.
#[derive(Clone, Copy, Debug)]
pub struct Rel82Var0 {
    pub simm0411: TokenField_simm0411,
}

impl Rel82Var0 {
    /// The operand read from the token bytes `t`; `None` when `t` holds
    /// fewer than two bytes.
    pub open spec fn spec_parse(t: Seq<u8>) -> Option<Self> {
        if t.len() >= 2 {
            Some(Rel82Var0 { simm0411: TokenField_simm0411(simm0411_of(t) as i8) })
        } else {
            None
        }
    }

    /// Whether the fields are in the ranges their token bits allow.
    pub open spec fn wf(&self) -> bool {
        true
    }

    /// The operand's text.
    pub open spec fn spec_display(&self, inst_start: u32) -> Seq<DisplayElement> {
        seq![hex(inst_start + self.simm0411.0)]
    }

    /// Reads the operand from the first two token bytes.
    pub fn parse(tokens: &[u8]) -> (r: Option<(u32, Self)>)
        ensures
            r == (match Self::spec_parse(tokens@) {
                Some(v) => Some((2u32, v)),
                None => None,
            }),
            r matches Some((_, v)) ==> v.wf(),
    {
        let token_parser = TokenParser::<2>::new(tokens)?;
        let simm0411 = token_parser.TokenFieldsimm0411();
        Some((2, Self { simm0411 }))
    }

    /// Appends this operand's text to `display`.
    pub fn display_extend(
        &self,
        display: &mut Vec<DisplayElement>,
        context: &SpacesStruct,
        inst_start: u32,
        inst_next: u32,
        global_set: &mut Vec<GlobalSetRequest>,
    )
        ensures
            final(display)@ == old(display)@ + self.spec_display(inst_start),
            final(global_set)@ == old(global_set)@,
    {
        let addr: i64 = (inst_start as i64).wrapping_add(self.simm0411.disassembly());
        push_all(display, &[DisplayElement::Number(true, addr)]);
    }
}

/// The table of `Rel82` operand forms.
#[derive(Clone, Copy, Debug)]
pub enum TableRel82 {
    Var0(Rel82Var0),
}

impl TableRel82 {
    /// The table entry read from the token bytes `t`.
    pub open spec fn spec_parse(t: Seq<u8>) -> Option<Self> {
        match Rel82Var0::spec_parse(t) {
            Some(v) => Some(TableRel82::Var0(v)),
            None => None,
        }
    }

    pub open spec fn wf(&self) -> bool {
        match self {
            TableRel82::Var0(x) => x.wf(),
        }
    }

    pub open spec fn spec_display(&self, inst_start: u32) -> Seq<DisplayElement> {
        match self {
            TableRel82::Var0(x) => x.spec_display(inst_start),
        }
    }

    /// Reads the table entry from the token bytes.
    pub fn parse(tokens: &[u8]) -> (r: Option<(u32, Self)>)
        ensures
            r == (match Self::spec_parse(tokens@) {
                Some(v) => Some((2u32, v)),
                None => None,
            }),
            r matches Some((_, v)) ==> v.wf(),
    {
        if let Some((inst_len, parsed)) = Rel82Var0::parse(tokens) {
            return Some((inst_len, TableRel82::Var0(parsed)));
        }
        None
    }

    /// Appends this operand's text to `display`.
    pub fn display_extend(
        &self,
        display: &mut Vec<DisplayElement>,
        context: &SpacesStruct,
        inst_start: u32,
        inst_next: u32,
        global_set: &mut Vec<GlobalSetRequest>,
    )
        requires
            self.wf(),
        ensures
            final(display)@ == old(display)@ + self.spec_display(inst_start),
            final(global_set)@ == old(global_set)@,
    {
        match self {
            TableRel82::Var0(x) => x.display_extend(display, context, inst_start, inst_next, global_set),
        }
    }
}

/// The `Rel11` operand form.
#[derive(Clone, Copy, Debug)]
pub struct Rel11Var0 {
    pub simm0010: TokenField_simm0010,
}

impl Rel11Var0 {
    /// The operand read from the token bytes `t`; `None` when `t` holds
    /// fewer than two bytes.
    pub open spec fn spec_parse(t: Seq<u8>) -> Option<Self> {
        if t.len() >= 2 {
            Some(Rel11Var0 { simm0010: TokenField_simm0010(simm0010_of(t) as i16) })
        } else {
            None
        }
    }

    /// Whether the fields are in the ranges their token bits allow.
    pub open spec fn wf(&self) -> bool {
        true
    }

    /// The operand's text.
    pub open spec fn spec_display(&self, inst_start: u32) -> Seq<DisplayElement> {
        seq![hex(inst_start + self.simm0010.0)]
    }

    /// Reads the operand from the first two token bytes.
    pub fn parse(tokens: &[u8]) -> (r: Option<(u32, Self)>)
        ensures
            r == (match Self::spec_parse(tokens@) {
                Some(v) => Some((2u32, v)),
                None => None,
            }),
            r matches Some((_, v)) ==> v.wf(),
    {
        let token_parser = TokenParser::<2>::new(tokens)?;
        let simm0010 = token_parser.TokenFieldsimm0010();
        Some((2, Self { simm0010 }))
    }

    /// Appends this operand's text to `display`.
    pub fn display_extend(
        &self,
        display: &mut Vec<DisplayElement>,
        context: &SpacesStruct,
        inst_start: u32,
        inst_next: u32,
        global_set: &mut Vec<GlobalSetRequest>,
    )
        ensures
            final(display)@ == old(display)@ + self.spec_display(inst_start),
            final(global_set)@ == old(global_set)@,
    {
        let addr: i64 = (inst_start as i64).wrapping_add(self.simm0010.disassembly());
        push_all(display, &[DisplayElement::Number(true, addr)]);
    }
}

/// The table of `Rel11` operand forms.
#[derive(Clone, Copy, Debug)]
pub enum TableRel11 {
    Var0(Rel11Var0),
}

impl TableRel11 {
    /// The table entry read from the token bytes `t`.
    pub open spec fn spec_parse(t: Seq<u8>) -> Option<Self> {
        match Rel11Var0::spec_parse(t) {
            Some(v) => Some(TableRel11::Var0(v)),
            None => None,
        }
    }

    pub open spec fn wf(&self) -> bool {
        match self {
            TableRel11::Var0(x) => x.wf(),
        }
    }

    pub open spec fn spec_display(&self, inst_start: u32) -> Seq<DisplayElement> {
        match self {
            TableRel11::Var0(x) => x.spec_display(inst_start),
        }
    }

    /// Reads the table entry from the token bytes.
    pub fn parse(tokens: &[u8]) -> (r: Option<(u32, Self)>)
        ensures
            r == (match Self::spec_parse(tokens@) {
                Some(v) => Some((2u32, v)),
                None => None,
            }),
            r matches Some((_, v)) ==> v.wf(),
    {
        if let Some((inst_len, parsed)) = Rel11Var0::parse(tokens) {
            return Some((inst_len, TableRel11::Var0(parsed)));
        }
        None
    }

    /// Appends this operand's text to `display`.
    pub fn display_extend(
        &self,
        display: &mut Vec<DisplayElement>,
        context: &SpacesStruct,
        inst_start: u32,
        inst_next: u32,
        global_set: &mut Vec<GlobalSetRequest>,
    )
        requires
            self.wf(),
        ensures
            final(display)@ == old(display)@ + self.spec_display(inst_start),
            final(global_set)@ == old(global_set)@,
    {
        match self {
            TableRel11::Var0(x) => x.display_extend(display, context, inst_start, inst_next, global_set),
        }
    }
}

/// The `RS` operand form.
#[derive(Clone, Copy, Debug)]
pub struct RSVar0 {
    pub rs: TokenField_rs,
}

impl RSVar0 {
    /// The operand read from the token bytes `t`; `None` when `t` holds
    /// fewer than two bytes.
    pub open spec fn spec_parse(t: Seq<u8>) -> Option<Self> {
        if t.len() >= 2 {
            Some(RSVar0 { rs: TokenField_rs(rs_of(t)) })
        } else {
            None
        }
    }

    /// Whether the fields are in the ranges their token bits allow.
    pub open spec fn wf(&self) -> bool {
        self.rs.0 < 16
    }

    /// The operand's text.
    pub open spec fn spec_display(&self, inst_start: u32) -> Seq<DisplayElement> {
        seq![lit("["), reg(self.rs.0), lit("]")]
    }

    /// Reads the operand from the first two token bytes.
    pub fn parse(tokens: &[u8]) -> (r: Option<(u32, Self)>)
        ensures
            r == (match Self::spec_parse(tokens@) {
                Some(v) => Some((2u32, v)),
                None => None,
            }),
            r matches Some((_, v)) ==> v.wf(),
    {
        let token_parser = TokenParser::<2>::new(tokens)?;
        let rs = token_parser.TokenFieldrs();
        Some((2, Self { rs }))
    }

    /// Appends this operand's text to `display`.
    pub fn display_extend(
        &self,
        display: &mut Vec<DisplayElement>,
        context: &SpacesStruct,
        inst_start: u32,
        inst_next: u32,
        global_set: &mut Vec<GlobalSetRequest>,
    )
        requires
            self.rs.0 < 16,
        ensures
            final(display)@ == old(display)@ + self.spec_display(inst_start),
            final(global_set)@ == old(global_set)@,
    {
        push_all(display, &[DisplayElement::Literal("["), self.rs.display(), DisplayElement::Literal("]")]);
    }
}

/// The table of `RS` operand forms.
#[derive(Clone, Copy, Debug)]
pub enum TableRS {
    Var0(RSVar0),
}

impl TableRS {
    /// The table entry read from the token bytes `t`.
    pub open spec fn spec_parse(t: Seq<u8>) -> Option<Self> {
        match RSVar0::spec_parse(t) {
            Some(v) => Some(TableRS::Var0(v)),
            None => None,
        }
    }

    pub open spec fn wf(&self) -> bool {
        match self {
            TableRS::Var0(x) => x.wf(),
        }
    }

    pub open spec fn spec_display(&self, inst_start: u32) -> Seq<DisplayElement> {
        match self {
            TableRS::Var0(x) => x.spec_display(inst_start),
        }
    }

    /// Reads the table entry from the token bytes.
    pub fn parse(tokens: &[u8]) -> (r: Option<(u32, Self)>)
        ensures
            r == (match Self::spec_parse(tokens@) {
                Some(v) => Some((2u32, v)),
                None => None,
            }),
            r matches Some((_, v)) ==> v.wf(),
    {
        if let Some((inst_len, parsed)) = RSVar0::parse(tokens) {
            return Some((inst_len, TableRS::Var0(parsed)));
        }
        None
    }

    /// Appends this operand's text to `display`.
    pub fn display_extend(
        &self,
        display: &mut Vec<DisplayElement>,
        context: &SpacesStruct,
        inst_start: u32,
        inst_next: u32,
        global_set: &mut Vec<GlobalSetRequest>,
    )
        requires
            self.wf(),
        ensures
            final(display)@ == old(display)@ + self.spec_display(inst_start),
            final(global_set)@ == old(global_set)@,
    {
        match self {
            TableRS::Var0(x) => x.display_extend(display, context, inst_start, inst_next, global_set),
        }
    }
}

/// The `RT` operand form.
#[derive(Clone, Copy, Debug)]
pub struct RTVar0 {
    pub rt: TokenField_rt,
}

impl RTVar0 {
    /// The operand read from the token bytes `t`; `None` when `t` holds
    /// fewer than two bytes.
    pub open spec fn spec_parse(t: Seq<u8>) -> Option<Self> {
        if t.len() >= 2 {
            Some(RTVar0 { rt: TokenField_rt(rt_of(t)) })
        } else {
            None
        }
    }

    /// Whether the fields are in the ranges their token bits allow.
    pub open spec fn wf(&self) -> bool {
        self.rt.0 < 16
    }

    /// The operand's text.
    pub open spec fn spec_display(&self, inst_start: u32) -> Seq<DisplayElement> {
        seq![lit("["), reg(self.rt.0), lit("]")]
    }

    /// Reads the operand from the first two token bytes.
    pub fn parse(tokens: &[u8]) -> (r: Option<(u32, Self)>)
        ensures
            r == (match Self::spec_parse(tokens@) {
                Some(v) => Some((2u32, v)),
                None => None,
            }),
            r matches Some((_, v)) ==> v.wf(),
    {
        let token_parser = TokenParser::<2>::new(tokens)?;
        let rt = token_parser.TokenFieldrt();
        Some((2, Self { rt }))
    }

    /// Appends this operand's text to `display`.
    pub fn display_extend(
        &self,
        display: &mut Vec<DisplayElement>,
        context: &SpacesStruct,
        inst_start: u32,
        inst_next: u32,
        global_set: &mut Vec<GlobalSetRequest>,
    )
        requires
            self.rt.0 < 16,
        ensures
            final(display)@ == old(display)@ + self.spec_display(inst_start),
            final(global_set)@ == old(global_set)@,
    {
        push_all(display, &[DisplayElement::Literal("["), self.rt.display(), DisplayElement::Literal("]")]);
    }
}

/// The table of `RT` operand forms.
#[derive(Clone, Copy, Debug)]
pub enum TableRT {
    Var0(RTVar0),
}

impl TableRT {
    /// The table entry read from the token bytes `t`.
    pub open spec fn spec_parse(t: Seq<u8>) -> Option<Self> {
        match RTVar0::spec_parse(t) {
            Some(v) => Some(TableRT::Var0(v)),
            None => None,
        }
    }

    pub open spec fn wf(&self) -> bool {
        match self {
            TableRT::Var0(x) => x.wf(),
        }
    }

    pub open spec fn spec_display(&self, inst_start: u32) -> Seq<DisplayElement> {
        match self {
            TableRT::Var0(x) => x.spec_display(inst_start),
        }
    }

    /// Reads the table entry from the token bytes.
    pub fn parse(tokens: &[u8]) -> (r: Option<(u32, Self)>)
        ensures
            r == (match Self::spec_parse(tokens@) {
                Some(v) => Some((2u32, v)),
                None => None,
            }),
            r matches Some((_, v)) ==> v.wf(),
    {
        if let Some((inst_len, parsed)) = RTVar0::parse(tokens) {
            return Some((inst_len, TableRT::Var0(parsed)));
        }
        None
    }

    /// Appends this operand's text to `display`.
    pub fn display_extend(
        &self,
        display: &mut Vec<DisplayElement>,
        context: &SpacesStruct,
        inst_start: u32,
        inst_next: u32,
        global_set: &mut Vec<GlobalSetRequest>,
    )
        requires
            self.wf(),
        ensures
            final(display)@ == old(display)@ + self.spec_display(inst_start),
            final(global_set)@ == old(global_set)@,
    {
        match self {
            TableRT::Var0(x) => x.display_extend(display, context, inst_start, inst_next, global_set),
        }
    }
}

/// Condition code 0.
#[derive(Clone, Copy, Debug)]
pub struct CCVar0 {}

impl CCVar0 {
    /// Whether the token bytes `t` hold condition code 0.
    pub open spec fn spec_matches(t: Seq<u8>) -> bool {
        t.len() >= 2 && cc0002_of(t) == 0
    }

    pub open spec fn spec_display(&self) -> Seq<DisplayElement> {
        seq![lit("eq")]
    }

    /// Matches condition code 0.
    pub fn parse(tokens: &[u8]) -> (r: Option<(u32, Self)>)
        ensures
            r == (if Self::spec_matches(tokens@) { Some((2u32, CCVar0 {})) } else { None }),
    {
        let token_parser = TokenParser::<2>::new(tokens)?;
        if token_parser.TokenFieldcc0002().disassembly() != 0i64 {
            return None;
        }
        Some((2, Self {}))
    }

    /// Appends this operand's text to `display`.
    pub fn display_extend(
        &self,
        display: &mut Vec<DisplayElement>,
        context: &SpacesStruct,
        inst_start: u32,
        inst_next: u32,
        global_set: &mut Vec<GlobalSetRequest>,
    )
        ensures
            final(display)@ == old(display)@ + self.spec_display(),
            final(global_set)@ == old(global_set)@,
    {
        push_all(display, &[DisplayElement::Literal("eq")]);
    }
}

/// Condition code 1.
#[derive(Clone, Copy, Debug)]
pub struct CCVar1 {}

impl CCVar1 {
    /// Whether the token bytes `t` hold condition code 1.
    pub open spec fn spec_matches(t: Seq<u8>) -> bool {
        t.len() >= 2 && cc0002_of(t) == 1
    }

    pub open spec fn spec_display(&self) -> Seq<DisplayElement> {
        seq![lit("ne")]
    }

    /// Matches condition code 1.
    pub fn parse(tokens: &[u8]) -> (r: Option<(u32, Self)>)
        ensures
            r == (if Self::spec_matches(tokens@) { Some((2u32, CCVar1 {})) } else { None }),
    {
        let token_parser = TokenParser::<2>::new(tokens)?;
        if token_parser.TokenFieldcc0002().disassembly() != 1i64 {
            return None;
        }
        Some((2, Self {}))
    }

    /// Appends this operand's text to `display`.
    pub fn display_extend(
        &self,
        display: &mut Vec<DisplayElement>,
        context: &SpacesStruct,
        inst_start: u32,
        inst_next: u32,
        global_set: &mut Vec<GlobalSetRequest>,
    )
        ensures
            final(display)@ == old(display)@ + self.spec_display(),
            final(global_set)@ == old(global_set)@,
    {
        push_all(display, &[DisplayElement::Literal("ne")]);
    }
}

/// Condition code 2.
#[derive(Clone, Copy, Debug)]
pub struct CCVar2 {}

impl CCVar2 {
    /// Whether the token bytes `t` hold condition code 2.
    pub open spec fn spec_matches(t: Seq<u8>) -> bool {
        t.len() >= 2 && cc0002_of(t) == 2
    }

    pub open spec fn spec_display(&self) -> Seq<DisplayElement> {
        seq![lit("lt")]
    }

    /// Matches condition code 2.
    pub fn parse(tokens: &[u8]) -> (r: Option<(u32, Self)>)
        ensures
            r == (if Self::spec_matches(tokens@) { Some((2u32, CCVar2 {})) } else { None }),
    {
        let token_parser = TokenParser::<2>::new(tokens)?;
        if token_parser.TokenFieldcc0002().disassembly() != 2i64 {
            return None;
        }
        Some((2, Self {}))
    }

    /// Appends this operand's text to `display`.
    pub fn display_extend(
        &self,
        display: &mut Vec<DisplayElement>,
        context: &SpacesStruct,
        inst_start: u32,
        inst_next: u32,
        global_set: &mut Vec<GlobalSetRequest>,
    )
        ensures
            final(display)@ == old(display)@ + self.spec_display(),
            final(global_set)@ == old(global_set)@,
    {
        push_all(display, &[DisplayElement::Literal("lt")]);
    }
}

/// Condition code 3.
#[derive(Clone, Copy, Debug)]
pub struct CCVar3 {}

impl CCVar3 {
    /// Whether the token bytes `t` hold condition code 3.
    pub open spec fn spec_matches(t: Seq<u8>) -> bool {
        t.len() >= 2 && cc0002_of(t) == 3
    }

    pub open spec fn spec_display(&self) -> Seq<DisplayElement> {
        seq![lit("le")]
    }

    /// Matches condition code 3.
    pub fn parse(tokens: &[u8]) -> (r: Option<(u32, Self)>)
        ensures
            r == (if Self::spec_matches(tokens@) { Some((2u32, CCVar3 {})) } else { None }),
    {
        let token_parser = TokenParser::<2>::new(tokens)?;
        if token_parser.TokenFieldcc0002().disassembly() != 3i64 {
            return None;
        }
        Some((2, Self {}))
    }

    /// Appends this operand's text to `display`.
    pub fn display_extend(
        &self,
        display: &mut Vec<DisplayElement>,
        context: &SpacesStruct,
        inst_start: u32,
        inst_next: u32,
        global_set: &mut Vec<GlobalSetRequest>,
    )
        ensures
            final(display)@ == old(display)@ + self.spec_display(),
            final(global_set)@ == old(global_set)@,
    {
        push_all(display, &[DisplayElement::Literal("le")]);
    }
}

/// Condition code 4.
#[derive(Clone, Copy, Debug)]
pub struct CCVar4 {}

impl CCVar4 {
    /// Whether the token bytes `t` hold condition code 4.
    pub open spec fn spec_matches(t: Seq<u8>) -> bool {
        t.len() >= 2 && cc0002_of(t) == 4
    }

    pub open spec fn spec_display(&self) -> Seq<DisplayElement> {
        seq![lit("lo")]
    }

    /// Matches condition code 4.
    pub fn parse(tokens: &[u8]) -> (r: Option<(u32, Self)>)
        ensures
            r == (if Self::spec_matches(tokens@) { Some((2u32, CCVar4 {})) } else { None }),
    {
        let token_parser = TokenParser::<2>::new(tokens)?;
        if token_parser.TokenFieldcc0002().disassembly() != 4i64 {
            return None;
        }
        Some((2, Self {}))
    }

    /// Appends this operand's text to `display`.
    pub fn display_extend(
        &self,
        display: &mut Vec<DisplayElement>,
        context: &SpacesStruct,
        inst_start: u32,
        inst_next: u32,
        global_set: &mut Vec<GlobalSetRequest>,
    )
        ensures
            final(display)@ == old(display)@ + self.spec_display(),
            final(global_set)@ == old(global_set)@,
    {
        push_all(display, &[DisplayElement::Literal("lo")]);
    }
}

/// Condition code 5.
#[derive(Clone, Copy, Debug)]
pub struct CCVar5 {}

impl CCVar5 {
    /// Whether the token bytes `t` hold condition code 5.
    pub open spec fn spec_matches(t: Seq<u8>) -> bool {
        t.len() >= 2 && cc0002_of(t) == 5
    }

    pub open spec fn spec_display(&self) -> Seq<DisplayElement> {
        seq![lit("mi")]
    }

    /// Matches condition code 5.
    pub fn parse(tokens: &[u8]) -> (r: Option<(u32, Self)>)
        ensures
            r == (if Self::spec_matches(tokens@) { Some((2u32, CCVar5 {})) } else { None }),
    {
        let token_parser = TokenParser::<2>::new(tokens)?;
        if token_parser.TokenFieldcc0002().disassembly() != 5i64 {
            return None;
        }
        Some((2, Self {}))
    }

    /// Appends this operand's text to `display`.
    pub fn display_extend(
        &self,
        display: &mut Vec<DisplayElement>,
        context: &SpacesStruct,
        inst_start: u32,
        inst_next: u32,
        global_set: &mut Vec<GlobalSetRequest>,
    )
        ensures
            final(display)@ == old(display)@ + self.spec_display(),
            final(global_set)@ == old(global_set)@,
    {
        push_all(display, &[DisplayElement::Literal("mi")]);
    }
}

/// Condition code 6.
#[derive(Clone, Copy, Debug)]
pub struct CCVar6 {}

impl CCVar6 {
    /// Whether the token bytes `t` hold condition code 6.
    pub open spec fn spec_matches(t: Seq<u8>) -> bool {
        t.len() >= 2 && cc0002_of(t) == 6
    }

    pub open spec fn spec_display(&self) -> Seq<DisplayElement> {
        seq![lit("vs")]
    }

    /// Matches condition code 6.
    pub fn parse(tokens: &[u8]) -> (r: Option<(u32, Self)>)
        ensures
            r == (if Self::spec_matches(tokens@) { Some((2u32, CCVar6 {})) } else { None }),
    {
        let token_parser = TokenParser::<2>::new(tokens)?;
        if token_parser.TokenFieldcc0002().disassembly() != 6i64 {
            return None;
        }
        Some((2, Self {}))
    }

    /// Appends this operand's text to `display`.
    pub fn display_extend(
        &self,
        display: &mut Vec<DisplayElement>,
        context: &SpacesStruct,
        inst_start: u32,
        inst_next: u32,
        global_set: &mut Vec<GlobalSetRequest>,
    )
        ensures
            final(display)@ == old(display)@ + self.spec_display(),
            final(global_set)@ == old(global_set)@,
    {
        push_all(display, &[DisplayElement::Literal("vs")]);
    }
}

/// Condition code 7.
#[derive(Clone, Copy, Debug)]
pub struct CCVar7 {}

impl CCVar7 {
    /// Whether the token bytes `t` hold condition code 7.
    pub open spec fn spec_matches(t: Seq<u8>) -> bool {
        t.len() >= 2 && cc0002_of(t) == 7
    }

    pub open spec fn spec_display(&self) -> Seq<DisplayElement> {
        seq![lit(""), lit("")]
    }

    /// Matches condition code 7.
    pub fn parse(tokens: &[u8]) -> (r: Option<(u32, Self)>)
        ensures
            r == (if Self::spec_matches(tokens@) { Some((2u32, CCVar7 {})) } else { None }),
    {
        let token_parser = TokenParser::<2>::new(tokens)?;
        if token_parser.TokenFieldcc0002().disassembly() != 7i64 {
            return None;
        }
        Some((2, Self {}))
    }

    /// Appends this operand's text to `display`.
    pub fn display_extend(
        &self,
        display: &mut Vec<DisplayElement>,
        context: &SpacesStruct,
        inst_start: u32,
        inst_next: u32,
        global_set: &mut Vec<GlobalSetRequest>,
    )
        ensures
            final(display)@ == old(display)@ + self.spec_display(),
            final(global_set)@ == old(global_set)@,
    {
        push_all(display, &[DisplayElement::Literal(""), DisplayElement::Literal("")]);
    }
}

/// The table of condition codes.
#[derive(Clone, Copy, Debug)]
pub enum TableCC {
    Var0(CCVar0),
    Var1(CCVar1),
    Var2(CCVar2),
    Var3(CCVar3),
    Var4(CCVar4),
    Var5(CCVar5),
    Var6(CCVar6),
    Var7(CCVar7),
}

impl TableCC {
    /// The condition code held in bits 0..2 of the first token byte; `None`
    /// when `t` holds fewer than two bytes.
    pub open spec fn spec_parse(t: Seq<u8>) -> Option<Self> {
        if t.len() < 2 {
            None
        } else {
            let c = cc0002_of(t);
            if c == 0 {
                Some(TableCC::Var0(CCVar0 {}))
            } else if c == 1 {
                Some(TableCC::Var1(CCVar1 {}))
            } else if c == 2 {
                Some(TableCC::Var2(CCVar2 {}))
            } else if c == 3 {
                Some(TableCC::Var3(CCVar3 {}))
            } else if c == 4 {
                Some(TableCC::Var4(CCVar4 {}))
            } else if c == 5 {
                Some(TableCC::Var5(CCVar5 {}))
            } else if c == 6 {
                Some(TableCC::Var6(CCVar6 {}))
            } else {
                Some(TableCC::Var7(CCVar7 {}))
            }
        }
    }

    pub open spec fn spec_display(&self) -> Seq<DisplayElement> {
        match self {
            TableCC::Var0(x) => x.spec_display(),
            TableCC::Var1(x) => x.spec_display(),
            TableCC::Var2(x) => x.spec_display(),
            TableCC::Var3(x) => x.spec_display(),
            TableCC::Var4(x) => x.spec_display(),
            TableCC::Var5(x) => x.spec_display(),
            TableCC::Var6(x) => x.spec_display(),
            TableCC::Var7(x) => x.spec_display(),
        }
    }

    /// Reads the condition code, trying each one in turn.
    pub fn parse(tokens: &[u8]) -> (r: Option<(u32, Self)>)
        ensures
            r == (match Self::spec_parse(tokens@) {
                Some(v) => Some((2u32, v)),
                None => None,
            }),
    {
        proof {
            let c = cc0002_of(tokens@);
            if tokens@.len() >= 2 {
                let b = tokens@[0];
                assert(bits_u8(b, 0, 3) < 8) by (bit_vector);
            }
        }

        if let Some((inst_len, parsed)) = CCVar0::parse(tokens) {
            return Some((inst_len, TableCC::Var0(parsed)));
        }
        if let Some((inst_len, parsed)) = CCVar1::parse(tokens) {
            return Some((inst_len, TableCC::Var1(parsed)));
        }
        if let Some((inst_len, parsed)) = CCVar2::parse(tokens) {
            return Some((inst_len, TableCC::Var2(parsed)));
        }
        if let Some((inst_len, parsed)) = CCVar3::parse(tokens) {
            return Some((inst_len, TableCC::Var3(parsed)));
        }
        if let Some((inst_len, parsed)) = CCVar4::parse(tokens) {
            return Some((inst_len, TableCC::Var4(parsed)));
        }
        if let Some((inst_len, parsed)) = CCVar5::parse(tokens) {
            return Some((inst_len, TableCC::Var5(parsed)));
        }
        if let Some((inst_len, parsed)) = CCVar6::parse(tokens) {
            return Some((inst_len, TableCC::Var6(parsed)));
        }
        if let Some((inst_len, parsed)) = CCVar7::parse(tokens) {
            return Some((inst_len, TableCC::Var7(parsed)));
        }
        None
    }

    /// Appends this operand's text to `display`.
    pub fn display_extend(
        &self,
        display: &mut Vec<DisplayElement>,
        context: &SpacesStruct,
        inst_start: u32,
        inst_next: u32,
        global_set: &mut Vec<GlobalSetRequest>,
    )
        ensures
            final(display)@ == old(display)@ + self.spec_display(),
            final(global_set)@ == old(global_set)@,
    {
        match self {
            TableCC::Var0(x) => x.display_extend(display, context, inst_start, inst_next, global_set),
            TableCC::Var1(x) => x.display_extend(display, context, inst_start, inst_next, global_set),
            TableCC::Var2(x) => x.display_extend(display, context, inst_start, inst_next, global_set),
            TableCC::Var3(x) => x.display_extend(display, context, inst_start, inst_next, global_set),
            TableCC::Var4(x) => x.display_extend(display, context, inst_start, inst_next, global_set),
            TableCC::Var5(x) => x.display_extend(display, context, inst_start, inst_next, global_set),
            TableCC::Var6(x) => x.display_extend(display, context, inst_start, inst_next, global_set),
            TableCC::Var7(x) => x.display_extend(display, context, inst_start, inst_next, global_set),
        }
    }
}

/// A condition: any condition code.
#[derive(Clone, Copy, Debug)]
pub struct CONDVar0 {
    pub CC: TableCC,
}

impl CONDVar0 {
    pub open spec fn spec_parse(t: Seq<u8>) -> Option<Self> {
        match TableCC::spec_parse(t) {
            Some(cc) => Some(CONDVar0 { CC: cc }),
            None => None,
        }
    }

    pub open spec fn spec_display(&self) -> Seq<DisplayElement> {
        self.CC.spec_display()
    }

    /// Reads the condition code.
    pub fn parse(tokens: &[u8]) -> (r: Option<(u32, Self)>)
        ensures
            r == (match Self::spec_parse(tokens@) {
                Some(v) => Some((2u32, v)),
                None => None,
            }),
    {
        let mut block_0_len: u32 = 0;
        let CC = if let Some((len, table)) = TableCC::parse(tokens) {
            if len > block_0_len {
                block_0_len = len;
            }
            table
        } else {
            return None;
        };
        Some((block_0_len, Self { CC }))
    }

    /// Appends the condition's text to `display`.
    pub fn display_extend(
        &self,
        display: &mut Vec<DisplayElement>,
        context: &SpacesStruct,
        inst_start: u32,
        inst_next: u32,
        global_set: &mut Vec<GlobalSetRequest>,
    )
        ensures
            final(display)@ == old(display)@ + self.spec_display(),
            final(global_set)@ == old(global_set)@,
    {
        self.CC.display_extend(display, context, inst_start, inst_next, global_set);
    }
}

/// A condition: the condition code 7 (always).
#[derive(Clone, Copy, Debug)]
pub struct CONDVar1 {
    pub CC: TableCC,
}

impl CONDVar1 {
    pub open spec fn spec_parse(t: Seq<u8>) -> Option<Self> {
        if t.len() >= 2 && cc0002_of(t) == 7 {
            match TableCC::spec_parse(t) {
                Some(cc) => Some(CONDVar1 { CC: cc }),
                None => None,
            }
        } else {
            None
        }
    }

    pub open spec fn spec_display(&self) -> Seq<DisplayElement> {
        self.CC.spec_display()
    }

    /// Reads the condition code when it is 7.
    pub fn parse(tokens: &[u8]) -> (r: Option<(u32, Self)>)
        ensures
            r == (match Self::spec_parse(tokens@) {
                Some(v) => Some((2u32, v)),
                None => None,
            }),
    {
        let mut block_0_len: u32 = 2;
        let token_parser = TokenParser::<2>::new(tokens)?;
        if token_parser.TokenFieldcc0002().disassembly() != 7i64 {
            return None;
        }
        let CC = if let Some((len, table)) = TableCC::parse(tokens) {
            if len > block_0_len {
                block_0_len = len;
            }
            table
        } else {
            return None;
        };
        Some((block_0_len, Self { CC }))
    }

    /// Appends the condition's text to `display`.
    pub fn display_extend(
        &self,
        display: &mut Vec<DisplayElement>,
        context: &SpacesStruct,
        inst_start: u32,
        inst_next: u32,
        global_set: &mut Vec<GlobalSetRequest>,
    )
        ensures
            final(display)@ == old(display)@ + self.spec_display(),
            final(global_set)@ == old(global_set)@,
    {
        self.CC.display_extend(display, context, inst_start, inst_next, global_set);
    }
}

/// The table of conditions.
#[derive(Clone, Copy, Debug)]
pub enum TableCOND {
    Var0(CONDVar0),
    Var1(CONDVar1),
}

impl TableCOND {
    /// The first condition form that the token bytes `t` match.
    pub open spec fn spec_parse(t: Seq<u8>) -> Option<Self> {
        match CONDVar0::spec_parse(t) {
            Some(v) => Some(TableCOND::Var0(v)),
            None => match CONDVar1::spec_parse(t) {
                Some(v) => Some(TableCOND::Var1(v)),
                None => None,
            },
        }
    }

    pub open spec fn spec_display(&self) -> Seq<DisplayElement> {
        match self {
            TableCOND::Var0(x) => x.spec_display(),
            TableCOND::Var1(x) => x.spec_display(),
        }
    }

    /// Reads the condition, trying each form in turn.
    pub fn parse(tokens: &[u8]) -> (r: Option<(u32, Self)>)
        ensures
            r == (match Self::spec_parse(tokens@) {
                Some(v) => Some((2u32, v)),
                None => None,
            }),
    {
        if let Some((inst_len, parsed)) = CONDVar0::parse(tokens) {
            return Some((inst_len, TableCOND::Var0(parsed)));
        }
        if let Some((inst_len, parsed)) = CONDVar1::parse(tokens) {
            return Some((inst_len, TableCOND::Var1(parsed)));
        }
        None
    }

    /// Appends the condition's text to `display`.
    pub fn display_extend(
        &self,
        display: &mut Vec<DisplayElement>,
        context: &SpacesStruct,
        inst_start: u32,
        inst_next: u32,
        global_set: &mut Vec<GlobalSetRequest>,
    )
        ensures
            final(display)@ == old(display)@ + self.spec_display(),
            final(global_set)@ == old(global_set)@,
    {
        match self {
            TableCOND::Var0(x) => x.display_extend(display, context, inst_start, inst_next, global_set),
            TableCOND::Var1(x) => x.display_extend(display, context, inst_start, inst_next, global_set),
        }
    }
}

/// Sets `nfctx` from the first token and names, by the signed offset in the
/// first byte of a second token, the address at which that value also holds.
#[derive(Clone, Copy, Debug)]
pub struct nfctxSetAddrVar0 {
    pub xsimm8: TokenField_xsimm8,
    pub imm0003: TokenField_imm0003,
    pub Imm4: TableImm4,
}

impl nfctxSetAddrVar0 {
    /// The constructor read from the token bytes `t` (four bytes needed), and
    /// the context registers `regs` with `nfctx` set to the immediate.
    pub open spec fn spec_parse(t: Seq<u8>, regs: Seq<u8>) -> Option<(Self, Seq<u8>)> {
        if t.len() >= 4 {
            Some((
                nfctxSetAddrVar0 {
                    xsimm8: TokenField_xsimm8(xsimm8_of(t.subrange(2, t.len() as int)) as i8),
                    imm0003: TokenField_imm0003(imm0003_of(t)),
                    Imm4: TableImm4::Var0(Imm4Var0 { imm0003: TokenField_imm0003(imm0003_of(t)) }),
                },
                with_nfctx(regs, imm0003_of(t)),
            ))
        } else {
            None
        }
    }

    /// The address named: the instruction's start plus the signed offset.
    pub open spec fn target(&self, inst_start: u32) -> int {
        inst_start + self.xsimm8.0
    }

    /// Whether the address named is a valid 32-bit address.
    pub open spec fn display_ok(&self, inst_start: u32) -> bool {
        0 <= self.target(inst_start) <= u32::MAX
    }

    pub open spec fn spec_display(&self, inst_start: u32) -> Seq<DisplayElement> {
        seq![hex(self.target(inst_start))]
    }

    pub open spec fn spec_sets(&self, regs: Seq<u8>, inst_start: u32) -> Seq<GlobalSetRequest> {
        seq![GlobalSetRequest::Nfctx(Some(self.target(inst_start) as u32), nfctx_of(regs) as i64)]
    }

    /// Reads the constructor from two tokens, setting `nfctx`.
    pub fn parse(tokens: &[u8], context: &mut SpacesStruct) -> (r: Option<(u32, Self)>)
        ensures
            match Self::spec_parse(tokens@, old(context)@) {
                Some((v, regs)) => r == Some((4u32, v)) && final(context)@ == regs,
                None => r is None && *final(context) == *old(context),
            },
    {
        let mut pattern_len: u32 = 0;
        let mut context_instance = *context;
        let mut block_0_len: u32 = 2;
        let token_parser = TokenParser::<2>::new(tokens)?;
        let tmp = token_parser.TokenFieldimm0003().disassembly();
        context_instance.register_mut().write_nfctx_disassembly(tmp);
        let Imm4 = if let Some((len, table)) = TableImm4::parse(tokens) {
            if len > block_0_len {
                block_0_len = len;
            }
            table
        } else {
            return None;
        };
        let imm0003 = token_parser.TokenFieldimm0003();
        pattern_len = pattern_len + block_0_len;
        let tokens_current = slice_subrange(tokens, 2, tokens.len());
        let block_1_len: u32 = 2;
        let token_parser = TokenParser::<2>::new(tokens_current)?;
        let xsimm8 = token_parser.TokenFieldxsimm8();
        pattern_len = pattern_len + block_1_len;
        *context = context_instance;
        Some((pattern_len, Self { Imm4, imm0003, xsimm8 }))
    }

    /// Passes the `nfctx` value on to the named address and shows that
    /// address.
    pub fn display_extend(
        &self,
        display: &mut Vec<DisplayElement>,
        context: &SpacesStruct,
        inst_start: u32,
        inst_next: u32,
        global_set: &mut Vec<GlobalSetRequest>,
    )
        requires
            self.display_ok(inst_start),
        ensures
            final(display)@ == old(display)@ + self.spec_display(inst_start),
            final(global_set)@ == old(global_set)@ + self.spec_sets(context@, inst_start),
    {
        let addr: i64 = (inst_start as i64).wrapping_add(self.xsimm8.disassembly());
        global_set.push(
            GlobalSetRequest::Nfctx(Some(addr as u32), context.register().read_nfctx_disassembly()),
        );
        push_all(display, &[DisplayElement::Number(true, addr)]);
    }
}

/// The table of `nfctx` address-setting constructors.
#[derive(Clone, Copy, Debug)]
pub enum TablenfctxSetAddr {
    Var0(nfctxSetAddrVar0),
}

impl TablenfctxSetAddr {
    pub open spec fn spec_parse(t: Seq<u8>, regs: Seq<u8>) -> Option<(Self, Seq<u8>)> {
        match nfctxSetAddrVar0::spec_parse(t, regs) {
            Some((v, r)) => Some((TablenfctxSetAddr::Var0(v), r)),
            None => None,
        }
    }

    pub open spec fn display_ok(&self, inst_start: u32) -> bool {
        match self {
            TablenfctxSetAddr::Var0(x) => x.display_ok(inst_start),
        }
    }

    pub open spec fn spec_display(&self, inst_start: u32) -> Seq<DisplayElement> {
        match self {
            TablenfctxSetAddr::Var0(x) => x.spec_display(inst_start),
        }
    }

    pub open spec fn spec_sets(&self, regs: Seq<u8>, inst_start: u32) -> Seq<GlobalSetRequest> {
        match self {
            TablenfctxSetAddr::Var0(x) => x.spec_sets(regs, inst_start),
        }
    }

    /// Reads the table entry.
    pub fn parse(tokens: &[u8], context: &mut SpacesStruct) -> (r: Option<(u32, Self)>)
        ensures
            match Self::spec_parse(tokens@, old(context)@) {
                Some((v, regs)) => r == Some((4u32, v)) && final(context)@ == regs,
                None => r is None && *final(context) == *old(context),
            },
    {
        let mut context_current = *context;
        if let Some((inst_len, parsed)) = nfctxSetAddrVar0::parse(tokens, &mut context_current) {
            *context = context_current;
            return Some((inst_len, TablenfctxSetAddr::Var0(parsed)));
        }
        None
    }

    /// Appends the entry's text to `display`.
    pub fn display_extend(
        &self,
        display: &mut Vec<DisplayElement>,
        context: &SpacesStruct,
        inst_start: u32,
        inst_next: u32,
        global_set: &mut Vec<GlobalSetRequest>,
    )
        requires
            self.display_ok(inst_start),
        ensures
            final(display)@ == old(display)@ + self.spec_display(inst_start),
            final(global_set)@ == old(global_set)@ + self.spec_sets(context@, inst_start),
    {
        match self {
            TablenfctxSetAddr::Var0(x) => x.display_extend(display, context, inst_start, inst_next, global_set),
        }
    }
}

/// The count of a multi-byte `nop`: the immediate plus two.
#[derive(Clone, Copy, Debug)]
pub struct NopCntVar0 {
    pub imm0003: TokenField_imm0003,
}

impl NopCntVar0 {
    pub open spec fn spec_parse(t: Seq<u8>) -> Option<Self> {
        if t.len() >= 2 {
            Some(NopCntVar0 { imm0003: TokenField_imm0003(imm0003_of(t)) })
        } else {
            None
        }
    }

    pub open spec fn spec_display(&self) -> Seq<DisplayElement> {
        seq![lit("#"), hex(self.imm0003.0 + 2)]
    }

    /// Reads the count from the first token.
    pub fn parse(tokens: &[u8]) -> (r: Option<(u32, Self)>)
        ensures
            r == (match Self::spec_parse(tokens@) {
                Some(v) => Some((2u32, v)),
                None => None,
            }),
    {
        let token_parser = TokenParser::<2>::new(tokens)?;
        let imm0003 = token_parser.TokenFieldimm0003();
        Some((2, Self { imm0003 }))
    }

    /// Appends the count's text to `display`.
    pub fn display_extend(
        &self,
        display: &mut Vec<DisplayElement>,
        context: &SpacesStruct,
        inst_start: u32,
        inst_next: u32,
        global_set: &mut Vec<GlobalSetRequest>,
    )
        ensures
            final(display)@ == old(display)@ + self.spec_display(),
            final(global_set)@ == old(global_set)@,
    {
        let cnt: i64 = self.imm0003.disassembly().wrapping_add(2i64);
        push_all(display, &[DisplayElement::Literal("#"), DisplayElement::Number(true, cnt)]);
    }
}

/// The table of `nop` counts.
#[derive(Clone, Copy, Debug)]
pub enum TableNopCnt {
    Var0(NopCntVar0),
}

impl TableNopCnt {
    pub open spec fn spec_parse(t: Seq<u8>) -> Option<Self> {
        match NopCntVar0::spec_parse(t) {
            Some(v) => Some(TableNopCnt::Var0(v)),
            None => None,
        }
    }

    pub open spec fn spec_display(&self) -> Seq<DisplayElement> {
        match self {
            TableNopCnt::Var0(x) => x.spec_display(),
        }
    }

    /// Reads the table entry.
    pub fn parse(tokens: &[u8]) -> (r: Option<(u32, Self)>)
        ensures
            r == (match Self::spec_parse(tokens@) {
                Some(v) => Some((2u32, v)),
                None => None,
            }),
    {
        if let Some((inst_len, parsed)) = NopCntVar0::parse(tokens) {
            return Some((inst_len, TableNopCnt::Var0(parsed)));
        }
        None
    }

    /// Appends the entry's text to `display`.
    pub fn display_extend(
        &self,
        display: &mut Vec<DisplayElement>,
        context: &SpacesStruct,
        inst_start: u32,
        inst_next: u32,
        global_set: &mut Vec<GlobalSetRequest>,
    )
        ensures
            final(display)@ == old(display)@ + self.spec_display(),
            final(global_set)@ == old(global_set)@,
    {
        match self {
            TableNopCnt::Var0(x) => x.display_extend(display, context, inst_start, inst_next, global_set),
        }
    }
}

/// The end of the skipped bytes of a multi-byte `nop`: the counter is zero.
#[derive(Clone, Copy, Debug)]
pub struct NopByteVar0 {}

/// One more skipped byte of a multi-byte `nop`, then the rest.
#[derive(Debug)]
pub struct NopByteVar1 {
    pub NopByte: Box<TableNopByte>,
}

/// The table of skipped `nop` bytes: as many bytes as the context counter
/// says.
#[derive(Debug)]
pub enum TableNopByte {
    Var0(NopByteVar0),
    Var1(NopByteVar1),
}

/// The entry that skips `n` bytes.
pub open spec fn nop_bytes(n: nat) -> TableNopByte
    decreases n,
{
    if n == 0 {
        TableNopByte::Var0(NopByteVar0 {})
    } else {
        TableNopByte::Var1(NopByteVar1 { NopByte: Box::new(nop_bytes((n - 1) as nat)) })
    }
}

/// Writing the counter field and reading it back gives the value written,
/// for values that fit in the field; writing it twice keeps only the last
/// value; writing the value it already holds changes nothing.
pub proof fn lemma_counter_write(b: u8, v: u8, w: u8)
    requires
        v < 16,
    ensures
        bits_u8(insert_bits_u8(b, v, 2, 4), 2, 4) == v,
        insert_bits_u8(insert_bits_u8(b, v, 2, 4), w, 2, 4) == insert_bits_u8(b, w, 2, 4),
        bits_u8(b, 2, 4) == 0 ==> insert_bits_u8(b, 0, 2, 4) == b,
{
    assert(bits_u8(insert_bits_u8(b, v, 2, 4), 2, 4) == v) by (bit_vector)
        requires
            v < 16,
    ;
    assert(insert_bits_u8(insert_bits_u8(b, v, 2, 4), w, 2, 4) == insert_bits_u8(b, w, 2, 4))
        by (bit_vector)
        requires
            v < 16,
    ;
    assert(bits_u8(b, 2, 4) == 0 ==> insert_bits_u8(b, 0, 2, 4) == b) by (bit_vector);
}

impl NopByteVar0 {
    /// Matches when the counter is zero; consumes nothing.
    pub fn parse(tokens: &[u8], context: &mut SpacesStruct) -> (r: Option<(u32, Self)>)
        ensures
            *final(context) == *old(context),
            r == (if counter_of(old(context)@) == 0 { Some((0u32, NopByteVar0 {})) } else { None }),
    {
        if context.register().read_counter_disassembly() != 0i64 {
            return None;
        }
        Some((0, Self {}))
    }
}

impl NopByteVar1 {
    /// Counts the counter down by one, skips one byte and reads the rest.
    fn parse(tokens: &[u8], context: &mut SpacesStruct) -> (r: Option<(u32, Self)>)
        requires
            old(context)@.len() == 8,
            counter_of(old(context)@) != 0,
        ensures
            match TableNopByte::spec_parse(tokens@, old(context)@) {
                Some((n, v, regs)) => v matches TableNopByte::Var1(x) && r == Some((n as u32, x))
                    && final(context)@ == regs,
                None => r is None && *final(context) == *old(context),
            },
        decreases counter_of(old(context)@), 0nat,
    {
        let ghost regs = context@;
        let ghost c = counter_of(regs);
        let mut pattern_len: u32 = 0;
        let mut context_instance = *context;
        let tmp = context_instance.register().read_counter_disassembly().wrapping_sub(1i64);
        context_instance.register_mut().write_counter_disassembly(tmp);
        proof {
            let b = regs[1];
            assert(c < 16) by (bit_vector)
                requires
                    c == bits_u8(b, 2, 4),
            ;
            lemma_counter_write(regs[1], (c - 1) as u8, 0);
            assert(counter_of(context_instance@) == c - 1);
        }
        let token_parser = TokenParser::<1>::new(tokens)?;
        let nnnn = token_parser.TokenFieldnnnn();
        pattern_len = pattern_len + 1;
        let tokens_current = slice_subrange(tokens, 1, tokens.len());
        let NopByte = if let Some((len, table)) = TableNopByte::parse(
            tokens_current,
            &mut context_instance,
        ) {
            pattern_len = pattern_len + len;
            Box::new(table)
        } else {
            return None;
        };
        proof {
            lemma_counter_write(regs[1], (c - 1) as u8, 0);
            assert(with_counter(with_counter(regs, (c - 1) as u8), 0) =~= with_counter(regs, 0));
        }
        *context = context_instance;
        Some((pattern_len, Self { NopByte }))
    }
}

impl TableNopByte {
    /// Skips as many bytes as the counter in `regs` says, leaving the counter
    /// at zero; `None` when `t` is shorter than that.
    pub open spec fn spec_parse(t: Seq<u8>, regs: Seq<u8>) -> Option<(nat, Self, Seq<u8>)> {
        let n = counter_of(regs) as nat;
        if t.len() >= n {
            Some((n, nop_bytes(n), if n == 0 { regs } else { with_counter(regs, 0) }))
        } else {
            None
        }
    }

    /// Reads the skipped bytes, trying each form in turn.
    pub fn parse(tokens: &[u8], context: &mut SpacesStruct) -> (r: Option<(u32, Self)>)
        requires
            old(context)@.len() == 8,
        ensures
            match Self::spec_parse(tokens@, old(context)@) {
                Some((n, v, regs)) => r == Some((n as u32, v)) && final(context)@ == regs,
                None => r is None && *final(context) == *old(context),
            },
        decreases counter_of(old(context)@), 1nat,
    {
        let mut context_current = *context;
        if let Some((inst_len, parsed)) = NopByteVar0::parse(tokens, &mut context_current) {
            *context = context_current;
            return Some((inst_len, TableNopByte::Var0(parsed)));
        }
        if let Some((inst_len, parsed)) = NopByteVar1::parse(tokens, &mut context_current) {
            *context = context_current;
            return Some((inst_len, TableNopByte::Var1(parsed)));
        }
        None
    }

    /// Skipped bytes show nothing.
    pub fn display_extend(
        &self,
        display: &mut Vec<DisplayElement>,
        context: &SpacesStruct,
        inst_start: u32,
        inst_next: u32,
        global_set: &mut Vec<GlobalSetRequest>,
    )
        ensures
            final(display)@ == old(display)@,
            final(global_set)@ == old(global_set)@,
    {
    }
}

/// The count of a one-byte `nop`.
#[derive(Clone, Copy, Debug)]
pub struct OneVar0 {}

impl OneVar0 {
    pub open spec fn spec_display(&self) -> Seq<DisplayElement> {
        seq![lit("#"), hex(1)]
    }

    /// Always matches; consumes nothing.
    pub fn parse(tokens: &[u8]) -> (r: Option<(u32, Self)>)
        ensures
            r == Some((0u32, OneVar0 {})),
    {
        Some((0, Self {}))
    }

    /// Appends the count's text to `display`.
    pub fn display_extend(
        &self,
        display: &mut Vec<DisplayElement>,
        context: &SpacesStruct,
        inst_start: u32,
        inst_next: u32,
        global_set: &mut Vec<GlobalSetRequest>,
    )
        ensures
            final(display)@ == old(display)@ + self.spec_display(),
            final(global_set)@ == old(global_set)@,
    {
        let cnt: i64 = 1i64;
        push_all(display, &[DisplayElement::Literal("#"), DisplayElement::Number(true, cnt)]);
    }
}

/// The table of one-byte `nop` counts.
#[derive(Clone, Copy, Debug)]
pub enum TableOne {
    Var0(OneVar0),
}

impl TableOne {
    pub open spec fn spec_display(&self) -> Seq<DisplayElement> {
        match self {
            TableOne::Var0(x) => x.spec_display(),
        }
    }

    /// Reads the table entry.
    pub fn parse(tokens: &[u8]) -> (r: Option<(u32, Self)>)
        ensures
            r == Some((0u32, TableOne::Var0(OneVar0 {}))),
    {
        if let Some((inst_len, parsed)) = OneVar0::parse(tokens) {
            return Some((inst_len, TableOne::Var0(parsed)));
        }
        None
    }

    /// Appends the entry's text to `display`.
    pub fn display_extend(
        &self,
        display: &mut Vec<DisplayElement>,
        context: &SpacesStruct,
        inst_start: u32,
        inst_next: u32,
        global_set: &mut Vec<GlobalSetRequest>,
    )
        ensures
            final(display)@ == old(display)@ + self.spec_display(),
            final(global_set)@ == old(global_set)@,
    {
        match self {
            TableOne::Var0(x) => x.display_extend(display, context, inst_start, inst_next, global_set),
        }
    }
}

} // verus!
