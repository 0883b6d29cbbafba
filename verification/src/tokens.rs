//! The fields of the instruction tokens: where each one lies in the token
//! bytes, and how each one is shown and used.
use vstd::prelude::*;
use crate::bits::{bits_u8, bits_u16, sign_extend, word_of, read_u8, read_i8, read_i16};
use crate::display::{DisplayElement, Register, register_of, meaning_number, meaning_0_display, meaning_0_value};

verus! {

/// Field `op8` of the token bytes `t`: Bits 0..7 of token byte 0, unsigned.
pub open spec fn op8_of(t: Seq<u8>) -> u8 {
    bits_u8(t[0], 0, 8)
}

/// Field `xsimm8` of the token bytes `t`: Bits 0..7 of token byte 0, as a two's complement number.
pub open spec fn xsimm8_of(t: Seq<u8>) -> int {
    sign_extend(bits_u8(t[0], 0, 8) as u16, 8)
}

/// Field `nnnn` of the token bytes `t`: Bits 0..3 of token byte 0, unsigned.
pub open spec fn nnnn_of(t: Seq<u8>) -> u8 {
    bits_u8(t[0], 0, 4)
}

/// Field `op1515` of the token bytes `t`: Bits 7..7 of token byte 1, unsigned.
pub open spec fn op1515_of(t: Seq<u8>) -> u8 {
    bits_u8(t[1], 7, 1)
}

/// Field `op1415` of the token bytes `t`: Bits 6..7 of token byte 1, unsigned.
pub open spec fn op1415_of(t: Seq<u8>) -> u8 {
    bits_u8(t[1], 6, 2)
}

/// Field `op1215` of the token bytes `t`: Bits 4..7 of token byte 1, unsigned.
pub open spec fn op1215_of(t: Seq<u8>) -> u8 {
    bits_u8(t[1], 4, 4)
}

/// Field `op1111` of the token bytes `t`: Bits 3..3 of token byte 1, unsigned.
pub open spec fn op1111_of(t: Seq<u8>) -> u8 {
    bits_u8(t[1], 3, 1)
}

/// Field `op0811` of the token bytes `t`: Bits 0..3 of token byte 1, unsigned.
pub open spec fn op0811_of(t: Seq<u8>) -> u8 {
    bits_u8(t[1], 0, 4)
}

/// Field `op0407` of the token bytes `t`: Bits 4..7 of token byte 0, unsigned.
pub open spec fn op0407_of(t: Seq<u8>) -> u8 {
    bits_u8(t[0], 4, 4)
}

/// Field `op0007` of the token bytes `t`: Bits 0..7 of token byte 0, unsigned.
pub open spec fn op0007_of(t: Seq<u8>) -> u8 {
    bits_u8(t[0], 0, 8)
}

/// Field `op0003` of the token bytes `t`: Bits 0..3 of token byte 0, unsigned.
pub open spec fn op0003_of(t: Seq<u8>) -> u8 {
    bits_u8(t[0], 0, 4)
}

/// Field `op0303` of the token bytes `t`: Bits 3..3 of token byte 0, unsigned.
pub open spec fn op0303_of(t: Seq<u8>) -> u8 {
    bits_u8(t[0], 3, 1)
}

/// Field `rd` of the token bytes `t`: Bits 0..3 of token byte 1, unsigned.
pub open spec fn rd_of(t: Seq<u8>) -> u8 {
    bits_u8(t[1], 0, 4)
}

/// Field `rs` of the token bytes `t`: Bits 4..7 of token byte 0, unsigned.
pub open spec fn rs_of(t: Seq<u8>) -> u8 {
    bits_u8(t[0], 4, 4)
}

/// Field `rt` of the token bytes `t`: Bits 0..3 of token byte 0, unsigned.
pub open spec fn rt_of(t: Seq<u8>) -> u8 {
    bits_u8(t[0], 0, 4)
}

/// Field `imm1213` of the token bytes `t`: Bits 4..5 of token byte 1, unsigned.
pub open spec fn imm1213_of(t: Seq<u8>) -> u8 {
    bits_u8(t[1], 4, 2)
}

/// Field `imm0007` of the token bytes `t`: Bits 0..7 of token byte 0, unsigned.
pub open spec fn imm0007_of(t: Seq<u8>) -> u8 {
    bits_u8(t[0], 0, 8)
}

/// Field `imm0003` of the token bytes `t`: Bits 0..3 of token byte 0, unsigned.
pub open spec fn imm0003_of(t: Seq<u8>) -> u8 {
    bits_u8(t[0], 0, 4)
}

/// Field `simm1213` of the token bytes `t`: Bits 4..5 of token byte 1, as a two's complement number.
pub open spec fn simm1213_of(t: Seq<u8>) -> int {
    sign_extend(bits_u8(t[1], 4, 2) as u16, 2)
}

/// Field `simm0010` of the token bytes `t`: Bits 0..10 of the little-endian token word, as a two's complement number.
pub open spec fn simm0010_of(t: Seq<u8>) -> int {
    sign_extend(bits_u16(word_of(t[0], t[1], false), 0, 11), 11)
}

/// Field `simm0411` of the token bytes `t`: Bits 4..11 of the little-endian token word, as a two's complement number.
pub open spec fn simm0411_of(t: Seq<u8>) -> int {
    sign_extend(bits_u16(word_of(t[0], t[1], false), 4, 8), 8)
}

/// Field `simm0007` of the token bytes `t`: Bits 0..7 of token byte 0, as a two's complement number.
pub open spec fn simm0007_of(t: Seq<u8>) -> int {
    sign_extend(bits_u8(t[0], 0, 8) as u16, 8)
}

/// Field `simm0003` of the token bytes `t`: Bits 0..3 of token byte 0, as a two's complement number.
pub open spec fn simm0003_of(t: Seq<u8>) -> int {
    sign_extend(bits_u8(t[0], 0, 4) as u16, 4)
}

/// Field `cc0911` of the token bytes `t`: Bits 1..3 of token byte 1, unsigned.
pub open spec fn cc0911_of(t: Seq<u8>) -> u8 {
    bits_u8(t[1], 1, 3)
}

/// Field `cc0002` of the token bytes `t`: Bits 0..2 of token byte 0, unsigned.
pub open spec fn cc0002_of(t: Seq<u8>) -> u8 {
    bits_u8(t[0], 0, 3)
}

/// The `op8` token field.
#[derive(Clone, Copy, Debug)]
pub struct TokenField_op8(pub u8);

impl TokenField_op8 {
    /// The field's value, for execution.
    pub fn execution(&self) -> (r: u8)
        ensures
            r == self.0,
    {
        self.0
    }

    /// The field's value, for decoding.
    pub fn disassembly(&self) -> (r: i64)
        ensures
            r == self.0 as i64,
    {
        self.0 as i64
    }

    /// The field shown as a hexadecimal number.
    pub fn display(&self) -> (r: DisplayElement)
        ensures
            r == DisplayElement::Number(true, self.0 as i64),
    {
        meaning_number(true, self.0 as i64)
    }
}

/// The `xsimm8` token field.
#[derive(Clone, Copy, Debug)]
pub struct TokenField_xsimm8(pub i8);

impl TokenField_xsimm8 {
    /// The field's value, for execution.
    pub fn execution(&self) -> (r: i8)
        ensures
            r == self.0,
    {
        self.0
    }

    /// The field's value, for decoding.
    pub fn disassembly(&self) -> (r: i64)
        ensures
            r == self.0 as i64,
    {
        self.0 as i64
    }

    /// The field shown as a hexadecimal number.
    pub fn display(&self) -> (r: DisplayElement)
        ensures
            r == DisplayElement::Number(true, self.0 as i64),
    {
        meaning_number(true, self.0 as i64)
    }
}

/// The `nnnn` token field.
#[derive(Clone, Copy, Debug)]
pub struct TokenField_nnnn(pub u8);

impl TokenField_nnnn {
    /// The field's value, for execution.
    pub fn execution(&self) -> (r: u8)
        ensures
            r == self.0,
    {
        self.0
    }

    /// The field's value, for decoding.
    pub fn disassembly(&self) -> (r: i64)
        ensures
            r == self.0 as i64,
    {
        self.0 as i64
    }

    /// The field shown as a hexadecimal number.
    pub fn display(&self) -> (r: DisplayElement)
        ensures
            r == DisplayElement::Number(true, self.0 as i64),
    {
        meaning_number(true, self.0 as i64)
    }
}

/// The `op1515` token field.
#[derive(Clone, Copy, Debug)]
pub struct TokenField_op1515(pub u8);

impl TokenField_op1515 {
    /// The field's value, for execution.
    pub fn execution(&self) -> (r: u8)
        ensures
            r == self.0,
    {
        self.0
    }

    /// The field's value, for decoding.
    pub fn disassembly(&self) -> (r: i64)
        ensures
            r == self.0 as i64,
    {
        self.0 as i64
    }

    /// The field shown as a hexadecimal number.
    pub fn display(&self) -> (r: DisplayElement)
        ensures
            r == DisplayElement::Number(true, self.0 as i64),
    {
        meaning_number(true, self.0 as i64)
    }
}

/// The `op1415` token field.
#[derive(Clone, Copy, Debug)]
pub struct TokenField_op1415(pub u8);

impl TokenField_op1415 {
    /// The field's value, for execution.
    pub fn execution(&self) -> (r: u8)
        ensures
            r == self.0,
    {
        self.0
    }

    /// The field's value, for decoding.
    pub fn disassembly(&self) -> (r: i64)
        ensures
            r == self.0 as i64,
    {
        self.0 as i64
    }

    /// The field shown as a hexadecimal number.
    pub fn display(&self) -> (r: DisplayElement)
        ensures
            r == DisplayElement::Number(true, self.0 as i64),
    {
        meaning_number(true, self.0 as i64)
    }
}

/// The `op1215` token field.
#[derive(Clone, Copy, Debug)]
pub struct TokenField_op1215(pub u8);

impl TokenField_op1215 {
    /// The field's value, for execution.
    pub fn execution(&self) -> (r: u8)
        ensures
            r == self.0,
    {
        self.0
    }

    /// The field's value, for decoding.
    pub fn disassembly(&self) -> (r: i64)
        ensures
            r == self.0 as i64,
    {
        self.0 as i64
    }

    /// The field shown as a hexadecimal number.
    pub fn display(&self) -> (r: DisplayElement)
        ensures
            r == DisplayElement::Number(true, self.0 as i64),
    {
        meaning_number(true, self.0 as i64)
    }
}

/// The `op1111` token field.
#[derive(Clone, Copy, Debug)]
pub struct TokenField_op1111(pub u8);

impl TokenField_op1111 {
    /// The field's value, for execution.
    pub fn execution(&self) -> (r: u8)
        ensures
            r == self.0,
    {
        self.0
    }

    /// The field's value, for decoding.
    pub fn disassembly(&self) -> (r: i64)
        ensures
            r == self.0 as i64,
    {
        self.0 as i64
    }

    /// The field shown as a hexadecimal number.
    pub fn display(&self) -> (r: DisplayElement)
        ensures
            r == DisplayElement::Number(true, self.0 as i64),
    {
        meaning_number(true, self.0 as i64)
    }
}

/// The `op0811` token field.
#[derive(Clone, Copy, Debug)]
pub struct TokenField_op0811(pub u8);

impl TokenField_op0811 {
    /// The field's value, for execution.
    pub fn execution(&self) -> (r: u8)
        ensures
            r == self.0,
    {
        self.0
    }

    /// The field's value, for decoding.
    pub fn disassembly(&self) -> (r: i64)
        ensures
            r == self.0 as i64,
    {
        self.0 as i64
    }

    /// The field shown as a hexadecimal number.
    pub fn display(&self) -> (r: DisplayElement)
        ensures
            r == DisplayElement::Number(true, self.0 as i64),
    {
        meaning_number(true, self.0 as i64)
    }
}

/// The `op0407` token field.
#[derive(Clone, Copy, Debug)]
pub struct TokenField_op0407(pub u8);

impl TokenField_op0407 {
    /// The field's value, for execution.
    pub fn execution(&self) -> (r: u8)
        ensures
            r == self.0,
    {
        self.0
    }

    /// The field's value, for decoding.
    pub fn disassembly(&self) -> (r: i64)
        ensures
            r == self.0 as i64,
    {
        self.0 as i64
    }

    /// The field shown as a hexadecimal number.
    pub fn display(&self) -> (r: DisplayElement)
        ensures
            r == DisplayElement::Number(true, self.0 as i64),
    {
        meaning_number(true, self.0 as i64)
    }
}

/// The `op0007` token field.
#[derive(Clone, Copy, Debug)]
pub struct TokenField_op0007(pub u8);

impl TokenField_op0007 {
    /// The field's value, for execution.
    pub fn execution(&self) -> (r: u8)
        ensures
            r == self.0,
    {
        self.0
    }

    /// The field's value, for decoding.
    pub fn disassembly(&self) -> (r: i64)
        ensures
            r == self.0 as i64,
    {
        self.0 as i64
    }

    /// The field shown as a hexadecimal number.
    pub fn display(&self) -> (r: DisplayElement)
        ensures
            r == DisplayElement::Number(true, self.0 as i64),
    {
        meaning_number(true, self.0 as i64)
    }
}

/// The `op0003` token field.
#[derive(Clone, Copy, Debug)]
pub struct TokenField_op0003(pub u8);

impl TokenField_op0003 {
    /// The field's value, for execution.
    pub fn execution(&self) -> (r: u8)
        ensures
            r == self.0,
    {
        self.0
    }

    /// The field's value, for decoding.
    pub fn disassembly(&self) -> (r: i64)
        ensures
            r == self.0 as i64,
    {
        self.0 as i64
    }

    /// The field shown as a hexadecimal number.
    pub fn display(&self) -> (r: DisplayElement)
        ensures
            r == DisplayElement::Number(true, self.0 as i64),
    {
        meaning_number(true, self.0 as i64)
    }
}

/// The `op0303` token field.
#[derive(Clone, Copy, Debug)]
pub struct TokenField_op0303(pub u8);

impl TokenField_op0303 {
    /// The field's value, for execution.
    pub fn execution(&self) -> (r: u8)
        ensures
            r == self.0,
    {
        self.0
    }

    /// The field's value, for decoding.
    pub fn disassembly(&self) -> (r: i64)
        ensures
            r == self.0 as i64,
    {
        self.0 as i64
    }

    /// The field shown as a hexadecimal number.
    pub fn display(&self) -> (r: DisplayElement)
        ensures
            r == DisplayElement::Number(true, self.0 as i64),
    {
        meaning_number(true, self.0 as i64)
    }
}

/// The `rd` token field.
#[derive(Clone, Copy, Debug)]
pub struct TokenField_rd(pub u8);

impl TokenField_rd {
    /// The register the field names.
    pub fn execution(&self) -> (r: Register)
        requires
            self.0 < 16,
        ensures
            r == register_of(self.0),
    {
        meaning_0_value(self.0)
    }

    /// The field's value, for decoding.
    pub fn disassembly(&self) -> (r: i64)
        ensures
            r == self.0 as i64,
    {
        self.0 as i64
    }

    /// The field shown as the register it names.
    pub fn display(&self) -> (r: DisplayElement)
        requires
            self.0 < 16,
        ensures
            r == DisplayElement::Register(register_of(self.0)),
    {
        meaning_0_display(self.0)
    }
}

/// The `rs` token field.
#[derive(Clone, Copy, Debug)]
pub struct TokenField_rs(pub u8);

impl TokenField_rs {
    /// The register the field names.
    pub fn execution(&self) -> (r: Register)
        requires
            self.0 < 16,
        ensures
            r == register_of(self.0),
    {
        meaning_0_value(self.0)
    }

    /// The field's value, for decoding.
    pub fn disassembly(&self) -> (r: i64)
        ensures
            r == self.0 as i64,
    {
        self.0 as i64
    }

    /// The field shown as the register it names.
    pub fn display(&self) -> (r: DisplayElement)
        requires
            self.0 < 16,
        ensures
            r == DisplayElement::Register(register_of(self.0)),
    {
        meaning_0_display(self.0)
    }
}

/// The `rt` token field.
#[derive(Clone, Copy, Debug)]
pub struct TokenField_rt(pub u8);

impl TokenField_rt {
    /// The register the field names.
    pub fn execution(&self) -> (r: Register)
        requires
            self.0 < 16,
        ensures
            r == register_of(self.0),
    {
        meaning_0_value(self.0)
    }

    /// The field's value, for decoding.
    pub fn disassembly(&self) -> (r: i64)
        ensures
            r == self.0 as i64,
    {
        self.0 as i64
    }

    /// The field shown as the register it names.
    pub fn display(&self) -> (r: DisplayElement)
        requires
            self.0 < 16,
        ensures
            r == DisplayElement::Register(register_of(self.0)),
    {
        meaning_0_display(self.0)
    }
}

/// The `imm1213` token field.
#[derive(Clone, Copy, Debug)]
pub struct TokenField_imm1213(pub u8);

impl TokenField_imm1213 {
    /// The field's value, for execution.
    pub fn execution(&self) -> (r: u8)
        ensures
            r == self.0,
    {
        self.0
    }

    /// The field's value, for decoding.
    pub fn disassembly(&self) -> (r: i64)
        ensures
            r == self.0 as i64,
    {
        self.0 as i64
    }

    /// The field shown as a hexadecimal number.
    pub fn display(&self) -> (r: DisplayElement)
        ensures
            r == DisplayElement::Number(true, self.0 as i64),
    {
        meaning_number(true, self.0 as i64)
    }
}

/// The `imm0007` token field.
#[derive(Clone, Copy, Debug)]
pub struct TokenField_imm0007(pub u8);

impl TokenField_imm0007 {
    /// The field's value, for execution.
    pub fn execution(&self) -> (r: u8)
        ensures
            r == self.0,
    {
        self.0
    }

    /// The field's value, for decoding.
    pub fn disassembly(&self) -> (r: i64)
        ensures
            r == self.0 as i64,
    {
        self.0 as i64
    }

    /// The field shown as a hexadecimal number.
    pub fn display(&self) -> (r: DisplayElement)
        ensures
            r == DisplayElement::Number(true, self.0 as i64),
    {
        meaning_number(true, self.0 as i64)
    }
}

/// The `imm0003` token field.
#[derive(Clone, Copy, Debug)]
pub struct TokenField_imm0003(pub u8);

impl TokenField_imm0003 {
    /// The field's value, for execution.
    pub fn execution(&self) -> (r: u8)
        ensures
            r == self.0,
    {
        self.0
    }

    /// The field's value, for decoding.
    pub fn disassembly(&self) -> (r: i64)
        ensures
            r == self.0 as i64,
    {
        self.0 as i64
    }

    /// The field shown as a hexadecimal number.
    pub fn display(&self) -> (r: DisplayElement)
        ensures
            r == DisplayElement::Number(true, self.0 as i64),
    {
        meaning_number(true, self.0 as i64)
    }
}

/// The `simm1213` token field.
#[derive(Clone, Copy, Debug)]
pub struct TokenField_simm1213(pub i8);

impl TokenField_simm1213 {
    /// The field's value, for execution.
    pub fn execution(&self) -> (r: i8)
        ensures
            r == self.0,
    {
        self.0
    }

    /// The field's value, for decoding.
    pub fn disassembly(&self) -> (r: i64)
        ensures
            r == self.0 as i64,
    {
        self.0 as i64
    }

    /// The field shown as a hexadecimal number.
    pub fn display(&self) -> (r: DisplayElement)
        ensures
            r == DisplayElement::Number(true, self.0 as i64),
    {
        meaning_number(true, self.0 as i64)
    }
}

/// The `simm0010` token field.
#[derive(Clone, Copy, Debug)]
pub struct TokenField_simm0010(pub i16);

impl TokenField_simm0010 {
    /// The field's value, for execution.
    pub fn execution(&self) -> (r: i16)
        ensures
            r == self.0,
    {
        self.0
    }

    /// The field's value, for decoding.
    pub fn disassembly(&self) -> (r: i64)
        ensures
            r == self.0 as i64,
    {
        self.0 as i64
    }

    /// The field shown as a hexadecimal number.
    pub fn display(&self) -> (r: DisplayElement)
        ensures
            r == DisplayElement::Number(true, self.0 as i64),
    {
        meaning_number(true, self.0 as i64)
    }
}

/// The `simm0411` token field.
#[derive(Clone, Copy, Debug)]
pub struct TokenField_simm0411(pub i8);

impl TokenField_simm0411 {
    /// The field's value, for execution.
    pub fn execution(&self) -> (r: i8)
        ensures
            r == self.0,
    {
        self.0
    }

    /// The field's value, for decoding.
    pub fn disassembly(&self) -> (r: i64)
        ensures
            r == self.0 as i64,
    {
        self.0 as i64
    }

    /// The field shown as a hexadecimal number.
    pub fn display(&self) -> (r: DisplayElement)
        ensures
            r == DisplayElement::Number(true, self.0 as i64),
    {
        meaning_number(true, self.0 as i64)
    }
}

/// The `simm0007` token field.
#[derive(Clone, Copy, Debug)]
pub struct TokenField_simm0007(pub i8);

impl TokenField_simm0007 {
    /// The field's value, for execution.
    pub fn execution(&self) -> (r: i8)
        ensures
            r == self.0,
    {
        self.0
    }

    /// The field's value, for decoding.
    pub fn disassembly(&self) -> (r: i64)
        ensures
            r == self.0 as i64,
    {
        self.0 as i64
    }

    /// The field shown as a hexadecimal number.
    pub fn display(&self) -> (r: DisplayElement)
        ensures
            r == DisplayElement::Number(true, self.0 as i64),
    {
        meaning_number(true, self.0 as i64)
    }
}

/// The `simm0003` token field.
#[derive(Clone, Copy, Debug)]
pub struct TokenField_simm0003(pub i8);

impl TokenField_simm0003 {
    /// The field's value, for execution.
    pub fn execution(&self) -> (r: i8)
        ensures
            r == self.0,
    {
        self.0
    }

    /// The field's value, for decoding.
    pub fn disassembly(&self) -> (r: i64)
        ensures
            r == self.0 as i64,
    {
        self.0 as i64
    }

    /// The field shown as a hexadecimal number.
    pub fn display(&self) -> (r: DisplayElement)
        ensures
            r == DisplayElement::Number(true, self.0 as i64),
    {
        meaning_number(true, self.0 as i64)
    }
}

/// The `cc0911` token field.
#[derive(Clone, Copy, Debug)]
pub struct TokenField_cc0911(pub u8);

impl TokenField_cc0911 {
    /// The field's value, for execution.
    pub fn execution(&self) -> (r: u8)
        ensures
            r == self.0,
    {
        self.0
    }

    /// The field's value, for decoding.
    pub fn disassembly(&self) -> (r: i64)
        ensures
            r == self.0 as i64,
    {
        self.0 as i64
    }

    /// The field shown as a hexadecimal number.
    pub fn display(&self) -> (r: DisplayElement)
        ensures
            r == DisplayElement::Number(true, self.0 as i64),
    {
        meaning_number(true, self.0 as i64)
    }
}

/// The `cc0002` token field.
#[derive(Clone, Copy, Debug)]
pub struct TokenField_cc0002(pub u8);

impl TokenField_cc0002 {
    /// The field's value, for execution.
    pub fn execution(&self) -> (r: u8)
        ensures
            r == self.0,
    {
        self.0
    }

    /// The field's value, for decoding.
    pub fn disassembly(&self) -> (r: i64)
        ensures
            r == self.0 as i64,
    {
        self.0 as i64
    }

    /// The field shown as a hexadecimal number.
    pub fn display(&self) -> (r: DisplayElement)
        ensures
            r == DisplayElement::Number(true, self.0 as i64),
    {
        meaning_number(true, self.0 as i64)
    }
}

/// The first `LEN` bytes of the instruction stream, from which token
/// fields are read.
pub struct TokenParser<const LEN: usize>(pub [u8; LEN]);

impl<const LEN: usize> TokenParser<LEN> {
    /// Takes the first `LEN` bytes of `data`; `None` when there are fewer.
    pub fn new(data: &[u8]) -> (r: Option<Self>)
        ensures
            r is Some <==> data@.len() >= LEN,
            r matches Some(p) ==> p.0@ == data@.subrange(0, LEN as int),
    {
        if data.len() < LEN {
            return None;
        }
        let mut token_data = [0u8; LEN];
        let mut i: usize = 0;
        while i < LEN
            invariant
                LEN <= data@.len(),
                0 <= i <= LEN,
                token_data@.len() == LEN,
                forall|j: int| 0 <= j < i ==> token_data@[j] == data@[j],
            decreases LEN - i,
        {
            token_data[i] = data[i];
            i = i + 1;
        }
        assert(token_data@ =~= data@.subrange(0, LEN as int));
        Some(Self(token_data))
    }


    /// Reads the `op8` field.
    pub fn TokenFieldop8(&self) -> (r: TokenField_op8)
        requires
            LEN >= 1,
        ensures
            r.0 == op8_of(self.0@),
    {
        let work_value = [self.0[0]];
        let value = read_u8::<false>(work_value, 0, 8);
        TokenField_op8(value)
    }

    /// Reads the `xsimm8` field.
    pub fn TokenFieldxsimm8(&self) -> (r: TokenField_xsimm8)
        requires
            LEN >= 1,
        ensures
            r.0 as int == xsimm8_of(self.0@),
    {
        let work_value = [self.0[0]];
        let value = read_i8::<false>(work_value, 0, 8);
        TokenField_xsimm8(value)
    }

    /// Reads the `nnnn` field.
    pub fn TokenFieldnnnn(&self) -> (r: TokenField_nnnn)
        requires
            LEN >= 1,
        ensures
            r.0 == nnnn_of(self.0@),
    {
        let work_value = [self.0[0]];
        let value = read_u8::<false>(work_value, 0, 4);
        TokenField_nnnn(value)
    }

    /// Reads the `op1515` field.
    pub fn TokenFieldop1515(&self) -> (r: TokenField_op1515)
        requires
            LEN >= 2,
        ensures
            r.0 == op1515_of(self.0@),
    {
        let work_value = [self.0[1]];
        let value = read_u8::<false>(work_value, 7, 1);
        TokenField_op1515(value)
    }

    /// Reads the `op1415` field.
    pub fn TokenFieldop1415(&self) -> (r: TokenField_op1415)
        requires
            LEN >= 2,
        ensures
            r.0 == op1415_of(self.0@),
    {
        let work_value = [self.0[1]];
        let value = read_u8::<false>(work_value, 6, 2);
        TokenField_op1415(value)
    }

    /// Reads the `op1215` field.
    pub fn TokenFieldop1215(&self) -> (r: TokenField_op1215)
        requires
            LEN >= 2,
        ensures
            r.0 == op1215_of(self.0@),
    {
        let work_value = [self.0[1]];
        let value = read_u8::<false>(work_value, 4, 4);
        TokenField_op1215(value)
    }

    /// Reads the `op1111` field.
    pub fn TokenFieldop1111(&self) -> (r: TokenField_op1111)
        requires
            LEN >= 2,
        ensures
            r.0 == op1111_of(self.0@),
    {
        let work_value = [self.0[1]];
        let value = read_u8::<false>(work_value, 3, 1);
        TokenField_op1111(value)
    }

    /// Reads the `op0811` field.
    pub fn TokenFieldop0811(&self) -> (r: TokenField_op0811)
        requires
            LEN >= 2,
        ensures
            r.0 == op0811_of(self.0@),
    {
        let work_value = [self.0[1]];
        let value = read_u8::<false>(work_value, 0, 4);
        TokenField_op0811(value)
    }

    /// Reads the `op0407` field.
    pub fn TokenFieldop0407(&self) -> (r: TokenField_op0407)
        requires
            LEN >= 1,
        ensures
            r.0 == op0407_of(self.0@),
    {
        let work_value = [self.0[0]];
        let value = read_u8::<false>(work_value, 4, 4);
        TokenField_op0407(value)
    }

    /// Reads the `op0007` field.
    pub fn TokenFieldop0007(&self) -> (r: TokenField_op0007)
        requires
            LEN >= 1,
        ensures
            r.0 == op0007_of(self.0@),
    {
        let work_value = [self.0[0]];
        let value = read_u8::<false>(work_value, 0, 8);
        TokenField_op0007(value)
    }

    /// Reads the `op0003` field.
    pub fn TokenFieldop0003(&self) -> (r: TokenField_op0003)
        requires
            LEN >= 1,
        ensures
            r.0 == op0003_of(self.0@),
    {
        let work_value = [self.0[0]];
        let value = read_u8::<false>(work_value, 0, 4);
        TokenField_op0003(value)
    }

    /// Reads the `op0303` field.
    pub fn TokenFieldop0303(&self) -> (r: TokenField_op0303)
        requires
            LEN >= 1,
        ensures
            r.0 == op0303_of(self.0@),
    {
        let work_value = [self.0[0]];
        let value = read_u8::<false>(work_value, 3, 1);
        TokenField_op0303(value)
    }

    /// Reads the `rd` field.
    pub fn TokenFieldrd(&self) -> (r: TokenField_rd)
        requires
            LEN >= 2,
        ensures
            r.0 == rd_of(self.0@),
            r.0 < 16,
    {
        let work_value = [self.0[1]];
        let value = read_u8::<false>(work_value, 0, 4);
        let b = work_value[0];
        assert(bits_u8(b, 0, 4) < 16) by (bit_vector);
        TokenField_rd(value)
    }

    /// Reads the `rs` field.
    pub fn TokenFieldrs(&self) -> (r: TokenField_rs)
        requires
            LEN >= 1,
        ensures
            r.0 == rs_of(self.0@),
            r.0 < 16,
    {
        let work_value = [self.0[0]];
        let value = read_u8::<false>(work_value, 4, 4);
        let b = work_value[0];
        assert(bits_u8(b, 4, 4) < 16) by (bit_vector);
        TokenField_rs(value)
    }

    /// Reads the `rt` field.
    pub fn TokenFieldrt(&self) -> (r: TokenField_rt)
        requires
            LEN >= 1,
        ensures
            r.0 == rt_of(self.0@),
            r.0 < 16,
    {
        let work_value = [self.0[0]];
        let value = read_u8::<false>(work_value, 0, 4);
        let b = work_value[0];
        assert(bits_u8(b, 0, 4) < 16) by (bit_vector);
        TokenField_rt(value)
    }

    /// Reads the `imm1213` field.
    pub fn TokenFieldimm1213(&self) -> (r: TokenField_imm1213)
        requires
            LEN >= 2,
        ensures
            r.0 == imm1213_of(self.0@),
    {
        let work_value = [self.0[1]];
        let value = read_u8::<false>(work_value, 4, 2);
        TokenField_imm1213(value)
    }

    /// Reads the `imm0007` field.
    pub fn TokenFieldimm0007(&self) -> (r: TokenField_imm0007)
        requires
            LEN >= 1,
        ensures
            r.0 == imm0007_of(self.0@),
    {
        let work_value = [self.0[0]];
        let value = read_u8::<false>(work_value, 0, 8);
        TokenField_imm0007(value)
    }

    /// Reads the `imm0003` field.
    pub fn TokenFieldimm0003(&self) -> (r: TokenField_imm0003)
        requires
            LEN >= 1,
        ensures
            r.0 == imm0003_of(self.0@),
    {
        let work_value = [self.0[0]];
        let value = read_u8::<false>(work_value, 0, 4);
        TokenField_imm0003(value)
    }

    /// Reads the `simm1213` field.
    pub fn TokenFieldsimm1213(&self) -> (r: TokenField_simm1213)
        requires
            LEN >= 2,
        ensures
            r.0 as int == simm1213_of(self.0@),
    {
        let work_value = [self.0[1]];
        let value = read_i8::<false>(work_value, 4, 2);
        TokenField_simm1213(value)
    }

    /// Reads the `simm0010` field.
    pub fn TokenFieldsimm0010(&self) -> (r: TokenField_simm0010)
        requires
            LEN >= 2,
        ensures
            r.0 as int == simm0010_of(self.0@),
    {
        let work_value = [self.0[0], self.0[1]];
        let value = read_i16::<false>(work_value, 0, 11);
        TokenField_simm0010(value)
    }

    /// Reads the `simm0411` field.
    pub fn TokenFieldsimm0411(&self) -> (r: TokenField_simm0411)
        requires
            LEN >= 2,
        ensures
            r.0 as int == simm0411_of(self.0@),
    {
        let work_value = [self.0[0], self.0[1]];
        let value = read_i16::<false>(work_value, 4, 8);
        let b0 = self.0[0];
        let b1 = self.0[1];
        assert(-128 <= value <= 127) by (bit_vector)
            requires
                value as int == sign_extend(bits_u16(word_of(b0, b1, false), 4, 8), 8),
        ;
        TokenField_simm0411(value as i8)
    }

    /// Reads the `simm0007` field.
    pub fn TokenFieldsimm0007(&self) -> (r: TokenField_simm0007)
        requires
            LEN >= 1,
        ensures
            r.0 as int == simm0007_of(self.0@),
    {
        let work_value = [self.0[0]];
        let value = read_i8::<false>(work_value, 0, 8);
        TokenField_simm0007(value)
    }

    /// Reads the `simm0003` field.
    pub fn TokenFieldsimm0003(&self) -> (r: TokenField_simm0003)
        requires
            LEN >= 1,
        ensures
            r.0 as int == simm0003_of(self.0@),
    {
        let work_value = [self.0[0]];
        let value = read_i8::<false>(work_value, 0, 4);
        TokenField_simm0003(value)
    }

    /// Reads the `cc0911` field.
    pub fn TokenFieldcc0911(&self) -> (r: TokenField_cc0911)
        requires
            LEN >= 2,
        ensures
            r.0 == cc0911_of(self.0@),
    {
        let work_value = [self.0[1]];
        let value = read_u8::<false>(work_value, 1, 3);
        TokenField_cc0911(value)
    }

    /// Reads the `cc0002` field.
    pub fn TokenFieldcc0002(&self) -> (r: TokenField_cc0002)
        requires
            LEN >= 1,
        ensures
            r.0 == cc0002_of(self.0@),
    {
        let work_value = [self.0[0]];
        let value = read_u8::<false>(work_value, 0, 3);
        TokenField_cc0002(value)
    }
}

} // verus!
