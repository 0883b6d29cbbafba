//! Properties of the library as a whole: what a read gives back of a
//! write, and what the decoder keeps and changes in the context.
use vstd::prelude::*;
use crate::bits::{bits_u8, insert_bits_u8};
use crate::context::{
    ContextregisterStruct, MemoryRead, MemoryWrite, fctx_of, nfctx_of, phase_of, counter_of, with_fctx,
    with_nfctx, with_phase, with_counter,
};
use crate::display::register_of;
use crate::instruction::{Tableinstruction, decode_fits};
use crate::tables::TablenfctxSetAddr;
use crate::tokens::imm0003_of;

verus! {

/// Writing a value that fits into bits `start .. start + len` of a byte and
/// reading those bits back gives the value.
pub proof fn law_bits_read_after_write(mem: u8, value: u8, start: u8, len: u8)
    requires
        0 < len,
        start + len <= 8,
        (value as u16) < (1u16 << (len as u16)),
    ensures
        bits_u8(insert_bits_u8(mem, value, start, len), start, len) == value,
{
    assert(bits_u8(insert_bits_u8(mem, value, start, len), start, len) == value) by (bit_vector)
        requires
            0 < len,
            start + len <= 8,
            (value as u16) < (1u16 << (len as u16)),
    ;
}

/// Writing bytes into the context register space and reading the same
/// addresses back gives the bytes written; the other bytes keep their values.
pub proof fn law_register_read_after_write(
    before: ContextregisterStruct,
    after: ContextregisterStruct,
    addr: u16,
    bytes: Seq<u8>,
)
    requires
        before.writable(addr, bytes.len()),
        before.stores(addr, bytes, &after),
    ensures
        after.readable(addr, bytes.len()),
        after.bytes_at(addr, bytes.len()) == bytes,
        forall|i: int| 0 <= i < 8 && !(addr <= i < addr + bytes.len()) ==> after@[i] == before@[i],
{
    assert(after@.subrange(addr as int, addr + bytes.len()) =~= bytes);
}

/// Writing a value that fits into the `fctx` field and reading the field back
/// gives the value; the other fields and bytes keep their values.
pub proof fn law_fctx_read_after_write(regs: Seq<u8>, value: u8)
    requires
        regs.len() == 8,
        value < 16,
    ensures
        fctx_of(with_fctx(regs, value)) == value,
        nfctx_of(with_fctx(regs, value)) == nfctx_of(regs),
        with_fctx(regs, value).subrange(1, 8) == regs.subrange(1, 8),
{
    let b = regs[0];
    assert(bits_u8(insert_bits_u8(b, value, 0, 4), 0, 4) == value) by (bit_vector)
        requires
            value < 16,
    ;
    assert(bits_u8(insert_bits_u8(b, value, 0, 4), 4, 4) == bits_u8(b, 4, 4)) by (bit_vector)
        requires
            value < 16,
    ;
    assert(with_fctx(regs, value).subrange(1, 8) =~= regs.subrange(1, 8));
}

/// Writing a value that fits into the `nfctx` field and reading the field
/// back gives the value; the other fields and bytes keep their values.
pub proof fn law_nfctx_read_after_write(regs: Seq<u8>, value: u8)
    requires
        regs.len() == 8,
        value < 16,
    ensures
        nfctx_of(with_nfctx(regs, value)) == value,
        fctx_of(with_nfctx(regs, value)) == fctx_of(regs),
        with_nfctx(regs, value).subrange(1, 8) == regs.subrange(1, 8),
{
    let b = regs[0];
    assert(bits_u8(insert_bits_u8(b, value, 4, 4), 4, 4) == value) by (bit_vector)
        requires
            value < 16,
    ;
    assert(bits_u8(insert_bits_u8(b, value, 4, 4), 0, 4) == bits_u8(b, 0, 4)) by (bit_vector)
        requires
            value < 16,
    ;
    assert(with_nfctx(regs, value).subrange(1, 8) =~= regs.subrange(1, 8));
}

/// Writing a value that fits into the `phase` field and reading the field
/// back gives the value; the other fields and bytes keep their values.
pub proof fn law_phase_read_after_write(regs: Seq<u8>, value: u8)
    requires
        regs.len() == 8,
        value < 4,
    ensures
        phase_of(with_phase(regs, value)) == value,
        counter_of(with_phase(regs, value)) == counter_of(regs),
        with_phase(regs, value)[0] == regs[0],
        with_phase(regs, value).subrange(2, 8) == regs.subrange(2, 8),
{
    let b = regs[1];
    assert(bits_u8(insert_bits_u8(b, value, 0, 2), 0, 2) == value) by (bit_vector)
        requires
            value < 4,
    ;
    assert(bits_u8(insert_bits_u8(b, value, 0, 2), 2, 4) == bits_u8(b, 2, 4)) by (bit_vector)
        requires
            value < 4,
    ;
    assert(with_phase(regs, value).subrange(2, 8) =~= regs.subrange(2, 8));
}

/// Writing a value that fits into the `counter` field and reading the field
/// back gives the value; the other fields and bytes keep their values.
pub proof fn law_counter_read_after_write(regs: Seq<u8>, value: u8)
    requires
        regs.len() == 8,
        value < 16,
    ensures
        counter_of(with_counter(regs, value)) == value,
        phase_of(with_counter(regs, value)) == phase_of(regs),
        with_counter(regs, value)[0] == regs[0],
        with_counter(regs, value).subrange(2, 8) == regs.subrange(2, 8),
{
    let b = regs[1];
    assert(bits_u8(insert_bits_u8(b, value, 2, 4), 2, 4) == value) by (bit_vector)
        requires
            value < 16,
    ;
    assert(bits_u8(insert_bits_u8(b, value, 2, 4), 0, 2) == bits_u8(b, 0, 2)) by (bit_vector)
        requires
            value < 16,
    ;
    assert(with_counter(regs, value).subrange(2, 8) =~= regs.subrange(2, 8));
}

/// Distinct register field values name distinct registers.
pub proof fn law_register_fields_distinct(a: u8, b: u8)
    requires
        a < 16,
        b < 16,
        a != b,
    ensures
        register_of(a) != register_of(b),
{
}

/// What holds of one decoding step from the context registers `regs` to
/// `after`, consuming `len` of the token bytes `t`.
pub open spec fn step_facts(t: Seq<u8>, regs: Seq<u8>, len: nat, after: Seq<u8>) -> bool {
    &&& phase_of(regs) == 1
    &&& 1 <= len <= t.len()
    &&& len <= 17
    &&& after.len() == 8
    &&& phase_of(after) == 1
    &&& after.subrange(2, 8) == regs.subrange(2, 8)
}

proof fn lemma_form_facts(k: int, t: Seq<u8>, regs: Seq<u8>)
    requires
        1 <= k <= 60,
        regs.len() == 8,
    ensures
        Tableinstruction::spec_form(k, t, regs) matches Some((n, v, r)) ==> step_facts(t, regs, n, r),
{
    if t.len() >= 2 {
        let b = t[0];
        assert(bits_u8(b, 0, 4) < 16) by (bit_vector);
        let imm = imm0003_of(t);
        law_fctx_read_after_write(regs, imm);
        law_nfctx_read_after_write(regs, imm);
        law_counter_read_after_write(regs, 0);
        assert(with_fctx(regs, imm)[1] == regs[1]);
        assert(with_nfctx(regs, imm)[1] == regs[1]);
        assert(with_fctx(regs, imm).subrange(2, 8) =~= regs.subrange(2, 8));
        assert(with_nfctx(regs, imm).subrange(2, 8) =~= regs.subrange(2, 8));
        assert(with_counter(regs, 0).subrange(2, 8) =~= regs.subrange(2, 8));
    }
}

proof fn lemma_first_facts(t: Seq<u8>, regs: Seq<u8>, k: int)
    requires
        1 <= k,
        regs.len() == 8,
    ensures
        Tableinstruction::spec_first(t, regs, k) matches Some((n, v, r)) ==> step_facts(t, regs, n, r),
    decreases 61 - k,
{
    if k <= 60 {
        lemma_form_facts(k, t, regs);
        lemma_first_facts(t, regs, k + 1);
    }
}

/// Decoding succeeds only in phase 0 or 1, and leaves the context in phase 1.
pub proof fn law_decode_phase(t: Seq<u8>, regs: Seq<u8>)
    requires
        regs.len() == 8,
    ensures
        phase_of(regs) > 1 ==> Tableinstruction::spec_parse(t, regs) is None,
        Tableinstruction::spec_parse(t, regs) matches Some((n, v, r)) ==> phase_of(r) == 1,
{
    lemma_first_facts(t, regs, 1);
    law_phase_read_after_write(regs, 1);
    lemma_first_facts(t, with_phase(regs, 1), 1);
}

/// A decoded instruction takes at least one and at most seventeen bytes, and
/// never more bytes than were given.
pub proof fn law_decode_length(t: Seq<u8>, regs: Seq<u8>)
    requires
        regs.len() == 8,
    ensures
        Tableinstruction::spec_parse(t, regs) matches Some((n, v, r)) ==> 1 <= n <= t.len() && n <= 17,
{
    lemma_first_facts(t, regs, 1);
    law_phase_read_after_write(regs, 1);
    lemma_first_facts(t, with_phase(regs, 1), 1);
}

/// Decoding changes only the first two bytes of the context registers (the
/// fields `fctx`, `nfctx`, `phase` and `counter` live there).
pub proof fn law_decode_keeps_other_bytes(t: Seq<u8>, regs: Seq<u8>)
    requires
        regs.len() == 8,
    ensures
        Tableinstruction::spec_parse(t, regs) matches Some((n, v, r)) ==> r.len() == 8 && r.subrange(2, 8)
            == regs.subrange(2, 8),
{
    lemma_first_facts(t, regs, 1);
    law_phase_read_after_write(regs, 1);
    lemma_first_facts(t, with_phase(regs, 1), 1);
}

/// Starting in phase 0 decodes the same instruction as starting in phase 1:
/// the same length, the same context afterwards, the same text and the same
/// values passed on.
pub proof fn law_entry_phase(t: Seq<u8>, regs: Seq<u8>)
    requires
        regs.len() == 8,
        phase_of(regs) == 0,
    ensures
        match (Tableinstruction::spec_parse(t, regs), Tableinstruction::spec_parse(t, with_phase(regs, 1))) {
            (Some((n0, v0, r0)), Some((n1, v1, r1))) => {
                &&& n0 == n1
                &&& r0 == r1
                &&& forall|inst_start: u32, inst_next: u32|
                    v0.spec_display(r0, inst_start, inst_next) == v1.spec_display(r1, inst_start, inst_next)
                        && v0.spec_sets(r0, inst_start, inst_next) == v1.spec_sets(r1, inst_start, inst_next)
                        && v0.display_ok(inst_start) == v1.display_ok(inst_start)
            },
            (None, None) => true,
            _ => false,
        },
{
    law_phase_read_after_write(regs, 1);
    lemma_first_facts(t, regs, 1);
}

proof fn lemma_display_ok(v: Tableinstruction, inst_start: u32)
    requires
        128 <= inst_start <= u32::MAX - 127,
    ensures
        v.display_ok(inst_start),
    decreases v,
{
    match v {
        Tableinstruction::Var0(x) => lemma_display_ok(*x.instruction, inst_start),
        Tableinstruction::Var20(x) => {
            match x.nfctxSetAddr {
                TablenfctxSetAddr::Var0(y) => {},
            }
        },
        _ => {},
    }
}

/// An instruction that lies at least 128 bytes above address 0 and at least
/// 127 bytes below the top of the 32-bit address space decodes without
/// leaving the 32-bit addresses: the decoder's precondition holds there.
pub proof fn law_decode_fits(t: Seq<u8>, regs: Seq<u8>, inst_start: u32)
    requires
        regs.len() == 8,
        128 <= inst_start <= u32::MAX - 127,
    ensures
        decode_fits(t, regs, inst_start),
{
    law_decode_length(t, regs);
    if let Some((n, v, r)) = Tableinstruction::spec_parse(t, regs) {
        lemma_display_ok(v, inst_start);
    }
}

proof fn lemma_display_nonempty(v: Tableinstruction, regs: Seq<u8>, inst_start: u32, inst_next: u32)
    ensures
        v.spec_display(regs, inst_start, inst_next).len() >= 1,
    decreases v,
{
    match v {
        Tableinstruction::Var0(x) => lemma_display_nonempty(*x.instruction, regs, inst_start, inst_next),
        _ => {},
    }
}

/// The text of a decoded instruction is never empty: it starts with the
/// mnemonic.
pub proof fn law_decode_text_nonempty(t: Seq<u8>, regs: Seq<u8>, inst_start: u32, inst_next: u32)
    ensures
        Tableinstruction::spec_parse(t, regs) matches Some((n, v, r)) ==> v.spec_display(
            r,
            inst_start,
            inst_next,
        ).len() >= 1,
{
    if let Some((n, v, r)) = Tableinstruction::spec_parse(t, regs) {
        lemma_display_nonempty(v, r, inst_start, inst_next);
    }
}

} // verus!
