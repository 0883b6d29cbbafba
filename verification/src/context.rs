//! The context register space that the decoder reads and updates, the
//! memory traits through which it is accessed, and the hook that receives
//! the context values an instruction sets for other addresses.
use vstd::prelude::*;
use crate::bits::{bits_u8, insert_bits_u8, read_u8, write_u8};
use crate::display::{DisplayElement, meaning_number};

verus! {

/// Receives the context values that a decoded instruction sets at other
/// addresses (for instance for the instruction that follows it).
///
/// A receiver that keeps a log of the requests it receives says so through
/// `keeps_log`; each call then appends its request to `log`. A receiver that
/// does not say so promises nothing of what it does with the requests.
pub trait GlobalSetTrait {
    /// Whether this receiver keeps `log`.
    open spec fn keeps_log() -> bool {
        false
    }

    /// The requests received so far, oldest first.
    open spec fn log(&self) -> Seq<GlobalSetRequest> {
        Seq::empty()
    }

    /// Receives the value of `fctx` for the instruction at `address`.
    fn set_fctx(&mut self, address: Option<u32>, value: i64)
        ensures
            Self::keeps_log() ==> final(self).log() == old(self).log().push(GlobalSetRequest::Fctx(address, value)),
    ;

    /// Receives the value of `nfctx` for the instruction at `address`.
    fn set_nfctx(&mut self, address: Option<u32>, value: i64)
        ensures
            Self::keeps_log() ==> final(self).log() == old(self).log().push(GlobalSetRequest::Nfctx(address, value)),
    ;

    /// Receives the value of `phase` for the instruction at `address`.
    fn set_phase(&mut self, address: Option<u32>, value: i64)
        ensures
            Self::keeps_log() ==> final(self).log() == old(self).log().push(GlobalSetRequest::Phase(address, value)),
    ;

    /// Receives the value of `counter` for the instruction at `address`.
    fn set_counter(&mut self, address: Option<u32>, value: i64)
        ensures
            Self::keeps_log() ==> final(self).log() == old(self).log().push(
                GlobalSetRequest::Counter(address, value),
            ),
    ;
}

/// A receiver that records every request, in the order received.
#[derive(Debug, Clone)]
pub struct GlobalSetLog {
    pub requests: Vec<GlobalSetRequest>,
}

impl GlobalSetLog {
    /// A receiver that has recorded nothing yet.
    pub fn new() -> (r: Self)
        ensures
            r.requests@ == Seq::<GlobalSetRequest>::empty(),
    {
        GlobalSetLog { requests: Vec::new() }
    }
}

impl GlobalSetTrait for GlobalSetLog {
    open spec fn keeps_log() -> bool {
        true
    }

    open spec fn log(&self) -> Seq<GlobalSetRequest> {
        self.requests@
    }

    fn set_fctx(&mut self, address: Option<u32>, value: i64) {
        self.requests.push(GlobalSetRequest::Fctx(address, value));
    }

    fn set_nfctx(&mut self, address: Option<u32>, value: i64) {
        self.requests.push(GlobalSetRequest::Nfctx(address, value));
    }

    fn set_phase(&mut self, address: Option<u32>, value: i64) {
        self.requests.push(GlobalSetRequest::Phase(address, value));
    }

    fn set_counter(&mut self, address: Option<u32>, value: i64) {
        self.requests.push(GlobalSetRequest::Counter(address, value));
    }
}

/// A context value that a decoded instruction sets at some address: which
/// field, the address (when there is one) and the value.
#[derive(Clone, Copy, Debug)]
pub enum GlobalSetRequest {
    Fctx(Option<u32>, i64),
    Nfctx(Option<u32>, i64),
    Phase(Option<u32>, i64),
    Counter(Option<u32>, i64),
}

/// Byte reads from an address space.
pub trait MemoryRead {
    type AddressType;

    /// Whether `len` bytes starting at `addr` can be read; a space that does
    /// not say so promises nothing of its reads.
    open spec fn readable(&self, addr: Self::AddressType, len: nat) -> bool {
        false
    }

    /// The `len` bytes stored starting at `addr`.
    open spec fn bytes_at(&self, addr: Self::AddressType, len: nat) -> Seq<u8> {
        Seq::empty()
    }

    /// Fills `buf` with the bytes stored starting at `addr`.
    fn read(&self, addr: Self::AddressType, buf: &mut [u8])
        requires
            self.readable(addr, old(buf)@.len()),
        ensures
            final(buf)@ == self.bytes_at(addr, old(buf)@.len()),
    ;
}

/// Byte writes to an address space.
pub trait MemoryWrite {
    type AddressType;

    /// Whether `len` bytes starting at `addr` can be written; a space that
    /// does not say so promises nothing of its writes.
    open spec fn writable(&self, addr: Self::AddressType, len: nat) -> bool {
        false
    }

    /// Whether `after` is this space with `bytes` stored starting at `addr`.
    open spec fn stores(&self, addr: Self::AddressType, bytes: Seq<u8>, after: &Self) -> bool {
        false
    }

    /// Stores the bytes of `buf` starting at `addr`.
    fn write(&mut self, addr: Self::AddressType, buf: &[u8])
        requires
            old(self).writable(addr, buf@.len()),
        ensures
            old(self).stores(addr, buf@, &*final(self)),
    ;
}

/// The context register space: eight bytes, of which the first two hold the
/// fields `fctx` (byte 0, bits 0-3), `nfctx` (byte 0, bits 4-7), `phase`
/// (byte 1, bits 0-1) and `counter` (byte 1, bits 2-5).
#[derive(Debug, Clone, Copy, Default)]
pub struct ContextregisterStruct {
    pub chunk_0x0: [u8; 8],
}

impl View for ContextregisterStruct {
    type V = Seq<u8>;

    open spec fn view(&self) -> Seq<u8> {
        self.chunk_0x0@
    }
}

/// The `fctx` field of a context register space.
pub open spec fn fctx_of(regs: Seq<u8>) -> u8 {
    bits_u8(regs[0], 0, 4)
}

/// The context register space with `value` written into the `fctx` field.
pub open spec fn with_fctx(regs: Seq<u8>, value: u8) -> Seq<u8> {
    regs.update(0, insert_bits_u8(regs[0], value, 0, 4))
}

/// The `nfctx` field of a context register space.
pub open spec fn nfctx_of(regs: Seq<u8>) -> u8 {
    bits_u8(regs[0], 4, 4)
}

/// The context register space with `value` written into the `nfctx` field.
pub open spec fn with_nfctx(regs: Seq<u8>, value: u8) -> Seq<u8> {
    regs.update(0, insert_bits_u8(regs[0], value, 4, 4))
}

/// The `phase` field of a context register space.
pub open spec fn phase_of(regs: Seq<u8>) -> u8 {
    bits_u8(regs[1], 0, 2)
}

/// The context register space with `value` written into the `phase` field.
pub open spec fn with_phase(regs: Seq<u8>, value: u8) -> Seq<u8> {
    regs.update(1, insert_bits_u8(regs[1], value, 0, 2))
}

/// The `counter` field of a context register space.
pub open spec fn counter_of(regs: Seq<u8>) -> u8 {
    bits_u8(regs[1], 2, 4)
}

/// The context register space with `value` written into the `counter` field.
pub open spec fn with_counter(regs: Seq<u8>, value: u8) -> Seq<u8> {
    regs.update(1, insert_bits_u8(regs[1], value, 2, 4))
}

impl MemoryRead for ContextregisterStruct {
    type AddressType = u16;

    open spec fn readable(&self, addr: u16, len: nat) -> bool {
        addr <= 7 && addr + len <= 8
    }

    open spec fn bytes_at(&self, addr: u16, len: nat) -> Seq<u8> {
        self@.subrange(addr as int, addr + len)
    }

    fn read(&self, addr: u16, buf: &mut [u8]) {
        let start: usize = addr as usize;
        let buf_len: usize = buf.len();
        let mut i: usize = 0;
        while i < buf_len
            invariant
                buf_len == old(buf)@.len(),
                buf@.len() == buf_len,
                start + buf_len <= 8,
                0 <= i <= buf_len,
                forall|j: int| 0 <= j < i ==> buf@[j] == self@[start + j],
            decreases buf_len - i,
        {
            buf[i] = self.chunk_0x0[start + i];
            i = i + 1;
        }
        assert(buf@ =~= self@.subrange(start as int, start + buf_len));
    }
}

impl MemoryWrite for ContextregisterStruct {
    type AddressType = u16;

    open spec fn writable(&self, addr: u16, len: nat) -> bool {
        addr <= 7 && addr + len <= 8
    }

    open spec fn stores(&self, addr: u16, bytes: Seq<u8>, after: &Self) -> bool {
        after@ == self@.subrange(0, addr as int) + bytes + self@.subrange(addr + bytes.len(), 8)
    }

    fn write(&mut self, addr: u16, buf: &[u8]) {
        let start: usize = addr as usize;
        let buf_len: usize = buf.len();
        let mut i: usize = 0;
        while i < buf_len
            invariant
                buf_len == buf@.len(),
                start + buf_len <= 8,
                0 <= i <= buf_len,
                self@.len() == 8,
                forall|j: int| 0 <= j < start ==> self@[j] == old(self)@[j],
                forall|j: int| start + buf_len <= j < 8 ==> self@[j] == old(self)@[j],
                forall|j: int| start <= j < start + i ==> self@[j] == buf@[j - start],
                forall|j: int| start + i <= j < start + buf_len ==> self@[j] == old(self)@[j],
            decreases buf_len - i,
        {
            self.chunk_0x0[start + i] = buf[i];
            i = i + 1;
        }
        assert(self@ =~= old(self)@.subrange(0, start as int) + buf@ + old(self)@.subrange(
            start + buf_len,
            8,
        ));
    }
}

/// The fields of a context register space, read and written through its
/// byte reads and writes: `fctx` (byte 0, bits 0-3), `nfctx` (byte 0, bits
/// 4-7), `phase` (byte 1, bits 0-1) and `counter` (byte 1, bits 2-5).
pub trait ContextregisterTrait: MemoryRead<AddressType = u16> + MemoryWrite<AddressType = u16> {
    /// Reads the `fctx` field.
    fn read_fctx_raw(&self) -> (r: u8)
        requires
            self.readable(0u16, 1),
        ensures
            r == bits_u8(self.bytes_at(0u16, 1)[0], 0, 4),
    {
        let mut work_value = [0u8; 1];
        self.read(0u16, &mut work_value);
        read_u8::<false>(work_value, 0, 4)
    }

    /// Writes `param` into the `fctx` field, keeping every other bit.
    fn write_fctx_raw(&mut self, param: u8)
        requires
            old(self).readable(0u16, 1),
            old(self).writable(0u16, 1),
        ensures
            old(self).stores(0u16, seq![insert_bits_u8(old(self).bytes_at(0u16, 1)[0], param, 0, 4)], &*final(self)),
    {
        let mut mem = [0u8; 1];
        self.read(0u16, &mut mem);
        let mem = write_u8::<false>(param, mem[0], 0, 4);
        assert(mem@ =~= seq![insert_bits_u8(old(self).bytes_at(0u16, 1)[0], param, 0, 4)]);
        self.write(0u16, &mem);
    }

    /// The `fctx` field as a number, for decoding.
    fn read_fctx_disassembly(&self) -> (r: i64)
        requires
            self.readable(0u16, 1),
        ensures
            r == bits_u8(self.bytes_at(0u16, 1)[0], 0, 4) as i64,
    {
        self.read_fctx_raw() as i64
    }

    /// Writes the low byte of `param` into the `fctx` field.
    fn write_fctx_disassembly(&mut self, param: i64)
        requires
            old(self).readable(0u16, 1),
            old(self).writable(0u16, 1),
        ensures
            old(self).stores(0u16, seq![insert_bits_u8(old(self).bytes_at(0u16, 1)[0], param as u8, 0, 4)], &*final(self)),
    {
        self.write_fctx_raw(param as u8)
    }

    /// The `fctx` field, for execution.
    fn read_fctx_execution(&self) -> (r: u8)
        requires
            self.readable(0u16, 1),
        ensures
            r == bits_u8(self.bytes_at(0u16, 1)[0], 0, 4),
    {
        self.read_fctx_raw()
    }

    /// Writes `param` into the `fctx` field.
    fn write_fctx_execution(&mut self, param: u8)
        requires
            old(self).readable(0u16, 1),
            old(self).writable(0u16, 1),
        ensures
            old(self).stores(0u16, seq![insert_bits_u8(old(self).bytes_at(0u16, 1)[0], param, 0, 4)], &*final(self)),
    {
        self.write_fctx_raw(param)
    }

    /// The `fctx` field as a hexadecimal number operand.
    fn fctx_display(&self) -> (r: DisplayElement)
        requires
            self.readable(0u16, 1),
        ensures
            r == DisplayElement::Number(true, bits_u8(self.bytes_at(0u16, 1)[0], 0, 4) as i64),
    {
        meaning_number(true, self.read_fctx_raw() as i64)
    }

    /// Reads the `nfctx` field.
    fn read_nfctx_raw(&self) -> (r: u8)
        requires
            self.readable(0u16, 1),
        ensures
            r == bits_u8(self.bytes_at(0u16, 1)[0], 4, 4),
    {
        let mut work_value = [0u8; 1];
        self.read(0u16, &mut work_value);
        read_u8::<false>(work_value, 4, 4)
    }

    /// Writes `param` into the `nfctx` field, keeping every other bit.
    fn write_nfctx_raw(&mut self, param: u8)
        requires
            old(self).readable(0u16, 1),
            old(self).writable(0u16, 1),
        ensures
            old(self).stores(0u16, seq![insert_bits_u8(old(self).bytes_at(0u16, 1)[0], param, 4, 4)], &*final(self)),
    {
        let mut mem = [0u8; 1];
        self.read(0u16, &mut mem);
        let mem = write_u8::<false>(param, mem[0], 4, 4);
        assert(mem@ =~= seq![insert_bits_u8(old(self).bytes_at(0u16, 1)[0], param, 4, 4)]);
        self.write(0u16, &mem);
    }

    /// The `nfctx` field as a number, for decoding.
    fn read_nfctx_disassembly(&self) -> (r: i64)
        requires
            self.readable(0u16, 1),
        ensures
            r == bits_u8(self.bytes_at(0u16, 1)[0], 4, 4) as i64,
    {
        self.read_nfctx_raw() as i64
    }

    /// Writes the low byte of `param` into the `nfctx` field.
    fn write_nfctx_disassembly(&mut self, param: i64)
        requires
            old(self).readable(0u16, 1),
            old(self).writable(0u16, 1),
        ensures
            old(self).stores(0u16, seq![insert_bits_u8(old(self).bytes_at(0u16, 1)[0], param as u8, 4, 4)], &*final(self)),
    {
        self.write_nfctx_raw(param as u8)
    }

    /// The `nfctx` field, for execution.
    fn read_nfctx_execution(&self) -> (r: u8)
        requires
            self.readable(0u16, 1),
        ensures
            r == bits_u8(self.bytes_at(0u16, 1)[0], 4, 4),
    {
        self.read_nfctx_raw()
    }

    /// Writes `param` into the `nfctx` field.
    fn write_nfctx_execution(&mut self, param: u8)
        requires
            old(self).readable(0u16, 1),
            old(self).writable(0u16, 1),
        ensures
            old(self).stores(0u16, seq![insert_bits_u8(old(self).bytes_at(0u16, 1)[0], param, 4, 4)], &*final(self)),
    {
        self.write_nfctx_raw(param)
    }

    /// The `nfctx` field as a hexadecimal number operand.
    fn nfctx_display(&self) -> (r: DisplayElement)
        requires
            self.readable(0u16, 1),
        ensures
            r == DisplayElement::Number(true, bits_u8(self.bytes_at(0u16, 1)[0], 4, 4) as i64),
    {
        meaning_number(true, self.read_nfctx_raw() as i64)
    }

    /// Reads the `phase` field.
    fn read_phase_raw(&self) -> (r: u8)
        requires
            self.readable(1u16, 1),
        ensures
            r == bits_u8(self.bytes_at(1u16, 1)[0], 0, 2),
    {
        let mut work_value = [0u8; 1];
        self.read(1u16, &mut work_value);
        read_u8::<false>(work_value, 0, 2)
    }

    /// Writes `param` into the `phase` field, keeping every other bit.
    fn write_phase_raw(&mut self, param: u8)
        requires
            old(self).readable(1u16, 1),
            old(self).writable(1u16, 1),
        ensures
            old(self).stores(1u16, seq![insert_bits_u8(old(self).bytes_at(1u16, 1)[0], param, 0, 2)], &*final(self)),
    {
        let mut mem = [0u8; 1];
        self.read(1u16, &mut mem);
        let mem = write_u8::<false>(param, mem[0], 0, 2);
        assert(mem@ =~= seq![insert_bits_u8(old(self).bytes_at(1u16, 1)[0], param, 0, 2)]);
        self.write(1u16, &mem);
    }

    /// The `phase` field as a number, for decoding.
    fn read_phase_disassembly(&self) -> (r: i64)
        requires
            self.readable(1u16, 1),
        ensures
            r == bits_u8(self.bytes_at(1u16, 1)[0], 0, 2) as i64,
    {
        self.read_phase_raw() as i64
    }

    /// Writes the low byte of `param` into the `phase` field.
    fn write_phase_disassembly(&mut self, param: i64)
        requires
            old(self).readable(1u16, 1),
            old(self).writable(1u16, 1),
        ensures
            old(self).stores(1u16, seq![insert_bits_u8(old(self).bytes_at(1u16, 1)[0], param as u8, 0, 2)], &*final(self)),
    {
        self.write_phase_raw(param as u8)
    }

    /// The `phase` field, for execution.
    fn read_phase_execution(&self) -> (r: u8)
        requires
            self.readable(1u16, 1),
        ensures
            r == bits_u8(self.bytes_at(1u16, 1)[0], 0, 2),
    {
        self.read_phase_raw()
    }

    /// Writes `param` into the `phase` field.
    fn write_phase_execution(&mut self, param: u8)
        requires
            old(self).readable(1u16, 1),
            old(self).writable(1u16, 1),
        ensures
            old(self).stores(1u16, seq![insert_bits_u8(old(self).bytes_at(1u16, 1)[0], param, 0, 2)], &*final(self)),
    {
        self.write_phase_raw(param)
    }

    /// The `phase` field as a hexadecimal number operand.
    fn phase_display(&self) -> (r: DisplayElement)
        requires
            self.readable(1u16, 1),
        ensures
            r == DisplayElement::Number(true, bits_u8(self.bytes_at(1u16, 1)[0], 0, 2) as i64),
    {
        meaning_number(true, self.read_phase_raw() as i64)
    }

    /// Reads the `counter` field.
    fn read_counter_raw(&self) -> (r: u8)
        requires
            self.readable(1u16, 1),
        ensures
            r == bits_u8(self.bytes_at(1u16, 1)[0], 2, 4),
    {
        let mut work_value = [0u8; 1];
        self.read(1u16, &mut work_value);
        read_u8::<false>(work_value, 2, 4)
    }

    /// Writes `param` into the `counter` field, keeping every other bit.
    fn write_counter_raw(&mut self, param: u8)
        requires
            old(self).readable(1u16, 1),
            old(self).writable(1u16, 1),
        ensures
            old(self).stores(1u16, seq![insert_bits_u8(old(self).bytes_at(1u16, 1)[0], param, 2, 4)], &*final(self)),
    {
        let mut mem = [0u8; 1];
        self.read(1u16, &mut mem);
        let mem = write_u8::<false>(param, mem[0], 2, 4);
        assert(mem@ =~= seq![insert_bits_u8(old(self).bytes_at(1u16, 1)[0], param, 2, 4)]);
        self.write(1u16, &mem);
    }

    /// The `counter` field as a number, for decoding.
    fn read_counter_disassembly(&self) -> (r: i64)
        requires
            self.readable(1u16, 1),
        ensures
            r == bits_u8(self.bytes_at(1u16, 1)[0], 2, 4) as i64,
    {
        self.read_counter_raw() as i64
    }

    /// Writes the low byte of `param` into the `counter` field.
    fn write_counter_disassembly(&mut self, param: i64)
        requires
            old(self).readable(1u16, 1),
            old(self).writable(1u16, 1),
        ensures
            old(self).stores(1u16, seq![insert_bits_u8(old(self).bytes_at(1u16, 1)[0], param as u8, 2, 4)], &*final(self)),
    {
        self.write_counter_raw(param as u8)
    }

    /// The `counter` field, for execution.
    fn read_counter_execution(&self) -> (r: u8)
        requires
            self.readable(1u16, 1),
        ensures
            r == bits_u8(self.bytes_at(1u16, 1)[0], 2, 4),
    {
        self.read_counter_raw()
    }

    /// Writes `param` into the `counter` field.
    fn write_counter_execution(&mut self, param: u8)
        requires
            old(self).readable(1u16, 1),
            old(self).writable(1u16, 1),
        ensures
            old(self).stores(1u16, seq![insert_bits_u8(old(self).bytes_at(1u16, 1)[0], param, 2, 4)], &*final(self)),
    {
        self.write_counter_raw(param)
    }

    /// The `counter` field as a hexadecimal number operand.
    fn counter_display(&self) -> (r: DisplayElement)
        requires
            self.readable(1u16, 1),
        ensures
            r == DisplayElement::Number(true, bits_u8(self.bytes_at(1u16, 1)[0], 2, 4) as i64),
    {
        meaning_number(true, self.read_counter_raw() as i64)
    }
}

impl ContextregisterTrait for ContextregisterStruct {}

/// Storing one byte into the context register space replaces the byte at
/// that address and nothing else.
pub proof fn lemma_store_byte(before: ContextregisterStruct, addr: u16, b: u8, after: ContextregisterStruct)
    requires
        before.writable(addr, 1),
        before.stores(addr, seq![b], &after),
    ensures
        after@ == before@.update(addr as int, b),
{
    assert(after@ =~= before@.update(addr as int, b));
}

/// All address spaces of the context: the context register space.
#[derive(Debug, Clone, Copy, Default)]
pub struct SpacesStruct {
    pub register: ContextregisterStruct,
}

impl View for SpacesStruct {
    type V = Seq<u8>;

    open spec fn view(&self) -> Seq<u8> {
        self.register@
    }
}

/// A decoding context: the address spaces that the decoder reads and
/// updates.
pub trait ContextTrait {
    type Typeregister: ContextregisterTrait;

    /// The context register space.
    fn register(&self) -> &Self::Typeregister;

    /// The context register space, for updating.
    fn register_mut(&mut self) -> &mut Self::Typeregister;
}

impl ContextTrait for SpacesStruct {
    type Typeregister = ContextregisterStruct;

    fn register(&self) -> (r: &ContextregisterStruct)
        ensures
            *r == self.register,
    {
        &self.register
    }

    fn register_mut(&mut self) -> (r: &mut ContextregisterStruct)
        ensures
            *r == old(self).register,
            final(self).register == *final(r),
    {
        &mut self.register
    }
}

} // verus!
