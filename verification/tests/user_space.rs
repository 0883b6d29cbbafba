use lib::context::{ContextregisterTrait, MemoryRead, MemoryWrite};

/// A register space kept as a vector of bytes, written by hand.
struct ByteSpace {
    bytes: Vec<u8>,
}

impl MemoryRead for ByteSpace {
    type AddressType = u16;
    fn read(&self, addr: u16, buf: &mut [u8]) {
        let start = addr as usize;
        buf.copy_from_slice(&self.bytes[start..start + buf.len()]);
    }
}

impl MemoryWrite for ByteSpace {
    type AddressType = u16;
    fn write(&mut self, addr: u16, buf: &[u8]) {
        let start = addr as usize;
        self.bytes[start..start + buf.len()].copy_from_slice(buf);
    }
}

impl ContextregisterTrait for ByteSpace {}

#[test]
fn fields_work_on_any_register_space() {
    let mut space = ByteSpace { bytes: vec![0; 2] };
    space.write_nfctx_raw(0xb);
    space.write_counter_execution(3);
    space.write_phase_disassembly(2);
    assert_eq!(space.bytes, vec![0xb0, 0x0e]);
    assert_eq!(space.read_nfctx_execution(), 0xb);
    assert_eq!(space.read_counter_raw(), 3);
    assert_eq!(space.read_phase_disassembly(), 2);
    assert_eq!(space.fctx_display().to_string(), "0x0");
}
