//! Disassembler for the Toy processor (little-endian, 2-byte aligned
//! builder variant): bit-field primitives, the context register space,
//! token fields, display elements and the instruction decoder.
#![allow(non_camel_case_types)]
#![allow(non_snake_case)]

pub mod bits;
pub mod display;
pub mod context;
pub mod tokens;
pub mod tables;
pub mod instruction;
pub mod laws;
pub mod instruction_laws;
