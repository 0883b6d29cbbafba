# Toy disassembler

A verified disassembler for the Toy processor (little-endian, 2-byte aligned
variant). Given the bytes at an address and the decoding context, it returns
the length of the instruction, its text as a list of display elements, the
updated context, and the context values the instruction sets for other
addresses.

Layout of `src/`:

- `bits.rs`: reading and writing bit fields of one- and two-byte buffers.
- `display.rs`: registers, display elements and their text.
- `context.rs`: the byte-addressed context register space, its fields
  (`fctx`, `nfctx`, `phase`, `counter`) and the traits through which they are
  read and written.
- `tokens.rs`: the token fields of instruction words.
- `tables.rs`: operand forms, condition codes and the context-setting and
  byte-skipping constructors.
- `instruction.rs`: the instruction table and the decoder entry points
  `decode_instruction` and `parse_instruction`.
- `laws.rs`: properties of the library as a whole (read after write, what
  decoding keeps and changes, the lengths it consumes).

Each decoder function is specified against a mathematical model: the token
bytes and the context registers are sequences of bytes, and every table has a
specification function that gives the decoded constructor, its text and the
new context.
