# r68k

A Motorola 68000 emulator, disassembler and assembler, written in Verus:
every function of the library carries a contract that Verus proves.

## Layout

- `src/ram`: the bus. `PagedMem` holds memory in pages allocated on the
  first write that differs from the initializer pattern; `LoggingMem`
  records every access. Laws: a read at the address of a write gives back
  what was written, and `diffs` lists every byte that differs from the
  initializer pattern.
- `src/interrupts.rs`: the interrupt controller (autovectored requests).
- `src/cpu`: the processor. `ConfiguredCore` holds the registers, flags and
  memory; `effective_address` and `operator` read operands; `ops/common`
  computes each ALU operation with its condition codes; `ops` holds one
  handler per instruction form (the arithmetic and logical instructions
  with two operands, the immediate and quick forms, BCD, bit operations on
  registers, the control instructions), with MOVE and MOVEA in
  `ops/moves`, Bcc, DBcc, Scc, JMP, JSR, LEA and PEA in `ops/flow`, CLR,
  NEG, NEGX, NOT, TST, TAS and NBCD in `ops/unary`, ADDA, SUBA, CMPA,
  MULS, MULU, DIVS and DIVU in `ops/arith`, the shifts and rotations in
  `ops/shifts`, the bit operations on memory in `ops/bits`, the moves to
  and from CCR and SR in `ops/status` and MOVEM in `ops/movem`.
  `ops/handlers` is the decoding table that maps each of the 65536
  instruction words to a handler, grouped by the top four bits of the
  word; a word that no pattern matches is an illegal instruction. `execute` runs the
  fetch / dispatch / exception loop; its contract states the run as a
  sequence of steps, each the table's handler for the fetched word, and
  hands each raised exception to the caller's `Callbacks`, whose own
  `answers` relation says what it does with it. A core is well formed when
  its memory is, its S flag is 0 or 4 and its interrupt mask is a level
  shifted left by eight; every operation keeps that.
  Laws: condition codes of ADD/SUB/CMP and the logical operations, the
  values of the shifts stated directly, rotations undoing each other,
  ABCD as decimal addition, DIVU's quotient and remainder, the status
  register round trip, the stack pointers kept across a write of the
  status register, RTE returning from an exception frame, complementary
  branch conditions, and one costing step per `execute1`; a run takes off
  every count its steps report, a negative one too.
- `src/dasm`: the disassembler and assembler for ADD, ADDA and ADDI.
  `disassemble` decodes words into an `OpcodeInstance`, `to_string` writes
  it in assembly, `parse_assembler` reads that text back, and
  `encode_instruction` writes the words again. Laws: reassembling a
  disassembled instruction gives back its words (for an indexed operand,
  when bits 8 to 11 of its extension word, which the decoder ignores, are
  clear), `encode_ea` inverts the decoding of an addressing mode, and
  reading the text of an instruction gives back the instruction.
- `src/text.rs`: decimal and hexadecimal formatting used by the messages.
- `app/`: glue to the C libraries the emulator is compared against
  (Musashi and capstone); it is plain Rust outside verification.
- `tests/`: the test suites.
