# r6502

An emulator of the MOS 6502 processor whose decoder and executor are
verified with Verus.

- `src/state.rs`: the status register (`SystemFlags`), the processor state
  with its log of bus cycles, and the error type.
- `src/emulator.rs`: the `VirtualMemory` trait, 64 KiB of RAM
  (`DefaultVirtualMemory`), the processor attached to a memory
  (`CPUEmulator`) and its builder.
- `src/emulator/instructions.rs`: opcodes, addressing modes, the decoder
  from an opcode byte, and the execution of one instruction.
- `src/emulator/semantics.rs`: the specification of one instruction over
  registers, a memory seen as a function, and a log of bus cycles, with the
  laws proved of it.
- `src/emulator/memory.rs`: the memory-mapped registers of the television
  interface adaptor.
- `src/emulator/state.rs`: a processor state that owns its memory.
- `app/`: a small program that runs the emulator and prints each
  instruction.

Arithmetic is binary, as on the 6502 of the NES: the decimal flag is kept
but plays no part in ADC and SBC. The undocumented opcodes are decoded. The
stable ones are executed; the unstable ones (ANE, LXA, SHA, SHX, SHY, TAS)
and KIL stop the processor with `UnimplementedInstruction`.
