# Phosphor core, verified

The core of a retro CPU emulator framework, written in Verus: cycle-stepped
CPU cores, a paged memory map with watchpoints, a fractional clock divider
and an audio resampler. Each function states its behavior as a contract
that Verus proves.

## Layout

- `src/bus.rs`, `src/component.rs`, `src/debug.rs`, `src/machine.rs`: the
  interfaces a machine implements and the cores are stepped against.
- `src/clock.rs`: the fractional clock divider.
- `src/audio.rs`: the Bresenham box-filter resampler.
- `src/memory_map.rs`: 256-byte pages of RAM, ROM, I/O or unmapped space,
  with watchpoints.
- `src/cpu/i8088/`: the Intel 8088: instruction decoding, ModR/M
  addressing, the ALU and its flags, the microcode routines and cycle
  timing, the bus interface unit and the prefetch queue.
- `src/cpu/m6502/`: the MOS 6502, one clock per step, each opcode an
  addressing mode and an operation.
- `src/cpu/i8035/`: the Intel 8035 (MCS-48).
- `src/cpu/disasm.rs`: a disassembled instruction and its text.
- `app/`: what works in floating point or implements std's formatting
  traits (the f32 resampler, the frame rate, the `Machine` trait, a
  printable copy of a disassembled instruction).
- `tests/`: the tests, run against the compiled library.

## Reading the contracts

The cores never assume anything of what the bus returns. Where a step reads
the bus, its contract gives the next state as a function of the state
before and of the byte read, for every byte.
The same contracts say which bus transactions the step made, in order,
through the bus's `accesses` record: each address read with the byte that
came back, each address written with the byte written, and each look at
the interrupt lines. Port I/O is not part of that record.
