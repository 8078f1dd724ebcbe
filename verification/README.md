# nes_emu

The parts of an NES emulator, with their behaviour stated in Verus
contracts and proved: two 6502 cores, the picture unit, the sound unit,
cartridges with their mappers, controllers and the system bus that links
the devices. The CPU cores run against a flat 64 KiB memory (`nes/bus.rs`);
the system bus clocks the picture unit it holds, three clocks per CPU
cycle with the NMI taken, and feeds the DMC its sample bytes through its
own reads, but no core is yet clocked against it.

## Layout

- `src/` — the verified library.
  - `cpu/` — two 6502 cores. `processor.rs` decodes through the opcode
    table of `decode.rs` and runs `clock`; its semantics are spelled out in
    `model.rs`. `cpu6502.rs` is a core whose handlers read their operand at
    the effective address and that also implements the stable unofficial
    opcodes. `laws.rs` holds the properties that span instructions (stack
    round trips, arithmetic, load after store, call and return).
  - `ppu/` — the picture unit: the loopy scroll register, OAM, the CPU
    registers, the per-cycle `clock` (background fetches, sprite evaluation,
    sprite-0 hit, vertical blank and NMI) and the pattern-table view.
    `ppu.rs` is a simpler register-level PPU used with the minimal bus.
  - `cartridge/` — iNES parsing and mappers 000, 001, 002, 003, 004 and 066.
  - `apu/` — the APU registers, length counters, sweep units, frame
    sequencer step, DMC playback, and the integer parts of the waveforms.
  - `bus/` — the system bus (RAM mirroring, PPU and APU registers,
    controllers, OAM DMA, cartridge space, the PPU's clocks and NMI, DMC
    sample reads) and a minimal bus.
  - `controller.rs`, `frame.rs`, `network.rs`, `nes/` — controllers, frame
    buffers, the two-player session decisions and the console core.
- `tests/` — tests of the library on concrete values.
- `app/` — the program around the library: logging and the run loop, the
  window loop, the frame-sequencer thread and the floating-point waveform
  streams, the command-line arguments, and the JSON encoding of session
  messages.
