# tetsuyu

A Game Boy / Game Boy Color emulator core written in Verus: the hardware
models are executable Rust whose behaviour is stated in `requires`/`ensures`
contracts and proved.

## Layout

- `src/components/` — the SM83 register file and ALU, the
  instruction-at-a-time interpreter (`cpu.rs`, with its state-machine
  semantics in `cpu/semantics.rs`) and a flat 64 KiB RAM it can run over,
  the joypad, serial port, batch timer,
  the period timer and volume envelope of the sound channels, and the PPU:
  its register file and VRAM/OAM ports, the per-dot mode sequencer with the
  STAT interrupt line, pixel priority and colour resolution, the DMG OAM
  corruption bug (`ppu/ppu.rs`), the integer colour curves (`ppu/cc.rs`),
  and the Mode 3 pixel pipeline with its BG
  fetcher, FIFOs and sprite fetches (`ppu/fetcher.rs`).
- `src/hw/` — the cycle-level core: the micro-op CPU sequencer and its
  programs, the clock, timer, interrupt controller, DMA engines, the PPU
  port and the system bus (cartridge, boot ROM overlay, WRAM/HRAM, joypad,
  serial and CGB control registers), each a chip on a shared bus; the
  motherboard (`hw/motherboard.rs`) that steps them one M-cycle and one dot
  at a time, arbitrates the bus and drives the DMA, with a model of what
  each step does to the whole board (there is no sound unit on the
  board); and (`hw/timing.rs`) the proof that, for every
  opcode whose length does not depend on the flags (all but the
  conditional jumps, calls and returns, the CB prefix and STOP), the
  micro-op program takes the M-cycles the instruction-level interpreter
  charges.
- `src/mbc/` — the cartridge header, licensee and cartridge-type tables, and
  the ROM-only cartridge and the MBC1/2/3/5 bank controllers with the MBC3
  clock, and the cartridge that holds whichever of them the header names.
- `src/blip/` — band-limited sound synthesis buffer; its step kernel has
  unit gain at every phase.
- `src/framebuffer.rs`, `src/harness.rs`, `src/gpu.rs`, `src/config.rs` —
  frame buffers with the log of frames handed to the display, the headless
  harness that runs the motherboard to a stop condition, PNG reference
  images and frame comparison against them, the early LCD register file,
  and settings.
- `src/memory.rs` — the `Memory` trait every addressable device implements,
  with its abstract read/write model.
- `src/bits.rs` — the bit-level facts the proofs share.
- `app/` — the command-line front end (argument parsing, settings file, ROM
  and boot ROM loading, a headless run of the machine, host display side of the frame channel, the
  floating-point colour-correction tables and sample-rate scaling, reading
  PNG reference images from disk).
- `tests/` — executable tests of the library.
