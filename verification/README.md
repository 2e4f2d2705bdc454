# pogboy

A Game Boy emulator core whose behaviour is stated in Verus contracts and proved.

## Layout

- `src/` — the verified library.
  - `cpu` — the register file, every instruction, interrupts, the timer, instruction
    dispatch and `step`; `cpu::feasible` tells, at run time, whether `step` may be called;
    `cpu::run` holds the main loop's decisions.
  - `memory` — the bus (`mmu`), the cartridge and its memory bank controllers (`mbc`),
    the opcode tables (`op_codes_parser`) and the interrupt registers.
  - `ppu` — video RAM, sprites, tiles, the LCD registers, scan-line rendering into a
    frame buffer and text dumps of the tile maps.
  - `io` — the joypad register.
  - `decoder` — a stand-alone decoder over a byte buffer.
  - `frame` — the RGBA frame buffer, backed by the `image` crate.
  - `text` — hexadecimal and decimal text used by the dumps.
- `tests/` — tests of the library.
- `app/` — the program around it: reading the ROM and the opcode table, the window,
  the main loop, keyboard input and the debug dumps.

## Arithmetic

The instructions compute in 8- and 16-bit integers. Where an intermediate value would
leave its type, the library does not wrap silently: the `requires` of the operation
excludes that input, and `cpu::feasible::can_step_now` (or `cpu::run::run_slice`,
which tests each stage before it runs) lets the caller test it first. Three counters
wrap by design, as the emulator does when built for release: the 32-bit clock, the
byte that DEC (HL) takes below zero, and the background's column, which goes round
the 256 pixels of the tile map as the 8-bit sum of the column and SCX does.

## The main loop

`cpu::run` holds the decisions of the emulator's loop: `run_slice` runs one
instruction, serves interrupts, advances the PPU and the timers, requests VBlank and
LCD STAT, and counts cycles towards the next frame; `pacing_sleep` says how long to
wait once a frame is shown; `handle_key` acts on a key (Escape quits, `l` toggles the
execution log, `t` switches the tile set area of LCDC, `d` asks for a dump, and the
joypad keys are held and released). `app/` does the waiting, the window, and the
printing.
