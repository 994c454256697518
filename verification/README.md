# nes_emulator

A NES emulator core whose behaviour is stated in `requires` / `ensures`
contracts and proved with Verus.

- `src/` is the verified library. Each component has a mathematical model
  (a ghost struct or closed spec functions) and its operations are proved to
  act on that model exactly:
  - `cpu`, `opcodes`, `instruction`, `addressing`: the 6502 register file, the
    opcode table and addressing modes;
  - `nes`: the console — the CPU memory map (`memory`), operand resolution
    (`addressing`), instruction execution (`nes`, one step of which is
    `NES::tick`), the check a caller makes before a step (`step_check`), the
    APU, the controller port, work RAM and the cartridge mappers (NROM, MMC1);
  - `nes::ppu`: registers, nametable and palette memory, sprite memory and
    evaluation, the background and sprite pipelines (`rendering`) and the
    pattern-table picture;
  - `nes_parser`: the iNES / NES 2.0 file format;
  - `sound`: the audio output's bookkeeping around the `blip_buf` resampler
    (which level changes it is handed, and how many clocks of emulation the
    output can still absorb);
  - `ppu`, `memory`, `rom`, `inputs`: the register-file PPU, flat memory and
    ROM, and the button set;
  - `bits`: bit-level facts shared by the proofs.
- `tests/` runs the library on concrete values.
- `app/` is the program: file and argument handling, the gamepad, the float
  mixer and the audio output.
