# formula

A Game Boy (DMG) emulator core, written and proved in Verus, with a small
program that runs it in a window.

- `src/` is the library: the CPU and its instruction set, the PPU with
  background, window and sprites, timer, serial port, joypad, the register file
  of the sound unit, the MBC0 and MBC1 cartridges, and the buses that tie them
  together. Each part is held to a model of itself by exact contracts, and what
  follows for the part as a whole is proved beside it, in functions named
  `law_...`.
- `tests/` runs the library on concrete programs and values.
- `app/` is the program: it reads a ROM, opens a window, and steps the console.

A bus is anything that implements `bus::Bus`. The trait's ghost functions say
what each access yields and leaves behind; `Cpu::step` is specified over them,
so it means the same on flat memory and on the whole console.

Not modelled: sound output, the corruption of OAM by the DMG's address bus, the
low-power side of STOP, and mappers beyond MBC1.
