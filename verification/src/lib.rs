//! formula: a Game Boy (DMG) emulator core
//!
//! The crate is split along the lines of the hardware. [`cpu`] runs the SM83
//! instruction set, which [`isa`] states, against anything that is a
//! [`bus::Bus`]. There are three such: [`memory`], 64 KiB and nothing else;
//! [`mmu`], the address decoder with a timer and the timing of the LCD; and
//! [`console`], with every part wired in. The parts are [`ppu`], [`timer`],
//! [`serial`], [`joypad`], [`apu`] and [`cartridge`]. [`runner`] and [`audio`]
//! hold what a program around the console decides.
//!
//! Every part has a plain model of itself (`TimerState`, `PpuState`, ...), a
//! view from the part to it, and functions of the model that say what each
//! operation does. Contracts are equations between views. What follows for a
//! part as a whole is stated and proved in functions named `law_...`.

pub mod apu;
pub mod audio;
pub mod bits;
pub mod bus;
pub mod bus_order_laws;
pub mod cartridge;
pub mod cartridge_laws;
pub mod console;
pub mod console_laws;
pub mod cpu;
pub mod cpu_laws;
pub mod flags;
pub mod instruction_laws;
pub mod isa;
pub mod joypad;
pub mod memory;
pub mod mmu;
pub mod part_laws;
pub mod ppu;
pub mod ppu_timing;
pub mod runner;
pub mod serial;
pub mod timer;
pub mod transfer_laws;
