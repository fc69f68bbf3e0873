//! The processor core of the DMG handheld console: register file, 64 KiB address
//! space, instruction decoder and executor. Each instruction's effect is stated as a
//! function on `cpu::CpuState`, and the executable code is proved to match it.

use vstd::prelude::*;

pub mod command;
pub mod cpu;
pub mod memory;

use crate::cpu::{booted, run_spec, Cpu, CpuState, StepError};

verus! {

/// The console: a processor and the two images it is started with.
pub struct Gameboy {
    pub cpu: Cpu,
    pub boot_rom: Vec<u8>,
    pub game_rom: Vec<u8>,
}

impl Gameboy {
    /// A console with a fresh processor, holding the boot and game images.
    pub fn new(boot_rom: Vec<u8>, game_rom: Vec<u8>) -> (r: Gameboy)
        ensures
            r.boot_rom@ == boot_rom@,
            r.game_rom@ == game_rom@,
            r.cpu@ == Cpu::new_spec(),
    {
        Gameboy { cpu: Cpu::new(), boot_rom, game_rom }
    }

    /// Installs the images, runs the boot sequence and then `steps` steps of the game,
    /// stopping at the first step that fails.
    pub fn start(&mut self, steps: u64) -> (r: Result<(), StepError>)
        requires
            old(self).boot_rom@.len() <= 0x10000,
            old(self).game_rom@.len() <= 0xFF00,
        ensures
            (final(self).cpu@, r) == run_spec(
                CpuState {
                    memory: booted(old(self).cpu@.memory, old(self).boot_rom@, old(self).game_rom@),
                    ..old(self).cpu@
                },
                steps as nat,
            ),
    {
        self.cpu.boot(self.boot_rom.clone(), self.game_rom.clone());
        self.cpu.run(steps)
    }

    /// A snapshot of the 64 KiB address space.
    pub fn dump_memory(&self) -> (r: Vec<u8>)
        ensures
            r@ == self.cpu@.memory,
    {
        self.cpu.memory.dump()
    }
}

} // verus!
