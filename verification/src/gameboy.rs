//! The console: a processor and the address space it runs on.

use vstd::prelude::*;
use crate::cpu::{machine, Cpu};
use crate::error::EmulatorError;
use crate::machine::{MachineState, Step};
use crate::memory::Memory;

verus! {

/// The console.
#[derive(Debug)]
pub struct Gameboy {
    cpu: Cpu,
    memory: Memory,
}

impl View for Gameboy {
    type V = MachineState;

    closed spec fn view(&self) -> MachineState {
        machine(self.cpu, self.memory)
    }
}

impl Gameboy {
    /// Builds a console at power-on from a cartridge image and a boot image.
    /// An empty boot image means that none was supplied: the console then
    /// starts at the cartridge's entry point.
    pub fn new(rom: Vec<u8>, bootrom: Vec<u8>) -> (gameboy: Gameboy)
        ensures
            gameboy@ == MachineState::power_on(rom@, bootrom@),
    {
        let boot_present: bool = bootrom.len() > 0;
        Gameboy { cpu: Cpu::power_on(boot_present), memory: Memory::new(rom, bootrom) }
    }

    /// The processor, for inspection.
    pub fn cpu(&self) -> (cpu: &Cpu)
        ensures
            cpu@ == self@.cpu,
    {
        &self.cpu
    }

    /// The address space, for inspection.
    pub fn memory(&self) -> (memory: &Memory)
        ensures
            memory@ == self@.memory,
    {
        &self.memory
    }

    /// Performs one instruction.
    pub fn step(&mut self) -> (result: Result<(), EmulatorError>)
        ensures
            old(self)@.step() == (Step { state: final(self)@, outcome: result }),
    {
        self.cpu.step(&mut self.memory)
    }

    /// Performs up to `steps` instructions and stops at the first that fails,
    /// whose error it returns.
    pub fn run(&mut self, steps: u64) -> (result: Result<(), EmulatorError>)
        ensures
            old(self)@.run(steps as nat) == (Step { state: final(self)@, outcome: result }),
    {
        let mut remaining: u64 = steps;
        while remaining > 0
            invariant
                old(self)@.run(steps as nat) == self@.run(remaining as nat),
            decreases remaining,
        {
            match self.step() {
                Ok(()) => {
                    remaining = remaining - 1;
                },
                Err(e) => {
                    return Err(e);
                },
            }
        }
        Ok(())
    }
}

} // verus!
