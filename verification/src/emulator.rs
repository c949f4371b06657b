//! The emulator shell: explicit ownership of the single CPU instance. ROM
//! bytes reach the CPU through `CPU::load_rom`; reading them from a file is
//! the business of a front-end outside this core.

use crate::cpu::{CPU, MEMORY_SIZE};
use vstd::prelude::*;

verus! {

/// The emulator: one explicitly owned CPU.
pub struct Emulator {
    pub cpu: Box<CPU>,
}

impl Default for Emulator {
    /// A fresh emulator around an all-zero CPU.
    fn default() -> (r: Self)
        ensures
            r.cpu@.wf(),
            forall|i: int| 0 <= i < 8 ==> r.cpu@.regs[i] == 0u8,
            r.cpu@.sp == 0,
            r.cpu@.pc == 0,
            forall|a: int| 0 <= a < MEMORY_SIZE ==> r.cpu@.mem[a] == 0u8,
            !r.cpu@.ime,
    {
        Emulator { cpu: CPU::new() }
    }
}

} // verus!
