//! The cycle: the timers tick at a fixed ratio to the cycles, then, unless
//! the processor waits for a key, one instruction is fetched, decoded and
//! executed. Key events come in between cycles.
//!
//! A key press ends a key-wait and hands the key to the waiting register. A
//! key release ends a key-wait too, and hands over nothing.

use crate::cpu::{Cpu, CpuError, ErrorKind, HaltState, Machine, KEY_COUNT, MEMORY_SIZE};
use crate::decode::{decode, decoded, join_bytes, word_of, Instruction};
use crate::execute::{executed, fault, reported};
use vstd::prelude::*;

verus! {

/// A timer after one tick: one less, and never below zero.
pub open spec fn decayed(timer: u8) -> u8 {
    if timer > 0 {
        (timer - 1) as u8
    } else {
        0u8
    }
}

/// The state after the timer step of a cycle: the cycle is counted, and when
/// the count reaches the ratio both timers tick and the count starts over.
pub open spec fn ticked(s: Machine) -> Machine {
    if s.timer_counter + 1 >= s.cycles_per_tick {
        Machine { dt: decayed(s.dt), st: decayed(s.st), timer_counter: 0, ..s }
    } else {
        Machine { timer_counter: (s.timer_counter + 1) as u64, ..s }
    }
}

/// Whether the processor waits for a key.
pub open spec fn halted(s: Machine) -> bool {
    s.halt is WaitingForKey
}

/// The instruction at the program counter, high byte first.
pub open spec fn fetched(s: Machine) -> Instruction {
    decoded(word_of(s.ram[s.pc as int], s.ram[s.pc + 1]))
}

/// Why a cycle fails, if it does: never while waiting for a key; otherwise
/// as the execution of the instruction at the program counter does, which
/// includes a program counter that leaves no room for an instruction.
pub open spec fn cycle_fault(s: Machine) -> Option<CpuError> {
    if halted(s) {
        None
    } else {
        fault(ticked(s), fetched(s))
    }
}

/// The state after a cycle.
pub open spec fn cycled(s: Machine) -> Machine {
    if halted(s) {
        ticked(s)
    } else {
        executed(ticked(s), fetched(s))
    }
}

/// The state after a key-press event. A key outside `0..16` changes
/// nothing. Otherwise the key is held down, and a key-wait ends with the key
/// in the register that waited for it.
pub open spec fn key_down(s: Machine, key: int) -> Machine {
    if 0 <= key < KEY_COUNT {
        match s.halt {
            HaltState::WaitingForKey(x) => Machine {
                keys: s.keys.update(key, true),
                v: s.v.update(x as int, key as u8),
                halt: HaltState::Running,
                ..s
            },
            HaltState::Running => Machine { keys: s.keys.update(key, true), ..s },
        }
    } else {
        s
    }
}

/// The state after a key-release event. A key outside `0..16` changes
/// nothing. Otherwise the key is no longer held down, and a key-wait ends.
pub open spec fn key_up(s: Machine, key: int) -> Machine {
    if 0 <= key < KEY_COUNT {
        Machine { keys: s.keys.update(key, false), halt: HaltState::Running, ..s }
    } else {
        s
    }
}

impl Cpu {
    /// The timer step of a cycle.
    fn tick_timers(&mut self)
        requires
            old(self).wf(),
        ensures
            final(self).wf(),
            final(self)@ == ticked(old(self)@),
    {
        if self.timer_counter + 1 >= self.cycles_per_tick {
            if self.dt > 0 {
                self.dt = self.dt - 1;
            }
            if self.st > 0 {
                self.st = self.st - 1;
            }
            self.timer_counter = 0;
        } else {
            self.timer_counter = self.timer_counter + 1;
        }
    }

    /// Runs one cycle. The timers take their step first, also while the
    /// processor waits for a key; in that case nothing else happens.
    /// Otherwise the instruction at the program counter is fetched and
    /// executed, and its failure is the cycle's.
    pub fn emulate_cycle(&mut self) -> (result: Result<(), CpuError>)
        requires
            old(self).wf(),
        ensures
            final(self).wf(),
            result == reported(cycle_fault(old(self)@)),
            final(self)@ == cycled(old(self)@),
    {
        self.tick_timers();
        if let HaltState::WaitingForKey(_) = self.halt {
            return Ok(());
        }
        let pc: usize = self.pc as usize;
        if pc + 1 >= MEMORY_SIZE {
            return Err(CpuError(ErrorKind::AddressOutOfBounds));
        }
        let opcode = join_bytes(self.ram[pc], self.ram[pc + 1]);
        let ins = decode(opcode);
        self.execute(ins)
    }

    /// Takes a key-press event.
    pub fn key_pressed(&mut self, key: i32)
        requires
            old(self).wf(),
        ensures
            final(self).wf(),
            final(self)@ == key_down(old(self)@, key as int),
    {
        if 0 <= key && key < 16 {
            self.keys[key as usize] = true;
            if let HaltState::WaitingForKey(x) = self.halt {
                self.v[x] = key as u8;
                self.halt = HaltState::Running;
            }
        }
    }

    /// Takes a key-release event.
    pub fn key_released(&mut self, key: i32)
        requires
            old(self).wf(),
        ensures
            final(self).wf(),
            final(self)@ == key_up(old(self)@, key as int),
    {
        if 0 <= key && key < 16 {
            self.keys[key as usize] = false;
            self.halt = HaltState::Running;
        }
    }
}

} // verus!
