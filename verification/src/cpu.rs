//! The machine state: memory, registers, stack, timers, screen and keypad,
//! with its mathematical model, its initial value and program loading.

use crate::display::{blank_pixels, blank_screen, grid_cells, has_screen_shape, is_screen};
use crate::fonts::{FONTSET, FONTSET_SIZE};
use array2d::Array2D;
use vstd::prelude::*;

verus! {

/// Number of bytes of memory.
pub const MEMORY_SIZE: usize = 4096;

/// Address at which programs are loaded and execution starts.
pub const START_PC: usize = 0x200;

/// Width of one instruction in bytes.
pub const OPCODE_SIZE: usize = 2;

/// Number of general-purpose registers.
pub const REGISTER_COUNT: usize = 16;

/// Number of return addresses that the stack holds.
pub const STACK_SIZE: usize = 16;

/// Number of keys on the keypad.
pub const KEY_COUNT: usize = 16;

/// Instructions per second of the default configuration.
pub const DEFAULT_CLOCK_RATE: u64 = 500;

/// Timer ticks per second.
pub const TIMER_RATE: u64 = 60;

/// The kinds of failure.
#[derive(Clone, Copy, Debug, PartialEq, Eq, Structural)]
pub enum ErrorKind {
    /// The instruction word names no instruction.
    UnknownOpcode(u16),
    /// A call was made with all sixteen stack entries in use.
    StackOverflow,
    /// A return was made with no call outstanding.
    StackUnderflow,
    /// The program does not fit between the load address and the end of
    /// memory.
    ProgramTooLarge,
    /// An instruction names a register beyond VF.
    InvalidRegisterIndex,
    /// An instruction, or the fetch of one, reaches beyond the end of memory.
    AddressOutOfBounds,
}

/// Why an operation was refused.
#[derive(Clone, Copy, Debug, PartialEq, Eq, Structural)]
pub struct CpuError(pub ErrorKind);

/// Whether the processor executes instructions or waits for a key.
#[derive(Clone, Copy, Debug, PartialEq, Eq, Structural)]
pub enum HaltState {
    /// Instructions are fetched and executed.
    Running,
    /// Execution is suspended until a key event; the register named here
    /// receives the key that is pressed.
    WaitingForKey(usize),
}

/// The interpreter's whole state, owned by one value.
pub struct Cpu {
    /// Memory: the font table from address 0, programs from `0x200`.
    pub ram: [u8; 4096],
    /// General-purpose registers V0 to VF; VF doubles as the flag register.
    pub v: [u8; 16],
    /// Index register.
    pub i: u16,
    /// Return addresses of the calls outstanding.
    pub stack: [u16; 16],
    /// Number of stack entries in use; the next free entry.
    pub sp: usize,
    /// Address of the next instruction.
    pub pc: u16,
    /// Delay timer.
    pub dt: u8,
    /// Sound timer.
    pub st: u8,
    /// The screen, indexed by column and then by row.
    pub display: Array2D<bool>,
    /// Cycles since the timers last ticked.
    pub timer_counter: u64,
    /// Cycles per timer tick.
    pub cycles_per_tick: u64,
    /// Which keys are held down.
    pub keys: [bool; 16],
    /// The key-wait state.
    pub halt: HaltState,
}

/// The mathematical model of the interpreter's state.
pub struct Machine {
    pub ram: Seq<u8>,
    pub v: Seq<u8>,
    pub i: u16,
    pub stack: Seq<u16>,
    pub sp: usize,
    pub pc: u16,
    pub dt: u8,
    pub st: u8,
    pub screen: Seq<Seq<bool>>,
    pub timer_counter: u64,
    pub cycles_per_tick: u64,
    pub keys: Seq<bool>,
    pub halt: HaltState,
}

impl Machine {
    /// The state is one that an interpreter can be in: the stores have their
    /// fixed sizes, the stack pointer is at most 16, a key-wait names a
    /// register, and the cycle counter has not reached the ratio.
    pub open spec fn wf(self) -> bool {
        &&& self.ram.len() == MEMORY_SIZE
        &&& self.v.len() == REGISTER_COUNT
        &&& self.stack.len() == STACK_SIZE
        &&& self.keys.len() == KEY_COUNT
        &&& self.sp <= STACK_SIZE
        &&& is_screen(self.screen)
        &&& (self.halt matches HaltState::WaitingForKey(x) ==> x < REGISTER_COUNT)
        &&& (self.timer_counter == 0 || self.timer_counter < self.cycles_per_tick)
    }
}

/// Memory at start-up: the font table from address 0, zero elsewhere.
pub open spec fn initial_ram() -> Seq<u8> {
    Seq::new(MEMORY_SIZE as nat, |a: int| if a < FONTSET_SIZE { FONTSET@[a] } else { 0u8 })
}

/// The state at start-up, for a given number of cycles per timer tick.
pub open spec fn initial_machine(cycles_per_tick: u64) -> Machine {
    Machine {
        ram: initial_ram(),
        v: Seq::new(REGISTER_COUNT as nat, |k: int| 0u8),
        i: 0,
        stack: Seq::new(STACK_SIZE as nat, |k: int| 0u16),
        sp: 0,
        pc: START_PC as u16,
        dt: 0,
        st: 0,
        screen: blank_pixels(),
        timer_counter: 0,
        cycles_per_tick,
        keys: Seq::new(KEY_COUNT as nat, |k: int| false),
        halt: HaltState::Running,
    }
}

/// Memory after a program is copied to the load address.
pub open spec fn loaded(ram: Seq<u8>, rom: Seq<u8>) -> Seq<u8> {
    Seq::new(
        ram.len(),
        |a: int| if START_PC <= a < START_PC + rom.len() { rom[a - START_PC] } else { ram[a] },
    )
}

impl View for Cpu {
    type V = Machine;

    open spec fn view(&self) -> Machine {
        Machine {
            ram: self.ram@,
            v: self.v@,
            i: self.i,
            stack: self.stack@,
            sp: self.sp,
            pc: self.pc,
            dt: self.dt,
            st: self.st,
            screen: grid_cells(self.display),
            timer_counter: self.timer_counter,
            cycles_per_tick: self.cycles_per_tick,
            keys: self.keys@,
            halt: self.halt,
        }
    }
}

impl Cpu {
    /// The state is well formed: see [`Machine::wf`].
    pub open spec fn wf(&self) -> bool {
        self@.wf()
    }

    /// Tests whether the state is well formed, for callers that have
    /// written to the fields.
    pub fn is_well_formed(&self) -> (ok: bool)
        ensures
            ok == self.wf(),
    {
        let register_exists = match self.halt {
            HaltState::WaitingForKey(x) => x < REGISTER_COUNT,
            HaltState::Running => true,
        };
        self.sp <= STACK_SIZE && register_exists && (self.timer_counter == 0 || self.timer_counter
            < self.cycles_per_tick) && has_screen_shape(&self.display)
    }

    /// An interpreter in its start-up state, with the timers ticking once
    /// every `DEFAULT_CLOCK_RATE / TIMER_RATE` cycles.
    pub fn new() -> (cpu: Cpu)
        ensures
            cpu@ == initial_machine((DEFAULT_CLOCK_RATE / TIMER_RATE) as u64),
            cpu.wf(),
    {
        Cpu::with_timer_ratio(DEFAULT_CLOCK_RATE / TIMER_RATE)
    }

    /// An interpreter in its start-up state, with the timers ticking once
    /// every `cycles_per_tick` cycles. A ratio of zero ticks on every cycle,
    /// as a ratio of one does.
    pub fn with_timer_ratio(cycles_per_tick: u64) -> (cpu: Cpu)
        ensures
            cpu@ == initial_machine(cycles_per_tick),
            cpu.wf(),
    {
        let mut ram = [0u8; 4096];
        let mut k: usize = 0;
        while k < FONTSET_SIZE
            invariant
                k <= FONTSET_SIZE,
                forall|a: int| 0 <= a < k ==> ram@[a] == FONTSET@[a],
                forall|a: int| k <= a < MEMORY_SIZE ==> ram@[a] == 0u8,
            decreases FONTSET_SIZE - k,
        {
            ram[k] = FONTSET[k];
            k += 1;
        }
        let cpu = Cpu {
            ram,
            v: [0u8; 16],
            i: 0,
            stack: [0u16; 16],
            sp: 0,
            pc: START_PC as u16,
            dt: 0,
            st: 0,
            display: blank_screen(),
            timer_counter: 0,
            cycles_per_tick,
            keys: [false; 16],
            halt: HaltState::Running,
        };
        proof {
            let m = initial_machine(cycles_per_tick);
            assert(cpu@.ram =~= m.ram);
            assert(cpu@.v =~= m.v);
            assert(cpu@.stack =~= m.stack);
            assert(cpu@.keys =~= m.keys);
        }
        cpu
    }

    /// Copies a program into memory from the load address on. A program
    /// longer than the room from there to the end of memory is refused, and
    /// nothing is written. Registers, timers and screen are left as they are.
    pub fn load_rom(&mut self, rom: Vec<u8>) -> (result: Result<(), CpuError>)
        ensures
            rom@.len() <= MEMORY_SIZE - START_PC ==> result == Ok::<(), CpuError>(())
                && final(self)@ == (Machine { ram: loaded(old(self)@.ram, rom@), ..old(self)@ })
                && final(self)@.ram.subrange(START_PC as int, START_PC + rom@.len()) == rom@,
            rom@.len() > MEMORY_SIZE - START_PC ==> result == Err::<(), CpuError>(
                CpuError(ErrorKind::ProgramTooLarge),
            ) && final(self)@ == old(self)@,
            old(self).wf() ==> final(self).wf(),
    {
        if rom.len() > MEMORY_SIZE - START_PC {
            return Err(CpuError(ErrorKind::ProgramTooLarge));
        }
        let mut k: usize = 0;
        while k < rom.len()
            invariant
                k <= rom@.len() <= MEMORY_SIZE - START_PC,
                self@ == (Machine { ram: self.ram@, ..old(self)@ }),
                forall|a: int| START_PC <= a < START_PC + k ==> self.ram@[a] == rom@[a - START_PC],
                forall|a: int|
                    0 <= a < MEMORY_SIZE && !(START_PC <= a < START_PC + k) ==> self.ram@[a] == old(
                        self,
                    ).ram@[a],
            decreases rom@.len() - k,
        {
            self.ram[START_PC + k] = rom[k];
            k += 1;
        }
        proof {
            assert(self.ram@ =~= loaded(old(self)@.ram, rom@));
            assert(self.ram@.subrange(START_PC as int, START_PC + rom@.len()) =~= rom@);
        }
        Ok(())
    }
}

} // verus!
