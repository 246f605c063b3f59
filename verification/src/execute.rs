//! The execution engine: what each instruction does to the machine, stated
//! over the model and carried out on the state.
//!
//! The program counter moves past an instruction before the instruction
//! acts, so jumps, calls and returns overwrite the advanced value and skips
//! add to it. An instruction that fails leaves the state as it was, but for
//! the program counter, which stays advanced. Where an instruction writes
//! both a result and the flag register, the result is written first: with VF
//! as the destination the flag is what remains.

use crate::cpu::{
    Cpu, CpuError, ErrorKind, HaltState, Machine, MEMORY_SIZE, OPCODE_SIZE, REGISTER_COUNT,
    STACK_SIZE,
};
use crate::decode::{decode, decoded, Instruction};
use crate::display::{
    blank_pixels, blank_screen, collides, draw_sprite, drawn, CHIP_8_HEIGHT, CHIP_8_WIDTH,
};
use vstd::prelude::*;
use vstd::slice::slice_subrange;

verus! {

/// The value that the flag register takes for a condition.
pub open spec fn flag_value(set: bool) -> u8 {
    if set {
        1u8
    } else {
        0u8
    }
}

/// The state with register `x` set to `value`.
pub open spec fn with_register(s: Machine, x: int, value: u8) -> Machine {
    Machine { v: s.v.update(x, value), ..s }
}

/// The state with register `x` set to `value` and then VF set to the flag.
pub open spec fn with_result_and_flag(s: Machine, x: int, value: u8, flag: bool) -> Machine {
    Machine { v: s.v.update(x, value).update(0xF, flag_value(flag)), ..s }
}

/// The state with the program counter moved on by one instruction.
pub open spec fn advanced(s: Machine) -> Machine {
    Machine { pc: (s.pc + OPCODE_SIZE) as u16, ..s }
}

/// The state with the program counter moved on once more if the condition
/// holds.
pub open spec fn skip_if(s: Machine, condition: bool) -> Machine {
    if condition {
        advanced(s)
    } else {
        s
    }
}

/// The result that reports a failure, if there is one.
pub open spec fn reported(failure: Option<CpuError>) -> Result<(), CpuError> {
    match failure {
        Some(e) => Err(e),
        None => Ok(()),
    }
}

/// The failure of an instruction of family 0: clear screen (`00E0`) and
/// return (`00EE`) are defined, and a return needs a call outstanding.
pub open spec fn system_fault(s: Machine, ins: Instruction) -> Option<CpuError> {
    if ins.nn == 0xE0 {
        None
    } else if ins.nn == 0xEE {
        if s.sp == 0 {
            Some(CpuError(ErrorKind::StackUnderflow))
        } else {
            None
        }
    } else {
        Some(CpuError(ErrorKind::UnknownOpcode(ins.word)))
    }
}

/// The effect of an instruction of family 0 that does not fail.
pub open spec fn system_effect(s: Machine, ins: Instruction) -> Machine {
    if ins.nn == 0xE0 {
        Machine { screen: blank_pixels(), ..s }
    } else {
        Machine { sp: (s.sp - 1) as usize, pc: s.stack[s.sp - 1], ..s }
    }
}

/// The failure of an instruction of family 8: the sub-opcodes 0 to 7 and E
/// are defined.
pub open spec fn alu_fault(ins: Instruction) -> Option<CpuError> {
    if ins.n <= 7 || ins.n == 0xE {
        None
    } else {
        Some(CpuError(ErrorKind::UnknownOpcode(ins.word)))
    }
}

/// The effect of a defined instruction of family 8 on registers X and Y.
/// Load and the bitwise operations leave VF alone. Addition sets VF on
/// carry, the two subtractions set it when there is no borrow, the shifts
/// set it to the bit shifted out.
pub open spec fn alu_effect(s: Machine, ins: Instruction) -> Machine {
    let x = ins.x as int;
    let vx = s.v[x];
    let vy = s.v[ins.y as int];
    if ins.n == 0 {
        with_register(s, x, vy)
    } else if ins.n == 1 {
        with_register(s, x, vx | vy)
    } else if ins.n == 2 {
        with_register(s, x, vx & vy)
    } else if ins.n == 3 {
        with_register(s, x, vx ^ vy)
    } else if ins.n == 4 {
        with_result_and_flag(s, x, ((vx + vy) % 256) as u8, vx + vy > 255)
    } else if ins.n == 5 {
        with_result_and_flag(s, x, ((vx - vy) % 256) as u8, vx >= vy)
    } else if ins.n == 6 {
        with_result_and_flag(s, x, (vx / 2) as u8, vx % 2 == 1)
    } else if ins.n == 7 {
        with_result_and_flag(s, x, ((vy - vx) % 256) as u8, vy >= vx)
    } else {
        with_result_and_flag(s, x, ((vx * 2) % 256) as u8, vx >= 128)
    }
}

/// Number of sprite rows that a draw instruction reads: N, or fewer where
/// the sprite would run off the bottom of the screen.
pub open spec fn sprite_rows(s: Machine, ins: Instruction) -> int {
    let room = CHIP_8_HEIGHT - s.v[ins.y as int] as int % CHIP_8_HEIGHT as int;
    if ins.n < room {
        ins.n as int
    } else {
        room
    }
}

/// The sprite that a draw instruction reads from memory at I.
pub open spec fn sprite_at(s: Machine, ins: Instruction) -> Seq<u8> {
    Seq::new(sprite_rows(s, ins) as nat, |r: int| s.ram[s.i + r])
}

/// The failure of a draw instruction: the rows it reads must lie in memory.
pub open spec fn draw_fault(s: Machine, ins: Instruction) -> Option<CpuError> {
    if sprite_rows(s, ins) > 0 && s.i + sprite_rows(s, ins) > MEMORY_SIZE {
        Some(CpuError(ErrorKind::AddressOutOfBounds))
    } else {
        None
    }
}

/// The effect of a draw instruction that does not fail: the sprite is drawn
/// at column `Vx % 64`, row `Vy % 32`, and VF tells whether it covered a lit
/// pixel.
pub open spec fn draw_effect(s: Machine, ins: Instruction) -> Machine {
    let sprite = sprite_at(s, ins);
    let x0 = s.v[ins.x as int] as int % CHIP_8_WIDTH as int;
    let y0 = s.v[ins.y as int] as int % CHIP_8_HEIGHT as int;
    Machine {
        screen: drawn(s.screen, sprite, x0, y0),
        v: s.v.update(0xF, flag_value(collides(s.screen, sprite, x0, y0))),
        ..s
    }
}

/// The failure of an instruction of family E: skip if key pressed (`Ex9E`)
/// and skip if key not pressed (`ExA1`) are defined.
pub open spec fn keys_fault(ins: Instruction) -> Option<CpuError> {
    if ins.nn == 0x9E || ins.nn == 0xA1 {
        None
    } else {
        Some(CpuError(ErrorKind::UnknownOpcode(ins.word)))
    }
}

/// The effect of a defined instruction of family E: the key is the low
/// nibble of Vx.
pub open spec fn keys_effect(s: Machine, ins: Instruction) -> Machine {
    let pressed = s.keys[s.v[ins.x as int] as int % 16];
    skip_if(s, pressed == (ins.nn == 0x9E))
}

/// The failure of an instruction of family F. Defined are: read the delay
/// timer (`07`), wait for a key (`0A`), set the delay timer (`15`), add to I
/// (`1E`), store decimal digits (`33`), store registers (`55`) and load
/// registers (`65`). The last three must stay within memory.
pub open spec fn misc_fault(s: Machine, ins: Instruction) -> Option<CpuError> {
    if ins.nn == 0x07 || ins.nn == 0x0A || ins.nn == 0x15 || ins.nn == 0x1E {
        None
    } else if ins.nn == 0x33 {
        if s.i + 2 >= MEMORY_SIZE {
            Some(CpuError(ErrorKind::AddressOutOfBounds))
        } else {
            None
        }
    } else if ins.nn == 0x55 || ins.nn == 0x65 {
        if s.i + ins.x >= MEMORY_SIZE {
            Some(CpuError(ErrorKind::AddressOutOfBounds))
        } else {
            None
        }
    } else {
        Some(CpuError(ErrorKind::UnknownOpcode(ins.word)))
    }
}

/// The effect of an instruction of family F that does not fail.
pub open spec fn misc_effect(s: Machine, ins: Instruction) -> Machine {
    let x = ins.x as int;
    let vx = s.v[x];
    let i = s.i as int;
    if ins.nn == 0x07 {
        with_register(s, x, s.dt)
    } else if ins.nn == 0x0A {
        Machine { halt: HaltState::WaitingForKey(ins.x), ..s }
    } else if ins.nn == 0x15 {
        Machine { dt: vx, ..s }
    } else if ins.nn == 0x1E {
        Machine {
            i: if i + vx > u16::MAX {
                u16::MAX
            } else {
                (i + vx) as u16
            },
            ..s
        }
    } else if ins.nn == 0x33 {
        Machine {
            ram: s.ram.update(i, (vx / 100) as u8).update(i + 1, (vx / 10 % 10) as u8).update(
                i + 2,
                (vx % 10) as u8,
            ),
            ..s
        }
    } else if ins.nn == 0x55 {
        Machine {
            ram: Seq::new(
                s.ram.len(),
                |a: int| if i <= a <= i + x { s.v[a - i] } else { s.ram[a] },
            ),
            ..s
        }
    } else {
        Machine { v: Seq::new(s.v.len(), |k: int| if k <= x { s.ram[i + k] } else { s.v[k] }), ..s }
    }
}

/// Why an instruction is refused before the program counter moves: the
/// program counter does not leave room for an instruction in memory, or an
/// operand names a register that does not exist.
pub open spec fn refusal(s: Machine, ins: Instruction) -> Option<CpuError> {
    if s.pc + 1 >= MEMORY_SIZE {
        Some(CpuError(ErrorKind::AddressOutOfBounds))
    } else if ins.x >= REGISTER_COUNT || ins.y >= REGISTER_COUNT {
        Some(CpuError(ErrorKind::InvalidRegisterIndex))
    } else {
        None
    }
}

/// Why an instruction fails once the program counter has moved past it.
pub open spec fn body_fault(s: Machine, ins: Instruction) -> Option<CpuError> {
    let f = ins.family;
    if f == 0x0 {
        system_fault(s, ins)
    } else if f == 0x2 {
        if s.sp >= STACK_SIZE {
            Some(CpuError(ErrorKind::StackOverflow))
        } else {
            None
        }
    } else if f == 0x8 {
        alu_fault(ins)
    } else if f == 0xD {
        draw_fault(s, ins)
    } else if f == 0xE {
        keys_fault(ins)
    } else if f == 0xF {
        misc_fault(s, ins)
    } else if f == 0x1 || (0x3 <= f <= 0x7) || f == 0x9 || f == 0xA {
        None
    } else {
        Some(CpuError(ErrorKind::UnknownOpcode(ins.word)))
    }
}

/// What an instruction that does not fail does to the state in which the
/// program counter has moved past it.
pub open spec fn body_effect(s: Machine, ins: Instruction) -> Machine {
    let f = ins.family;
    let x = ins.x as int;
    let y = ins.y as int;
    if f == 0x0 {
        system_effect(s, ins)
    } else if f == 0x1 {
        Machine { pc: ins.nnn, ..s }
    } else if f == 0x2 {
        Machine {
            stack: s.stack.update(s.sp as int, s.pc),
            sp: (s.sp + 1) as usize,
            pc: ins.nnn,
            ..s
        }
    } else if f == 0x3 {
        skip_if(s, s.v[x] == ins.nn)
    } else if f == 0x4 {
        skip_if(s, s.v[x] != ins.nn)
    } else if f == 0x5 {
        skip_if(s, s.v[x] == s.v[y])
    } else if f == 0x6 {
        with_register(s, x, ins.nn)
    } else if f == 0x7 {
        with_register(s, x, ((s.v[x] + ins.nn) % 256) as u8)
    } else if f == 0x8 {
        alu_effect(s, ins)
    } else if f == 0x9 {
        skip_if(s, s.v[x] != s.v[y])
    } else if f == 0xA {
        Machine { i: ins.nnn, ..s }
    } else if f == 0xD {
        draw_effect(s, ins)
    } else if f == 0xE {
        keys_effect(s, ins)
    } else {
        misc_effect(s, ins)
    }
}

/// Why the execution of an instruction fails, if it does.
pub open spec fn fault(s: Machine, ins: Instruction) -> Option<CpuError> {
    if refusal(s, ins) is Some {
        refusal(s, ins)
    } else {
        body_fault(advanced(s), ins)
    }
}

/// The state after the execution of an instruction.
pub open spec fn executed(s: Machine, ins: Instruction) -> Machine {
    if refusal(s, ins) is Some {
        s
    } else if body_fault(advanced(s), ins) is Some {
        advanced(s)
    } else {
        body_effect(advanced(s), ins)
    }
}

/// Eight-bit addition with wraparound, and whether it carried.
pub fn add_with_carry(a: u8, b: u8) -> (r: (u8, bool))
    ensures
        r.0 == (a + b) % 256,
        r.1 == (a + b > 255),
{
    let sum: u16 = a as u16 + b as u16;
    if sum > 255 {
        ((sum - 256) as u8, true)
    } else {
        (sum as u8, false)
    }
}

/// Eight-bit subtraction `a - b` with wraparound, and whether it needed no
/// borrow.
pub fn subtract_with_borrow(a: u8, b: u8) -> (r: (u8, bool))
    ensures
        r.0 == (a - b) % 256,
        r.1 == (a >= b),
{
    if a >= b {
        (a - b, true)
    } else {
        ((256 - (b - a) as u16) as u8, false)
    }
}

/// Shift right by one bit, and the bit shifted out.
pub fn shift_right(a: u8) -> (r: (u8, bool))
    ensures
        r.0 == a / 2,
        r.1 == (a % 2 == 1),
{
    assert(a >> 1 == a / 2) by (bit_vector);
    assert((a & 1 == 1) == (a % 2 == 1)) by (bit_vector);
    (a >> 1, a & 1 == 1)
}

/// Shift left by one bit within eight bits, and the bit shifted out.
pub fn shift_left(a: u8) -> (r: (u8, bool))
    ensures
        r.0 == (a * 2) % 256,
        r.1 == (a >= 128),
{
    assert(a << 1 == (a * 2) % 256) by (bit_vector);
    assert(((a >> 7) & 1 == 1) == (a >= 128)) by (bit_vector);
    (a << 1, (a >> 7) & 1 == 1)
}

impl Cpu {
    /// Moves the program counter on by one instruction.
    fn increment_pc(&mut self)
        requires
            old(self).pc + OPCODE_SIZE <= u16::MAX,
        ensures
            final(self)@ == advanced(old(self)@),
    {
        self.pc = self.pc + OPCODE_SIZE as u16;
    }

    /// Moves the program counter on once more if the condition holds.
    fn skip_ins(&mut self, condition: bool)
        requires
            old(self).pc + OPCODE_SIZE <= u16::MAX,
        ensures
            final(self)@ == skip_if(old(self)@, condition),
    {
        if condition {
            self.increment_pc();
        }
    }

    /// Family 0: clear the screen, or return from a subroutine.
    fn run_system(&mut self, ins: Instruction) -> (result: Result<(), CpuError>)
        requires
            old(self).wf(),
        ensures
            final(self).wf(),
            result == reported(system_fault(old(self)@, ins)),
            final(self)@ == if system_fault(old(self)@, ins) is Some {
                old(self)@
            } else {
                system_effect(old(self)@, ins)
            },
    {
        if ins.nn == 0xE0 {
            self.display = blank_screen();
            Ok(())
        } else if ins.nn == 0xEE {
            if self.sp == 0 {
                return Err(CpuError(ErrorKind::StackUnderflow));
            }
            self.sp = self.sp - 1;
            self.pc = self.stack[self.sp];
            Ok(())
        } else {
            Err(CpuError(ErrorKind::UnknownOpcode(ins.word)))
        }
    }

    /// Families 1 to 5 and 9: jump, call and the skips on registers.
    fn run_flow(&mut self, ins: Instruction) -> (result: Result<(), CpuError>)
        requires
            old(self).wf(),
            old(self).pc + OPCODE_SIZE <= u16::MAX,
            ins.x < REGISTER_COUNT,
            ins.y < REGISTER_COUNT,
            1 <= ins.family <= 5 || ins.family == 9,
        ensures
            final(self).wf(),
            result == reported(body_fault(old(self)@, ins)),
            final(self)@ == if body_fault(old(self)@, ins) is Some {
                old(self)@
            } else {
                body_effect(old(self)@, ins)
            },
    {
        let vx: u8 = self.v[ins.x];
        let vy: u8 = self.v[ins.y];
        if ins.family == 0x1 {
            self.pc = ins.nnn;
        } else if ins.family == 0x2 {
            if self.sp >= STACK_SIZE {
                return Err(CpuError(ErrorKind::StackOverflow));
            }
            self.stack[self.sp] = self.pc;
            self.sp = self.sp + 1;
            self.pc = ins.nnn;
        } else if ins.family == 0x3 {
            self.skip_ins(vx == ins.nn);
        } else if ins.family == 0x4 {
            self.skip_ins(vx != ins.nn);
        } else if ins.family == 0x5 {
            self.skip_ins(vx == vy);
        } else {
            self.skip_ins(vx != vy);
        }
        Ok(())
    }

    /// Families 6, 7 and A: load a register, add to a register, set I.
    fn run_load(&mut self, ins: Instruction) -> (result: Result<(), CpuError>)
        requires
            old(self).wf(),
            ins.x < REGISTER_COUNT,
            ins.family == 6 || ins.family == 7 || ins.family == 0xA,
        ensures
            final(self).wf(),
            result == Ok::<(), CpuError>(()),
            final(self)@ == body_effect(old(self)@, ins),
    {
        if ins.family == 0x6 {
            self.v[ins.x] = ins.nn;
        } else if ins.family == 0x7 {
            let (sum, _) = add_with_carry(self.v[ins.x], ins.nn);
            self.v[ins.x] = sum;
        } else {
            self.i = ins.nnn;
        }
        Ok(())
    }

    /// Family 8: load, bitwise operations, arithmetic and shifts on two
    /// registers.
    fn run_alu(&mut self, ins: Instruction) -> (result: Result<(), CpuError>)
        requires
            old(self).wf(),
            ins.x < REGISTER_COUNT,
            ins.y < REGISTER_COUNT,
        ensures
            final(self).wf(),
            result == reported(alu_fault(ins)),
            final(self)@ == if alu_fault(ins) is Some {
                old(self)@
            } else {
                alu_effect(old(self)@, ins)
            },
    {
        let vx: u8 = self.v[ins.x];
        let vy: u8 = self.v[ins.y];
        if ins.n == 0x0 {
            self.v[ins.x] = vy;
        } else if ins.n == 0x1 {
            self.v[ins.x] = vx | vy;
        } else if ins.n == 0x2 {
            self.v[ins.x] = vx & vy;
        } else if ins.n == 0x3 {
            self.v[ins.x] = vx ^ vy;
        } else if ins.n <= 0x7 || ins.n == 0xE {
            let (value, flag) = if ins.n == 0x4 {
                add_with_carry(vx, vy)
            } else if ins.n == 0x5 {
                subtract_with_borrow(vx, vy)
            } else if ins.n == 0x6 {
                shift_right(vx)
            } else if ins.n == 0x7 {
                subtract_with_borrow(vy, vx)
            } else {
                shift_left(vx)
            };
            self.v[ins.x] = value;
            self.v[0xF] = if flag { 1 } else { 0 };
        } else {
            return Err(CpuError(ErrorKind::UnknownOpcode(ins.word)));
        }
        Ok(())
    }

    /// Family D: draw a sprite and report a collision in VF.
    fn run_draw(&mut self, ins: Instruction) -> (result: Result<(), CpuError>)
        requires
            old(self).wf(),
            ins.x < REGISTER_COUNT,
            ins.y < REGISTER_COUNT,
        ensures
            final(self).wf(),
            result == reported(draw_fault(old(self)@, ins)),
            final(self)@ == if draw_fault(old(self)@, ins) is Some {
                old(self)@
            } else {
                draw_effect(old(self)@, ins)
            },
    {
        let vx: usize = self.v[ins.x] as usize;
        let vy: usize = self.v[ins.y] as usize;
        let room: usize = CHIP_8_HEIGHT - vy % CHIP_8_HEIGHT;
        let rows: usize = if (ins.n as usize) < room {
            ins.n as usize
        } else {
            room
        };
        let start: usize = self.i as usize;
        if rows > 0 && start + rows > MEMORY_SIZE {
            return Err(CpuError(ErrorKind::AddressOutOfBounds));
        }
        let from: usize = if rows == 0 {
            0
        } else {
            start
        };
        let sprite = slice_subrange(self.ram.as_slice(), from, from + rows);
        assert(sprite@ =~= sprite_at(self@, ins));
        let collision = draw_sprite(&mut self.display, sprite, vx, vy);
        self.v[0xF] = if collision { 1 } else { 0 };
        Ok(())
    }

    /// Family E: skip on the state of the key named by the low nibble of Vx.
    fn run_keys(&mut self, ins: Instruction) -> (result: Result<(), CpuError>)
        requires
            old(self).wf(),
            old(self).pc + OPCODE_SIZE <= u16::MAX,
            ins.x < REGISTER_COUNT,
        ensures
            final(self).wf(),
            result == reported(keys_fault(ins)),
            final(self)@ == if keys_fault(ins) is Some {
                old(self)@
            } else {
                keys_effect(old(self)@, ins)
            },
    {
        let key: usize = (self.v[ins.x] % 16) as usize;
        let pressed = self.keys[key];
        if ins.nn == 0x9E {
            self.skip_ins(pressed);
            Ok(())
        } else if ins.nn == 0xA1 {
            self.skip_ins(!pressed);
            Ok(())
        } else {
            Err(CpuError(ErrorKind::UnknownOpcode(ins.word)))
        }
    }

    /// Family F: timers, key-wait, index arithmetic and block transfers.
    fn run_misc(&mut self, ins: Instruction) -> (result: Result<(), CpuError>)
        requires
            old(self).wf(),
            ins.x < REGISTER_COUNT,
        ensures
            final(self).wf(),
            result == reported(misc_fault(old(self)@, ins)),
            final(self)@ == if misc_fault(old(self)@, ins) is Some {
                old(self)@
            } else {
                misc_effect(old(self)@, ins)
            },
    {
        let x: usize = ins.x;
        let vx: u8 = self.v[x];
        let start: usize = self.i as usize;
        if ins.nn == 0x07 {
            self.v[x] = self.dt;
        } else if ins.nn == 0x0A {
            self.halt = HaltState::WaitingForKey(x);
        } else if ins.nn == 0x15 {
            self.dt = vx;
        } else if ins.nn == 0x1E {
            self.i = self.i.saturating_add(vx as u16);
        } else if ins.nn == 0x33 {
            if start + 2 >= MEMORY_SIZE {
                return Err(CpuError(ErrorKind::AddressOutOfBounds));
            }
            self.ram[start] = vx / 100;
            self.ram[start + 1] = (vx / 10) % 10;
            self.ram[start + 2] = vx % 10;
        } else if ins.nn == 0x55 {
            if start + x >= MEMORY_SIZE {
                return Err(CpuError(ErrorKind::AddressOutOfBounds));
            }
            let mut k: usize = 0;
            while k <= x
                invariant
                    k <= x + 1,
                    x < REGISTER_COUNT,
                    start + x < MEMORY_SIZE,
                    start == old(self).i,
                    self@ == (Machine { ram: self.ram@, ..old(self)@ }),
                    forall|a: int| start <= a < start + k ==> self.ram@[a] == self.v@[a - start],
                    forall|a: int|
                        0 <= a < MEMORY_SIZE && !(start <= a < start + k) ==> self.ram@[a] == old(
                            self,
                        ).ram@[a],
                decreases x + 1 - k,
            {
                self.ram[start + k] = self.v[k];
                k += 1;
            }
            assert(self.ram@ =~= misc_effect(old(self)@, ins).ram);
        } else if ins.nn == 0x65 {
            if start + x >= MEMORY_SIZE {
                return Err(CpuError(ErrorKind::AddressOutOfBounds));
            }
            let mut k: usize = 0;
            while k <= x
                invariant
                    k <= x + 1,
                    x < REGISTER_COUNT,
                    start + x < MEMORY_SIZE,
                    start == old(self).i,
                    self@ == (Machine { v: self.v@, ..old(self)@ }),
                    forall|r: int| 0 <= r < k ==> self.v@[r] == self.ram@[start + r],
                    forall|r: int| k <= r < REGISTER_COUNT ==> self.v@[r] == old(self).v@[r],
                decreases x + 1 - k,
            {
                self.v[k] = self.ram[start + k];
                k += 1;
            }
            assert(self.v@ =~= misc_effect(old(self)@, ins).v);
        } else {
            return Err(CpuError(ErrorKind::UnknownOpcode(ins.word)));
        }
        Ok(())
    }

    /// Executes a decoded instruction. It is refused, with the state left
    /// as it is, when the program counter leaves no room for an instruction
    /// in memory or when an operand names a register beyond VF. Otherwise
    /// the program counter moves past the instruction and the instruction
    /// acts; if it fails, only the program counter has changed.
    pub fn execute(&mut self, ins: Instruction) -> (result: Result<(), CpuError>)
        requires
            old(self).wf(),
        ensures
            final(self).wf(),
            result == reported(fault(old(self)@, ins)),
            final(self)@ == executed(old(self)@, ins),
    {
        if self.pc as usize + 1 >= MEMORY_SIZE {
            return Err(CpuError(ErrorKind::AddressOutOfBounds));
        }
        if ins.x >= REGISTER_COUNT || ins.y >= REGISTER_COUNT {
            return Err(CpuError(ErrorKind::InvalidRegisterIndex));
        }
        self.increment_pc();
        match ins.family {
            0x0 => self.run_system(ins),
            0x1 | 0x2 | 0x3 | 0x4 | 0x5 | 0x9 => self.run_flow(ins),
            0x6 | 0x7 | 0xA => self.run_load(ins),
            0x8 => self.run_alu(ins),
            0xD => self.run_draw(ins),
            0xE => self.run_keys(ins),
            0xF => self.run_misc(ins),
            _ => Err(CpuError(ErrorKind::UnknownOpcode(ins.word))),
        }
    }

    /// Decodes an instruction word and executes it. No word names a register
    /// beyond VF, so that failure does not occur here.
    pub fn run_opcode(&mut self, opcode: u16) -> (result: Result<(), CpuError>)
        requires
            old(self).wf(),
        ensures
            final(self).wf(),
            result == reported(fault(old(self)@, decoded(opcode))),
            final(self)@ == executed(old(self)@, decoded(opcode)),
            result != Err::<(), CpuError>(CpuError(ErrorKind::InvalidRegisterIndex)),
    {
        let ins = decode(opcode);
        self.execute(ins)
    }
}

} // verus!
