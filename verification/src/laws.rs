//! Laws of the machine, proved from the model: what holds over several
//! instructions, several cycles or all states.

use crate::cpu::{
    loaded, CpuError, ErrorKind, HaltState, Machine, KEY_COUNT, MEMORY_SIZE, STACK_SIZE, START_PC,
};
use crate::cycle::{cycle_fault, cycled, decayed, fetched, halted, key_down, key_up, ticked};
use crate::decode::{decoded, Instruction};
use crate::display::{
    collides, drawn, hits, is_screen, sprite_covers, CHIP_8_HEIGHT, CHIP_8_WIDTH,
};
use crate::execute::{advanced, executed, fault};
use vstd::prelude::*;

verus! {

/// The state after a number of cycles with no key event in between.
pub open spec fn after_cycles(s: Machine, n: nat) -> Machine
    decreases n,
{
    if n == 0 {
        s
    } else {
        cycled(after_cycles(s, (n - 1) as nat))
    }
}

/// Whether an instruction names an operation of the instruction set.
pub open spec fn is_defined(ins: Instruction) -> bool {
    let f = ins.family;
    let nn = ins.nn;
    ||| 1 <= f <= 7
    ||| f == 0x9
    ||| f == 0xA
    ||| f == 0xD
    ||| (f == 0x0 && (nn == 0xE0 || nn == 0xEE))
    ||| (f == 0x8 && (ins.n <= 7 || ins.n == 0xE))
    ||| (f == 0xE && (nn == 0x9E || nn == 0xA1))
    ||| (f == 0xF && (nn == 0x07 || nn == 0x0A || nn == 0x15 || nn == 0x1E || nn == 0x33 || nn
        == 0x55 || nn == 0x65))
}

/// Whether an instruction sets the delay timer.
pub open spec fn sets_timer(ins: Instruction) -> bool {
    ins.family == 0xF && ins.nn == 0x15
}

/// Whether a cycle from this state leaves the timers to the timer step: the
/// processor waits for a key, or the instruction at the program counter is
/// not one that sets a timer.
pub open spec fn leaves_timers(s: Machine) -> bool {
    halted(s) || !sets_timer(fetched(s))
}

/// Well-formedness is kept by every instruction, whether it fails or not.
pub proof fn execution_keeps_well_formed(s: Machine, ins: Instruction)
    requires
        s.wf(),
    ensures
        executed(s, ins).wf(),
{
}

/// Well-formedness is kept by cycles and by key events: the stack pointer
/// stays within the stack, the screen keeps its shape, a key-wait names a
/// register, and the cycle count stays below the ratio.
pub proof fn well_formed_forever(s: Machine, n: nat, key: int)
    requires
        s.wf(),
    ensures
        after_cycles(s, n).wf(),
        key_down(s, key).wf(),
        key_up(s, key).wf(),
    decreases n,
{
    if n > 0 {
        let m = after_cycles(s, (n - 1) as nat);
        well_formed_forever(s, (n - 1) as nat, key);
        execution_keeps_well_formed(ticked(m), fetched(m));
    }
}

/// A program that fits in memory reads back from the load address as it was
/// loaded, whatever memory held before.
pub proof fn load_reads_back(ram: Seq<u8>, rom: Seq<u8>)
    requires
        ram.len() == MEMORY_SIZE,
        rom.len() <= MEMORY_SIZE - START_PC,
    ensures
        loaded(ram, rom).len() == MEMORY_SIZE,
        loaded(ram, rom).subrange(START_PC as int, START_PC + rom.len()) == rom,
        loaded(ram, rom).subrange(0, START_PC as int) == ram.subrange(0, START_PC as int),
{
    assert(loaded(ram, rom).subrange(START_PC as int, START_PC + rom.len()) =~= rom);
    assert(loaded(ram, rom).subrange(0, START_PC as int) =~= ram.subrange(0, START_PC as int));
}

/// Drawing is its own inverse: a sprite drawn twice at one place leaves the
/// screen as it was. The second drawing collides exactly when the first one
/// lit a pixel, that is when the sprite covers a pixel of the screen that
/// was unlit.
pub proof fn draw_twice_restores(pixels: Seq<Seq<bool>>, sprite: Seq<u8>, x0: int, y0: int)
    requires
        is_screen(pixels),
    ensures
        is_screen(drawn(pixels, sprite, x0, y0)),
        drawn(drawn(pixels, sprite, x0, y0), sprite, x0, y0) == pixels,
        collides(drawn(pixels, sprite, x0, y0), sprite, x0, y0) <==> exists|x: int, y: int|
            0 <= x < CHIP_8_WIDTH && 0 <= y < CHIP_8_HEIGHT && #[trigger] sprite_covers(sprite, x0, y0, x, y)
                && !pixels[x][y],
{
    let once = drawn(pixels, sprite, x0, y0);
    assert(drawn(once, sprite, x0, y0) =~~= pixels);
    if collides(once, sprite, x0, y0) {
        let (x, y) = choose|x: int, y: int| #[trigger] hits(once, sprite, x0, y0, x, y);
        assert(sprite_covers(sprite, x0, y0, x, y) && !pixels[x][y]);
    }
    if exists|x: int, y: int|
        0 <= x < CHIP_8_WIDTH && 0 <= y < CHIP_8_HEIGHT && #[trigger] sprite_covers(sprite, x0, y0, x, y)
            && !pixels[x][y] {
        let (x, y) = choose|x: int, y: int|
            0 <= x < CHIP_8_WIDTH && 0 <= y < CHIP_8_HEIGHT && #[trigger] sprite_covers(sprite, x0, y0, x, y)
                && !pixels[x][y];
        assert(hits(once, sprite, x0, y0, x, y));
    }
}

/// A call followed by a return comes back behind the call. After a call to
/// an address the program counter is that address and the stack is one
/// deeper; after the return executed there the program counter is two past
/// where the call stood and the stack is as deep as before. The call needs a
/// free stack entry, and each instruction needs room in memory where the
/// program counter stands.
pub proof fn call_then_return(s: Machine, call: u16)
    requires
        s.wf(),
        s.pc + 1 < MEMORY_SIZE,
        s.sp < STACK_SIZE,
        decoded(call).family == 0x2,
    ensures
        fault(s, decoded(call)) is None,
        executed(s, decoded(call)).pc == decoded(call).nnn,
        executed(s, decoded(call)).sp == s.sp + 1,
        decoded(call).nnn + 1 < MEMORY_SIZE ==> {
            let called = executed(s, decoded(call));
            &&& fault(called, decoded(0x00EE)) is None
            &&& executed(called, decoded(0x00EE)).pc == s.pc + 2
            &&& executed(called, decoded(0x00EE)).sp == s.sp
        },
{
}

/// A skip moves the program counter by four when its condition holds and by
/// two when it does not: skip if equal and skip if not equal, of a register
/// and a byte or of two registers.
pub proof fn skip_advances(s: Machine, word: u16)
    requires
        s.wf(),
        s.pc + 1 < MEMORY_SIZE,
        ({
            let f = decoded(word).family;
            f == 0x3 || f == 0x4 || f == 0x5 || f == 0x9
        }),
    ensures
        fault(s, decoded(word)) is None,
        ({
            let ins = decoded(word);
            let vx = s.v[ins.x as int];
            let vy = s.v[ins.y as int];
            let holds = if ins.family == 0x3 {
                vx == ins.nn
            } else if ins.family == 0x4 {
                vx != ins.nn
            } else if ins.family == 0x5 {
                vx == vy
            } else {
                vx != vy
            };
            executed(s, ins) == (Machine {
                pc: (if holds {
                    s.pc + 4
                } else {
                    s.pc + 2
                }) as u16,
                ..s
            })
        }),
{
}

/// The execution of an instruction that does not set the delay timer leaves
/// both timers, the cycle count and the ratio as they were.
pub proof fn execution_leaves_timers(s: Machine, ins: Instruction)
    requires
        !sets_timer(ins),
    ensures
        executed(s, ins).dt == s.dt,
        executed(s, ins).st == s.st,
        executed(s, ins).timer_counter == s.timer_counter,
        executed(s, ins).cycles_per_tick == s.cycles_per_tick,
{
}

/// Before the ratio is reached the timers stand still: after `k` cycles,
/// `k` below the ratio, the count is `k` and the timers are as at the start.
pub proof fn timers_hold(s: Machine, k: nat)
    requires
        s.timer_counter == 0,
        k < s.cycles_per_tick,
        forall|j: nat| j < k ==> leaves_timers(#[trigger] after_cycles(s, j)),
    ensures
        after_cycles(s, k).timer_counter == k,
        after_cycles(s, k).cycles_per_tick == s.cycles_per_tick,
        after_cycles(s, k).dt == s.dt,
        after_cycles(s, k).st == s.st,
    decreases k,
{
    if k > 0 {
        let j = (k - 1) as nat;
        timers_hold(s, j);
        let m = after_cycles(s, j);
        assert(leaves_timers(m));
        if !halted(m) {
            execution_leaves_timers(ticked(m), fetched(m));
        }
    }
}

/// Timer decay. With a ratio of `n` cycles per tick, `n` at least one, and
/// the count at zero, `n` cycles in which no instruction sets a timer take
/// each timer down by exactly one, or leave it at zero, and bring the count
/// back to zero.
pub proof fn timers_decay(s: Machine)
    requires
        s.timer_counter == 0,
        s.cycles_per_tick >= 1,
        forall|j: nat|
            j < s.cycles_per_tick ==> leaves_timers(#[trigger] after_cycles(s, j)),
    ensures
        after_cycles(s, s.cycles_per_tick as nat).dt == decayed(s.dt),
        after_cycles(s, s.cycles_per_tick as nat).st == decayed(s.st),
        after_cycles(s, s.cycles_per_tick as nat).timer_counter == 0,
        decayed(s.dt) == if s.dt == 0 { 0int } else { s.dt - 1 },
{
    let n = s.cycles_per_tick as nat;
    let j = (n - 1) as nat;
    timers_hold(s, j);
    let m = after_cycles(s, j);
    assert(leaves_timers(m));
    if !halted(m) {
        execution_leaves_timers(ticked(m), fetched(m));
    }
}

/// While the processor waits for a key, cycles change the timers and the
/// cycle count and nothing else.
pub proof fn wait_holds(s: Machine, n: nat)
    requires
        halted(s),
    ensures
        after_cycles(s, n) == (Machine {
            dt: after_cycles(s, n).dt,
            st: after_cycles(s, n).st,
            timer_counter: after_cycles(s, n).timer_counter,
            ..s
        }),
    decreases n,
{
    if n > 0 {
        wait_holds(s, (n - 1) as nat);
    }
}

/// Key-wait. After the wait-for-key instruction the processor is halted
/// behind it. However many cycles follow, the program counter and every
/// register stay as they are. A key press then puts the key into the
/// register that the instruction named and ends the wait, so that the next
/// cycle executes the instruction at the program counter.
pub proof fn key_wait(s: Machine, wait: u16, n: nat, key: int)
    requires
        s.wf(),
        s.pc + 1 < MEMORY_SIZE,
        decoded(wait).family == 0xF,
        decoded(wait).nn == 0x0A,
        0 <= key < KEY_COUNT,
    ensures
        ({
            let x = decoded(wait).x;
            let waiting = executed(s, decoded(wait));
            let later = after_cycles(waiting, n);
            let resumed = key_down(later, key);
            &&& fault(s, decoded(wait)) is None
            &&& waiting.halt == HaltState::WaitingForKey(x)
            &&& waiting.pc == s.pc + 2
            &&& waiting.v == s.v
            &&& later.halt == waiting.halt
            &&& later.pc == waiting.pc
            &&& later.v == s.v
            &&& resumed.halt == HaltState::Running
            &&& resumed.pc == waiting.pc
            &&& resumed.v == s.v.update(x as int, key as u8)
            &&& cycled(resumed) == executed(ticked(resumed), fetched(resumed))
        }),
{
    let waiting = executed(s, decoded(wait));
    wait_holds(waiting, n);
}

/// Unknown opcodes. Where the program counter leaves room for an
/// instruction, the execution of a word fails as an unknown opcode exactly
/// when the word names no operation of the instruction set; the failure
/// carries the word, and the state is as before but for the program
/// counter, which has moved past the word.
pub proof fn unknown_opcode(s: Machine, word: u16)
    requires
        s.pc + 1 < MEMORY_SIZE,
    ensures
        !is_defined(decoded(word)) <==> fault(s, decoded(word)) == Some(
            CpuError(ErrorKind::UnknownOpcode(word)),
        ),
        !is_defined(decoded(word)) ==> executed(s, decoded(word)) == advanced(s),
        fault(s, decoded(word)) matches Some(CpuError(ErrorKind::UnknownOpcode(w))) ==> w == word,
{
}

/// A cycle that meets an unknown opcode reports it, and leaves the state as
/// the timer step left it but for the program counter, which has moved past
/// the word.
pub proof fn unknown_opcode_in_cycle(s: Machine)
    requires
        !halted(s),
        s.pc + 1 < MEMORY_SIZE,
        !is_defined(fetched(s)),
    ensures
        cycle_fault(s) == Some(CpuError(ErrorKind::UnknownOpcode(fetched(s).word))),
        cycled(s) == advanced(ticked(s)),
{
    let word = fetched(s).word;
    assert(fetched(s) == decoded(word));
    unknown_opcode(ticked(s), word);
}

} // verus!
