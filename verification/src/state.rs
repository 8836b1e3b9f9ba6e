use vstd::prelude::*;
use crate::opcode::{Instruction, Opcode};
use crate::prng::xorshift;
use crate::screen::Render;

verus! {

/// Address at which a loaded program starts; the program counter starts here.
pub const MEMORY_START: usize = 0x200;

/// Size of the unified memory in bytes.
pub const MEMORY_SIZE: usize = 0x1000;

/// End of the call-stack region; the stack pointer starts here and grows downwards.
pub const STACK_MEMORY_END: usize = 0xf00;

/// Start of the framebuffer: one bit per pixel, eight bytes per screen row.
pub const SCREEN_MEMORY_START: usize = 0xf00;

/// Why the machine refused to execute an instruction.
#[derive(Debug, Clone, Copy, PartialEq, Eq)]
pub enum Fault {
    /// The bytes `hi lo` at address `pc` encode no instruction.
    Unimplemented { pc: u16, hi: u8, lo: u8 },
    /// The instruction would have touched `address`, which lies outside memory.
    OutOfRange { address: usize },
}

/// How a successfully executed instruction ended.
#[derive(Debug, Clone, Copy, PartialEq, Eq)]
pub enum Outcome {
    /// The machine is ready for the next instruction.
    Next,
    /// The instruction jumps to itself: the program has stopped.
    Halt,
}

/// The mathematical model of the machine: everything but the rendering backend.
pub struct State {
    /// The sixteen general registers; register 15 doubles as the flag.
    pub v: Seq<u8>,
    /// The address register.
    pub i: u16,
    /// The stack pointer.
    pub sp: u16,
    /// The program counter.
    pub pc: u16,
    /// The unified memory.
    pub memory: Seq<u8>,
    /// Length of the loaded program.
    pub used_memory: usize,
    /// State of the random number generator.
    pub seed: u64,
    /// Every request that the machine has made of the rendering backend, in order.
    pub rendered: Seq<Render>,
}

impl State {
    pub open spec fn wf(self) -> bool {
        &&& self.v.len() == 16
        &&& self.memory.len() == MEMORY_SIZE
        &&& self.used_memory <= MEMORY_SIZE - MEMORY_START
    }
}

/// The state of a machine that has just been built with the given seed.
pub open spec fn initial(seed: u64) -> State {
    State {
        v: Seq::new(16, |k: int| 0u8),
        i: 0,
        sp: STACK_MEMORY_END as u16,
        pc: MEMORY_START as u16,
        memory: Seq::new(MEMORY_SIZE as nat, |k: int| 0u8),
        used_memory: 0,
        seed,
        rendered: Seq::empty(),
    }
}

/// The state after `rom` has been copied to the start of program space.
pub open spec fn loaded(s: State, rom: Seq<u8>) -> State {
    State {
        memory: Seq::new(
            MEMORY_SIZE as nat,
            |k: int|
                if MEMORY_START <= k < MEMORY_START + rom.len() {
                    rom[k - MEMORY_START]
                } else {
                    s.memory[k]
                },
        ),
        used_memory: rom.len() as usize,
        ..s
    }
}

/// The first address outside memory that an access of consecutive bytes
/// starting at `base` reaches.
pub open spec fn first_outside(base: int) -> usize {
    if base >= MEMORY_SIZE {
        base as usize
    } else {
        MEMORY_SIZE
    }
}

/// The fault, if any, of an access to `count` consecutive bytes from `base`.
pub open spec fn access_fault(base: int, count: int) -> Option<Fault> {
    if base + count <= MEMORY_SIZE {
        None
    } else {
        Some(Fault::OutOfRange { address: first_outside(base) })
    }
}

/// The state with the program counter moved to the following instruction.
pub open spec fn advance(s: State) -> State {
    State { pc: (s.pc + 2) as u16, ..s }
}

/// Register `x` receives `value`, then the flag register receives `flag`.
pub open spec fn with_flag(s: State, x: int, value: u8, flag: u8) -> State {
    State { v: s.v.update(x, value).update(15, flag), ..s }
}

pub open spec fn with_register(s: State, x: int, value: u8) -> State {
    State { v: s.v.update(x, value), ..s }
}

/// Index in memory of the framebuffer byte that holds pixel `(px, py)`.
pub open spec fn pixel_index(px: int, py: int) -> int {
    SCREEN_MEMORY_START + py * 8 + px / 8
}

/// The bit of that byte which stands for the pixel.
pub open spec fn pixel_mask(px: int) -> u8 {
    1u8 << ((px % 8) as u8)
}

/// Whether pixel `(px, py)` is lit in the framebuffer held in `memory`.
pub open spec fn pixel_on(memory: Seq<u8>, px: int, py: int) -> bool {
    memory[pixel_index(px, py)] & pixel_mask(px) != 0
}

/// The state after one more request has been made of the backend.
pub open spec fn told(s: State, request: Render) -> State {
    State { rendered: s.rendered.push(request), ..s }
}

/// Toggles pixel `(px, py)`; the flag register becomes 1 if the pixel was lit.
/// The backend is told what the pixel has become.
pub open spec fn plot(s: State, px: int, py: int) -> State {
    let idx = pixel_index(px, py);
    State {
        rendered: s.rendered.push(
            if pixel_on(s.memory, px, py) {
                Render::ClearPx { x: px as i32, y: py as i32 }
            } else {
                Render::DrawPx { x: px as i32, y: py as i32 }
            },
        ),
        v: if pixel_on(s.memory, px, py) {
            s.v.update(15, 1u8)
        } else {
            s.v
        },
        memory: s.memory.update(idx, s.memory[idx] ^ pixel_mask(px)),
        ..s
    }
}

/// Whether the sprite row `line` has its `b`-th pixel from the left set
/// (the most significant bit is the leftmost pixel).
pub open spec fn sprite_bit(line: u8, b: u8) -> bool {
    line & (0x80u8 >> b) != 0
}

/// The state after the first `bits` pixels of the sprite row `line` have been
/// drawn with the row's left edge at `(x, cy)`. Pixels that would fall beyond
/// the right edge of the screen are skipped.
pub open spec fn row_drawn(s: State, x: int, cy: int, line: u8, bits: int) -> State
    decreases bits,
{
    if bits <= 0 {
        s
    } else {
        let t = row_drawn(s, x, cy, line, bits - 1);
        let b = bits - 1;
        if sprite_bit(line, b as u8) && x + b < 64 {
            plot(t, x + b, cy)
        } else {
            t
        }
    }
}

/// The state after the first `rows` rows of the sprite at the address register
/// have been drawn with the sprite's corner at `(x, y)`. Each row is read from
/// memory when its turn comes.
pub open spec fn sprite_drawn(s: State, x: int, y: int, rows: int) -> State
    decreases rows,
{
    if rows <= 0 {
        s
    } else {
        let t = sprite_drawn(s, x, y, rows - 1);
        row_drawn(t, x, y + rows - 1, t.memory[t.i + rows - 1], 8)
    }
}

/// How many rows of a sprite of height `n` placed at row `y` are drawn:
/// drawing stops at the bottom edge of the screen.
pub open spec fn rows_on_screen(y: int, n: int) -> int {
    if y >= 32 {
        0
    } else if y + n > 32 {
        32 - y
    } else {
        n
    }
}

/// The fault of drawing a sprite of height `n` at row `y`: the rows that are
/// drawn must all lie inside memory.
pub open spec fn draw_fault(s: State, y: int, n: int) -> Option<Fault> {
    if rows_on_screen(y, n) > 0 {
        access_fault(s.i as int, rows_on_screen(y, n))
    } else {
        None
    }
}

/// Draws a sprite of height `n` with its corner at `(x, y)`, then has the
/// backend present the frame, once.
pub open spec fn drawn(s: State, x: int, y: int, n: int) -> State {
    told(sprite_drawn(s, x, y, rows_on_screen(y, n)), Render::Present)
}

/// The state with the whole framebuffer zeroed, and the backend told to
/// clear and to present.
pub open spec fn cleared(s: State) -> State {
    State {
        rendered: s.rendered.push(Render::Clear).push(Render::Present),
        memory: Seq::new(
            MEMORY_SIZE as nat,
            |k: int|
                if k >= SCREEN_MEMORY_START {
                    0u8
                } else {
                    s.memory[k]
                },
        ),
        ..s
    }
}

/// Registers `0..=x` are written to memory from the address register on,
/// which then moves past the block.
pub open spec fn block_stored(s: State, x: int) -> State {
    State {
        memory: Seq::new(
            MEMORY_SIZE as nat,
            |k: int|
                if s.i <= k <= s.i + x {
                    s.v[k - s.i]
                } else {
                    s.memory[k]
                },
        ),
        i: (s.i + x + 1) as u16,
        ..s
    }
}

/// Registers `0..=x` are read from memory from the address register on,
/// which then moves past the block.
pub open spec fn block_loaded(s: State, x: int) -> State {
    State {
        v: Seq::new(
            16,
            |k: int|
                if k <= x {
                    s.memory[s.i + k]
                } else {
                    s.v[k]
                },
        ),
        i: (s.i + x + 1) as u16,
        ..s
    }
}

/// The address pushed by a call is popped into the program counter.
pub open spec fn returned(s: State) -> State {
    State {
        pc: (s.memory[s.sp as int] * 256 + s.memory[s.sp + 1]) as u16,
        sp: (s.sp + 2) as u16,
        ..s
    }
}

/// The address of the following instruction is pushed, high byte first,
/// and the program counter moves to `target`.
pub open spec fn called(s: State, target: u16) -> State {
    State {
        memory: s.memory.update(s.sp - 2, ((s.pc + 2) / 256) as u8).update(
            s.sp - 1,
            ((s.pc + 2) % 256) as u8,
        ),
        sp: (s.sp - 2) as u16,
        pc: target,
        ..s
    }
}

/// Where a call writes its first byte: two below the stack pointer, in
/// sixteen-bit arithmetic.
pub open spec fn push_base(sp: u16) -> int {
    if sp >= 2 {
        sp - 2
    } else {
        sp + 0x1_0000 - 2
    }
}

/// The state after the generator has advanced and register `x` has received
/// the low byte of the new value, masked by `nn`.
pub open spec fn randomized(s: State, x: int, nn: u8) -> State {
    State {
        v: s.v.update(x, (xorshift(s.seed) as u8) & nn),
        seed: xorshift(s.seed),
        ..s
    }
}

/// The fault, if any, with which the machine refuses `ins` in state `s`.
pub open spec fn fault(s: State, ins: Instruction) -> Option<Fault> {
    match ins {
        Instruction::Return => access_fault(s.sp as int, 2),
        Instruction::Call { .. } => access_fault(push_base(s.sp), 2),
        Instruction::Draw { x, y, rows } => draw_fault(s, s.v[y as int] as int, rows as int),
        Instruction::StoreBlock { x } => access_fault(s.i as int, x + 1),
        Instruction::LoadBlock { x } => access_fault(s.i as int, x + 1),
        Instruction::Unknown { hi, lo } => Some(Fault::Unimplemented { pc: s.pc, hi, lo }),
        _ => None,
    }
}

/// The state after `ins` has been executed in state `s`, where the machine
/// does not refuse it. Jump, call and return set the program counter
/// themselves; every other instruction moves it on by two, a skip whose
/// condition holds by four.
pub open spec fn execute(s: State, ins: Instruction) -> State {
    match ins {
        Instruction::ClearDisplay => advance(cleared(s)),
        Instruction::Return => returned(s),
        Instruction::Jump { target } => State { pc: target, ..s },
        Instruction::Call { target } => called(s, target),
        Instruction::SkipEqImm { x, nn } => if s.v[x as int] == nn {
            advance(advance(s))
        } else {
            advance(s)
        },
        Instruction::SkipNeImm { x, nn } => if s.v[x as int] != nn {
            advance(advance(s))
        } else {
            advance(s)
        },
        Instruction::SkipEqReg { x, y } => if s.v[x as int] == s.v[y as int] {
            advance(advance(s))
        } else {
            advance(s)
        },
        Instruction::LoadImm { x, nn } => advance(with_register(s, x as int, nn)),
        Instruction::AddImm { x, nn } => advance(
            with_register(s, x as int, ((s.v[x as int] + nn) % 256) as u8),
        ),
        Instruction::Assign { x, y } => advance(with_register(s, x as int, s.v[y as int])),
        Instruction::Or { x, y } => advance(
            with_register(s, x as int, s.v[x as int] | s.v[y as int]),
        ),
        Instruction::And { x, y } => advance(
            with_register(s, x as int, s.v[x as int] & s.v[y as int]),
        ),
        Instruction::Xor { x, y } => advance(
            with_register(s, x as int, s.v[x as int] ^ s.v[y as int]),
        ),
        Instruction::AddCarry { x, y } => {
            let sum = s.v[x as int] + s.v[y as int];
            advance(
                with_flag(
                    s,
                    x as int,
                    (sum % 256) as u8,
                    if sum >= 256 {
                        1u8
                    } else {
                        0u8
                    },
                ),
            )
        },
        Instruction::SubBorrow { x, y } => {
            let diff = s.v[x as int] - s.v[y as int];
            advance(
                with_flag(
                    s,
                    x as int,
                    (diff % 256) as u8,
                    if diff < 0 {
                        0u8
                    } else {
                        1u8
                    },
                ),
            )
        },
        Instruction::ShiftRight { x } => advance(
            with_flag(s, x as int, s.v[x as int] / 2, s.v[x as int] % 2),
        ),
        Instruction::ReverseSub { x, y } => {
            let diff = s.v[y as int] - s.v[x as int];
            advance(
                with_flag(
                    s,
                    x as int,
                    (diff % 256) as u8,
                    if diff < 0 {
                        0u8
                    } else {
                        1u8
                    },
                ),
            )
        },
        Instruction::ShiftLeft { x } => advance(
            with_flag(s, x as int, ((s.v[x as int] * 2) % 256) as u8, s.v[x as int] / 128),
        ),
        Instruction::SetAddress { target } => advance(State { i: target, ..s }),
        Instruction::Random { x, nn } => advance(randomized(s, x as int, nn)),
        Instruction::Draw { x, y, rows } => advance(
            drawn(s, s.v[x as int] as int, s.v[y as int] as int, rows as int),
        ),
        Instruction::AddAddress { x } => advance(
            State { i: ((s.i + s.v[x as int]) % 0x1_0000) as u16, ..s },
        ),
        Instruction::StoreBlock { x } => advance(block_stored(s, x as int)),
        Instruction::LoadBlock { x } => advance(block_loaded(s, x as int)),
        Instruction::Unknown { .. } => s,
    }
}

/// The two bytes at the program counter.
pub open spec fn fetch(s: State) -> Opcode {
    Opcode(s.memory[s.pc as int], s.memory[s.pc + 1])
}

/// What one step of the machine reports: a fault where the fetch or the
/// instruction reaches outside memory or the bytes encode no instruction,
/// a halt on a jump to itself, and otherwise that it went on.
pub open spec fn outcome(s: State) -> Result<Outcome, Fault> {
    match access_fault(s.pc as int, 2) {
        Some(f) => Err(f),
        None => {
            let ins = fetch(s).decode();
            match fault(s, ins) {
                Some(f) => Err(f),
                None => if ins == (Instruction::Jump { target: s.pc }) {
                    Ok(Outcome::Halt)
                } else {
                    Ok(Outcome::Next)
                },
            }
        },
    }
}

/// The state after one step: that of the executed instruction, and the
/// unchanged state where the step faults or halts.
pub open spec fn step(s: State) -> State {
    if outcome(s) == Ok::<Outcome, Fault>(Outcome::Next) {
        execute(s, fetch(s).decode())
    } else {
        s
    }
}

} // verus!
