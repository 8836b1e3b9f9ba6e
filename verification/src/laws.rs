use vstd::prelude::*;
use crate::opcode::Instruction;
use crate::screen::Render;
use crate::sprite::{
    lemma_memory_of_pixels, lemma_sprite_drawn, lemma_sprite_frame, on_screen, sprite_covers,
};
use crate::state::{
    access_fault, advance, block_loaded, block_stored, draw_fault, drawn, execute, fault, fetch,
    outcome, pixel_on, rows_on_screen, sprite_drawn, step, told, Fault, Outcome, State, MEMORY_SIZE,
    SCREEN_MEMORY_START,
};

verus! {

/// Whether `s` is a state in which the machine fetches `ins` and executes it.
pub open spec fn runs(s: State, ins: Instruction) -> bool {
    &&& s.wf()
    &&& ins.wf()
    &&& s.pc + 2 <= MEMORY_SIZE
    &&& fetch(s).decode() == ins
    &&& fault(s, ins) is None
}

/// Add-with-carry leaves the sum modulo 256 in the target register and sets
/// the flag register to 1 exactly when the sum does not fit in a byte. The
/// flag is written last, so it wins where the target is the flag register.
pub proof fn law_add_with_carry(s: State, x: usize, y: usize)
    requires
        runs(s, Instruction::AddCarry { x, y }),
    ensures
        outcome(s) == Ok::<Outcome, Fault>(Outcome::Next),
        step(s).v[15] == (if s.v[x as int] + s.v[y as int] >= 256 {
            1u8
        } else {
            0u8
        }),
        x != 15 ==> step(s).v[x as int] == (s.v[x as int] + s.v[y as int]) % 256,
        forall|k: int| 0 <= k < 15 && k != x ==> step(s).v[k] == s.v[k],
        step(s).pc == s.pc + 2,
{
}

/// Subtract-with-borrow leaves the difference modulo 256 in the target
/// register and sets the flag register to 0 exactly when the subtrahend is
/// the larger, else to 1.
pub proof fn law_subtract_with_borrow(s: State, x: usize, y: usize)
    requires
        runs(s, Instruction::SubBorrow { x, y }),
    ensures
        outcome(s) == Ok::<Outcome, Fault>(Outcome::Next),
        (step(s).v[15] == 0) <==> (s.v[x as int] < s.v[y as int]),
        !(s.v[x as int] < s.v[y as int]) ==> step(s).v[15] == 1,
        x != 15 ==> step(s).v[x as int] == (s.v[x as int] - s.v[y as int]) % 256,
        forall|k: int| 0 <= k < 15 && k != x ==> step(s).v[k] == s.v[k],
        step(s).pc == s.pc + 2,
{
}

/// Reverse subtract computes `y - x` into register `x` under the same flag rule.
pub proof fn law_reverse_subtract(s: State, x: usize, y: usize)
    requires
        runs(s, Instruction::ReverseSub { x, y }),
    ensures
        outcome(s) == Ok::<Outcome, Fault>(Outcome::Next),
        (step(s).v[15] == 0) <==> (s.v[y as int] < s.v[x as int]),
        !(s.v[y as int] < s.v[x as int]) ==> step(s).v[15] == 1,
        x != 15 ==> step(s).v[x as int] == (s.v[y as int] - s.v[x as int]) % 256,
        forall|k: int| 0 <= k < 15 && k != x ==> step(s).v[k] == s.v[k],
        step(s).pc == s.pc + 2,
{
}

/// Shift right sets the flag register to bit 0 of the operand as it was
/// before the shift, and halves the operand.
pub proof fn law_shift_right(s: State, x: usize)
    requires
        runs(s, Instruction::ShiftRight { x }),
    ensures
        outcome(s) == Ok::<Outcome, Fault>(Outcome::Next),
        step(s).v[15] == s.v[x as int] & 1,
        x != 15 ==> step(s).v[x as int] == s.v[x as int] >> 1,
        forall|k: int| 0 <= k < 15 && k != x ==> step(s).v[k] == s.v[k],
{
    let a = s.v[x as int];
    assert(a >> 1 == a / 2 && a & 1 == a % 2) by (bit_vector);
}

/// Shift left sets the flag register to bit 7 of the operand as it was
/// before the shift, and doubles the operand modulo 256.
pub proof fn law_shift_left(s: State, x: usize)
    requires
        runs(s, Instruction::ShiftLeft { x }),
    ensures
        outcome(s) == Ok::<Outcome, Fault>(Outcome::Next),
        step(s).v[15] == (s.v[x as int] >> 7) & 1,
        x != 15 ==> step(s).v[x as int] == s.v[x as int] << 1,
        forall|k: int| 0 <= k < 15 && k != x ==> step(s).v[k] == s.v[k],
{
    let a = s.v[x as int];
    assert(a << 1 == (a * 2) % 256 && (a >> 7) & 1 == a / 128) by (bit_vector);
}

/// Whatever the instruction at the program counter, a step keeps the state
/// well formed: sixteen registers, the whole memory, a program that fits.
pub proof fn law_step_keeps_shape(s: State)
    requires
        s.wf(),
    ensures
        step(s).wf(),
{
    if outcome(s) == Ok::<Outcome, Fault>(Outcome::Next) {
        let ins = fetch(s).decode();
        match ins {
            Instruction::Draw { x, y, rows } => {
                let vy = s.v[y as int] as int;
                lemma_sprite_frame(
                    s,
                    s.v[x as int] as int,
                    vy,
                    rows_on_screen(vy, rows as int),
                );
            },
            _ => {},
        }
    }
}

/// Where the program counter stands after an instruction: jump and call set
/// it to their target, return to the address it pops, a skip whose condition
/// holds moves it on by 4, and every other instruction by exactly 2.
pub proof fn law_program_counter(s: State, ins: Instruction)
    requires
        runs(s, ins),
    ensures
        step(s).pc == match ins {
            Instruction::Jump { target } => target as int,
            Instruction::Call { target } => target as int,
            Instruction::Return => s.memory[s.sp as int] * 256 + s.memory[s.sp + 1],
            _ => if skip_condition(s, ins) == Some(true) {
                s.pc + 4
            } else {
                s.pc + 2
            },
        },
{
    match ins {
        Instruction::Draw { x, y, rows } => {
            let vy = s.v[y as int] as int;
            lemma_sprite_frame(s, s.v[x as int] as int, vy, rows_on_screen(vy, rows as int));
        },
        _ => {},
    }
}

/// The condition on which a skip instruction skips, and `None` for any other
/// instruction.
pub open spec fn skip_condition(s: State, ins: Instruction) -> Option<bool> {
    match ins {
        Instruction::SkipEqImm { x, nn } => Some(s.v[x as int] == nn),
        Instruction::SkipNeImm { x, nn } => Some(s.v[x as int] != nn),
        Instruction::SkipEqReg { x, y } => Some(s.v[x as int] == s.v[y as int]),
        _ => None,
    }
}

/// A skip instruction moves the program counter on by 4 when its condition
/// holds and by 2 otherwise, and changes nothing else.
pub proof fn law_skip(s: State, ins: Instruction)
    requires
        runs(s, ins),
        skip_condition(s, ins) is Some,
    ensures
        outcome(s) == Ok::<Outcome, Fault>(Outcome::Next),
        step(s) == (State {
            pc: (s.pc + if skip_condition(s, ins) == Some(true) {
                4int
            } else {
                2int
            }) as u16,
            ..s
        }),
        step(s).pc == s.pc + if skip_condition(s, ins) == Some(true) {
            4int
        } else {
            2int
        },
{
}

/// A jump to another address sets the program counter to its target and
/// nothing else; a jump to its own address halts and changes nothing.
pub proof fn law_jump(s: State, target: u16)
    requires
        runs(s, Instruction::Jump { target }),
    ensures
        step(s) == (State { pc: target, ..s }),
        outcome(s) == Ok::<Outcome, Fault>(
            if target == s.pc {
                Outcome::Halt
            } else {
                Outcome::Next
            },
        ),
{
}

/// A call whose target holds a return brings the program counter back to the
/// instruction after the call and the stack pointer back to where it was.
pub proof fn law_call_return(s: State, target: u16)
    requires
        runs(s, Instruction::Call { target }),
        runs(step(s), Instruction::Return),
    ensures
        outcome(s) == Ok::<Outcome, Fault>(Outcome::Next),
        outcome(step(s)) == Ok::<Outcome, Fault>(Outcome::Next),
        step(s).pc == target,
        step(s).sp == s.sp - 2,
        step(step(s)).pc == s.pc + 2,
        step(step(s)).sp == s.sp,
{
}

/// A call is refused exactly when the two bytes below the stack pointer do
/// not both lie in memory; the return that follows an accepted call is
/// never refused.
pub proof fn law_call_return_accepted(s: State, target: u16)
    requires
        s.wf(),
    ensures
        fault(s, Instruction::Call { target }) is None <==> 2 <= s.sp <= MEMORY_SIZE,
        fault(s, Instruction::Call { target }) is None ==> fault(
            execute(s, Instruction::Call { target }),
            Instruction::Return,
        ) is None,
{
}

/// A sprite placed at or below the bottom edge draws no row: the instruction
/// is never refused, and only the program counter moves.
pub proof fn law_draw_below_screen(s: State, x: usize, y: usize, rows: u8)
    requires
        s.wf(),
        x < 16,
        y < 16,
        s.v[y as int] >= 32,
    ensures
        fault(s, Instruction::Draw { x, y, rows }) is None,
        execute(s, Instruction::Draw { x, y, rows }) == advance(told(s, Render::Present)),
        execute(s, Instruction::Draw { x, y, rows }).v[15] == s.v[15],
{
    assert(rows_on_screen(s.v[y as int] as int, rows as int) == 0);
}

/// Drawing a sprite twice at the same place restores memory, and with it
/// every pixel: the first draw flips each pixel under a set bit of the
/// sprite, the second flips it back. Where the first draw lit a pixel, the
/// second leaves the flag register at 1.
///
/// The rows of the sprite must lie below the framebuffer in memory: a sprite
/// that overlaps the framebuffer is changed by its own drawing.
pub proof fn law_draw_twice(s: State, x: int, y: int, n: int)
    requires
        s.wf(),
        0 <= x,
        0 <= y,
        0 <= n,
        s.i + rows_on_screen(y, n) <= SCREEN_MEMORY_START,
    ensures
        draw_fault(s, y, n) is None,
        draw_fault(drawn(s, x, y, n), y, n) is None,
        drawn(drawn(s, x, y, n), x, y, n).memory == s.memory,
        forall|px: int, py: int|
            on_screen(px, py) && sprite_covers(s, x, y, rows_on_screen(y, n), px, py)
                ==> #[trigger] pixel_on(drawn(s, x, y, n).memory, px, py) != pixel_on(
                s.memory,
                px,
                py,
            ),
        forall|px: int, py: int|
            on_screen(px, py) && sprite_covers(s, x, y, rows_on_screen(y, n), px, py)
                && !#[trigger] pixel_on(s.memory, px, py) ==> drawn(
                drawn(s, x, y, n),
                x,
                y,
                n,
            ).v[15] == 1,
{
    let rows = rows_on_screen(y, n);
    let once = drawn(s, x, y, n);
    let twice = drawn(once, x, y, n);
    lemma_sprite_drawn(s, x, y, rows);
    lemma_sprite_drawn(once, x, y, rows);
    assert(once.memory == sprite_drawn(s, x, y, rows).memory);
    assert(twice.memory == sprite_drawn(once, x, y, rows).memory);
    assert forall|px: int, py: int| on_screen(px, py) implies sprite_covers(
        once,
        x,
        y,
        rows,
        px,
        py,
    ) == sprite_covers(s, x, y, rows, px, py) by {}
    assert forall|px: int, py: int| on_screen(px, py) implies #[trigger] pixel_on(
        twice.memory,
        px,
        py,
    ) == pixel_on(s.memory, px, py) by {
        assert(pixel_on(once.memory, px, py) == (pixel_on(s.memory, px, py) != sprite_covers(
            s,
            x,
            y,
            rows,
            px,
            py,
        )));
    }
    lemma_memory_of_pixels(twice.memory, s.memory);
    assert forall|px: int, py: int|
        on_screen(px, py) && sprite_covers(s, x, y, rows, px, py) && !#[trigger] pixel_on(
            s.memory,
            px,
            py,
        ) implies twice.v[15] == 1 by {
        assert(pixel_on(once.memory, px, py));
        assert(sprite_covers(once, x, y, rows, px, py));
    }
}

/// Storing registers `0..=x` and loading them back through the same address
/// restores each of them, whatever the registers held in between, and each
/// of the two transfers moves the address register on by `x + 1`.
pub proof fn law_store_load_round_trip(s: State, x: usize, between: Seq<u8>)
    requires
        s.wf(),
        x < 16,
        between.len() == 16,
        access_fault(s.i as int, x + 1) is None,
    ensures
        ({
            let stored = block_stored(s, x as int);
            let rewound = State { i: s.i, v: between, ..stored };
            let reloaded = block_loaded(rewound, x as int);
            &&& stored.i == s.i + x + 1
            &&& stored.v == s.v
            &&& reloaded.i == s.i + x + 1
            &&& reloaded.memory == stored.memory
            &&& forall|k: int| 0 <= k <= x ==> reloaded.v[k] == s.v[k]
            &&& forall|k: int| x < k < 16 ==> reloaded.v[k] == between[k]
        }),
{
}

} // verus!
