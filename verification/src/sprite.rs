use vstd::prelude::*;
use crate::state::{
    pixel_index, pixel_on, plot, row_drawn, sprite_bit, sprite_drawn, State, MEMORY_SIZE,
    SCREEN_MEMORY_START,
};

verus! {

/// Whether `(px, py)` is a pixel of the screen.
pub open spec fn on_screen(px: int, py: int) -> bool {
    0 <= px < 64 && 0 <= py < 32
}

/// Whether one of the first `bits` pixels of the sprite row `line`, drawn with
/// its left edge at `(x, cy)`, is set and falls on `(px, py)`.
pub open spec fn row_covers(line: u8, x: int, cy: int, bits: int, px: int, py: int) -> bool {
    py == cy && x <= px < x + bits && sprite_bit(line, (px - x) as u8)
}

/// Whether one of the first `rows` rows of the sprite at the address register,
/// drawn with its corner at `(x, y)`, has a set pixel that falls on `(px, py)`.
pub open spec fn sprite_covers(s: State, x: int, y: int, rows: int, px: int, py: int) -> bool {
    y <= py < y + rows && row_covers(s.memory[s.i + (py - y)], x, py, 8, px, py)
}

/// What a drawing operation may change: registers other than the flag,
/// the address register, the stack pointer, the program counter, the
/// generator, and memory below the framebuffer all stay; the flag register
/// stays or becomes 1.
pub open spec fn touches_screen_only(s: State, t: State) -> bool {
    &&& t.wf()
    &&& t == (State { v: t.v, memory: t.memory, rendered: t.rendered, ..s })
    &&& (t.v == s.v || t.v == s.v.update(15, 1u8))
    &&& forall|k: int| 0 <= k < SCREEN_MEMORY_START ==> t.memory[k] == s.memory[k]
}

/// Drawing after drawing is drawing.
proof fn lemma_touches_twice(s: State, t: State, u: State)
    requires
        s.wf(),
        touches_screen_only(s, t),
        touches_screen_only(t, u),
    ensures
        touches_screen_only(s, u),
{
    assert(s.v.update(15, 1u8).update(15, 1u8) =~= s.v.update(15, 1u8));
}

/// Toggling one pixel flips that pixel and no other, and raises the flag
/// exactly when the pixel was lit.
pub proof fn lemma_plot(s: State, cx: int, cy: int)
    requires
        s.wf(),
        on_screen(cx, cy),
    ensures
        touches_screen_only(s, plot(s, cx, cy)),
        forall|px: int, py: int|
            on_screen(px, py) ==> #[trigger] pixel_on(plot(s, cx, cy).memory, px, py) == (pixel_on(
                s.memory,
                px,
                py,
            ) != (px == cx && py == cy)),
        pixel_on(s.memory, cx, cy) ==> plot(s, cx, cy).v[15] == 1,
{
    let t = plot(s, cx, cy);
    let idx = pixel_index(cx, cy);
    let a: u8 = (cx % 8) as u8;
    assert forall|px: int, py: int| on_screen(px, py) implies #[trigger] pixel_on(
        t.memory,
        px,
        py,
    ) == (pixel_on(s.memory, px, py) != (px == cx && py == cy)) by {
        let b: u8 = (px % 8) as u8;
        if pixel_index(px, py) == idx {
            let m: u8 = s.memory[idx];
            assert(((m ^ (1u8 << a)) & (1u8 << b) != 0) == ((m & (1u8 << b) != 0) != (a == b)))
                by (bit_vector)
                requires
                    a < 8,
                    b < 8,
            ;
            assert(py == cy && px / 8 == cx / 8);
        }
    }
}

/// Drawing part of a sprite row flips exactly the pixels that its set bits
/// fall on, and raises the flag where one of them was lit.
pub proof fn lemma_row_drawn(s: State, x: int, cy: int, line: u8, bits: int)
    requires
        s.wf(),
        0 <= x,
        0 <= cy < 32,
        0 <= bits <= 8,
    ensures
        touches_screen_only(s, row_drawn(s, x, cy, line, bits)),
        forall|px: int, py: int|
            on_screen(px, py) ==> #[trigger] pixel_on(
                row_drawn(s, x, cy, line, bits).memory,
                px,
                py,
            ) == (pixel_on(s.memory, px, py) != row_covers(line, x, cy, bits, px, py)),
        forall|px: int, py: int|
            on_screen(px, py) && row_covers(line, x, cy, bits, px, py) && #[trigger] pixel_on(
                s.memory,
                px,
                py,
            ) ==> row_drawn(s, x, cy, line, bits).v[15] == 1,
    decreases bits,
{
    if bits > 0 {
        lemma_row_drawn(s, x, cy, line, bits - 1);
        let t = row_drawn(s, x, cy, line, bits - 1);
        let b = bits - 1;
        if sprite_bit(line, b as u8) && x + b < 64 {
            lemma_plot(t, x + b, cy);
            let u = plot(t, x + b, cy);
            lemma_touches_twice(s, t, u);
            assert(pixel_on(t.memory, x + b, cy) == pixel_on(s.memory, x + b, cy));
            assert forall|px: int, py: int| on_screen(px, py) implies #[trigger] pixel_on(
                u.memory,
                px,
                py,
            ) == (pixel_on(s.memory, px, py) != row_covers(line, x, cy, bits, px, py)) by {
                assert(pixel_on(t.memory, px, py) == (pixel_on(s.memory, px, py) != row_covers(
                    line,
                    x,
                    cy,
                    bits - 1,
                    px,
                    py,
                )));
            }
        }
    }
}

/// Drawing a sprite, wherever it lies in memory, changes nothing but the
/// framebuffer, the flag register and what the backend has been told.
pub proof fn lemma_sprite_frame(s: State, x: int, y: int, rows: int)
    requires
        s.wf(),
        0 <= x,
        0 <= y,
        0 <= rows,
        rows > 0 ==> y + rows <= 32,
    ensures
        touches_screen_only(s, sprite_drawn(s, x, y, rows)),
    decreases rows,
{
    if rows > 0 {
        lemma_sprite_frame(s, x, y, rows - 1);
        let t = sprite_drawn(s, x, y, rows - 1);
        let line = t.memory[t.i + rows - 1];
        lemma_row_drawn(t, x, y + rows - 1, line, 8);
        lemma_touches_twice(s, t, row_drawn(t, x, y + rows - 1, line, 8));
    }
}

/// Drawing a sprite that lies below the framebuffer in memory flips exactly
/// the pixels that its set bits fall on, and raises the flag where one of
/// them was lit.
pub proof fn lemma_sprite_drawn(s: State, x: int, y: int, rows: int)
    requires
        s.wf(),
        0 <= x,
        0 <= y,
        0 <= rows,
        rows > 0 ==> y + rows <= 32,
        s.i + rows <= SCREEN_MEMORY_START,
    ensures
        touches_screen_only(s, sprite_drawn(s, x, y, rows)),
        forall|px: int, py: int|
            on_screen(px, py) ==> #[trigger] pixel_on(sprite_drawn(s, x, y, rows).memory, px, py)
                == (pixel_on(s.memory, px, py) != sprite_covers(s, x, y, rows, px, py)),
        forall|px: int, py: int|
            on_screen(px, py) && sprite_covers(s, x, y, rows, px, py) && #[trigger] pixel_on(
                s.memory,
                px,
                py,
            ) ==> sprite_drawn(s, x, y, rows).v[15] == 1,
    decreases rows,
{
    if rows > 0 {
        lemma_sprite_drawn(s, x, y, rows - 1);
        let t = sprite_drawn(s, x, y, rows - 1);
        let cy = y + rows - 1;
        let line = t.memory[t.i + rows - 1];
        assert(line == s.memory[s.i + rows - 1]);
        lemma_row_drawn(t, x, cy, line, 8);
        let u = row_drawn(t, x, cy, line, 8);
        lemma_touches_twice(s, t, u);
        assert forall|px: int, py: int| on_screen(px, py) implies #[trigger] pixel_on(
            u.memory,
            px,
            py,
        ) == (pixel_on(s.memory, px, py) != sprite_covers(s, x, y, rows, px, py)) by {
            assert(pixel_on(t.memory, px, py) == (pixel_on(s.memory, px, py) != sprite_covers(
                s,
                x,
                y,
                rows - 1,
                px,
                py,
            )));
        }
        assert forall|px: int, py: int|
            on_screen(px, py) && sprite_covers(s, x, y, rows, px, py) && #[trigger] pixel_on(
                s.memory,
                px,
                py,
            ) implies u.v[15] == 1 by {
            assert(pixel_on(t.memory, px, py) == (pixel_on(s.memory, px, py) != sprite_covers(
                s,
                x,
                y,
                rows - 1,
                px,
                py,
            )));
        }
    }
}

/// Two memories that agree on a pixel agree on the bit that stands for it.
proof fn lemma_bit_of_pixel(m1: Seq<u8>, m2: Seq<u8>, column: int, py: int, k: u8)
    requires
        0 <= column < 8,
        0 <= py < 32,
        k < 8,
        pixel_on(m1, 8 * column + k, py) == pixel_on(m2, 8 * column + k, py),
    ensures
        (m1[pixel_index(8 * column, py)] & (1u8 << k) != 0) == (m2[pixel_index(8 * column, py)] & (
        1u8 << k) != 0),
{
    let px = 8 * column + k;
    assert(pixel_index(px, py) == pixel_index(8 * column, py));
    assert((px % 8) as u8 == k);
}

/// Two memories that agree on the eight pixels of a framebuffer byte agree
/// on that byte.
pub proof fn lemma_byte_of_pixels(m1: Seq<u8>, m2: Seq<u8>, column: int, py: int)
    requires
        0 <= column < 8,
        0 <= py < 32,
        forall|px: int|
            8 * column <= px < 8 * column + 8 ==> pixel_on(m1, px, py) == pixel_on(m2, px, py),
    ensures
        m1[pixel_index(8 * column, py)] == m2[pixel_index(8 * column, py)],
{
    let idx = pixel_index(8 * column, py);
    let a: u8 = m1[idx];
    let b: u8 = m2[idx];
    lemma_bit_of_pixel(m1, m2, column, py, 0);
    lemma_bit_of_pixel(m1, m2, column, py, 1);
    lemma_bit_of_pixel(m1, m2, column, py, 2);
    lemma_bit_of_pixel(m1, m2, column, py, 3);
    lemma_bit_of_pixel(m1, m2, column, py, 4);
    lemma_bit_of_pixel(m1, m2, column, py, 5);
    lemma_bit_of_pixel(m1, m2, column, py, 6);
    lemma_bit_of_pixel(m1, m2, column, py, 7);
    assert(a == b) by (bit_vector)
        requires
            (a & (1u8 << 0u8) != 0) == (b & (1u8 << 0u8) != 0),
            (a & (1u8 << 1u8) != 0) == (b & (1u8 << 1u8) != 0),
            (a & (1u8 << 2u8) != 0) == (b & (1u8 << 2u8) != 0),
            (a & (1u8 << 3u8) != 0) == (b & (1u8 << 3u8) != 0),
            (a & (1u8 << 4u8) != 0) == (b & (1u8 << 4u8) != 0),
            (a & (1u8 << 5u8) != 0) == (b & (1u8 << 5u8) != 0),
            (a & (1u8 << 6u8) != 0) == (b & (1u8 << 6u8) != 0),
            (a & (1u8 << 7u8) != 0) == (b & (1u8 << 7u8) != 0),
    ;
}

/// Two memories that agree below the framebuffer and on every pixel are equal.
pub proof fn lemma_memory_of_pixels(m1: Seq<u8>, m2: Seq<u8>)
    requires
        m1.len() == MEMORY_SIZE,
        m2.len() == MEMORY_SIZE,
        forall|k: int| 0 <= k < SCREEN_MEMORY_START ==> m1[k] == m2[k],
        forall|px: int, py: int|
            on_screen(px, py) ==> #[trigger] pixel_on(m1, px, py) == pixel_on(m2, px, py),
    ensures
        m1 == m2,
{
    assert forall|k: int| 0 <= k < MEMORY_SIZE implies m1[k] == m2[k] by {
        if k >= SCREEN_MEMORY_START {
            let column = (k - SCREEN_MEMORY_START) % 8;
            let py = (k - SCREEN_MEMORY_START) / 8;
            assert forall|px: int| 8 * column <= px < 8 * column + 8 implies pixel_on(m1, px, py)
                == pixel_on(m2, px, py) by {
                assert(on_screen(px, py));
            }
            lemma_byte_of_pixels(m1, m2, column, py);
            assert(pixel_index(8 * column, py) == k);
        }
    }
    assert(m1 =~= m2);
}

} // verus!
