//! Laws that relate several operations of the machine, proved from the
//! model in `state`: the double-draw identity of the XOR compositor, what a
//! second identical draw reports as its collision flag, the register
//! store/load round trip, and call followed by return.

use vstd::prelude::*;
use crate::state::{
    add_reg_post, call_post, draw_collision, draw_fb, lemma_row_unwrap, lemma_row_wrap,
    load_regs_post, ret_post, rev_byte, row_hit, row_mask, sprite_row_byte, src_row,
    store_regs_post, sub_xy_post, sub_yx_post, wrap8, State,
};

verus! {

/// For every 8-bit pair: the register add leaves the destination (when it
/// is not the flag register itself) holding the sum modulo 256, and VF
/// holds 1 exactly when the unsigned sum exceeds 255.
pub proof fn lemma_add_sets_carry(pre: State, x: int, y: int)
    requires
        pre.wf(),
        0 <= x < 15,
        0 <= y < 16,
    ensures
        add_reg_post(pre, x, y).vx[x] == wrap8(pre.vx[x] + pre.vx[y]),
        (add_reg_post(pre, x, y).vx[15] == 1) <==> (pre.vx[x] + pre.vx[y] > 255),
{
}

/// For every 8-bit pair: the X - Y subtraction leaves the destination
/// (when it is not the flag register itself) holding the difference modulo
/// 256, and VF holds 1 exactly when no borrow occurred, that is when
/// VX >= VY.
pub proof fn lemma_sub_sets_no_borrow(pre: State, x: int, y: int)
    requires
        pre.wf(),
        0 <= x < 15,
        0 <= y < 16,
    ensures
        sub_xy_post(pre, x, y).vx[x] == wrap8(pre.vx[x] - pre.vx[y]),
        (sub_xy_post(pre, x, y).vx[15] == 1) <==> (pre.vx[x] >= pre.vx[y]),
{
}

/// The mirrored subtraction: the destination takes VY - VX modulo 256 and
/// VF holds 1 exactly when VY >= VX.
pub proof fn lemma_sub_reversed_sets_no_borrow(pre: State, x: int, y: int)
    requires
        pre.wf(),
        0 <= x < 15,
        0 <= y < 16,
    ensures
        sub_yx_post(pre, x, y).vx[x] == wrap8(pre.vx[y] - pre.vx[x]),
        (sub_yx_post(pre, x, y).vx[15] == 1) <==> (pre.vx[y] >= pre.vx[x]),
{
}

/// XOR is its own inverse on a framebuffer row.
proof fn lemma_xor_cancel(a: u64, m: u64)
    by (bit_vector)
    ensures
        (a ^ m) ^ m == a,
{
}

/// XOR into a row it does not overlap lights exactly the mask.
proof fn lemma_xor_no_overlap(a: u64, m: u64)
    by (bit_vector)
    requires
        a & m == 0,
    ensures
        (a ^ m) & m == m,
{
}

/// A sprite row mask is zero exactly when the sprite byte is zero: the
/// reordering and the rotation move bits but never drop them.
proof fn lemma_row_mask_zero(s: u8, x0: int)
    requires
        0 <= x0 < 64,
    ensures
        (row_mask(s, x0) == 0) <==> (s == 0),
{
    assert((rev_byte(s) == 0) <==> (s == 0)) by (bit_vector);
    let rev = rev_byte(s);
    let sh = x0 as u64;
    if x0 != 0 {
        assert(sh != 0 && sh < 64 ==> (((rev << sh) | (rev >> (64 - sh) as u64)) == 0 <==> rev
            == 0)) by (bit_vector);
        assert((64 - x0) as u64 == (64 - sh) as u64);
    }
}

/// Drawing the same sprite at the same coordinates twice in succession
/// restores the framebuffer to its prior state: each touched row is
/// XOR-ed with the same mask twice.
pub proof fn lemma_draw_twice_restores(
    fb: Seq<u64>,
    mem: Seq<u8>,
    index: int,
    x0: int,
    y0: int,
    n: int,
)
    requires
        fb.len() == 32,
        0 <= x0 < 64,
        0 <= y0 < 32,
        0 <= n < 16,
    ensures
        draw_fb(draw_fb(fb, mem, index, x0, y0, n), mem, index, x0, y0, n) == fb,
{
    let fb1 = draw_fb(fb, mem, index, x0, y0, n);
    let fb2 = draw_fb(fb1, mem, index, x0, y0, n);
    assert forall|r: int| 0 <= r < 32 implies fb2[r] == fb[r] by {
        lemma_row_unwrap(y0, r);
        let i = src_row(y0, r);
        if i < n {
            lemma_xor_cancel(fb[r], row_mask(mem[index + i], x0));
        }
    }
    assert(fb2 =~= fb);
}

/// After a draw that collided nowhere, drawing the same sprite at the same
/// coordinates again reports a collision exactly when the sprite has any
/// pixel set at all: the first draw lit exactly the sprite's pixels.
pub proof fn lemma_second_draw_collision(
    fb: Seq<u64>,
    mem: Seq<u8>,
    index: int,
    x0: int,
    y0: int,
    n: int,
)
    requires
        fb.len() == 32,
        0 <= x0 < 64,
        0 <= y0 < 32,
        0 <= n < 16,
        !draw_collision(fb, mem, index, x0, y0, n),
    ensures
        draw_collision(draw_fb(fb, mem, index, x0, y0, n), mem, index, x0, y0, n) <==> (exists|
            i: int,
        | 0 <= i < n && #[trigger] sprite_row_byte(mem, index, i) != 0),
{
    let fb1 = draw_fb(fb, mem, index, x0, y0, n);
    assert forall|i: int| 0 <= i < n implies (#[trigger] row_hit(fb1, mem, index, x0, y0, i) <==> (
    sprite_row_byte(mem, index, i) != 0)) by {
        lemma_row_wrap(y0, i);
        let r = (y0 + i) % 32;
        let m = row_mask(mem[index + i], x0);
        assert(!row_hit(fb, mem, index, x0, y0, i));
        lemma_xor_no_overlap(fb[r], m);
        assert(fb1[r] == fb[r] ^ m);
        lemma_row_mask_zero(mem[index + i], x0);
    }
    if draw_collision(fb1, mem, index, x0, y0, n) {
        let i = choose|i: int| 0 <= i < n && #[trigger] row_hit(fb1, mem, index, x0, y0, i);
        assert(sprite_row_byte(mem, index, i) != 0);
    }
    if exists|i: int| 0 <= i < n && #[trigger] sprite_row_byte(mem, index, i) != 0 {
        let i = choose|i: int| 0 <= i < n && #[trigger] sprite_row_byte(mem, index, i) != 0;
        assert(row_hit(fb1, mem, index, x0, y0, i));
    }
}

/// A register block store followed by a load through the same memory
/// region round-trips every register unchanged: only memory keeps the
/// stored block.
pub proof fn lemma_store_then_load_roundtrip(pre: State, x: int)
    requires
        pre.wf(),
        0 <= x < 16,
        pre.index + x < 4096,
    ensures
        load_regs_post(store_regs_post(pre, x), x).vx == pre.vx,
        load_regs_post(store_regs_post(pre, x), x) == (State {
            mem: store_regs_post(pre, x).mem,
            ..pre
        }),
{
    let mid = store_regs_post(pre, x);
    let post = load_regs_post(mid, x);
    assert(post.vx =~= pre.vx);
    assert(post =~= (State { mem: mid.mem, ..pre }));
}

/// A subroutine call followed immediately by a return restores the machine
/// exactly: the program counter comes back to the instruction after the
/// call (the counter was already past the call opcode when it was pushed)
/// and the stack is as it was.
pub proof fn lemma_call_then_return(pre: State, nnn: u16)
    requires
        pre.wf(),
    ensures
        ret_post(call_post(pre, nnn)).pc == pre.pc,
        ret_post(call_post(pre, nnn)) == pre,
{
    let mid = call_post(pre, nnn);
    assert(mid.stack.last() == pre.pc);
    assert(mid.stack.drop_last() =~= pre.stack);
    assert(ret_post(mid) =~= pre);
}


/// The compositor's row mask places the sprite pixels where the display
/// contract promises: sprite pixel `b` (counted from the left, stored at
/// bit `7 - b` of the sprite byte) lands in column `(x0 + b) % 64` of the
/// target row, wrapping past the right edge.
pub proof fn lemma_row_mask_places_pixels(s: u8, x0: u64, b: u64)
    requires
        x0 < 64,
        b < 8,
    ensures
        ((row_mask(s, x0 as int) >> (((x0 + b) % 64) as u64)) & 1 == 1) <==> ((s >> ((7 - b) as u64)) & 1
            == 1),
{
    assert(((rev_byte(s) >> b) & 1 == 1) <==> ((s >> ((7 - b) as u64)) & 1 == 1)) by (bit_vector)
        requires
            b < 8,
    ;
    if x0 == 0 {
        assert((((x0 + b) % 64) as u64) == b);
    } else {
        assert(((((rev_byte(s) << x0) | (rev_byte(s) >> ((64 - x0) as u64))) >> (((x0 + b) % 64) as u64))
            & 1 == 1) <==> ((rev_byte(s) >> b) & 1 == 1)) by (bit_vector)
            requires
                0 < x0 < 64,
                b < 8,
        ;
        assert(row_mask(s, x0 as int) == (rev_byte(s) << x0) | (rev_byte(s) >> ((64 - x0)
            as u64)));
    }
}

} // verus!
