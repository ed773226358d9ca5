//! The mathematical model of the machine: the abstract state, its
//! well-formedness, and one transition function or relation per operation.
//! Every contract in this crate is stated over these definitions.
//!
//! Layout facts used throughout: memory holds 4096 bytes, font glyphs sit at
//! 0x050..0x0A0, a loaded program at 0x200 onward; there are 16 registers of
//! which VF (register 15) doubles as the carry/borrow/collision flag, and the
//! framebuffer is 32 rows of 64 one-bit pixels, one `u64` word per row with
//! bit `c` standing for column `c`.

use vstd::prelude::*;
use vstd::arithmetic::div_mod::lemma_fundamental_div_mod_converse_mod;
use crate::font::spec_font;
use crate::isa::{Instr, StepEvent, VmError};

verus! {

/// The abstract machine state.
#[verifier::ext_equal]
pub struct State {
    /// 4096 one-byte cells.
    pub mem: Seq<u8>,
    /// The 16 general-purpose registers V0..VF.
    pub vx: Seq<u8>,
    /// Return addresses, last pushed last; unbounded, a deliberate
    /// relaxation of the classic 16-frame limit.
    pub stack: Seq<u16>,
    /// The program counter.
    pub pc: u16,
    /// The index register; 16 bits held, semantically a memory address.
    pub index: u16,
    /// The delay countdown timer.
    pub delay: u8,
    /// The sound countdown timer; the tone plays while it is nonzero.
    pub sound: u8,
    /// 32 rows of 64 pixels.
    pub fb: Seq<u64>,
    /// `Some(x)` while a key-wait instruction is blocking: the next mapped
    /// key-down event lands in register `x`.
    pub waiting: Option<u8>,
    /// Whether shift instructions read register Y instead of register X.
    pub shift_from_y: bool,
}

impl State {
    /// Structural well-formedness: the fixed sizes, and a register number
    /// in a pending key-wait.
    pub open spec fn wf(self) -> bool {
        &&& self.mem.len() == 4096
        &&& self.vx.len() == 16
        &&& self.fb.len() == 32
        &&& match self.waiting {
            Some(x) => x < 16,
            None => true,
        }
    }
}

/// An all-zero framebuffer.
pub open spec fn blank_fb() -> Seq<u64> {
    Seq::new(32, |r: int| 0u64)
}

/// Memory at reset: zero everywhere except the font region at 0x050.
pub open spec fn initial_mem() -> Seq<u8> {
    Seq::new(4096, |a: int| if 0x50 <= a < 0xA0 { spec_font()[a - 0x50] } else { 0u8 })
}

/// The machine at reset: font loaded, program counter at the program base,
/// everything else zero or empty.
pub open spec fn initial_state(shift_from_y: bool) -> State {
    State {
        mem: initial_mem(),
        vx: Seq::new(16, |i: int| 0u8),
        stack: Seq::empty(),
        pc: 0x200,
        index: 0,
        delay: 0,
        sound: 0,
        fb: blank_fb(),
        waiting: None,
        shift_from_y,
    }
}

/// Memory after a ROM is copied in verbatim at the program base.
pub open spec fn loaded_mem(mem: Seq<u8>, rom: Seq<u8>) -> Seq<u8> {
    Seq::new(4096, |a: int| if 0x200 <= a < 0x200 + rom.len() { rom[a - 0x200] } else { mem[a] })
}

/// One timer tick: both timers step down independently, clamped at zero.
pub open spec fn tick_post(pre: State) -> State {
    State {
        delay: if pre.delay > 0 { (pre.delay - 1) as u8 } else { 0u8 },
        sound: if pre.sound > 0 { (pre.sound - 1) as u8 } else { 0u8 },
        ..pre
    }
}

/// An 8-bit wraparound result.
pub open spec fn wrap8(v: int) -> u8 {
    (v % 256) as u8
}

// ---------------------------------------------------------------------------
// Control flow
// ---------------------------------------------------------------------------

/// 1nnn.
pub open spec fn jump_post(pre: State, nnn: u16) -> State {
    State { pc: nnn, ..pre }
}

/// 2nnn: the current program counter (already past the call opcode) is the
/// return address.
pub open spec fn call_post(pre: State, nnn: u16) -> State {
    State { pc: nnn, stack: pre.stack.push(pre.pc), ..pre }
}

/// 00EE on a nonempty stack.
pub open spec fn ret_post(pre: State) -> State {
    State { pc: pre.stack.last(), stack: pre.stack.drop_last(), ..pre }
}

/// A conditional skip: the program counter steps over one 2-byte
/// instruction when the condition holds.
pub open spec fn skip_post(pre: State, cond: bool) -> State {
    State { pc: if cond { (pre.pc + 2) as u16 } else { pre.pc }, ..pre }
}

// ---------------------------------------------------------------------------
// Arithmetic and logic
// ---------------------------------------------------------------------------

/// 6xnn.
pub open spec fn set_val_post(pre: State, x: int, nn: u8) -> State {
    State { vx: pre.vx.update(x, nn), ..pre }
}

/// 7xnn: wrapping add, no flag.
pub open spec fn add_val_post(pre: State, x: int, nn: u8) -> State {
    State { vx: pre.vx.update(x, wrap8(pre.vx[x] + nn)), ..pre }
}

/// 8xy0.
pub open spec fn set_reg_post(pre: State, x: int, y: int) -> State {
    State { vx: pre.vx.update(x, pre.vx[y]), ..pre }
}

/// 8xy1.
pub open spec fn or_post(pre: State, x: int, y: int) -> State {
    State { vx: pre.vx.update(x, pre.vx[x] | pre.vx[y]), ..pre }
}

/// 8xy2.
pub open spec fn and_post(pre: State, x: int, y: int) -> State {
    State { vx: pre.vx.update(x, pre.vx[x] & pre.vx[y]), ..pre }
}

/// 8xy3.
pub open spec fn xor_post(pre: State, x: int, y: int) -> State {
    State { vx: pre.vx.update(x, pre.vx[x] ^ pre.vx[y]), ..pre }
}

/// 8xy4: the destination takes the wrapped sum, then VF takes the carry:
/// 1 exactly when the unsigned sum exceeds 255. The flag write is last, so
/// it wins when the destination is VF itself.
pub open spec fn add_reg_post(pre: State, x: int, y: int) -> State {
    State {
        vx: pre.vx.update(x, wrap8(pre.vx[x] + pre.vx[y])).update(
            15,
            if pre.vx[x] + pre.vx[y] > 255 { 1u8 } else { 0u8 },
        ),
        ..pre
    }
}

/// 8xy5: VX - VY modulo 256, then VF takes the no-borrow flag: 1 exactly
/// when VX >= VY. The flag write is last.
pub open spec fn sub_xy_post(pre: State, x: int, y: int) -> State {
    State {
        vx: pre.vx.update(x, wrap8(pre.vx[x] - pre.vx[y])).update(
            15,
            if pre.vx[x] >= pre.vx[y] { 1u8 } else { 0u8 },
        ),
        ..pre
    }
}

/// 8xy7: VY - VX modulo 256, then VF takes the no-borrow flag: 1 exactly
/// when VY >= VX. The flag write is last.
pub open spec fn sub_yx_post(pre: State, x: int, y: int) -> State {
    State {
        vx: pre.vx.update(x, wrap8(pre.vx[y] - pre.vx[x])).update(
            15,
            if pre.vx[y] >= pre.vx[x] { 1u8 } else { 0u8 },
        ),
        ..pre
    }
}

/// The register a shift reads, per the configured policy.
pub open spec fn shift_src(pre: State, x: int, y: int) -> u8 {
    if pre.shift_from_y { pre.vx[y] } else { pre.vx[x] }
}

/// 8xy6: the source halved into the destination, then VF takes the bit
/// shifted out (bit 0 of the source). The flag write is last.
pub open spec fn shr_post(pre: State, x: int, y: int) -> State {
    State {
        vx: pre.vx.update(x, shift_src(pre, x, y) >> 1).update(15, shift_src(pre, x, y) & 1),
        ..pre
    }
}

/// 8xyE: the source doubled (truncated to 8 bits) into the destination,
/// then VF takes the bit shifted out (bit 7 of the source). The flag write
/// is last.
pub open spec fn shl_post(pre: State, x: int, y: int) -> State {
    State {
        vx: pre.vx.update(x, shift_src(pre, x, y) << 1).update(
            15,
            (shift_src(pre, x, y) >> 7) & 1,
        ),
        ..pre
    }
}

/// Cxnn with the random byte made explicit: the destination takes the
/// random byte masked by the immediate.
pub open spec fn random_post(pre: State, x: int, nn: u8, rb: u8) -> State {
    State { vx: pre.vx.update(x, rb & nn), ..pre }
}

// ---------------------------------------------------------------------------
// Index register, timers, input
// ---------------------------------------------------------------------------

/// Annn.
pub open spec fn set_index_post(pre: State, nnn: u16) -> State {
    State { index: nnn, ..pre }
}

/// Fx1E: 16-bit wraparound, as the index register's overflow behaviour is
/// implementation-defined.
pub open spec fn add_index_post(pre: State, x: int) -> State {
    State { index: ((pre.index + pre.vx[x]) % 0x10000) as u16, ..pre }
}

/// Fx07.
pub open spec fn get_delay_post(pre: State, x: int) -> State {
    State { vx: pre.vx.update(x, pre.delay), ..pre }
}

/// Fx15.
pub open spec fn set_delay_post(pre: State, x: int) -> State {
    State { delay: pre.vx[x], ..pre }
}

/// Fx18.
pub open spec fn set_sound_post(pre: State, x: int) -> State {
    State { sound: pre.vx[x], ..pre }
}

/// Fx0A: the machine blocks; the next mapped key-down event will land in
/// register `x`.
pub open spec fn wait_key_post(pre: State, x: int) -> State {
    State { waiting: Some(x as u8), ..pre }
}

/// Whether the key named by the low nibble of `v` is down in the 16-bit
/// key bitmask (bit `k` stands for key `k`).
pub open spec fn key_pressed(keys: u16, v: u8) -> bool {
    (keys >> ((v & 0xF) as u16)) & 1 == 1
}

/// Fx29: the index register points at the 5-byte glyph for VX, at the font
/// base 0x050.
pub open spec fn font_char_post(pre: State, x: int) -> State {
    State { index: (0x50 + 5 * pre.vx[x]) as u16, ..pre }
}

// ---------------------------------------------------------------------------
// Memory transfers
// ---------------------------------------------------------------------------

/// Fx33 writes the hundreds, tens and ones digits of VX at the index
/// register; this is the resulting memory.
pub open spec fn bcd_mem(mem: Seq<u8>, v: u8, idx: int) -> Seq<u8> {
    mem.update(idx, (v / 100) as u8).update(idx + 1, ((v / 10) % 10) as u8).update(
        idx + 2,
        (v % 10) as u8,
    )
}

/// Fx33 on in-range addresses.
pub open spec fn bcd_post(pre: State, x: int) -> State {
    State { mem: bcd_mem(pre.mem, pre.vx[x], pre.index as int), ..pre }
}

/// Memory after Fx55: registers 0..=x copied to `idx..`, the rest kept.
pub open spec fn store_regs_mem(mem: Seq<u8>, vx: Seq<u8>, idx: int, x: int) -> Seq<u8> {
    Seq::new(mem.len(), |a: int| if idx <= a <= idx + x { vx[a - idx] } else { mem[a] })
}

/// Fx55 on in-range addresses.
pub open spec fn store_regs_post(pre: State, x: int) -> State {
    State { mem: store_regs_mem(pre.mem, pre.vx, pre.index as int, x), ..pre }
}

/// Registers after Fx65: registers 0..=x read from `idx..`, the rest kept.
pub open spec fn load_regs_vx(vx: Seq<u8>, mem: Seq<u8>, idx: int, x: int) -> Seq<u8> {
    Seq::new(16, |i: int| if i <= x { mem[idx + i] } else { vx[i] })
}

/// Fx65 on in-range addresses.
pub open spec fn load_regs_post(pre: State, x: int) -> State {
    State { vx: load_regs_vx(pre.vx, pre.mem, pre.index as int, x), ..pre }
}

// ---------------------------------------------------------------------------
// Display
// ---------------------------------------------------------------------------

/// 00E0.
pub open spec fn clear_post(pre: State) -> State {
    State { fb: blank_fb(), ..pre }
}

/// The low 8 bits of the sprite byte in column order: bit `b` of the result
/// is sprite pixel `b` counted from the left, which the byte stores at bit
/// `7 - b`.
pub open spec fn rev_byte(s: u8) -> u64 {
    (((s >> 7) & 1) as u64) | ((((s >> 6) & 1) as u64) << 1) | ((((s >> 5) & 1) as u64) << 2)
        | ((((s >> 4) & 1) as u64) << 3) | ((((s >> 3) & 1) as u64) << 4) | ((((s >> 2) & 1)
        as u64) << 5) | ((((s >> 1) & 1) as u64) << 6) | (((s & 1) as u64) << 7)
}

/// One sprite row as a framebuffer-row mask: the 8 sprite pixels land at
/// columns `x0`, `x0 + 1`, ... wrapping past column 63.
pub open spec fn row_mask(s: u8, x0: int) -> u64
    recommends
        0 <= x0 < 64,
{
    if x0 == 0 {
        rev_byte(s)
    } else {
        (rev_byte(s) << x0 as u64) | (rev_byte(s) >> (64 - x0) as u64)
    }
}

/// The framebuffer after an n-row sprite read from `mem[index..]` is
/// XOR-composited at (x0, y0), wrapping in both axes: sprite row `i` lands
/// on framebuffer row `(y0 + i) % 32`, so row `r` receives sprite row
/// `(r - y0) % 32` if that is below `n` and is untouched otherwise.
pub open spec fn draw_fb(fb: Seq<u64>, mem: Seq<u8>, index: int, x0: int, y0: int, n: int) -> Seq<
    u64,
>
    recommends
        fb.len() == 32,
        0 <= x0 < 64,
        0 <= y0 < 32,
        0 <= n < 16,
{
    Seq::new(
        32,
        |r: int|
            {
                let i = (r - y0) % 32;
                if i < n {
                    fb[r] ^ row_mask(mem[index + i], x0)
                } else {
                    fb[r]
                }
            },
    )
}

/// Sprite row `i` of a sprite read at `index`.
pub open spec fn sprite_row_byte(mem: Seq<u8>, index: int, i: int) -> u8 {
    mem[index + i]
}

/// Whether sprite row `i` overlaps a lit pixel of its target row.
pub open spec fn row_hit(fb: Seq<u64>, mem: Seq<u8>, index: int, x0: int, y0: int, i: int) -> bool {
    fb[(y0 + i) % 32] & row_mask(mem[index + i], x0) != 0
}

/// Collision: some pixel went from set to unset, i.e. some sprite row
/// overlaps a lit pixel.
pub open spec fn draw_collision(
    fb: Seq<u64>,
    mem: Seq<u8>,
    index: int,
    x0: int,
    y0: int,
    n: int,
) -> bool {
    exists|i: int| 0 <= i < n && #[trigger] row_hit(fb, mem, index, x0, y0, i)
}

/// The draw coordinates wrap at the start of the blit.
pub open spec fn sprite_x0(pre: State, x: int) -> int {
    (pre.vx[x] as int) % 64
}

/// The draw coordinates wrap at the start of the blit.
pub open spec fn sprite_y0(pre: State, y: int) -> int {
    (pre.vx[y] as int) % 32
}

/// The sprite row that lands on framebuffer row `r` when drawing starts at
/// row `y0`: the vertical wrap inverted.
pub open spec fn src_row(y0: int, r: int) -> int {
    (r - y0) % 32
}

/// Row arithmetic for the vertical wrap: with both operands below 32,
/// `(y0 + i) % 32` is the plain sum or the sum less one turn, and mapping
/// the target row back through `(row - y0) % 32` recovers `i`.
pub proof fn lemma_row_wrap(y0: int, i: int)
    requires
        0 <= y0 < 32,
        0 <= i < 32,
    ensures
        (y0 + i) % 32 == (if y0 + i < 32 { y0 + i } else { y0 + i - 32 }),
        0 <= (y0 + i) % 32 < 32,
        ((y0 + i) % 32 - y0) % 32 == i,
{
    if y0 + i < 32 {
        lemma_fundamental_div_mod_converse_mod(y0 + i, 32, 0, y0 + i);
    } else {
        lemma_fundamental_div_mod_converse_mod(y0 + i, 32, 1, y0 + i - 32);
    }
    let r = (y0 + i) % 32;
    if r - y0 >= 0 {
        lemma_fundamental_div_mod_converse_mod(r - y0, 32, 0, r - y0);
    } else {
        lemma_fundamental_div_mod_converse_mod(r - y0, 32, -1, r - y0 + 32);
    }
}

/// The other direction: every row below 32 is the wrapped target of exactly
/// the sprite row `(row - y0) % 32`.
pub proof fn lemma_row_unwrap(y0: int, row: int)
    requires
        0 <= y0 < 32,
        0 <= row < 32,
    ensures
        (row - y0) % 32 == (if row >= y0 { row - y0 } else { row - y0 + 32 }),
        0 <= (row - y0) % 32 < 32,
        (y0 + (row - y0) % 32) % 32 == row,
{
    if row >= y0 {
        lemma_fundamental_div_mod_converse_mod(row - y0, 32, 0, row - y0);
    } else {
        lemma_fundamental_div_mod_converse_mod(row - y0, 32, -1, row - y0 + 32);
    }
    let i = (row - y0) % 32;
    if y0 + i < 32 {
        lemma_fundamental_div_mod_converse_mod(y0 + i, 32, 0, y0 + i);
    } else {
        lemma_fundamental_div_mod_converse_mod(y0 + i, 32, 1, y0 + i - 32);
    }
}

/// Dxyn reads `n` sprite bytes at the index register: out of range when any
/// of them would sit past the end of memory.
pub open spec fn draw_oob(pre: State, n: int) -> bool {
    n > 0 && pre.index + n > 4096
}

/// Dxyn on in-range addresses: the sprite is composited and VF takes the
/// collision flag, 1 exactly when some pixel was unset by the blit.
pub open spec fn draw_post(pre: State, x: int, y: int, n: int) -> State {
    let x0 = sprite_x0(pre, x);
    let y0 = sprite_y0(pre, y);
    let idx = pre.index as int;
    State {
        fb: draw_fb(pre.fb, pre.mem, idx, x0, y0, n),
        vx: pre.vx.update(
            15,
            if draw_collision(pre.fb, pre.mem, idx, x0, y0, n) { 1u8 } else { 0u8 },
        ),
        ..pre
    }
}

// ---------------------------------------------------------------------------
// Dispatch
// ---------------------------------------------------------------------------

/// What executing one decoded instruction does: relates the state before
/// (program counter already past the opcode) to the result and the state
/// after. Deterministic except for the random byte of Cxnn.
pub open spec fn instr_post(
    pre: State,
    i: Instr,
    keys: u16,
    r: Result<StepEvent, VmError>,
    post: State,
) -> bool {
    match i {
        Instr::ClearScreen => r == Ok::<StepEvent, VmError>(StepEvent::Cleared) && post
            == clear_post(pre),
        Instr::Return => if pre.stack.len() == 0 {
            r == Err::<StepEvent, VmError>(VmError::StackUnderflow) && post == pre
        } else {
            r == Ok::<StepEvent, VmError>(StepEvent::Ran) && post == ret_post(pre)
        },
        Instr::Jump { nnn } => r == Ok::<StepEvent, VmError>(StepEvent::Ran) && post
            == jump_post(pre, nnn),
        Instr::Call { nnn } => r == Ok::<StepEvent, VmError>(StepEvent::Ran) && post
            == call_post(pre, nnn),
        Instr::SkipEqVal { x, nn } => r == Ok::<StepEvent, VmError>(StepEvent::Ran) && post
            == skip_post(pre, pre.vx[x as int] == nn),
        Instr::SkipNeVal { x, nn } => r == Ok::<StepEvent, VmError>(StepEvent::Ran) && post
            == skip_post(pre, pre.vx[x as int] != nn),
        Instr::SkipEqReg { x, y } => r == Ok::<StepEvent, VmError>(StepEvent::Ran) && post
            == skip_post(pre, pre.vx[x as int] == pre.vx[y as int]),
        Instr::SkipNeReg { x, y } => r == Ok::<StepEvent, VmError>(StepEvent::Ran) && post
            == skip_post(pre, pre.vx[x as int] != pre.vx[y as int]),
        Instr::SetVal { x, nn } => r == Ok::<StepEvent, VmError>(StepEvent::Ran) && post
            == set_val_post(pre, x as int, nn),
        Instr::AddVal { x, nn } => r == Ok::<StepEvent, VmError>(StepEvent::Ran) && post
            == add_val_post(pre, x as int, nn),
        Instr::SetReg { x, y } => r == Ok::<StepEvent, VmError>(StepEvent::Ran) && post
            == set_reg_post(pre, x as int, y as int),
        Instr::OrReg { x, y } => r == Ok::<StepEvent, VmError>(StepEvent::Ran) && post
            == or_post(pre, x as int, y as int),
        Instr::AndReg { x, y } => r == Ok::<StepEvent, VmError>(StepEvent::Ran) && post
            == and_post(pre, x as int, y as int),
        Instr::XorReg { x, y } => r == Ok::<StepEvent, VmError>(StepEvent::Ran) && post
            == xor_post(pre, x as int, y as int),
        Instr::AddReg { x, y } => r == Ok::<StepEvent, VmError>(StepEvent::Ran) && post
            == add_reg_post(pre, x as int, y as int),
        Instr::SubXY { x, y } => r == Ok::<StepEvent, VmError>(StepEvent::Ran) && post
            == sub_xy_post(pre, x as int, y as int),
        Instr::SubYX { x, y } => r == Ok::<StepEvent, VmError>(StepEvent::Ran) && post
            == sub_yx_post(pre, x as int, y as int),
        Instr::ShiftRight { x, y } => r == Ok::<StepEvent, VmError>(StepEvent::Ran) && post
            == shr_post(pre, x as int, y as int),
        Instr::ShiftLeft { x, y } => r == Ok::<StepEvent, VmError>(StepEvent::Ran) && post
            == shl_post(pre, x as int, y as int),
        Instr::SetIndex { nnn } => r == Ok::<StepEvent, VmError>(StepEvent::Ran) && post
            == set_index_post(pre, nnn),
        Instr::Random { x, nn } => r == Ok::<StepEvent, VmError>(StepEvent::Ran) && (exists|
            rb: u8,
        |
            post == random_post(pre, x as int, nn, rb)),
        Instr::Draw { x, y, n } => if draw_oob(pre, n as int) {
            r == Err::<StepEvent, VmError>(VmError::OutOfBoundsAccess(pre.index)) && post == pre
        } else {
            r == Ok::<StepEvent, VmError>(StepEvent::Drew) && post == draw_post(
                pre,
                x as int,
                y as int,
                n as int,
            )
        },
        Instr::SkipIfKey { x } => r == Ok::<StepEvent, VmError>(StepEvent::Ran) && post
            == skip_post(pre, key_pressed(keys, pre.vx[x as int])),
        Instr::SkipIfNotKey { x } => r == Ok::<StepEvent, VmError>(StepEvent::Ran) && post
            == skip_post(pre, !key_pressed(keys, pre.vx[x as int])),
        Instr::GetDelay { x } => r == Ok::<StepEvent, VmError>(StepEvent::Ran) && post
            == get_delay_post(pre, x as int),
        Instr::WaitKey { x } => r == Ok::<StepEvent, VmError>(StepEvent::AwaitingKey) && post
            == wait_key_post(pre, x as int),
        Instr::SetDelay { x } => r == Ok::<StepEvent, VmError>(StepEvent::Ran) && post
            == set_delay_post(pre, x as int),
        Instr::SetSound { x } => r == Ok::<StepEvent, VmError>(StepEvent::Ran) && post
            == set_sound_post(pre, x as int),
        Instr::AddIndex { x } => r == Ok::<StepEvent, VmError>(StepEvent::Ran) && post
            == add_index_post(pre, x as int),
        Instr::FontChar { x } => r == Ok::<StepEvent, VmError>(StepEvent::Ran) && post
            == font_char_post(pre, x as int),
        Instr::Bcd { x } => if pre.index + 2 >= 4096 {
            r == Err::<StepEvent, VmError>(VmError::OutOfBoundsAccess(pre.index)) && post == pre
        } else {
            r == Ok::<StepEvent, VmError>(StepEvent::Ran) && post == bcd_post(pre, x as int)
        },
        Instr::StoreRegs { x } => if pre.index + x >= 4096 {
            r == Err::<StepEvent, VmError>(VmError::OutOfBoundsAccess(pre.index)) && post == pre
        } else {
            r == Ok::<StepEvent, VmError>(StepEvent::Ran) && post == store_regs_post(pre, x as int)
        },
        Instr::LoadRegs { x } => if pre.index + x >= 4096 {
            r == Err::<StepEvent, VmError>(VmError::OutOfBoundsAccess(pre.index)) && post == pre
        } else {
            r == Ok::<StepEvent, VmError>(StepEvent::Ran) && post == load_regs_post(pre, x as int)
        },
        Instr::Unknown { op } => r == Ok::<StepEvent, VmError>(StepEvent::UnknownOpcode(op)) && post
            == pre,
    }
}

/// The big-endian 16-bit opcode at the program counter.
pub open spec fn fetched(s: State) -> u16 {
    ((s.mem[s.pc as int] as u16) << 8) | (s.mem[s.pc as int + 1] as u16)
}

/// One call of `run`: while a key-wait is pending the machine only
/// checks for and consumes the next key event; otherwise it fetches the
/// opcode at the program counter (failing when the two instruction bytes
/// are not both in memory), advances the program counter past it, decodes,
/// and executes.
pub open spec fn step_rel(
    pre: State,
    keys: u16,
    key_event: Option<u8>,
    r: Result<StepEvent, VmError>,
    post: State,
) -> bool {
    match pre.waiting {
        Some(xw) => match key_event {
            Some(k) => r == Ok::<StepEvent, VmError>(StepEvent::Ran) && post == (State {
                vx: pre.vx.update(xw as int, k),
                waiting: None,
                ..pre
            }),
            None => r == Ok::<StepEvent, VmError>(StepEvent::AwaitingKey) && post == pre,
        },
        None => if pre.pc + 1 >= 4096 {
            r == Err::<StepEvent, VmError>(VmError::OutOfBoundsAccess(pre.pc)) && post == pre
        } else {
            instr_post(
                State { pc: (pre.pc + 2) as u16, ..pre },
                crate::isa::spec_decode(fetched(pre)),
                keys,
                r,
                post,
            )
        },
    }
}

} // verus!
