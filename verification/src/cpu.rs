//! The machine itself: the owned state aggregate and the operations that
//! mutate it. The external driver calls `update_timers` on its own periodic
//! schedule and `run` once per fetch-decode-execute cycle, then services the
//! returned `StepEvent` (presentation, audio gating, logging, key feeding).
//!
//! Every operation's contract is stated against the model in `state`.

use vstd::prelude::*;
use vstd::pervasive::VecAdditionalExecFns;
use crate::font::{font_data, spec_font};
use crate::isa::{decode, instr_wf, Instr, ShiftPolicy, StepEvent, VmError};
use crate::state::{
    add_index_post, add_reg_post, add_val_post, and_post, bcd_post, blank_fb, call_post,
    clear_post, draw_collision, draw_fb, draw_oob, draw_post, fetched, font_char_post,
    get_delay_post, initial_mem, initial_state, instr_post, jump_post, key_pressed,
    lemma_row_unwrap, lemma_row_wrap, load_regs_post, load_regs_vx, loaded_mem, or_post,
    random_post, ret_post, rev_byte, row_hit, row_mask, set_delay_post,
    set_index_post, set_reg_post, set_sound_post, set_val_post, shift_src, shl_post, shr_post,
    skip_post, sprite_x0, sprite_y0, src_row, step_rel, store_regs_mem, store_regs_post,
    sub_xy_post,
    sub_yx_post, tick_post, wait_key_post, wrap8, xor_post, State,
};

verus! {

/// Relies on rand::random: draws one byte from the thread-local generator.
/// Nothing is promised of the value; callers are verified for every byte.
#[verifier::external_body]
fn random_byte() -> u8 {
    rand::random::<u8>()
}

/// The low nibble of a byte is a register or key number.
proof fn lemma_low_nibble(v: u8)
    by (bit_vector)
    ensures
        v & 0xF < 16,
{
}

/// The interpreter: all machine state, exclusively owned.
pub struct CPU {
    memory: Vec<u8>,
    vx: Vec<u8>,
    stack_register: Vec<u16>,
    pc: u16,
    index_register: u16,
    delay_timer: u8,
    sound_timer: u8,
    display_array: Vec<u64>,
    waiting: Option<u8>,
    shift_from_y: bool,
}

impl View for CPU {
    type V = State;

    closed spec fn view(&self) -> State {
        State {
            mem: self.memory@,
            vx: self.vx@,
            stack: self.stack_register@,
            pc: self.pc,
            index: self.index_register,
            delay: self.delay_timer,
            sound: self.sound_timer,
            fb: self.display_array@,
            waiting: self.waiting,
            shift_from_y: self.shift_from_y,
        }
    }
}

impl CPU {
    /// A machine at reset: memory zeroed with the font copied in at 0x050,
    /// the program counter at the program base 0x200, and every register,
    /// timer, stack slot and pixel zero or empty.
    pub fn new(policy: ShiftPolicy) -> (r: CPU)
        ensures
            r@ == initial_state(policy == ShiftPolicy::ShiftVy),
            r@.wf(),
    {
        let mut memory: Vec<u8> = Vec::new();
        let mut i: usize = 0;
        while i < 4096
            invariant
                i <= 4096,
                memory@.len() == i,
                forall|a: int| 0 <= a < i ==> memory@[a] == 0u8,
            decreases 4096 - i,
        {
            memory.push(0u8);
            i = i + 1;
        }
        let f = font_data();
        let mut g: usize = 0;
        while g < 80
            invariant
                g <= 80,
                f@ == spec_font(),
                memory@.len() == 4096,
                forall|a: int|
                    0 <= a < 4096 ==> memory@[a] == (if 0x50 <= a < 0x50 + g {
                        spec_font()[a - 0x50]
                    } else {
                        0u8
                    }),
            decreases 80 - g,
        {
            memory.set(0x50 + g, f[g]);
            g = g + 1;
        }
        let mut vx: Vec<u8> = Vec::new();
        let mut j: usize = 0;
        while j < 16
            invariant
                j <= 16,
                vx@.len() == j,
                forall|a: int| 0 <= a < j ==> vx@[a] == 0u8,
            decreases 16 - j,
        {
            vx.push(0u8);
            j = j + 1;
        }
        let mut display_array: Vec<u64> = Vec::new();
        let mut k: usize = 0;
        while k < 32
            invariant
                k <= 32,
                display_array@.len() == k,
                forall|a: int| 0 <= a < k ==> display_array@[a] == 0u64,
            decreases 32 - k,
        {
            display_array.push(0u64);
            k = k + 1;
        }
        let r = CPU {
            memory,
            vx,
            stack_register: Vec::new(),
            pc: 0x200,
            index_register: 0,
            delay_timer: 0,
            sound_timer: 0,
            display_array,
            waiting: None,
            shift_from_y: matches!(policy, ShiftPolicy::ShiftVy),
        };
        proof {
            assert(r@.mem =~= initial_mem());
            assert(r@.vx =~= initial_state(policy == ShiftPolicy::ShiftVy).vx);
            assert(r@.fb =~= blank_fb());
            assert(r@ =~= initial_state(policy == ShiftPolicy::ShiftVy));
        }
        r
    }

    /// Copies a ROM verbatim to the program base. Fails, changing nothing,
    /// exactly when the ROM is longer than the 3584 bytes between the
    /// program base and the end of memory.
    pub fn load(&mut self, data: &Vec<u8>) -> (r: Result<(), VmError>)
        requires
            old(self)@.wf(),
        ensures
            final(self)@.wf(),
            data@.len() > 3584 ==> r == Err::<(), VmError>(VmError::OversizedRom) && final(self)@
                == old(self)@,
            data@.len() <= 3584 ==> r == Ok::<(), VmError>(()) && final(self)@ == (State {
                mem: loaded_mem(old(self)@.mem, data@),
                ..old(self)@
            }),
    {
        if data.len() > 3584 {
            return Err(VmError::OversizedRom);
        }
        let mut i: usize = 0;
        while i < data.len()
            invariant
                old(self)@.wf(),
                i <= data@.len() <= 3584,
                self@.mem.len() == 4096,
                forall|a: int|
                    0 <= a < 4096 ==> self@.mem[a] == (if 0x200 <= a < 0x200 + i {
                        data@[a - 0x200]
                    } else {
                        old(self)@.mem[a]
                    }),
                self@ == (State { mem: self@.mem, ..old(self)@ }),
            decreases data@.len() - i,
        {
            self.memory.set(0x200 + i, data[i]);
            i = i + 1;
        }
        proof {
            assert(self@.mem =~= loaded_mem(old(self)@.mem, data@));
            assert(self@ =~= (State { mem: loaded_mem(old(self)@.mem, data@), ..old(self)@ }));
        }
        Ok(())
    }

    /// One external tick: both timers step down independently, clamped at
    /// zero.
    pub fn update_timers(&mut self)
        requires
            old(self)@.wf(),
        ensures
            final(self)@.wf(),
            final(self)@ == tick_post(old(self)@),
    {
        if self.delay_timer > 0 {
            self.delay_timer = self.delay_timer - 1;
        }
        if self.sound_timer > 0 {
            self.sound_timer = self.sound_timer - 1;
        }
        proof {
            assert(self@ =~= tick_post(old(self)@));
        }
    }

    /// 00E0: clears the framebuffer; the driver should then present the
    /// blank background.
    pub fn clear_screen(&mut self)
        requires
            old(self)@.wf(),
        ensures
            final(self)@.wf(),
            final(self)@ == clear_post(old(self)@),
    {
        let mut r: usize = 0;
        while r < 32
            invariant
                r <= 32,
                self@.fb.len() == 32,
                forall|a: int| 0 <= a < r ==> self@.fb[a] == 0u64,
                self@ == (State { fb: self@.fb, ..old(self)@ }),
            decreases 32 - r,
        {
            self.display_array.set(r, 0u64);
            r = r + 1;
        }
        proof {
            assert(self@.fb =~= blank_fb());
            assert(self@ =~= clear_post(old(self)@));
        }
    }

    /// 1nnn: jumps to the 12-bit address; nothing else changes.
    pub fn jump(&mut self, nnn: u16)
        requires
            old(self)@.wf(),
            nnn < 4096,
        ensures
            final(self)@.wf(),
            final(self)@ == jump_post(old(self)@, nnn),
    {
        self.pc = nnn;
        proof {
            assert(self@ =~= jump_post(old(self)@, nnn));
        }
    }

    /// 2nnn: pushes the current program counter (already past the call
    /// opcode) and jumps.
    pub fn call_subroutine(&mut self, nnn: u16)
        requires
            old(self)@.wf(),
            nnn < 4096,
        ensures
            final(self)@.wf(),
            final(self)@ == call_post(old(self)@, nnn),
    {
        self.stack_register.push(self.pc);
        self.pc = nnn;
        proof {
            assert(self@ =~= call_post(old(self)@, nnn));
        }
    }

    /// 00EE: pops the return address into the program counter. Fails,
    /// changing nothing, exactly when the call stack is empty.
    pub fn stack_return(&mut self) -> (r: Result<(), VmError>)
        requires
            old(self)@.wf(),
        ensures
            final(self)@.wf(),
            old(self)@.stack.len() == 0 ==> r == Err::<(), VmError>(VmError::StackUnderflow)
                && final(self)@ == old(self)@,
            old(self)@.stack.len() > 0 ==> r == Ok::<(), VmError>(()) && final(self)@ == ret_post(
                old(self)@,
            ),
    {
        match self.stack_register.pop() {
            Some(address) => {
                self.pc = address;
                proof {
                    assert(self@ =~= ret_post(old(self)@));
                }
                Ok(())
            },
            None => Err(VmError::StackUnderflow),
        }
    }

    /// 3xnn: skips one instruction when VX equals the immediate.
    pub fn jump_if_val_is_equal(&mut self, x: u8, nn: u8)
        requires
            old(self)@.wf(),
            x < 16,
            old(self)@.pc + 2 < 0x10000,
        ensures
            final(self)@.wf(),
            final(self)@ == skip_post(old(self)@, old(self)@.vx[x as int] == nn),
    {
        if self.vx[x as usize] == nn {
            self.pc = self.pc + 2;
        }
        proof {
            assert(self@ =~= skip_post(old(self)@, old(self)@.vx[x as int] == nn));
        }
    }

    /// 4xnn: skips one instruction when VX differs from the immediate.
    pub fn jump_if_val_not_equal(&mut self, x: u8, nn: u8)
        requires
            old(self)@.wf(),
            x < 16,
            old(self)@.pc + 2 < 0x10000,
        ensures
            final(self)@.wf(),
            final(self)@ == skip_post(old(self)@, old(self)@.vx[x as int] != nn),
    {
        if self.vx[x as usize] != nn {
            self.pc = self.pc + 2;
        }
        proof {
            assert(self@ =~= skip_post(old(self)@, old(self)@.vx[x as int] != nn));
        }
    }

    /// 5xy0: skips one instruction when VX equals VY.
    pub fn jump_if_reg_is_equal(&mut self, x: u8, y: u8)
        requires
            old(self)@.wf(),
            x < 16,
            y < 16,
            old(self)@.pc + 2 < 0x10000,
        ensures
            final(self)@.wf(),
            final(self)@ == skip_post(
                old(self)@,
                old(self)@.vx[x as int] == old(self)@.vx[y as int],
            ),
    {
        if self.vx[x as usize] == self.vx[y as usize] {
            self.pc = self.pc + 2;
        }
        proof {
            assert(self@ =~= skip_post(
                old(self)@,
                old(self)@.vx[x as int] == old(self)@.vx[y as int],
            ));
        }
    }

    /// 9xy0: skips one instruction when VX differs from VY.
    pub fn jump_if_reg_not_equal(&mut self, x: u8, y: u8)
        requires
            old(self)@.wf(),
            x < 16,
            y < 16,
            old(self)@.pc + 2 < 0x10000,
        ensures
            final(self)@.wf(),
            final(self)@ == skip_post(
                old(self)@,
                old(self)@.vx[x as int] != old(self)@.vx[y as int],
            ),
    {
        if self.vx[x as usize] != self.vx[y as usize] {
            self.pc = self.pc + 2;
        }
        proof {
            assert(self@ =~= skip_post(
                old(self)@,
                old(self)@.vx[x as int] != old(self)@.vx[y as int],
            ));
        }
    }

    /// 6xnn: loads the immediate into VX.
    pub fn set_as_value(&mut self, x: u8, nn: u8)
        requires
            old(self)@.wf(),
            x < 16,
        ensures
            final(self)@.wf(),
            final(self)@ == set_val_post(old(self)@, x as int, nn),
    {
        self.vx.set(x as usize, nn);
        proof {
            assert(self@ =~= set_val_post(old(self)@, x as int, nn));
        }
    }

    /// 7xnn: adds the immediate to VX with 8-bit wraparound; no flag.
    pub fn add_as_value(&mut self, x: u8, nn: u8)
        requires
            old(self)@.wf(),
            x < 16,
        ensures
            final(self)@.wf(),
            final(self)@ == add_val_post(old(self)@, x as int, nn),
    {
        let s: u16 = self.vx[x as usize] as u16 + nn as u16;
        self.vx.set(x as usize, (s % 256) as u8);
        proof {
            assert(self@ =~= add_val_post(old(self)@, x as int, nn));
        }
    }

    /// 8xy0: copies VY into VX.
    pub fn set_as_register(&mut self, x: u8, y: u8)
        requires
            old(self)@.wf(),
            x < 16,
            y < 16,
        ensures
            final(self)@.wf(),
            final(self)@ == set_reg_post(old(self)@, x as int, y as int),
    {
        let v = self.vx[y as usize];
        self.vx.set(x as usize, v);
        proof {
            assert(self@ =~= set_reg_post(old(self)@, x as int, y as int));
        }
    }

    /// 8xy1: VX |= VY.
    pub fn or_register(&mut self, x: u8, y: u8)
        requires
            old(self)@.wf(),
            x < 16,
            y < 16,
        ensures
            final(self)@.wf(),
            final(self)@ == or_post(old(self)@, x as int, y as int),
    {
        let v = self.vx[x as usize] | self.vx[y as usize];
        self.vx.set(x as usize, v);
        proof {
            assert(self@ =~= or_post(old(self)@, x as int, y as int));
        }
    }

    /// 8xy2: VX &= VY.
    pub fn and_register(&mut self, x: u8, y: u8)
        requires
            old(self)@.wf(),
            x < 16,
            y < 16,
        ensures
            final(self)@.wf(),
            final(self)@ == and_post(old(self)@, x as int, y as int),
    {
        let v = self.vx[x as usize] & self.vx[y as usize];
        self.vx.set(x as usize, v);
        proof {
            assert(self@ =~= and_post(old(self)@, x as int, y as int));
        }
    }

    /// 8xy3: VX ^= VY.
    pub fn xor_register(&mut self, x: u8, y: u8)
        requires
            old(self)@.wf(),
            x < 16,
            y < 16,
        ensures
            final(self)@.wf(),
            final(self)@ == xor_post(old(self)@, x as int, y as int),
    {
        let v = self.vx[x as usize] ^ self.vx[y as usize];
        self.vx.set(x as usize, v);
        proof {
            assert(self@ =~= xor_post(old(self)@, x as int, y as int));
        }
    }

    /// 8xy4: VX takes the 8-bit wrapped sum of VX and VY, then VF takes the
    /// carry: 1 exactly when the unsigned sum exceeds 255.
    pub fn add_as_register(&mut self, x: u8, y: u8)
        requires
            old(self)@.wf(),
            x < 16,
            y < 16,
        ensures
            final(self)@.wf(),
            final(self)@ == add_reg_post(old(self)@, x as int, y as int),
    {
        let s: u16 = self.vx[x as usize] as u16 + self.vx[y as usize] as u16;
        self.vx.set(x as usize, (s % 256) as u8);
        self.vx.set(15, if s > 255 { 1 } else { 0 });
        proof {
            assert(self@ =~= add_reg_post(old(self)@, x as int, y as int));
        }
    }

    /// 8xy5: VX takes VX - VY modulo 256, then VF takes the no-borrow flag:
    /// 1 exactly when VX >= VY.
    pub fn sub_vx_xy(&mut self, x: u8, y: u8)
        requires
            old(self)@.wf(),
            x < 16,
            y < 16,
        ensures
            final(self)@.wf(),
            final(self)@ == sub_xy_post(old(self)@, x as int, y as int),
    {
        let a = self.vx[x as usize];
        let b = self.vx[y as usize];
        let d: u8 = ((a as u16 + 256 - b as u16) % 256) as u8;
        proof {
            assert(d == wrap8(a - b));
        }
        self.vx.set(x as usize, d);
        self.vx.set(15, if a >= b { 1 } else { 0 });
        proof {
            assert(self@ =~= sub_xy_post(old(self)@, x as int, y as int));
        }
    }

    /// 8xy7: VX takes VY - VX modulo 256, then VF takes the no-borrow flag:
    /// 1 exactly when VY >= VX.
    pub fn sub_vy_xx(&mut self, x: u8, y: u8)
        requires
            old(self)@.wf(),
            x < 16,
            y < 16,
        ensures
            final(self)@.wf(),
            final(self)@ == sub_yx_post(old(self)@, x as int, y as int),
    {
        let a = self.vx[x as usize];
        let b = self.vx[y as usize];
        let d: u8 = ((b as u16 + 256 - a as u16) % 256) as u8;
        proof {
            assert(d == wrap8(b - a));
        }
        self.vx.set(x as usize, d);
        self.vx.set(15, if b >= a { 1 } else { 0 });
        proof {
            assert(self@ =~= sub_yx_post(old(self)@, x as int, y as int));
        }
    }

    /// 8xy6: VX takes the configured source register halved, then VF takes
    /// the bit shifted out (bit 0 of the source).
    pub fn shift_register_right(&mut self, x: u8, y: u8)
        requires
            old(self)@.wf(),
            x < 16,
            y < 16,
        ensures
            final(self)@.wf(),
            final(self)@ == shr_post(old(self)@, x as int, y as int),
    {
        let s = if self.shift_from_y {
            self.vx[y as usize]
        } else {
            self.vx[x as usize]
        };
        self.vx.set(x as usize, s >> 1);
        self.vx.set(15, s & 1);
        proof {
            assert(self@ =~= shr_post(old(self)@, x as int, y as int));
        }
    }

    /// 8xyE: VX takes the configured source register doubled (truncated to
    /// 8 bits), then VF takes the bit shifted out (bit 7 of the source).
    pub fn shift_register_left(&mut self, x: u8, y: u8)
        requires
            old(self)@.wf(),
            x < 16,
            y < 16,
        ensures
            final(self)@.wf(),
            final(self)@ == shl_post(old(self)@, x as int, y as int),
    {
        let s = if self.shift_from_y {
            self.vx[y as usize]
        } else {
            self.vx[x as usize]
        };
        self.vx.set(x as usize, s << 1);
        self.vx.set(15, (s >> 7) & 1);
        proof {
            assert(self@ =~= shl_post(old(self)@, x as int, y as int));
        }
    }

    /// Annn: loads the 12-bit address into the index register.
    pub fn set_index(&mut self, nnn: u16)
        requires
            old(self)@.wf(),
            nnn < 4096,
        ensures
            final(self)@.wf(),
            final(self)@ == set_index_post(old(self)@, nnn),
    {
        self.index_register = nnn;
        proof {
            assert(self@ =~= set_index_post(old(self)@, nnn));
        }
    }

    /// Cxnn with the random byte made explicit: verified for every byte
    /// the generator may hand back. VX takes the byte masked by the
    /// immediate.
    pub fn apply_random(&mut self, x: u8, nn: u8, rb: u8)
        requires
            old(self)@.wf(),
            x < 16,
        ensures
            final(self)@.wf(),
            final(self)@ == random_post(old(self)@, x as int, nn, rb),
    {
        self.vx.set(x as usize, rb & nn);
        proof {
            assert(self@ =~= random_post(old(self)@, x as int, nn, rb));
        }
    }

    /// Cxnn: stores a fresh random byte, masked by the immediate, in VX.
    pub fn random(&mut self, x: u8, nn: u8)
        requires
            old(self)@.wf(),
            x < 16,
        ensures
            final(self)@.wf(),
            exists|rb: u8| final(self)@ == random_post(old(self)@, x as int, nn, rb),
    {
        let rb = random_byte();
        self.apply_random(x, nn, rb);
    }

    /// Fx07: reads the delay timer into VX.
    pub fn get_delay_timer(&mut self, x: u8)
        requires
            old(self)@.wf(),
            x < 16,
        ensures
            final(self)@.wf(),
            final(self)@ == get_delay_post(old(self)@, x as int),
    {
        let v = self.delay_timer;
        self.vx.set(x as usize, v);
        proof {
            assert(self@ =~= get_delay_post(old(self)@, x as int));
        }
    }

    /// Fx15: loads VX into the delay timer.
    pub fn set_delay_timer(&mut self, x: u8)
        requires
            old(self)@.wf(),
            x < 16,
        ensures
            final(self)@.wf(),
            final(self)@ == set_delay_post(old(self)@, x as int),
    {
        self.delay_timer = self.vx[x as usize];
        proof {
            assert(self@ =~= set_delay_post(old(self)@, x as int));
        }
    }

    /// Fx18: loads VX into the sound timer.
    pub fn set_sound_timer(&mut self, x: u8)
        requires
            old(self)@.wf(),
            x < 16,
        ensures
            final(self)@.wf(),
            final(self)@ == set_sound_post(old(self)@, x as int),
    {
        self.sound_timer = self.vx[x as usize];
        proof {
            assert(self@ =~= set_sound_post(old(self)@, x as int));
        }
    }

    /// Fx1E: adds VX to the index register with 16-bit wraparound.
    pub fn add_to_index(&mut self, x: u8)
        requires
            old(self)@.wf(),
            x < 16,
        ensures
            final(self)@.wf(),
            final(self)@ == add_index_post(old(self)@, x as int),
    {
        let s: u32 = self.index_register as u32 + self.vx[x as usize] as u32;
        self.index_register = (s % 0x10000) as u16;
        proof {
            assert(self@ =~= add_index_post(old(self)@, x as int));
        }
    }

    /// Fx0A: blocks the machine; the next mapped key-down event handed to
    /// `run` will land in VX.
    pub fn get_key(&mut self, x: u8)
        requires
            old(self)@.wf(),
            x < 16,
        ensures
            final(self)@.wf(),
            final(self)@ == wait_key_post(old(self)@, x as int),
    {
        self.waiting = Some(x);
        proof {
            assert(self@ =~= wait_key_post(old(self)@, x as int));
        }
    }

    /// Fx29: points the index register at the 5-byte font glyph for VX,
    /// at the font base 0x050.
    pub fn get_font_character(&mut self, x: u8)
        requires
            old(self)@.wf(),
            x < 16,
        ensures
            final(self)@.wf(),
            final(self)@ == font_char_post(old(self)@, x as int),
    {
        self.index_register = 0x50 + 5 * (self.vx[x as usize] as u16);
        proof {
            assert(self@ =~= font_char_post(old(self)@, x as int));
        }
    }

    /// Ex9E: skips one instruction when the key named by VX is down in the
    /// key bitmask.
    pub fn jump_if_key_pressed(&mut self, x: u8, keys_down: u16)
        requires
            old(self)@.wf(),
            x < 16,
            old(self)@.pc + 2 < 0x10000,
        ensures
            final(self)@.wf(),
            final(self)@ == skip_post(
                old(self)@,
                key_pressed(keys_down, old(self)@.vx[x as int]),
            ),
    {
        let v = self.vx[x as usize];
        proof {
            lemma_low_nibble(v);
        }
        if (keys_down >> ((v & 0xF) as u16)) & 1 == 1 {
            self.pc = self.pc + 2;
        }
        proof {
            assert(self@ =~= skip_post(old(self)@, key_pressed(keys_down, old(self)@.vx[x as int])));
        }
    }

    /// ExA1: skips one instruction when the key named by VX is up in the
    /// key bitmask.
    pub fn jump_if_key_not_pressed(&mut self, x: u8, keys_down: u16)
        requires
            old(self)@.wf(),
            x < 16,
            old(self)@.pc + 2 < 0x10000,
        ensures
            final(self)@.wf(),
            final(self)@ == skip_post(
                old(self)@,
                !key_pressed(keys_down, old(self)@.vx[x as int]),
            ),
    {
        let v = self.vx[x as usize];
        proof {
            lemma_low_nibble(v);
        }
        if (keys_down >> ((v & 0xF) as u16)) & 1 != 1 {
            self.pc = self.pc + 2;
        }
        proof {
            assert(self@ =~= skip_post(
                old(self)@,
                !key_pressed(keys_down, old(self)@.vx[x as int]),
            ));
        }
    }

    /// Dxyn: reads `n` consecutive bytes at the index register as an n-row,
    /// 8-column sprite and XOR-composites it at (VX mod 64, VY mod 32),
    /// wrapping in both axes. VF is set to 1 exactly when some pixel went
    /// from set to unset (a collision), else to 0. The driver should then
    /// present the framebuffer. Fails, changing nothing, exactly when some
    /// sprite byte would be read past the end of memory.
    pub fn display_sprite(&mut self, x: u8, y: u8, n: u8) -> (r: Result<(), VmError>)
        requires
            old(self)@.wf(),
            x < 16,
            y < 16,
            n < 16,
        ensures
            final(self)@.wf(),
            draw_oob(old(self)@, n as int) ==> r == Err::<(), VmError>(
                VmError::OutOfBoundsAccess(old(self)@.index),
            ) && final(self)@ == old(self)@,
            !draw_oob(old(self)@, n as int) ==> r == Ok::<(), VmError>(()) && final(self)@
                == draw_post(old(self)@, x as int, y as int, n as int),
    {
        if n > 0 && self.index_register as usize + n as usize > 4096 {
            return Err(VmError::OutOfBoundsAccess(self.index_register));
        }
        let ghost pre = old(self)@;
        let x0: u8 = self.vx[x as usize] % 64;
        let y0: u8 = self.vx[y as usize] % 32;
        let ghost gx0 = sprite_x0(pre, x as int);
        let ghost gy0 = sprite_y0(pre, y as int);
        let idx = self.index_register as usize;
        let mut collided = false;
        let mut i: usize = 0;
        while i < n as usize
            invariant
                pre.wf(),
                x < 16,
                y < 16,
                n < 16,
                i <= n,
                idx == pre.index,
                n > 0 ==> idx + n <= 4096,
                x0 == gx0,
                y0 == gy0,
                0 <= gx0 < 64,
                0 <= gy0 < 32,
                self@.fb.len() == 32,
                self@ == (State { fb: self@.fb, ..pre }),
                forall|row: int|
                    0 <= row < 32 ==> self@.fb[row] == (if 0 <= src_row(gy0, row) < i {
                        pre.fb[row] ^ row_mask(pre.mem[idx + src_row(gy0, row)], gx0)
                    } else {
                        pre.fb[row]
                    }),
                collided <==> exists|ii: int|
                    0 <= ii < i && #[trigger] row_hit(pre.fb, pre.mem, idx as int, gx0, gy0, ii),
            decreases n - i,
        {
            let s = self.memory[idx + i];
            let rev: u64 = (((s >> 7) & 1) as u64) | ((((s >> 6) & 1) as u64) << 1) | ((((s >> 5)
                & 1) as u64) << 2) | ((((s >> 4) & 1) as u64) << 3) | ((((s >> 3) & 1) as u64)
                << 4) | ((((s >> 2) & 1) as u64) << 5) | ((((s >> 1) & 1) as u64) << 6) | (((s
                & 1) as u64) << 7);
            let m: u64 = if x0 == 0 {
                rev
            } else {
                (rev << (x0 as u64)) | (rev >> ((64 - x0) as u64))
            };
            proof {
                assert(rev == rev_byte(pre.mem[idx + i]));
                assert(m == row_mask(pre.mem[idx + i], gx0));
                lemma_row_wrap(gy0, i as int);
            }
            let row = (y0 as usize + i) % 32;
            let cur = self.display_array[row];
            proof {
                assert(cur == pre.fb[row as int]);
            }
            if cur & m != 0 {
                collided = true;
                proof {
                    assert(row_hit(pre.fb, pre.mem, idx as int, gx0, gy0, i as int));
                }
            }
            let v = cur ^ m;
            self.display_array.set(row, v);
            proof {
                assert forall|r: int| 0 <= r < 32 && r != row implies #[trigger] src_row(gy0, r)
                    != i as int by {
                    lemma_row_unwrap(gy0, r);
                }
                assert(!(cur & m != 0) ==> !row_hit(pre.fb, pre.mem, idx as int, gx0, gy0, i as int));
            }
            i = i + 1;
        }
        let flag: u8 = if collided {
            1
        } else {
            0
        };
        self.vx.set(15, flag);
        proof {
            assert forall|r: int| 0 <= r < 32 implies self@.fb[r] == draw_fb(
                pre.fb,
                pre.mem,
                idx as int,
                gx0,
                gy0,
                n as int,
            )[r] by {
                lemma_row_unwrap(gy0, r);
            }
            assert(self@.fb =~= draw_fb(pre.fb, pre.mem, idx as int, gx0, gy0, n as int));
            assert(collided == draw_collision(pre.fb, pre.mem, idx as int, gx0, gy0, n as int));
            assert(self@ =~= draw_post(pre, x as int, y as int, n as int));
        }
        Ok(())
    }

    /// Fx33: writes the hundreds, tens and ones digits of VX to memory at
    /// the index register. Fails, changing nothing, exactly when the three
    /// cells are not all in memory.
    pub fn binary_to_decimal(&mut self, x: u8) -> (r: Result<(), VmError>)
        requires
            old(self)@.wf(),
            x < 16,
        ensures
            final(self)@.wf(),
            old(self)@.index + 2 >= 4096 ==> r == Err::<(), VmError>(
                VmError::OutOfBoundsAccess(old(self)@.index),
            ) && final(self)@ == old(self)@,
            old(self)@.index + 2 < 4096 ==> r == Ok::<(), VmError>(()) && final(self)@ == bcd_post(
                old(self)@,
                x as int,
            ),
    {
        if self.index_register >= 4094 {
            return Err(VmError::OutOfBoundsAccess(self.index_register));
        }
        let idx = self.index_register as usize;
        let v = self.vx[x as usize];
        self.memory.set(idx, v / 100);
        self.memory.set(idx + 1, (v / 10) % 10);
        self.memory.set(idx + 2, v % 10);
        proof {
            assert(self@ =~= bcd_post(old(self)@, x as int));
        }
        Ok(())
    }

    /// Fx55: copies V0..=VX (x + 1 registers, the count inclusive of the
    /// register named) to memory starting at the index register, which does
    /// not move. Fails, changing nothing, exactly when the last cell would
    /// sit past the end of memory.
    pub fn save_registers(&mut self, x: u8) -> (r: Result<(), VmError>)
        requires
            old(self)@.wf(),
            x < 16,
        ensures
            final(self)@.wf(),
            old(self)@.index + x >= 4096 ==> r == Err::<(), VmError>(
                VmError::OutOfBoundsAccess(old(self)@.index),
            ) && final(self)@ == old(self)@,
            old(self)@.index + x < 4096 ==> r == Ok::<(), VmError>(()) && final(self)@
                == store_regs_post(old(self)@, x as int),
    {
        if self.index_register as usize + x as usize >= 4096 {
            return Err(VmError::OutOfBoundsAccess(self.index_register));
        }
        let idx = self.index_register as usize;
        let mut i: usize = 0;
        while i <= x as usize
            invariant
                old(self)@.wf(),
                x < 16,
                i <= x + 1,
                idx == old(self)@.index,
                idx + x < 4096,
                self@.mem.len() == 4096,
                forall|a: int|
                    0 <= a < 4096 ==> self@.mem[a] == (if idx <= a < idx + i {
                        old(self)@.vx[a - idx]
                    } else {
                        old(self)@.mem[a]
                    }),
                self@ == (State { mem: self@.mem, ..old(self)@ }),
            decreases x + 1 - i,
        {
            let v = self.vx[i];
            self.memory.set(idx + i, v);
            i = i + 1;
        }
        proof {
            assert(self@.mem =~= store_regs_mem(
                old(self)@.mem,
                old(self)@.vx,
                idx as int,
                x as int,
            ));
            assert(self@ =~= store_regs_post(old(self)@, x as int));
        }
        Ok(())
    }

    /// Fx65: copies memory starting at the index register, which does not
    /// move, into V0..=VX (x + 1 registers, the count inclusive of the
    /// register named). Fails, changing nothing, exactly when the last cell
    /// would sit past the end of memory.
    pub fn load_registers(&mut self, x: u8) -> (r: Result<(), VmError>)
        requires
            old(self)@.wf(),
            x < 16,
        ensures
            final(self)@.wf(),
            old(self)@.index + x >= 4096 ==> r == Err::<(), VmError>(
                VmError::OutOfBoundsAccess(old(self)@.index),
            ) && final(self)@ == old(self)@,
            old(self)@.index + x < 4096 ==> r == Ok::<(), VmError>(()) && final(self)@
                == load_regs_post(old(self)@, x as int),
    {
        if self.index_register as usize + x as usize >= 4096 {
            return Err(VmError::OutOfBoundsAccess(self.index_register));
        }
        let idx = self.index_register as usize;
        let mut i: usize = 0;
        while i <= x as usize
            invariant
                old(self)@.wf(),
                x < 16,
                i <= x + 1,
                idx == old(self)@.index,
                idx + x < 4096,
                self@.vx.len() == 16,
                forall|a: int|
                    0 <= a < 16 ==> self@.vx[a] == (if 0 <= a < i {
                        old(self)@.mem[idx + a]
                    } else {
                        old(self)@.vx[a]
                    }),
                self@ == (State { vx: self@.vx, ..old(self)@ }),
            decreases x + 1 - i,
        {
            let v = self.memory[idx + i];
            self.vx.set(i, v);
            i = i + 1;
        }
        proof {
            assert(self@.vx =~= load_regs_vx(old(self)@.vx, old(self)@.mem, idx as int, x as int));
            assert(self@ =~= load_regs_post(old(self)@, x as int));
        }
        Ok(())
    }

    /// Executes one decoded instruction. The program counter must already
    /// be past the opcode (as `run` leaves it); two more must fit in 16
    /// bits for a conditional skip.
    pub fn execute(&mut self, instr: Instr, keys_down: u16) -> (r: Result<StepEvent, VmError>)
        requires
            old(self)@.wf(),
            instr_wf(instr),
            old(self)@.pc + 2 < 0x10000,
        ensures
            final(self)@.wf(),
            instr_post(old(self)@, instr, keys_down, r, final(self)@),
    {
        match instr {
            Instr::ClearScreen => {
                self.clear_screen();
                Ok(StepEvent::Cleared)
            },
            Instr::Return => match self.stack_return() {
                Ok(()) => Ok(StepEvent::Ran),
                Err(e) => Err(e),
            },
            Instr::Jump { nnn } => {
                self.jump(nnn);
                Ok(StepEvent::Ran)
            },
            Instr::Call { nnn } => {
                self.call_subroutine(nnn);
                Ok(StepEvent::Ran)
            },
            Instr::SkipEqVal { x, nn } => {
                self.jump_if_val_is_equal(x, nn);
                Ok(StepEvent::Ran)
            },
            Instr::SkipNeVal { x, nn } => {
                self.jump_if_val_not_equal(x, nn);
                Ok(StepEvent::Ran)
            },
            Instr::SkipEqReg { x, y } => {
                self.jump_if_reg_is_equal(x, y);
                Ok(StepEvent::Ran)
            },
            Instr::SkipNeReg { x, y } => {
                self.jump_if_reg_not_equal(x, y);
                Ok(StepEvent::Ran)
            },
            Instr::SetVal { x, nn } => {
                self.set_as_value(x, nn);
                Ok(StepEvent::Ran)
            },
            Instr::AddVal { x, nn } => {
                self.add_as_value(x, nn);
                Ok(StepEvent::Ran)
            },
            Instr::SetReg { x, y } => {
                self.set_as_register(x, y);
                Ok(StepEvent::Ran)
            },
            Instr::OrReg { x, y } => {
                self.or_register(x, y);
                Ok(StepEvent::Ran)
            },
            Instr::AndReg { x, y } => {
                self.and_register(x, y);
                Ok(StepEvent::Ran)
            },
            Instr::XorReg { x, y } => {
                self.xor_register(x, y);
                Ok(StepEvent::Ran)
            },
            Instr::AddReg { x, y } => {
                self.add_as_register(x, y);
                Ok(StepEvent::Ran)
            },
            Instr::SubXY { x, y } => {
                self.sub_vx_xy(x, y);
                Ok(StepEvent::Ran)
            },
            Instr::SubYX { x, y } => {
                self.sub_vy_xx(x, y);
                Ok(StepEvent::Ran)
            },
            Instr::ShiftRight { x, y } => {
                self.shift_register_right(x, y);
                Ok(StepEvent::Ran)
            },
            Instr::ShiftLeft { x, y } => {
                self.shift_register_left(x, y);
                Ok(StepEvent::Ran)
            },
            Instr::SetIndex { nnn } => {
                self.set_index(nnn);
                Ok(StepEvent::Ran)
            },
            Instr::Random { x, nn } => {
                self.random(x, nn);
                Ok(StepEvent::Ran)
            },
            Instr::Draw { x, y, n } => match self.display_sprite(x, y, n) {
                Ok(()) => Ok(StepEvent::Drew),
                Err(e) => Err(e),
            },
            Instr::SkipIfKey { x } => {
                self.jump_if_key_pressed(x, keys_down);
                Ok(StepEvent::Ran)
            },
            Instr::SkipIfNotKey { x } => {
                self.jump_if_key_not_pressed(x, keys_down);
                Ok(StepEvent::Ran)
            },
            Instr::GetDelay { x } => {
                self.get_delay_timer(x);
                Ok(StepEvent::Ran)
            },
            Instr::WaitKey { x } => {
                self.get_key(x);
                Ok(StepEvent::AwaitingKey)
            },
            Instr::SetDelay { x } => {
                self.set_delay_timer(x);
                Ok(StepEvent::Ran)
            },
            Instr::SetSound { x } => {
                self.set_sound_timer(x);
                Ok(StepEvent::Ran)
            },
            Instr::AddIndex { x } => {
                self.add_to_index(x);
                Ok(StepEvent::Ran)
            },
            Instr::FontChar { x } => {
                self.get_font_character(x);
                Ok(StepEvent::Ran)
            },
            Instr::Bcd { x } => match self.binary_to_decimal(x) {
                Ok(()) => Ok(StepEvent::Ran),
                Err(e) => Err(e),
            },
            Instr::StoreRegs { x } => match self.save_registers(x) {
                Ok(()) => Ok(StepEvent::Ran),
                Err(e) => Err(e),
            },
            Instr::LoadRegs { x } => match self.load_registers(x) {
                Ok(()) => Ok(StepEvent::Ran),
                Err(e) => Err(e),
            },
            Instr::Unknown { op } => Ok(StepEvent::UnknownOpcode(op)),
        }
    }

    /// One interpreter step. While a key-wait is pending this only checks
    /// for and consumes the next mapped key-down event (`key_event`);
    /// otherwise it fetches the big-endian opcode at the program counter,
    /// advances the counter past it, decodes, and executes against the
    /// current key bitmask (`keys_down`, bit `k` for key `k`). The returned
    /// event tells the driver what to do next; an `Err` is fatal.
    pub fn run(&mut self, keys_down: u16, key_event: Option<u8>) -> (r: Result<
        StepEvent,
        VmError,
    >)
        requires
            old(self)@.wf(),
            match key_event {
                Some(k) => k < 16,
                None => true,
            },
        ensures
            final(self)@.wf(),
            step_rel(old(self)@, keys_down, key_event, r, final(self)@),
    {
        let waiting = self.waiting;
        match waiting {
            Some(xw) => match key_event {
                Some(k) => {
                    self.vx.set(xw as usize, k);
                    self.waiting = None;
                    proof {
                        assert(self@ =~= (State {
                            vx: old(self)@.vx.update(xw as int, k),
                            waiting: None,
                            ..old(self)@
                        }));
                    }
                    Ok(StepEvent::Ran)
                },
                None => Ok(StepEvent::AwaitingKey),
            },
            None => {
                if self.pc >= 4095 {
                    return Err(VmError::OutOfBoundsAccess(self.pc));
                }
                let hi = self.memory[self.pc as usize];
                let lo = self.memory[self.pc as usize + 1];
                let op: u16 = ((hi as u16) << 8) | (lo as u16);
                proof {
                    assert(op == fetched(old(self)@));
                }
                self.pc = self.pc + 2;
                proof {
                    assert(self@ =~= (State { pc: (old(self)@.pc + 2) as u16, ..old(self)@ }));
                }
                let instr = decode(op);
                self.execute(instr, keys_down)
            },
        }
    }

    /// A general register, for the driver and for tests.
    pub fn reg(&self, i: u8) -> (r: u8)
        requires
            self@.wf(),
            i < 16,
        ensures
            r == self@.vx[i as int],
    {
        self.vx[i as usize]
    }

    /// The program counter.
    pub fn pc(&self) -> (r: u16)
        ensures
            r == self@.pc,
    {
        self.pc
    }

    /// The index register.
    pub fn index(&self) -> (r: u16)
        ensures
            r == self@.index,
    {
        self.index_register
    }

    /// The delay timer.
    pub fn delay(&self) -> (r: u8)
        ensures
            r == self@.delay,
    {
        self.delay_timer
    }

    /// The sound timer.
    pub fn sound(&self) -> (r: u8)
        ensures
            r == self@.sound,
    {
        self.sound_timer
    }

    /// The signal the audio actuator consumes: the tone plays exactly while
    /// the sound timer is nonzero.
    pub fn sound_on(&self) -> (r: bool)
        ensures
            r == (self@.sound > 0),
    {
        self.sound_timer > 0
    }

    /// One memory cell, for the driver and for tests.
    pub fn mem_at(&self, addr: u16) -> (r: u8)
        requires
            self@.wf(),
            addr < 4096,
        ensures
            r == self@.mem[addr as int],
    {
        self.memory[addr as usize]
    }

    /// One framebuffer row: bit `c` of the word is the pixel in column `c`.
    pub fn framebuffer_row(&self, row: u8) -> (r: u64)
        requires
            self@.wf(),
            row < 32,
        ensures
            r == self@.fb[row as int],
    {
        self.display_array[row as usize]
    }

    /// How many return addresses are on the call stack.
    pub fn stack_depth(&self) -> (r: usize)
        ensures
            r == self@.stack.len(),
    {
        self.stack_register.len()
    }

    /// Whether a key-wait instruction is blocking the machine.
    pub fn is_waiting(&self) -> (r: bool)
        ensures
            r == (self@.waiting is Some),
    {
        matches!(self.waiting, Some(_))
    }
}

} // verus!
