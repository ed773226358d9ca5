//! The instruction set: error taxonomy, step outcomes, the decoded
//! instruction type, and the pure decoder from a 16-bit opcode.
//!
//! Every opcode decodes its operand fields uniformly: the second nibble names
//! register X, the third nibble register Y, the low byte is an immediate, the
//! low 12 bits an address, and the low nibble a count or sub-opcode. An opcode
//! outside the documented table decodes to `Instr::Unknown`, a representable
//! value that the dispatcher skips rather than a fatal condition.

use vstd::prelude::*;

verus! {

/// Which register a shift instruction reads: the destination register X
/// itself (the behaviour this machine defaults to) or the separate source
/// register Y named by the opcode (the legacy behaviour). This is a
/// construction-time configuration choice, not a per-opcode encoding.
#[derive(Clone, Copy, PartialEq, Eq, Structural, Debug)]
pub enum ShiftPolicy {
    /// Shift register X in place.
    ShiftVx,
    /// Shift register Y and store the result in register X.
    ShiftVy,
}

/// Fatal machine faults. Recoverable conditions (an unknown opcode) are not
/// errors: they are reported through `StepEvent` and execution continues.
#[derive(Clone, Copy, PartialEq, Eq, Structural, Debug)]
pub enum VmError {
    /// The ROM does not fit between the program base 0x200 and the end of
    /// the 4096-byte memory.
    OversizedRom,
    /// A subroutine return was executed with an empty call stack; there is
    /// no valid resumption point.
    StackUnderflow,
    /// An instruction fetch or a memory transfer reached past the 4096-byte
    /// memory; the payload is the base address (program counter or index
    /// register) of the faulting access.
    OutOfBoundsAccess(u16),
}

/// What one `run` call did, so the external driver can follow up with the
/// presentation, audio and input collaborators.
#[derive(Clone, Copy, PartialEq, Eq, Structural, Debug)]
pub enum StepEvent {
    /// An ordinary instruction retired.
    Ran,
    /// A sprite was composited into the framebuffer; present it.
    Drew,
    /// The framebuffer was cleared; present the blank background.
    Cleared,
    /// The machine is blocked until a mapped key-down event arrives.
    AwaitingKey,
    /// The fetched opcode is not in the documented table; it was skipped
    /// and may be logged.
    UnknownOpcode(u16),
}

/// A decoded instruction. Field `x` and `y` name general registers (always
/// below 16), `nn` is an 8-bit immediate, `nnn` a 12-bit address and `n` a
/// 4-bit row count.
#[derive(Clone, Copy, PartialEq, Eq, Structural, Debug)]
pub enum Instr {
    /// 00E0: clear the framebuffer.
    ClearScreen,
    /// 00EE: return from a subroutine.
    Return,
    /// 1nnn: jump to address.
    Jump { nnn: u16 },
    /// 2nnn: call the subroutine at address.
    Call { nnn: u16 },
    /// 3xnn: skip the next instruction if VX equals the immediate.
    SkipEqVal { x: u8, nn: u8 },
    /// 4xnn: skip the next instruction if VX differs from the immediate.
    SkipNeVal { x: u8, nn: u8 },
    /// 5xy0 family: skip the next instruction if VX equals VY.
    SkipEqReg { x: u8, y: u8 },
    /// 9xy0 family: skip the next instruction if VX differs from VY.
    SkipNeReg { x: u8, y: u8 },
    /// 6xnn: load the immediate into VX.
    SetVal { x: u8, nn: u8 },
    /// 7xnn: add the immediate to VX, wrapping, flags untouched.
    AddVal { x: u8, nn: u8 },
    /// 8xy0: copy VY into VX.
    SetReg { x: u8, y: u8 },
    /// 8xy1: VX |= VY.
    OrReg { x: u8, y: u8 },
    /// 8xy2: VX &= VY.
    AndReg { x: u8, y: u8 },
    /// 8xy3: VX ^= VY.
    XorReg { x: u8, y: u8 },
    /// 8xy4: VX += VY with VF as the carry flag.
    AddReg { x: u8, y: u8 },
    /// 8xy5: VX -= VY with VF as the no-borrow flag.
    SubXY { x: u8, y: u8 },
    /// 8xy7: VX = VY - VX with VF as the no-borrow flag.
    SubYX { x: u8, y: u8 },
    /// 8xy6: shift right by one with VF as the bit shifted out.
    ShiftRight { x: u8, y: u8 },
    /// 8xyE: shift left by one with VF as the bit shifted out.
    ShiftLeft { x: u8, y: u8 },
    /// Annn: load the address into the index register.
    SetIndex { nnn: u16 },
    /// Cxnn: store a random byte masked by the immediate in VX.
    Random { x: u8, nn: u8 },
    /// Dxyn: composite an n-row sprite at (VX mod 64, VY mod 32).
    Draw { x: u8, y: u8, n: u8 },
    /// Ex9E: skip the next instruction if the key named by VX is down.
    SkipIfKey { x: u8 },
    /// ExA1: skip the next instruction if the key named by VX is up.
    SkipIfNotKey { x: u8 },
    /// Fx07: read the delay timer into VX.
    GetDelay { x: u8 },
    /// Fx0A: block until a mapped key-down event arrives, store it in VX.
    WaitKey { x: u8 },
    /// Fx15: load VX into the delay timer.
    SetDelay { x: u8 },
    /// Fx18: load VX into the sound timer.
    SetSound { x: u8 },
    /// Fx1E: add VX to the index register, wrapping at 16 bits.
    AddIndex { x: u8 },
    /// Fx29: point the index register at the font glyph for VX.
    FontChar { x: u8 },
    /// Fx33: write the decimal digits of VX to memory at the index register.
    Bcd { x: u8 },
    /// Fx55: copy V0..=VX to memory starting at the index register.
    StoreRegs { x: u8 },
    /// Fx65: copy memory starting at the index register into V0..=VX.
    LoadRegs { x: u8 },
    /// Any opcode outside the documented table.
    Unknown { op: u16 },
}

/// Register X: the second nibble of the opcode.
pub open spec fn op_x(op: u16) -> u8 {
    ((op >> 8) & 0xF) as u8
}

/// Register Y: the third nibble of the opcode.
pub open spec fn op_y(op: u16) -> u8 {
    ((op >> 4) & 0xF) as u8
}

/// Count or sub-opcode: the low nibble of the opcode.
pub open spec fn op_n(op: u16) -> u8 {
    (op & 0xF) as u8
}

/// Immediate: the low byte of the opcode.
pub open spec fn op_nn(op: u16) -> u8 {
    (op & 0xFF) as u8
}

/// Address: the low 12 bits of the opcode.
pub open spec fn op_nnn(op: u16) -> u16 {
    op & 0xFFF
}

/// The operand fields of any opcode stay within their nibble, byte and
/// 12-bit ranges.
pub proof fn lemma_op_fields(op: u16)
    by (bit_vector)
    ensures
        (op >> 8) & 0xF < 16,
        (op >> 4) & 0xF < 16,
        op & 0xF < 16,
        op & 0xFF < 256,
        op & 0xFFF < 4096,
        op >> 12 < 16,
{
}

/// Register operands are register numbers, addresses are 12-bit.
pub open spec fn instr_wf(i: Instr) -> bool {
    match i {
        Instr::ClearScreen => true,
        Instr::Return => true,
        Instr::Jump { nnn } => nnn < 4096,
        Instr::Call { nnn } => nnn < 4096,
        Instr::SkipEqVal { x, nn } => x < 16,
        Instr::SkipNeVal { x, nn } => x < 16,
        Instr::SkipEqReg { x, y } => x < 16 && y < 16,
        Instr::SkipNeReg { x, y } => x < 16 && y < 16,
        Instr::SetVal { x, nn } => x < 16,
        Instr::AddVal { x, nn } => x < 16,
        Instr::SetReg { x, y } => x < 16 && y < 16,
        Instr::OrReg { x, y } => x < 16 && y < 16,
        Instr::AndReg { x, y } => x < 16 && y < 16,
        Instr::XorReg { x, y } => x < 16 && y < 16,
        Instr::AddReg { x, y } => x < 16 && y < 16,
        Instr::SubXY { x, y } => x < 16 && y < 16,
        Instr::SubYX { x, y } => x < 16 && y < 16,
        Instr::ShiftRight { x, y } => x < 16 && y < 16,
        Instr::ShiftLeft { x, y } => x < 16 && y < 16,
        Instr::SetIndex { nnn } => nnn < 4096,
        Instr::Random { x, nn } => x < 16,
        Instr::Draw { x, y, n } => x < 16 && y < 16 && n < 16,
        Instr::SkipIfKey { x } => x < 16,
        Instr::SkipIfNotKey { x } => x < 16,
        Instr::GetDelay { x } => x < 16,
        Instr::WaitKey { x } => x < 16,
        Instr::SetDelay { x } => x < 16,
        Instr::SetSound { x } => x < 16,
        Instr::AddIndex { x } => x < 16,
        Instr::FontChar { x } => x < 16,
        Instr::Bcd { x } => x < 16,
        Instr::StoreRegs { x } => x < 16,
        Instr::LoadRegs { x } => x < 16,
        Instr::Unknown { op } => true,
    }
}

/// The decoding table. Dispatch is two-level: the top nibble selects a
/// family; the 0x0, 0x8 and 0xF families sub-dispatch on the low byte or
/// low nibble.
pub open spec fn spec_decode(op: u16) -> Instr {
    let fam = op >> 12;
    if fam == 0x0 {
        if op == 0x00E0 {
            Instr::ClearScreen
        } else if op == 0x00EE {
            Instr::Return
        } else {
            Instr::Unknown { op }
        }
    } else if fam == 0x1 {
        Instr::Jump { nnn: op_nnn(op) }
    } else if fam == 0x2 {
        Instr::Call { nnn: op_nnn(op) }
    } else if fam == 0x3 {
        Instr::SkipEqVal { x: op_x(op), nn: op_nn(op) }
    } else if fam == 0x4 {
        Instr::SkipNeVal { x: op_x(op), nn: op_nn(op) }
    } else if fam == 0x5 {
        Instr::SkipEqReg { x: op_x(op), y: op_y(op) }
    } else if fam == 0x6 {
        Instr::SetVal { x: op_x(op), nn: op_nn(op) }
    } else if fam == 0x7 {
        Instr::AddVal { x: op_x(op), nn: op_nn(op) }
    } else if fam == 0x8 {
        let sub = op & 0xF;
        if sub == 0x0 {
            Instr::SetReg { x: op_x(op), y: op_y(op) }
        } else if sub == 0x1 {
            Instr::OrReg { x: op_x(op), y: op_y(op) }
        } else if sub == 0x2 {
            Instr::AndReg { x: op_x(op), y: op_y(op) }
        } else if sub == 0x3 {
            Instr::XorReg { x: op_x(op), y: op_y(op) }
        } else if sub == 0x4 {
            Instr::AddReg { x: op_x(op), y: op_y(op) }
        } else if sub == 0x5 {
            Instr::SubXY { x: op_x(op), y: op_y(op) }
        } else if sub == 0x6 {
            Instr::ShiftRight { x: op_x(op), y: op_y(op) }
        } else if sub == 0x7 {
            Instr::SubYX { x: op_x(op), y: op_y(op) }
        } else if sub == 0xE {
            Instr::ShiftLeft { x: op_x(op), y: op_y(op) }
        } else {
            Instr::Unknown { op }
        }
    } else if fam == 0x9 {
        Instr::SkipNeReg { x: op_x(op), y: op_y(op) }
    } else if fam == 0xA {
        Instr::SetIndex { nnn: op_nnn(op) }
    } else if fam == 0xC {
        Instr::Random { x: op_x(op), nn: op_nn(op) }
    } else if fam == 0xD {
        Instr::Draw { x: op_x(op), y: op_y(op), n: op_n(op) }
    } else if fam == 0xE {
        let sub = op & 0xFF;
        if sub == 0x9E {
            Instr::SkipIfKey { x: op_x(op) }
        } else if sub == 0xA1 {
            Instr::SkipIfNotKey { x: op_x(op) }
        } else {
            Instr::Unknown { op }
        }
    } else if fam == 0xF {
        let sub = op & 0xFF;
        if sub == 0x07 {
            Instr::GetDelay { x: op_x(op) }
        } else if sub == 0x0A {
            Instr::WaitKey { x: op_x(op) }
        } else if sub == 0x15 {
            Instr::SetDelay { x: op_x(op) }
        } else if sub == 0x18 {
            Instr::SetSound { x: op_x(op) }
        } else if sub == 0x1E {
            Instr::AddIndex { x: op_x(op) }
        } else if sub == 0x29 {
            Instr::FontChar { x: op_x(op) }
        } else if sub == 0x33 {
            Instr::Bcd { x: op_x(op) }
        } else if sub == 0x55 {
            Instr::StoreRegs { x: op_x(op) }
        } else if sub == 0x65 {
            Instr::LoadRegs { x: op_x(op) }
        } else {
            Instr::Unknown { op }
        }
    } else {
        Instr::Unknown { op }
    }
}

/// Every decoded instruction carries well-formed operand fields.
pub proof fn lemma_decode_wf(op: u16)
    ensures
        instr_wf(spec_decode(op)),
{
    lemma_op_fields(op);
}

/// Decodes a 16-bit opcode into exactly one documented operation, or
/// `Instr::Unknown` for anything outside the table.
pub fn decode(op: u16) -> (r: Instr)
    ensures
        r == spec_decode(op),
        instr_wf(r),
{
    proof {
        lemma_op_fields(op);
    }
    let x: u8 = ((op >> 8) & 0xF) as u8;
    let y: u8 = ((op >> 4) & 0xF) as u8;
    let n: u8 = (op & 0xF) as u8;
    let nn: u8 = (op & 0xFF) as u8;
    let nnn: u16 = op & 0xFFF;
    match op >> 12 {
        0x0 => {
            if op == 0x00E0 {
                Instr::ClearScreen
            } else if op == 0x00EE {
                Instr::Return
            } else {
                Instr::Unknown { op }
            }
        },
        0x1 => Instr::Jump { nnn },
        0x2 => Instr::Call { nnn },
        0x3 => Instr::SkipEqVal { x, nn },
        0x4 => Instr::SkipNeVal { x, nn },
        0x5 => Instr::SkipEqReg { x, y },
        0x6 => Instr::SetVal { x, nn },
        0x7 => Instr::AddVal { x, nn },
        0x8 => {
            match op & 0xF {
                0x0 => Instr::SetReg { x, y },
                0x1 => Instr::OrReg { x, y },
                0x2 => Instr::AndReg { x, y },
                0x3 => Instr::XorReg { x, y },
                0x4 => Instr::AddReg { x, y },
                0x5 => Instr::SubXY { x, y },
                0x6 => Instr::ShiftRight { x, y },
                0x7 => Instr::SubYX { x, y },
                0xE => Instr::ShiftLeft { x, y },
                _ => Instr::Unknown { op },
            }
        },
        0x9 => Instr::SkipNeReg { x, y },
        0xA => Instr::SetIndex { nnn },
        0xC => Instr::Random { x, nn },
        0xD => Instr::Draw { x, y, n },
        0xE => {
            match op & 0xFF {
                0x9E => Instr::SkipIfKey { x },
                0xA1 => Instr::SkipIfNotKey { x },
                _ => Instr::Unknown { op },
            }
        },
        0xF => {
            match op & 0xFF {
                0x07 => Instr::GetDelay { x },
                0x0A => Instr::WaitKey { x },
                0x15 => Instr::SetDelay { x },
                0x18 => Instr::SetSound { x },
                0x1E => Instr::AddIndex { x },
                0x29 => Instr::FontChar { x },
                0x33 => Instr::Bcd { x },
                0x55 => Instr::StoreRegs { x },
                0x65 => Instr::LoadRegs { x },
                _ => Instr::Unknown { op },
            }
        },
        _ => Instr::Unknown { op },
    }
}

} // verus!
