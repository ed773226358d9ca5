//! A verified CHIP-8 virtual machine.
//!
//! The interpreter core owns all machine state (memory, registers, program
//! counter, stack, timers, framebuffer) and implements the fetch-decode-execute
//! cycle, including the XOR sprite compositor with collision detection and the
//! blocking key-wait instruction, modelled as an explicit interpreter state.
//! Presentation, audio and input are external collaborators: the core only
//! reports what they should do.

pub mod font;
pub mod isa;
pub mod state;
pub mod cpu;
pub mod laws;
