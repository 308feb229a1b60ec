//! A CHIP-8 interpreter core: opcode decoding, instruction semantics, the
//! framebuffer, the timers and the keypad mapping, each specified and proved.
pub mod display;
pub mod instruction;
pub mod keypad;
pub mod laws;
pub mod machine;
pub mod semantics;

pub use instruction::{decode, Instruction};
pub use keypad::{keyboard_to_keypad, keypad_to_keyboard, Key};
pub use machine::Chip8;
pub use semantics::ExecError;
