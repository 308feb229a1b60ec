//! What one instruction does to the machine, as a function from state to
//! state, and the faults that stop an instruction.
use vstd::prelude::*;

use crate::display::{blank_screen, draw_collides, draw_screen};
use crate::instruction::{decode_spec, Instruction};
use crate::keypad::{host_key, keypad_value};
use crate::machine::{MachineState, FONT_START, MEMORY_SIZE, STACK_LIMIT};

verus! {

/// Why a step did not complete. `UnknownOpcode` is recoverable: the machine
/// is left as it was and execution may go on. The others are fatal defects
/// of the program being run.
#[derive(Clone, Copy, Debug, PartialEq, Eq, Structural)]
pub enum ExecError {
    /// The opcode is outside the instruction set.
    UnknownOpcode(u16),
    /// A return with an empty call stack.
    StackUnderflow,
    /// A call with `STACK_LIMIT` return addresses already stacked.
    StackOverflow,
    /// An access to memory, or a jump, past the end of memory.
    AddressOutOfRange,
}

impl ExecError {
    /// Whether the machine cannot sensibly go on after this error.
    pub fn is_fatal(&self) -> (r: bool)
        ensures
            r == !(self is UnknownOpcode),
    {
        match self {
            ExecError::UnknownOpcode(_) => false,
            _ => true,
        }
    }
}

/// `s` with register `x` set to `value`.
pub open spec fn with_register(s: MachineState, x: u8, value: u8) -> MachineState {
    MachineState { v: s.v.update(x as int, value), ..s }
}

/// `s` with register `x` set to `value` and then the flag register to `flag`.
pub open spec fn with_result_and_flag(s: MachineState, x: u8, value: u8, flag: u8) -> MachineState {
    MachineState { v: s.v.update(x as int, value).update(15, flag), ..s }
}

/// Skips the next instruction when `cond` holds; a skip past the end of
/// memory is a fault.
pub open spec fn skip_when(s: MachineState, cond: bool) -> Result<MachineState, ExecError> {
    if !cond {
        Ok(s)
    } else if s.pc + 2 > MEMORY_SIZE {
        Err(ExecError::AddressOutOfRange)
    } else {
        Ok(MachineState { pc: (s.pc + 2) as usize, ..s })
    }
}

/// Whether the key for keypad value `value` is held; never for a value
/// outside 0x0..=0xF.
pub open spec fn key_held(s: MachineState, value: u8) -> bool {
    value < 16 && s.held.contains(host_key(value))
}

/// `a - b` modulo 256.
pub open spec fn sub_wrapping(a: u8, b: u8) -> u8 {
    (if a >= b { a - b } else { a - b + 256 }) as u8
}

/// The decimal digit of `value` at `place` (100, 10 or 1).
pub open spec fn bcd_digit(value: u8, place: int) -> u8 {
    ((value as int / place) % 10) as u8
}

/// Executes `ins` on `s`, whose program counter has already moved past it.
/// `rnd` is the random byte that `LoadRegisterWithRandom` masks; nothing else
/// reads it. On `Err` the instruction has no effect.
pub open spec fn exec_spec(s: MachineState, ins: Instruction, rnd: u8) -> Result<MachineState, ExecError> {
    match ins {
        Instruction::Clear => Ok(MachineState { screen: blank_screen(), ..s }),
        Instruction::Return => {
            if s.stack.len() == 0 {
                Err(ExecError::StackUnderflow)
            } else {
                Ok(MachineState { pc: s.stack.last(), stack: s.stack.drop_last(), ..s })
            }
        },
        Instruction::Jump(a) => Ok(MachineState { pc: a as usize, ..s }),
        Instruction::SubRoutine(a) => {
            if s.stack.len() >= STACK_LIMIT {
                Err(ExecError::StackOverflow)
            } else {
                Ok(MachineState { pc: a as usize, stack: s.stack.push(s.pc), ..s })
            }
        },
        Instruction::SkipOnXeqV(x, nn) => skip_when(s, s.v[x as int] == nn),
        Instruction::SkipOnXneqV(x, nn) => skip_when(s, s.v[x as int] != nn),
        Instruction::SkipOnXeqY(x, y) => skip_when(s, s.v[x as int] == s.v[y as int]),
        Instruction::SkipOnXneqY(x, y) => skip_when(s, s.v[x as int] != s.v[y as int]),
        Instruction::LoadNormalRegister(x, nn) => Ok(with_register(s, x, nn)),
        Instruction::AddToNormalRegister(x, nn) => Ok(with_register(s, x, ((s.v[x as int] + nn) % 256) as u8)),
        Instruction::SetXtoY(x, y) => Ok(with_register(s, x, s.v[y as int])),
        Instruction::SetXtoXorY(x, y) => Ok(with_register(s, x, s.v[x as int] | s.v[y as int])),
        Instruction::SetXtoXandY(x, y) => Ok(with_register(s, x, s.v[x as int] & s.v[y as int])),
        Instruction::SetXtoXxorY(x, y) => Ok(with_register(s, x, s.v[x as int] ^ s.v[y as int])),
        Instruction::AddYtoX(x, y) => {
            let sum = s.v[x as int] + s.v[y as int];
            Ok(with_result_and_flag(s, x, (sum % 256) as u8, if sum > 255 { 1 } else { 0 }))
        },
        Instruction::SubYfromX(x, y) => {
            let (a, b) = (s.v[x as int], s.v[y as int]);
            Ok(with_result_and_flag(s, x, sub_wrapping(a, b), if a < b { 0 } else { 1 }))
        },
        Instruction::SetXtoYMinusX(x, y) => {
            let (a, b) = (s.v[x as int], s.v[y as int]);
            Ok(with_result_and_flag(s, x, sub_wrapping(b, a), if b < a { 0 } else { 1 }))
        },
        Instruction::SetXtoYshiftRightOnce(x, y) => {
            let src = s.v[y as int];
            Ok(with_result_and_flag(s, x, src / 2, src % 2))
        },
        Instruction::SetXtoYshiftLeftOnce(x, y) => {
            let src = s.v[y as int];
            Ok(with_result_and_flag(s, x, ((src * 2) % 256) as u8, src / 128))
        },
        Instruction::LoadIndexRegister(a) => Ok(MachineState { i: a, ..s }),
        Instruction::JumpByRegister(a) => {
            let target = a + s.v[0];
            if target > MEMORY_SIZE {
                Err(ExecError::AddressOutOfRange)
            } else {
                Ok(MachineState { pc: target as usize, ..s })
            }
        },
        Instruction::LoadRegisterWithRandom(x, nn) => Ok(with_register(s, x, nn & rnd)),
        Instruction::DrawSprite(x, y, n) => {
            if s.i + n > MEMORY_SIZE {
                Err(ExecError::AddressOutOfRange)
            } else {
                let x0 = s.v[x as int] as int % 64;
                let y0 = s.v[y as int] as int % 32;
                let sprite = s.ram.subrange(s.i as int, s.i + n);
                let collided = draw_collides(s.screen, x0, y0, sprite);
                Ok(
                    MachineState {
                        screen: draw_screen(s.screen, x0, y0, sprite),
                        v: s.v.update(15, if collided { 1 } else { 0 }),
                        ..s
                    },
                )
            }
        },
        Instruction::SkipIfPressed(x) => skip_when(s, key_held(s, s.v[x as int])),
        Instruction::SkipNotPressed(x) => skip_when(s, !key_held(s, s.v[x as int])),
        Instruction::StoreDelayInRegister(x) => Ok(with_register(s, x, s.delay)),
        Instruction::WaitUserInput(x) => {
            if s.held.len() == 1 && keypad_value(s.held[0]) is Some {
                Ok(with_register(s, x, keypad_value(s.held[0])->0))
            } else if s.pc < 2 {
                Err(ExecError::AddressOutOfRange)
            } else {
                Ok(MachineState { pc: (s.pc - 2) as usize, ..s })
            }
        },
        Instruction::SetDelayFromRegister(x) => Ok(MachineState { delay: s.v[x as int], ..s }),
        Instruction::SetSoundTimerFromRegister(x) => Ok(MachineState { sound: s.v[x as int], ..s }),
        Instruction::AddRegisterToIndex(x) => Ok(MachineState { i: ((s.i + s.v[x as int]) % 65536) as u16, ..s }),
        Instruction::LoadFont(x) => Ok(MachineState { i: (FONT_START + 5 * x) as u16, ..s }),
        Instruction::StoreRegisterInBcd(x) => {
            if s.i + 3 > MEMORY_SIZE {
                Err(ExecError::AddressOutOfRange)
            } else {
                let value = s.v[x as int];
                Ok(
                    MachineState {
                        ram: s.ram.update(s.i as int, bcd_digit(value, 100)).update(
                            s.i + 1,
                            bcd_digit(value, 10),
                        ).update(s.i + 2, bcd_digit(value, 1)),
                        ..s
                    },
                )
            }
        },
        Instruction::StoreRegistersInMemory(x) => {
            if s.i + x + 1 > MEMORY_SIZE {
                Err(ExecError::AddressOutOfRange)
            } else {
                Ok(
                    MachineState {
                        ram: Seq::new(
                            s.ram.len(),
                            |a: int| if s.i <= a <= s.i + x { s.v[a - s.i] } else { s.ram[a] },
                        ),
                        i: if s.advance_index { (s.i + x + 1) as u16 } else { s.i },
                        ..s
                    },
                )
            }
        },
        Instruction::FillRegisters(x) => {
            if s.i + x + 1 > MEMORY_SIZE {
                Err(ExecError::AddressOutOfRange)
            } else {
                Ok(
                    MachineState {
                        v: Seq::new(s.v.len(), |k: int| if k <= x { s.ram[s.i + k] } else { s.v[k] }),
                        i: if s.advance_index { (s.i + x + 1) as u16 } else { s.i },
                        ..s
                    },
                )
            }
        },
    }
}

/// `t` and `r` are what executing `ins` on `s` leaves and returns: the new
/// state and `Ok`, or `s` itself and the error.
pub open spec fn exec_post(s: MachineState, ins: Instruction, rnd: u8, r: Result<(), ExecError>, t: MachineState) -> bool {
    match exec_spec(s, ins, rnd) {
        Ok(next) => r is Ok && t == next,
        Err(e) => r == Err::<(), ExecError>(e) && t == s,
    }
}

/// Whether `op` decodes to the instruction that reads a random byte.
pub open spec fn needs_random(op: u16) -> bool {
    decode_spec(op) matches Some(ins) && ins is LoadRegisterWithRandom
}

/// `t` and `r` are what decoding and executing `op` on `s` leaves and
/// returns, `rnd` being the random byte: an opcode outside the instruction
/// set leaves `s` as it was and is reported as `UnknownOpcode`.
pub open spec fn run_post(s: MachineState, op: u16, rnd: u8, r: Result<(), ExecError>, t: MachineState) -> bool {
    match decode_spec(op) {
        None => r == Err::<(), ExecError>(ExecError::UnknownOpcode(op)) && t == s,
        Some(ins) => exec_post(s, ins, rnd, r, t),
    }
}

/// The opcode stored big-endian at the program counter.
pub open spec fn fetch_spec(s: MachineState) -> u16 {
    (s.ram[s.pc as int] * 256 + s.ram[s.pc + 1]) as u16
}

/// `s` with its program counter moved past the opcode it points at.
pub open spec fn advance(s: MachineState) -> MachineState {
    MachineState { pc: (s.pc + 2) as usize, ..s }
}

/// A timer after one tick: one less, but never below zero.
pub open spec fn count_down(t: u8) -> u8 {
    if t > 0 {
        (t - 1) as u8
    } else {
        0
    }
}

} // verus!
