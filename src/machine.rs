//! The machine: memory, registers, call stack, timers, framebuffer and the
//! keys that the host reports as held, with the fetch-decode-execute step.
use vstd::prelude::*;

use crate::display::{blank_screen, clear_screen, draw_sprite, screen_view, SCREEN_HEIGHT, SCREEN_WIDTH};
use crate::instruction::{decode, Instruction};
use crate::semantics::{
    advance, count_down, exec_post, exec_spec, fetch_spec, key_held, needs_random, run_post, skip_when,
    with_register, ExecError,
};
use crate::keypad::{keyboard_to_keypad, keypad_to_keyboard, Key};

verus! {

/// Bytes of addressable memory.
pub const MEMORY_SIZE: usize = 4096;

/// Where a ROM image is loaded, and where execution starts.
pub const PROGRAM_START: usize = 0x200;

/// Where the glyph table starts: five bytes per hexadecimal digit.
pub const FONT_START: usize = 0x50;

/// Bytes in the glyph table.
pub const FONT_SIZE: usize = 80;

/// The deepest the call stack may grow.
pub const STACK_LIMIT: usize = 16;

/// The register that flag-producing instructions overwrite.
pub const FLAG_REGISTER: usize = 15;

/// The glyph table: rows of 4-pixel-wide digits 0 to F, high nibble used.
pub open spec fn font_spec() -> Seq<u8> {
    seq![
        0xF0u8, 0x90, 0x90, 0x90, 0xF0, // 0
        0x20, 0x60, 0x20, 0x20, 0x70, // 1
        0xF0, 0x10, 0xF0, 0x80, 0xF0, // 2
        0xF0, 0x10, 0xF0, 0x10, 0xF0, // 3
        0x90, 0x90, 0xF0, 0x10, 0x10, // 4
        0xF0, 0x80, 0xF0, 0x10, 0xF0, // 5
        0xF0, 0x80, 0xF0, 0x90, 0xF0, // 6
        0xF0, 0x10, 0x20, 0x40, 0x40, // 7
        0xF0, 0x90, 0xF0, 0x90, 0xF0, // 8
        0xF0, 0x90, 0xF0, 0x10, 0xF0, // 9
        0xF0, 0x90, 0xF0, 0x90, 0x90, // A
        0xE0, 0x90, 0xE0, 0x90, 0xE0, // B
        0xF0, 0x80, 0x80, 0x80, 0xF0, // C
        0xE0, 0x90, 0x90, 0x90, 0xE0, // D
        0xF0, 0x80, 0xF0, 0x80, 0xF0, // E
        0xF0, 0x80, 0xF0, 0x80, 0x80, // F
    ]
}

/// The glyph table, to be copied into memory.
fn font() -> (r: [u8; 80])
    ensures
        r@ == font_spec(),
{
    let r: [u8; 80] = [
        0xF0, 0x90, 0x90, 0x90, 0xF0, // 0
        0x20, 0x60, 0x20, 0x20, 0x70, // 1
        0xF0, 0x10, 0xF0, 0x80, 0xF0, // 2
        0xF0, 0x10, 0xF0, 0x10, 0xF0, // 3
        0x90, 0x90, 0xF0, 0x10, 0x10, // 4
        0xF0, 0x80, 0xF0, 0x10, 0xF0, // 5
        0xF0, 0x80, 0xF0, 0x90, 0xF0, // 6
        0xF0, 0x10, 0x20, 0x40, 0x40, // 7
        0xF0, 0x90, 0xF0, 0x90, 0xF0, // 8
        0xF0, 0x90, 0xF0, 0x10, 0xF0, // 9
        0xF0, 0x90, 0xF0, 0x90, 0x90, // A
        0xE0, 0x90, 0xE0, 0x90, 0xE0, // B
        0xF0, 0x80, 0x80, 0x80, 0xF0, // C
        0xE0, 0x90, 0x90, 0x90, 0xE0, // D
        0xF0, 0x80, 0xF0, 0x80, 0xF0, // E
        0xF0, 0x80, 0xF0, 0x80, 0x80, // F
    ];
    assert(r@ =~= font_spec());
    r
}

/// The memory image of a freshly built machine: the glyph table at
/// `FONT_START`, the ROM at `PROGRAM_START`, zero elsewhere.
pub open spec fn initial_memory(rom: Seq<u8>) -> Seq<u8> {
    Seq::new(
        MEMORY_SIZE as nat,
        |a: int|
            if FONT_START <= a < FONT_START + FONT_SIZE {
                font_spec()[a - FONT_START]
            } else if PROGRAM_START <= a < PROGRAM_START + rom.len() {
                rom[a - PROGRAM_START]
            } else {
                0u8
            },
    )
}

/// The whole machine as mathematical values.
#[verifier::ext_equal]
pub struct MachineState {
    /// The sixteen general registers.
    pub v: Seq<u8>,
    /// The index register.
    pub i: u16,
    /// The program counter.
    pub pc: usize,
    /// All of memory.
    pub ram: Seq<u8>,
    /// The delay timer.
    pub delay: u8,
    /// The sound timer.
    pub sound: u8,
    /// The framebuffer, row by row; `true` is a lit pixel.
    pub screen: Seq<Seq<bool>>,
    /// Return addresses, the most recent last.
    pub stack: Seq<usize>,
    /// The host keys held down, as last reported.
    pub held: Seq<Key>,
    /// Whether storing or loading registers moves the index register past
    /// the bytes it touched (the default) or leaves it where it was.
    pub advance_index: bool,
}

impl MachineState {
    /// The shape every machine keeps: sixteen registers, `MEMORY_SIZE` bytes,
    /// a `SCREEN_HEIGHT` by `SCREEN_WIDTH` framebuffer, a program counter
    /// and return addresses within memory (or just past it), and a stack of
    /// at most `STACK_LIMIT` entries.
    pub open spec fn wf(self) -> bool {
        &&& self.v.len() == 16
        &&& self.ram.len() == MEMORY_SIZE
        &&& self.screen.len() == SCREEN_HEIGHT
        &&& forall|r: int| 0 <= r < SCREEN_HEIGHT ==> (#[trigger] self.screen[r]).len() == SCREEN_WIDTH
        &&& self.pc <= MEMORY_SIZE
        &&& self.stack.len() <= STACK_LIMIT
        &&& forall|k: int| 0 <= k < self.stack.len() ==> #[trigger] self.stack[k] <= MEMORY_SIZE
    }
}

/// The state in which a machine is built from a ROM image.
pub open spec fn initial_state(rom: Seq<u8>) -> MachineState {
    MachineState {
        v: Seq::new(16, |k: int| 0u8),
        i: 0,
        pc: PROGRAM_START,
        ram: initial_memory(rom),
        delay: 0,
        sound: 0,
        screen: blank_screen(),
        stack: Seq::empty(),
        held: Seq::empty(),
        advance_index: true,
    }
}

/// A CHIP-8 machine. It changes only through its own methods: one
/// instruction at a time (`start_cycle`), one timer tick at a time (`tick`),
/// and the keys that the host reports (`set_held_keys`).
pub struct Chip8 {
    v: [u8; 16],
    i: u16,
    pc: usize,
    ram: [u8; 4096],
    delay: u8,
    sound_timer: u8,
    screen: [[bool; 64]; 32],
    stack: Vec<usize>,
    held: Vec<Key>,
    advance_index: bool,
}

impl View for Chip8 {
    type V = MachineState;

    closed spec fn view(&self) -> MachineState {
        MachineState {
            v: self.v@,
            i: self.i,
            pc: self.pc,
            ram: self.ram@,
            delay: self.delay,
            sound: self.sound_timer,
            screen: screen_view(&self.screen),
            stack: self.stack@,
            held: self.held@,
            advance_index: self.advance_index,
        }
    }
}

impl Chip8 {
    /// The invariant of every machine.
    pub open spec fn wf(&self) -> bool {
        self@.wf()
    }

    /// Builds a machine from a ROM image: the glyph table at `FONT_START`,
    /// the ROM at `PROGRAM_START`, registers, timers and stack zeroed, the
    /// screen cleared, and the program counter at `PROGRAM_START`.
    pub fn new(rom: &[u8]) -> (m: Chip8)
        requires
            rom@.len() <= MEMORY_SIZE - PROGRAM_START,
        ensures
            m.wf(),
            m@ == initial_state(rom@),
    {
        let mut ram: [u8; 4096] = [0u8; 4096];
        let glyphs = font();
        let mut k: usize = 0;
        while k < rom.len()
            invariant
                rom@.len() <= MEMORY_SIZE - PROGRAM_START,
                ram@.len() == MEMORY_SIZE,
                k <= rom@.len(),
                forall|a: int| 0 <= a < MEMORY_SIZE ==> #[trigger] ram@[a] == (
                    if PROGRAM_START <= a < PROGRAM_START + k { rom@[a - PROGRAM_START] } else { 0u8 }),
            decreases rom@.len() - k,
        {
            ram[PROGRAM_START + k] = rom[k];
            k = k + 1;
        }
        let mut g: usize = 0;
        while g < FONT_SIZE
            invariant
                rom@.len() <= MEMORY_SIZE - PROGRAM_START,
                ram@.len() == MEMORY_SIZE,
                glyphs@ == font_spec(),
                g <= FONT_SIZE,
                forall|a: int| 0 <= a < MEMORY_SIZE ==> #[trigger] ram@[a] == (
                    if FONT_START <= a < FONT_START + g {
                        font_spec()[a - FONT_START]
                    } else if PROGRAM_START <= a < PROGRAM_START + rom@.len() {
                        rom@[a - PROGRAM_START]
                    } else {
                        0u8
                    }),
            decreases FONT_SIZE - g,
        {
            ram[FONT_START + g] = glyphs[g];
            g = g + 1;
        }
        let m = Chip8 {
            v: [0u8; 16],
            i: 0,
            pc: PROGRAM_START,
            ram,
            delay: 0,
            sound_timer: 0,
            screen: [[false; 64]; 32],
            stack: Vec::new(),
            held: Vec::new(),
            advance_index: true,
        };
        assert(m@.ram =~= initial_memory(rom@));
        assert(m@.v =~= Seq::new(16, |k: int| 0u8));
        assert forall|r: int| 0 <= r < SCREEN_HEIGHT implies #[trigger] m@.screen[r] =~= blank_screen()[r] by {}
        assert(m@.screen =~= blank_screen());
        m
    }
}

/// The shift and mask forms of halving, doubling and bit extraction agree
/// with their arithmetic forms on a byte.
proof fn lemma_byte_shifts(b: u8)
    ensures
        b >> 1u8 == b / 2,
        b & 1u8 == b % 2,
        b << 1u8 == (b * 2) % 256,
        b >> 7u8 == b / 128,
{
    assert(b >> 1u8 == b / 2) by (bit_vector);
    assert(b & 1u8 == b % 2) by (bit_vector);
    assert(b << 1u8 == (b * 2) % 256) by (bit_vector);
    assert(b >> 7u8 == b / 128) by (bit_vector);
}

impl Chip8 {
    /// Whether `key` is among the keys reported as held.
    fn holds(&self, key: Key) -> (r: bool)
        ensures
            r == self@.held.contains(key),
    {
        let mut k: usize = 0;
        while k < self.held.len()
            invariant
                k <= self.held@.len(),
                forall|j: int| 0 <= j < k ==> self.held@[j] != key,
            decreases self.held@.len() - k,
        {
            if self.held[k] == key {
                assert(self.held@[k as int] == key);
                return true;
            }
            k = k + 1;
        }
        false
    }

    /// Skips the next instruction when `cond` holds.
    fn skip_when(&mut self, cond: bool) -> (r: Result<(), ExecError>)
        requires
            old(self).wf(),
        ensures
            final(self).wf(),
            match skip_when(old(self)@, cond) {
                Ok(next) => r is Ok && final(self)@ == next,
                Err(e) => r == Err::<(), ExecError>(e) && final(self)@ == old(self)@,
            },
    {
        if !cond {
            Ok(())
        } else if self.pc + 2 > MEMORY_SIZE {
            Err(ExecError::AddressOutOfRange)
        } else {
            self.pc = self.pc + 2;
            Ok(())
        }
    }

    /// Control flow: clearing the screen, jumps, calls, returns, skips and
    /// waiting for a key.
    fn exec_flow(&mut self, ins: Instruction) -> (r: Result<(), ExecError>)
        requires
            old(self).wf(),
            ins.valid(),
            ins is Clear || ins is Return || ins is Jump || ins is SubRoutine || ins is JumpByRegister
                || ins is SkipOnXeqV || ins is SkipOnXneqV || ins is SkipOnXeqY || ins is SkipOnXneqY
                || ins is SkipIfPressed || ins is SkipNotPressed || ins is WaitUserInput,
        ensures
            final(self).wf(),
            exec_post(old(self)@, ins, 0, r, final(self)@),
    {
        let ghost s = self@;
        match ins {
            Instruction::Clear => {
                clear_screen(&mut self.screen);
                assert(self@ =~= exec_spec(s, ins, 0)->Ok_0);
                Ok(())
            },
            Instruction::Return => {
                match self.stack.pop() {
                    Some(addr) => {
                        self.pc = addr;
                        assert(self@ =~= exec_spec(s, ins, 0)->Ok_0);
                        Ok(())
                    },
                    None => Err(ExecError::StackUnderflow),
                }
            },
            Instruction::Jump(a) => {
                self.pc = a as usize;
                Ok(())
            },
            Instruction::SubRoutine(a) => {
                if self.stack.len() >= STACK_LIMIT {
                    Err(ExecError::StackOverflow)
                } else {
                    self.stack.push(self.pc);
                    self.pc = a as usize;
                    assert(self@ =~= exec_spec(s, ins, 0)->Ok_0);
                    Ok(())
                }
            },
            Instruction::JumpByRegister(a) => {
                let target = a as usize + self.v[0] as usize;
                if target > MEMORY_SIZE {
                    Err(ExecError::AddressOutOfRange)
                } else {
                    self.pc = target;
                    Ok(())
                }
            },
            Instruction::SkipOnXeqV(x, nn) => {
                let cond = self.v[x as usize] == nn;
                self.skip_when(cond)
            },
            Instruction::SkipOnXneqV(x, nn) => {
                let cond = self.v[x as usize] != nn;
                self.skip_when(cond)
            },
            Instruction::SkipOnXeqY(x, y) => {
                let cond = self.v[x as usize] == self.v[y as usize];
                self.skip_when(cond)
            },
            Instruction::SkipOnXneqY(x, y) => {
                let cond = self.v[x as usize] != self.v[y as usize];
                self.skip_when(cond)
            },
            Instruction::SkipIfPressed(x) => {
                let value = self.v[x as usize];
                let key = keypad_to_keyboard(value);
                let cond = key != Key::Unknown && self.holds(key);
                assert(cond == key_held(s, value));
                self.skip_when(cond)
            },
            Instruction::SkipNotPressed(x) => {
                let value = self.v[x as usize];
                let key = keypad_to_keyboard(value);
                let cond = !(key != Key::Unknown && self.holds(key));
                assert(cond == !key_held(s, value));
                self.skip_when(cond)
            },
            Instruction::WaitUserInput(x) => {
                if self.held.len() == 1 {
                    if let Some(value) = keyboard_to_keypad(self.held[0]) {
                        self.v[x as usize] = value;
                        assert(self@ =~= exec_spec(s, ins, 0)->Ok_0);
                        return Ok(());
                    }
                }
                if self.pc < 2 {
                    Err(ExecError::AddressOutOfRange)
                } else {
                    self.pc = self.pc - 2;
                    Ok(())
                }
            },
            _ => Ok(()),
        }
    }

    /// Register arithmetic and logic: loads, adds, subtractions, bitwise
    /// operations, shifts and the random load.
    fn exec_registers(&mut self, ins: Instruction, random: u8) -> (r: Result<(), ExecError>)
        requires
            old(self).wf(),
            ins.valid(),
            ins is LoadNormalRegister || ins is AddToNormalRegister || ins is SetXtoY || ins is SetXtoXorY
                || ins is SetXtoXandY || ins is SetXtoXxorY || ins is AddYtoX || ins is SubYfromX
                || ins is SetXtoYshiftRightOnce || ins is SetXtoYMinusX || ins is SetXtoYshiftLeftOnce
                || ins is LoadRegisterWithRandom,
        ensures
            final(self).wf(),
            exec_post(old(self)@, ins, random, r, final(self)@),
    {
        let ghost s = self@;
        match ins {
            Instruction::LoadNormalRegister(x, nn) => {
                self.v[x as usize] = nn;
            },
            Instruction::AddToNormalRegister(x, nn) => {
                let sum: u16 = self.v[x as usize] as u16 + nn as u16;
                self.v[x as usize] = (sum % 256) as u8;
            },
            Instruction::SetXtoY(x, y) => {
                self.v[x as usize] = self.v[y as usize];
            },
            Instruction::SetXtoXorY(x, y) => {
                self.v[x as usize] = self.v[x as usize] | self.v[y as usize];
            },
            Instruction::SetXtoXandY(x, y) => {
                self.v[x as usize] = self.v[x as usize] & self.v[y as usize];
            },
            Instruction::SetXtoXxorY(x, y) => {
                self.v[x as usize] = self.v[x as usize] ^ self.v[y as usize];
            },
            Instruction::AddYtoX(x, y) => {
                let sum: u16 = self.v[x as usize] as u16 + self.v[y as usize] as u16;
                self.v[x as usize] = (sum % 256) as u8;
                self.v[FLAG_REGISTER] = if sum > 0xFF { 1 } else { 0 };
            },
            Instruction::SubYfromX(x, y) => {
                let a = self.v[x as usize];
                let b = self.v[y as usize];
                let diff: u8 = if a >= b { a - b } else { (a as u16 + 256 - b as u16) as u8 };
                self.v[x as usize] = diff;
                self.v[FLAG_REGISTER] = if a < b { 0 } else { 1 };
            },
            Instruction::SetXtoYMinusX(x, y) => {
                let a = self.v[x as usize];
                let b = self.v[y as usize];
                let diff: u8 = if b >= a { b - a } else { (b as u16 + 256 - a as u16) as u8 };
                self.v[x as usize] = diff;
                self.v[FLAG_REGISTER] = if b < a { 0 } else { 1 };
            },
            Instruction::SetXtoYshiftRightOnce(x, y) => {
                let src = self.v[y as usize];
                proof {
                    lemma_byte_shifts(src);
                }
                self.v[x as usize] = src >> 1;
                self.v[FLAG_REGISTER] = src & 1;
            },
            Instruction::SetXtoYshiftLeftOnce(x, y) => {
                let src = self.v[y as usize];
                proof {
                    lemma_byte_shifts(src);
                }
                self.v[x as usize] = src << 1;
                self.v[FLAG_REGISTER] = src >> 7;
            },
            Instruction::LoadRegisterWithRandom(x, nn) => {
                self.v[x as usize] = nn & random;
            },
            _ => {},
        }
        assert(self@ =~= exec_spec(s, ins, random)->Ok_0);
        Ok(())
    }

    /// The index register, memory, the timers and drawing.
    fn exec_memory(&mut self, ins: Instruction) -> (r: Result<(), ExecError>)
        requires
            old(self).wf(),
            ins.valid(),
            ins is LoadIndexRegister || ins is DrawSprite || ins is StoreDelayInRegister
                || ins is SetDelayFromRegister || ins is SetSoundTimerFromRegister || ins is AddRegisterToIndex
                || ins is LoadFont || ins is StoreRegisterInBcd || ins is StoreRegistersInMemory
                || ins is FillRegisters,
        ensures
            final(self).wf(),
            exec_post(old(self)@, ins, 0, r, final(self)@),
    {
        let ghost s = self@;
        match ins {
            Instruction::LoadIndexRegister(a) => {
                self.i = a;
            },
            Instruction::DrawSprite(x, y, n) => {
                if self.i as usize + n as usize > MEMORY_SIZE {
                    return Err(ExecError::AddressOutOfRange);
                }
                let x0 = (self.v[x as usize] % 64) as usize;
                let y0 = (self.v[y as usize] % 32) as usize;
                let collided = draw_sprite(&mut self.screen, &self.ram, self.i as usize, n as usize, x0, y0);
                self.v[FLAG_REGISTER] = if collided { 1 } else { 0 };
            },
            Instruction::StoreDelayInRegister(x) => {
                self.v[x as usize] = self.delay;
            },
            Instruction::SetDelayFromRegister(x) => {
                self.delay = self.v[x as usize];
            },
            Instruction::SetSoundTimerFromRegister(x) => {
                self.sound_timer = self.v[x as usize];
            },
            Instruction::AddRegisterToIndex(x) => {
                let sum: u32 = self.i as u32 + self.v[x as usize] as u32;
                self.i = (sum % 65536) as u16;
            },
            Instruction::LoadFont(x) => {
                self.i = FONT_START as u16 + 5 * x as u16;
            },
            Instruction::StoreRegisterInBcd(x) => {
                let base = self.i as usize;
                if base + 3 > MEMORY_SIZE {
                    return Err(ExecError::AddressOutOfRange);
                }
                let value = self.v[x as usize];
                self.ram[base] = value / 100;
                self.ram[base + 1] = (value / 10) % 10;
                self.ram[base + 2] = value % 10;
            },
            Instruction::StoreRegistersInMemory(x) => {
                let base = self.i as usize;
                let last = x as usize;
                if base + last + 1 > MEMORY_SIZE {
                    return Err(ExecError::AddressOutOfRange);
                }
                let mut k: usize = 0;
                while k <= last
                    invariant
                        s.wf(),
                        self.wf(),
                        last < 16,
                        base == s.i,
                        base + last + 1 <= MEMORY_SIZE,
                        k <= last + 1,
                        self.v@ == s.v,
                        self@ == (MachineState { ram: self.ram@, ..s }),
                        forall|a: int| 0 <= a < MEMORY_SIZE ==> #[trigger] self.ram@[a] == (
                            if base <= a < base + k { s.v[a - base] } else { s.ram[a] }),
                    decreases last + 1 - k,
                {
                    self.ram[base + k] = self.v[k];
                    k = k + 1;
                }
                if self.advance_index {
                    self.i = (base + last + 1) as u16;
                }
            },
            Instruction::FillRegisters(x) => {
                let base = self.i as usize;
                let last = x as usize;
                if base + last + 1 > MEMORY_SIZE {
                    return Err(ExecError::AddressOutOfRange);
                }
                let mut k: usize = 0;
                while k <= last
                    invariant
                        s.wf(),
                        self.wf(),
                        last < 16,
                        base == s.i,
                        base + last + 1 <= MEMORY_SIZE,
                        k <= last + 1,
                        self.ram@ == s.ram,
                        self@ == (MachineState { v: self.v@, ..s }),
                        forall|j: int| 0 <= j < 16 ==> #[trigger] self.v@[j] == (
                            if j < k { s.ram[base + j] } else { s.v[j] }),
                    decreases last + 1 - k,
                {
                    self.v[k] = self.ram[base + k];
                    k = k + 1;
                }
                if self.advance_index {
                    self.i = (base + last + 1) as u16;
                }
            },
            _ => {},
        }
        assert(self@ =~= exec_spec(s, ins, 0)->Ok_0);
        Ok(())
    }
}

/// Relies on macroquad::rand::rand: a value from macroquad's global
/// pseudo-random generator. Nothing is promised of it.
#[verifier::external_body]
fn random_u32() -> u32 {
    macroquad::rand::rand()
}

impl Chip8 {
    /// Executes one decoded instruction; the program counter is taken to
    /// have moved past it already. `random` is the byte that
    /// `LoadRegisterWithRandom` masks. On an error nothing changes.
    pub fn exec(&mut self, ins: Instruction, random: u8) -> (r: Result<(), ExecError>)
        requires
            old(self).wf(),
            ins.valid(),
        ensures
            final(self).wf(),
            exec_post(old(self)@, ins, random, r, final(self)@),
    {
        match ins {
            Instruction::Clear | Instruction::Return | Instruction::Jump(_) | Instruction::SubRoutine(_)
            | Instruction::JumpByRegister(_) | Instruction::SkipOnXeqV(_, _) | Instruction::SkipOnXneqV(_, _)
            | Instruction::SkipOnXeqY(_, _) | Instruction::SkipOnXneqY(_, _) | Instruction::SkipIfPressed(_)
            | Instruction::SkipNotPressed(_) | Instruction::WaitUserInput(_) => self.exec_flow(ins),
            Instruction::LoadNormalRegister(_, _) | Instruction::AddToNormalRegister(_, _)
            | Instruction::SetXtoY(_, _) | Instruction::SetXtoXorY(_, _) | Instruction::SetXtoXandY(_, _)
            | Instruction::SetXtoXxorY(_, _) | Instruction::AddYtoX(_, _) | Instruction::SubYfromX(_, _)
            | Instruction::SetXtoYshiftRightOnce(_, _) | Instruction::SetXtoYMinusX(_, _)
            | Instruction::SetXtoYshiftLeftOnce(_, _) | Instruction::LoadRegisterWithRandom(_, _) => {
                self.exec_registers(ins, random)
            },
            _ => self.exec_memory(ins),
        }
    }

    /// Decodes and executes `opcode`, with `random` as the byte that
    /// `LoadRegisterWithRandom` masks. An opcode outside the instruction set
    /// changes nothing and comes back as `UnknownOpcode`.
    pub fn run_opcode_with_random(&mut self, opcode: u16, random: u8) -> (r: Result<(), ExecError>)
        requires
            old(self).wf(),
        ensures
            final(self).wf(),
            run_post(old(self)@, opcode, random, r, final(self)@),
    {
        match decode(opcode) {
            None => Err(ExecError::UnknownOpcode(opcode)),
            Some(ins) => self.exec(ins, random),
        }
    }

    /// Decodes and executes `opcode`, drawing a random byte from macroquad's
    /// generator for `LoadRegisterWithRandom` only. Whatever byte came, the
    /// outcome is the one `run_opcode_with_random` gives for it.
    pub fn run_opcode(&mut self, opcode: u16) -> (r: Result<(), ExecError>)
        requires
            old(self).wf(),
        ensures
            final(self).wf(),
            exists|rnd: u8| run_post(old(self)@, opcode, rnd, r, final(self)@),
            !needs_random(opcode) ==> run_post(old(self)@, opcode, 0, r, final(self)@),
    {
        let random: u8 = if opcode & 0xF000 == 0xC000 {
            (random_u32() % 256) as u8
        } else {
            0
        };
        proof {
            assert(opcode & 0xF000 == 0xC000 <==> opcode / 4096 == 0xC) by (bit_vector);
        }
        self.run_opcode_with_random(opcode, random)
    }

    /// One fetch-decode-execute step: reads the big-endian opcode at the
    /// program counter, moves the counter past it, and runs it as
    /// `run_opcode` does. A counter with no whole opcode in memory before
    /// its end is `AddressOutOfRange`, and nothing changes.
    pub fn start_cycle(&mut self) -> (r: Result<(), ExecError>)
        requires
            old(self).wf(),
        ensures
            final(self).wf(),
            old(self)@.pc + 1 >= MEMORY_SIZE ==> r == Err::<(), ExecError>(ExecError::AddressOutOfRange)
                && final(self)@ == old(self)@,
            old(self)@.pc + 1 < MEMORY_SIZE ==> exists|rnd: u8|
                run_post(advance(old(self)@), fetch_spec(old(self)@), rnd, r, final(self)@),
            old(self)@.pc + 1 < MEMORY_SIZE && !needs_random(fetch_spec(old(self)@)) ==> run_post(
                advance(old(self)@),
                fetch_spec(old(self)@),
                0,
                r,
                final(self)@,
            ),
    {
        if self.pc + 1 >= MEMORY_SIZE {
            return Err(ExecError::AddressOutOfRange);
        }
        let opcode: u16 = (self.ram[self.pc] as u16) * 256 + self.ram[self.pc + 1] as u16;
        let ghost before = self@;
        self.pc = self.pc + 2;
        assert(opcode == fetch_spec(before));
        assert(self@ =~= advance(before));
        self.run_opcode(opcode)
    }

    /// One tick of the 60 Hz timers: each counts down by one unless at zero.
    /// The sound timer counts down from 1 to 0 like the delay timer; some
    /// interpreters stop it at 1 and call 1 silent, which this one does not.
    pub fn tick(&mut self)
        requires
            old(self).wf(),
        ensures
            final(self).wf(),
            final(self)@ == (MachineState {
                delay: count_down(old(self)@.delay),
                sound: count_down(old(self)@.sound),
                ..old(self)@
            }),
    {
        if self.delay > 0 {
            self.delay = self.delay - 1;
        }
        if self.sound_timer > 0 {
            self.sound_timer = self.sound_timer - 1;
        }
    }

    /// Whether the host should sound its tone: the sound timer is above zero.
    pub fn sound_active(&self) -> (r: bool)
        ensures
            r == (self@.sound > 0),
    {
        self.sound_timer > 0
    }

    /// Records the host keys now held down, for the key instructions to read.
    pub fn set_held_keys(&mut self, keys: Vec<Key>)
        requires
            old(self).wf(),
        ensures
            final(self).wf(),
            final(self)@ == (MachineState { held: keys@, ..old(self)@ }),
    {
        self.held = keys;
    }

    /// Chooses whether storing or loading registers (`FX55`, `FX65`) moves
    /// the index register past the bytes it touched, as it does by default,
    /// or leaves it where it was, as later interpreters do.
    pub fn set_index_advance(&mut self, advance: bool)
        requires
            old(self).wf(),
        ensures
            final(self).wf(),
            final(self)@ == (MachineState { advance_index: advance, ..old(self)@ }),
    {
        self.advance_index = advance;
    }

    /// Register `x`.
    pub fn register(&self, x: u8) -> (r: u8)
        requires
            x < 16,
        ensures
            r == self@.v[x as int],
    {
        self.v[x as usize]
    }

    /// Sets register `x` to `value`.
    pub fn set_register(&mut self, x: u8, value: u8)
        requires
            old(self).wf(),
            x < 16,
        ensures
            final(self).wf(),
            final(self)@ == with_register(old(self)@, x, value),
    {
        self.v[x as usize] = value;
        proof {
            assert(self@ =~= with_register(old(self)@, x, value));
        }
    }

    /// The index register.
    pub fn index(&self) -> (r: u16)
        ensures
            r == self@.i,
    {
        self.i
    }

    /// The program counter.
    pub fn pc(&self) -> (r: usize)
        ensures
            r == self@.pc,
    {
        self.pc
    }

    /// The byte at `addr`.
    pub fn memory(&self, addr: usize) -> (r: u8)
        requires
            addr < MEMORY_SIZE,
        ensures
            r == self@.ram[addr as int],
    {
        self.ram[addr]
    }

    /// Stores `value` at `addr`.
    pub fn set_memory(&mut self, addr: usize, value: u8)
        requires
            old(self).wf(),
            addr < MEMORY_SIZE,
        ensures
            final(self).wf(),
            final(self)@ == (MachineState { ram: old(self)@.ram.update(addr as int, value), ..old(self)@ }),
    {
        self.ram[addr] = value;
        proof {
            assert(self@.ram =~= old(self)@.ram.update(addr as int, value));
        }
    }

    /// The delay timer.
    pub fn delay_timer(&self) -> (r: u8)
        ensures
            r == self@.delay,
    {
        self.delay
    }

    /// The sound timer.
    pub fn sound_timer(&self) -> (r: u8)
        ensures
            r == self@.sound,
    {
        self.sound_timer
    }

    /// The number of return addresses on the call stack.
    pub fn stack_depth(&self) -> (r: usize)
        ensures
            r == self@.stack.len(),
    {
        self.stack.len()
    }

    /// Whether the pixel in column `x` of row `y` is lit.
    pub fn pixel(&self, x: usize, y: usize) -> (r: bool)
        requires
            x < SCREEN_WIDTH,
            y < SCREEN_HEIGHT,
        ensures
            r == self@.screen[y as int][x as int],
    {
        self.screen[y][x]
    }
}

} // verus!
