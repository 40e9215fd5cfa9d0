use vstd::prelude::*;
use crate::cpu::{key_down, sprite_rows, stored_bcd, stored_registers, CpuState, CPU, FLAG, REGISTERS};
use crate::error::Chip8Error;
use crate::instruction::{decode_spec, Instruction};
use crate::memory::{loaded, wrap_addr, Memory, MAX_ROM_SIZE, MEMORY_SIZE, PROGRAM_START};
use crate::screen::{collides, drawn, Screen, PIXELS};

verus! {

/// The abstract state of the whole machine.
pub struct EmulatorState {
    pub cpu: CpuState,
    pub memory: Seq<u8>,
    pub screen: Seq<bool>,
}

/// The display as bytes, one per pixel: 1 for on, 0 for off.
pub open spec fn pixel_bytes(pixels: Seq<bool>) -> Seq<u8> {
    Seq::new(
        pixels.len(),
        |k: int|
            if pixels[k] {
                1u8
            } else {
                0u8
            },
    )
}

/// The big-endian instruction word at the program counter.
pub open spec fn fetched(s: EmulatorState) -> u16 {
    (s.memory[wrap_addr(s.cpu.pc as int)] * 256 + s.memory[wrap_addr(s.cpu.pc + 1)]) as u16
}

impl EmulatorState {
    /// The state with a new CPU state and everything else kept.
    pub open spec fn with_cpu(self, cpu: CpuState) -> EmulatorState {
        EmulatorState { cpu, ..self }
    }

    /// The outcome of executing `ins` with the keypad state `keys` and, for
    /// the random instruction, the byte `random`.
    pub open spec fn executed(self, ins: Instruction, keys: Seq<bool>, random: u8) -> Result<
        EmulatorState,
        Chip8Error,
    > {
        let c = self.cpu;
        match ins {
            Instruction::ClearScreen => Ok(
                EmulatorState {
                    cpu: c.advanced(),
                    screen: Seq::new(PIXELS as nat, |k: int| false),
                    ..self
                },
            ),
            Instruction::Return => match c.returned() {
                Ok(n) => Ok(self.with_cpu(n)),
                Err(e) => Err(e),
            },
            Instruction::Call { addr } => match c.called(addr) {
                Ok(n) => Ok(self.with_cpu(n)),
                Err(e) => Err(e),
            },
            Instruction::Draw { x, y, n } => {
                let rows = sprite_rows(self.memory, c.i, n as int);
                let (vx, vy) = (c.v[x as int] as int, c.v[y as int] as int);
                Ok(
                    EmulatorState {
                        cpu: c.with_reg(
                            FLAG as int,
                            if collides(self.screen, rows, vx, vy) {
                                1
                            } else {
                                0
                            },
                        ).advanced(),
                        screen: drawn(self.screen, rows, vx, vy),
                        ..self
                    },
                )
            },
            Instruction::StoreBcd { x } => Ok(
                EmulatorState {
                    cpu: c.advanced(),
                    memory: stored_bcd(self.memory, c.i, c.v[x as int]),
                    ..self
                },
            ),
            Instruction::StoreRegisters { x } => Ok(
                EmulatorState {
                    cpu: c.advanced(),
                    memory: stored_registers(self.memory, c.i, c.v, x as int),
                    ..self
                },
            ),
            _ => Ok(self.with_cpu(cpu_executed(c, ins, keys, random, self.memory))),
        }
    }

    /// The outcome of one fetch-decode-execute cycle.
    pub open spec fn stepped(self, keys: Seq<bool>, random: u8) -> Result<EmulatorState, Chip8Error> {
        match decode_spec(fetched(self)) {
            Some(ins) => self.executed(ins, keys, random),
            None => Err(Chip8Error::InvalidOpcode { opcode: fetched(self), pc: self.cpu.pc }),
        }
    }
}

/// The CPU state after an instruction that touches neither the display nor
/// memory, nor the call stack.
pub open spec fn cpu_executed(
    c: CpuState,
    ins: Instruction,
    keys: Seq<bool>,
    random: u8,
    memory: Seq<u8>,
) -> CpuState {
    match ins {
        Instruction::Jump { addr } => CpuState { pc: addr, ..c },
        Instruction::SkipEqualByte { x, kk } => c.skip_next_if(c.v[x as int] == kk),
        Instruction::SkipNotEqualByte { x, kk } => c.skip_next_if(c.v[x as int] != kk),
        Instruction::SkipEqualReg { x, y } => c.skip_next_if(c.v[x as int] == c.v[y as int]),
        Instruction::LoadByte { x, kk } => c.with_reg(x as int, kk).advanced(),
        Instruction::AddByte { x, kk } => c.with_reg(
            x as int,
            ((c.v[x as int] + kk) % 256) as u8,
        ).advanced(),
        Instruction::LoadReg { x, y } => c.with_reg(x as int, c.v[y as int]).advanced(),
        Instruction::Or { x, y } => c.with_reg(x as int, c.v[x as int] | c.v[y as int]).advanced(),
        Instruction::And { x, y } => c.with_reg(x as int, c.v[x as int] & c.v[y as int]).advanced(),
        Instruction::Xor { x, y } => c.with_reg(x as int, c.v[x as int] ^ c.v[y as int]).advanced(),
        Instruction::AddWithCarry { x, y } => c.add_with_carry(x as int, y as int),
        Instruction::SubWithBorrow { x, y } => c.sub_with_borrow(x as int, y as int),
        Instruction::ShiftRight { x } => c.shifted_right(x as int),
        Instruction::ReverseSub { x, y } => c.reverse_sub(x as int, y as int),
        Instruction::ShiftLeft { x } => c.shifted_left(x as int),
        Instruction::SkipNotEqualReg { x, y } => c.skip_next_if(c.v[x as int] != c.v[y as int]),
        Instruction::LoadIndex { addr } => CpuState { i: addr, ..c }.advanced(),
        Instruction::JumpV0 { addr } => CpuState { pc: ((c.v[0] + addr) % 0x10000) as u16, ..c },
        Instruction::Random { x, kk } => c.with_reg(x as int, random & kk).advanced(),
        Instruction::SkipKeyPressed { x } => c.skip_next_if(key_down(keys, c.v[x as int])),
        Instruction::SkipKeyNotPressed { x } => c.skip_next_if(!key_down(keys, c.v[x as int])),
        Instruction::LoadDelay { x } => c.with_reg(x as int, c.delay).advanced(),
        Instruction::WaitKey { x } => c.key_waited(x as int, keys),
        Instruction::SetDelay { x } => CpuState { delay: c.v[x as int], ..c }.advanced(),
        Instruction::SetSound { x } => CpuState { sound: c.v[x as int], ..c }.advanced(),
        Instruction::AddIndex { x } => CpuState {
            i: ((c.i + c.v[x as int]) % 0x10000) as u16,
            ..c
        }.advanced(),
        Instruction::LoadFont { x } => CpuState { i: (c.v[x as int] * 5) as u16, ..c }.advanced(),
        Instruction::LoadRegisters { x } => c.registers_loaded(x as int, memory),
        _ => c,
    }
}

/// A word of family 0 other than clear-screen and return encodes no
/// instruction: a cycle that fetches one stops with that word and the
/// program counter, and changes nothing.
pub proof fn lemma_invalid_system_word(s: EmulatorState, keys: Seq<bool>, random: u8)
    requires
        fetched(s) < 0x1000,
        fetched(s) != 0x00E0,
        fetched(s) != 0x00EE,
    ensures
        s.stepped(keys, random) == Err::<EmulatorState, Chip8Error>(
            Chip8Error::InvalidOpcode { opcode: fetched(s), pc: s.cpu.pc },
        ),
{
}

/// Relies on `rand::random::<u8>`: a byte from the thread-local generator.
/// Nothing is known of its value.
#[verifier::external_body]
fn random_byte() -> (r: u8) {
    rand::random::<u8>()
}

/// A CHIP-8 machine: CPU, memory and display.
#[derive(Debug)]
pub struct Emulator {
    pub cpu: CPU,
    pub memory: Memory,
    pub screen: Screen,
}

impl View for Emulator {
    type V = EmulatorState;

    open spec fn view(&self) -> EmulatorState {
        EmulatorState { cpu: self.cpu@, memory: self.memory.data@, screen: self.screen.buffer@ }
    }
}

impl Emulator {
    /// Zeroed memory and registers, a blank display, and the program counter
    /// at the program start.
    pub fn new() -> (e: Self)
        ensures
            forall|a: int| 0 <= a < MEMORY_SIZE ==> #[trigger] e.memory.data@[a] == 0,
            forall|k: int| 0 <= k < PIXELS ==> !#[trigger] e.screen.buffer@[k],
            forall|k: int| 0 <= k < REGISTERS ==> #[trigger] e.cpu.v@[k] == 0,
            e.cpu.i == 0,
            e.cpu.delay == 0,
            e.cpu.sound == 0,
            e.cpu.pc == PROGRAM_START,
            e.cpu.sp == 0,
    {
        let memory = Memory::new();
        let cpu = CPU::new();
        let screen = Screen::new();
        Emulator { cpu, memory, screen }
    }

    /// A copy of memory.
    pub fn memory(&self) -> (r: Vec<u8>)
        ensures
            r@ == self.memory.data@,
    {
        let mut r: Vec<u8> = Vec::new();
        let mut a: usize = 0;
        while a < MEMORY_SIZE
            invariant
                a <= MEMORY_SIZE,
                self.memory.data@.len() == MEMORY_SIZE,
                r@ =~= self.memory.data@.take(a as int),
            decreases MEMORY_SIZE - a,
        {
            r.push(self.memory.data[a]);
            a = a + 1;
        }
        assert(r@ =~= self.memory.data@);
        r
    }

    /// The display, one byte per pixel, row by row: 1 for on, 0 for off.
    pub fn display(&self) -> (r: Vec<u8>)
        ensures
            r@ == pixel_bytes(self.screen.buffer@),
    {
        let mut r: Vec<u8> = Vec::new();
        let mut k: usize = 0;
        while k < PIXELS
            invariant
                k <= PIXELS,
                self.screen.buffer@.len() == PIXELS,
                r@ =~= pixel_bytes(self.screen.buffer@).take(k as int),
            decreases PIXELS - k,
        {
            r.push(
                if self.screen.buffer[k] {
                    1u8
                } else {
                    0u8
                },
            );
            k = k + 1;
        }
        assert(r@ =~= pixel_bytes(self.screen.buffer@));
        r
    }

    /// Copies a ROM image to the program start and returns the memory that
    /// results. A ROM too large for memory is refused before anything changes.
    pub fn load_rom_data(&mut self, data: Vec<u8>) -> (r: Result<Vec<u8>, Chip8Error>)
        ensures
            data@.len() <= MAX_ROM_SIZE ==> r is Ok && final(self).memory.data@ == loaded(
                old(self).memory.data@,
                data@,
            ),
            r matches Ok(m) ==> m@ == final(self).memory.data@,
            data@.len() > MAX_ROM_SIZE ==> r == Err::<Vec<u8>, Chip8Error>(
                Chip8Error::RomTooLarge { size: data.len() },
            ) && final(self)@ == old(self)@,
            final(self).cpu@ == old(self).cpu@,
            final(self).screen.buffer@ == old(self).screen.buffer@,
    {
        match self.memory.load(data.as_slice()) {
            Ok(()) => Ok(self.memory()),
            Err(e) => Err(e),
        }
    }

    /// Counts both timers down by one; called at 60 Hz.
    pub fn frame(&mut self)
        ensures
            final(self)@ == old(self)@.with_cpu(old(self)@.cpu.timers_ticked()),
    {
        self.cpu.update();
    }

    /// Executes one decoded instruction. `keys` is the keypad state and
    /// `random` the byte that the random instruction masks.
    pub fn execute(&mut self, ins: Instruction, keys: &[bool; 16], random: u8) -> (r: Result<
        (),
        Chip8Error,
    >)
        requires
            ins.wf(),
        ensures
            (match old(self)@.executed(ins, keys@, random) {
                Ok(s) => r is Ok && final(self)@ == s,
                Err(e) => r == Err::<(), Chip8Error>(e) && final(self)@ == old(self)@,
            }),
    {
        match ins {
            Instruction::ClearScreen => {
                self.cpu.clear_screen(&mut self.screen);
                assert(self.screen.buffer@ =~= Seq::new(PIXELS as nat, |k: int| false));
            },
            Instruction::Return => {
                return self.cpu.return_from_subroutine();
            },
            Instruction::Jump { addr } => self.cpu.jump(addr),
            Instruction::Call { addr } => {
                return self.cpu.call(addr);
            },
            Instruction::SkipEqualByte { x, kk } => self.cpu.skip_equal(x, kk, false),
            Instruction::SkipNotEqualByte { x, kk } => self.cpu.skip_not_equal(x, kk, false),
            Instruction::SkipEqualReg { x, y } => self.cpu.skip_equal(x, y, true),
            Instruction::LoadByte { x, kk } => self.cpu.load(x, kk, false),
            Instruction::AddByte { x, kk } => self.cpu.add(x, kk, false),
            Instruction::LoadReg { x, y } => self.cpu.load(x, y, true),
            Instruction::Or { x, y } => self.cpu.or(x, y),
            Instruction::And { x, y } => self.cpu.and(x, y),
            Instruction::Xor { x, y } => self.cpu.xor(x, y),
            Instruction::AddWithCarry { x, y } => self.cpu.add_with_carrier(x, y),
            Instruction::SubWithBorrow { x, y } => self.cpu.sub_with_carrier(x, y),
            Instruction::ShiftRight { x } => self.cpu.shift_right(x),
            Instruction::ReverseSub { x, y } => self.cpu.sub_not_borrow(x, y),
            Instruction::ShiftLeft { x } => self.cpu.shift_left(x),
            Instruction::SkipNotEqualReg { x, y } => self.cpu.skip_not_equal(x, y, true),
            Instruction::LoadIndex { addr } => self.cpu.load_i(addr),
            Instruction::JumpV0 { addr } => self.cpu.jump_v0(addr),
            Instruction::Random { x, kk } => self.cpu.set_random_byte(x, kk, random),
            Instruction::Draw { x, y, n } => self.cpu.update_sprite(
                &self.memory,
                &mut self.screen,
                x,
                y,
                n,
            ),
            Instruction::SkipKeyPressed { x } => self.cpu.skip_if_key_is_pressed(x, keys),
            Instruction::SkipKeyNotPressed { x } => self.cpu.skip_if_key_is_not_pressed(x, keys),
            Instruction::LoadDelay { x } => self.cpu.load_delay(x),
            Instruction::WaitKey { x } => self.cpu.wait_for_key_press(x, keys),
            Instruction::SetDelay { x } => self.cpu.set_delay_timer(x),
            Instruction::SetSound { x } => self.cpu.set_sound_timer(x),
            Instruction::AddIndex { x } => self.cpu.set_i(x),
            Instruction::LoadFont { x } => self.cpu.load_sprite(x),
            Instruction::StoreBcd { x } => self.cpu.store_bcd(x, &mut self.memory),
            Instruction::StoreRegisters { x } => self.cpu.store_registers(x, &mut self.memory),
            Instruction::LoadRegisters { x } => self.cpu.load_registers(x, &self.memory),
        }
        Ok(())
    }

    /// Decodes `opcode` and executes it; a word that encodes no instruction
    /// stops the machine with the word and the program counter, and changes nothing.
    fn exec_code(&mut self, opcode: u16, keys: &[bool; 16], random: u8) -> (r: Result<
        (),
        Chip8Error,
    >)
        ensures
            (match decode_spec(opcode) {
                Some(ins) => match old(self)@.executed(ins, keys@, random) {
                    Ok(s) => r is Ok && final(self)@ == s,
                    Err(e) => r == Err::<(), Chip8Error>(e) && final(self)@ == old(self)@,
                },
                None => r == Err::<(), Chip8Error>(
                    Chip8Error::InvalidOpcode { opcode, pc: old(self).cpu.pc },
                ) && final(self)@ == old(self)@,
            }),
    {
        match Instruction::decode(opcode) {
            Some(ins) => self.execute(ins, keys, random),
            None => Err(Chip8Error::InvalidOpcode { opcode, pc: self.cpu.pc }),
        }
    }

    /// One fetch-decode-execute cycle, with the keypad state `keys` and the
    /// byte `random` for the random instruction. On an error nothing changes.
    pub fn step(&mut self, keys: &[bool; 16], random: u8) -> (r: Result<(), Chip8Error>)
        ensures
            (match old(self)@.stepped(keys@, random) {
                Ok(s) => r is Ok && final(self)@ == s,
                Err(e) => r == Err::<(), Chip8Error>(e) && final(self)@ == old(self)@,
            }),
    {
        let opcode = self.cpu.get_op(&self.memory);
        self.exec_code(opcode, keys, random)
    }

    /// One fetch-decode-execute cycle with the keypad state `keys`, drawing
    /// the random instruction's byte from the thread-local generator. Returns
    /// the display afterwards, as `display` gives it.
    pub fn tick(&mut self, keys: &[bool; 16]) -> (r: Result<Vec<u8>, Chip8Error>)
        ensures
            exists|random: u8|
                #![trigger old(self)@.stepped(keys@, random)]
                match old(self)@.stepped(keys@, random) {
                    Ok(s) => r is Ok && final(self)@ == s,
                    Err(e) => r == Err::<Vec<u8>, Chip8Error>(e) && final(self)@ == old(self)@,
                },
            r matches Ok(d) ==> d@ == pixel_bytes(final(self).screen.buffer@),
    {
        let random = random_byte();
        match self.step(keys, random) {
            Ok(()) => Ok(self.display()),
            Err(e) => Err(e),
        }
    }
}

} // verus!
