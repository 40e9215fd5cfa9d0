use vstd::prelude::*;
use crate::error::Chip8Error;
use crate::memory::{wrap_addr, Memory, MEMORY_SIZE, PROGRAM_START};
use crate::screen::{collides, drawn, Screen, MAX_SPRITE_ROWS};

verus! {

/// Number of general-purpose registers `V0..VF`.
pub const REGISTERS: usize = 16;

/// Register `VF`, which carry, borrow, shifted-out bits and collisions are written to.
pub const FLAG: usize = 15;

/// Number of return addresses the call stack holds.
pub const STACK_DEPTH: usize = 16;

/// Number of keys on the keypad.
pub const KEYS: usize = 16;

/// The program counter after one two-byte instruction; it wraps at 16 bits.
pub open spec fn next_pc(pc: u16) -> u16 {
    ((pc + 2) % 0x10000) as u16
}

/// Whether key `k` is held in the keypad state `keys`.
pub open spec fn key_down(keys: Seq<bool>, k: u8) -> bool {
    k < KEYS && keys[k as int]
}

/// The lowest key from `k` on that is held, if any.
pub open spec fn lowest_key_from(keys: Seq<bool>, k: int) -> Option<u8>
    decreases KEYS - k,
{
    if k >= KEYS || k < 0 {
        None
    } else if keys[k] {
        Some(k as u8)
    } else {
        lowest_key_from(keys, k + 1)
    }
}

/// Memory after `regs[0..=x]` are stored from address `i` on.
pub open spec fn stored_registers(mem: Seq<u8>, i: u16, regs: Seq<u8>, x: int) -> Seq<u8> {
    Seq::new(
        mem.len(),
        |a: int|
            if (a - i) % (MEMORY_SIZE as int) <= x {
                regs[(a - i) % (MEMORY_SIZE as int)]
            } else {
                mem[a]
            },
    )
}

/// Memory after the decimal digits of `val` are stored at `i`, `i + 1`, `i + 2`.
pub open spec fn stored_bcd(mem: Seq<u8>, i: u16, val: u8) -> Seq<u8> {
    mem.update(wrap_addr(i as int), (val / 100) as u8).update(
        wrap_addr(i + 1),
        ((val / 10) % 10) as u8,
    ).update(wrap_addr(i + 2), (val % 10) as u8)
}

/// The `n` bytes of memory from address `i` on.
pub open spec fn sprite_rows(mem: Seq<u8>, i: u16, n: int) -> Seq<u8> {
    Seq::new(n as nat, |r: int| mem[wrap_addr(i + r)])
}

/// The abstract register file of the CPU.
pub struct CpuState {
    pub v: Seq<u8>,
    pub i: u16,
    pub delay: u8,
    pub sound: u8,
    pub pc: u16,
    pub sp: u8,
    pub stack: Seq<u16>,
}

impl CpuState {
    /// The state with the program counter past the current instruction.
    pub open spec fn advanced(self) -> CpuState {
        CpuState { pc: next_pc(self.pc), ..self }
    }

    /// The state with register `x` set to `val`.
    pub open spec fn with_reg(self, x: int, val: u8) -> CpuState {
        CpuState { v: self.v.update(x, val), ..self }
    }

    /// The second operand: register `Vy` or the immediate byte `y`.
    pub open spec fn operand(self, y: u8, use_vy: bool) -> u8 {
        if use_vy {
            self.v[y as int]
        } else {
            y
        }
    }

    /// Advances past the current instruction, and past the next one too when `cond` holds.
    pub open spec fn skip_next_if(self, cond: bool) -> CpuState {
        if cond {
            self.advanced().advanced()
        } else {
            self.advanced()
        }
    }

    /// Each timer one lower, unless already zero.
    pub open spec fn timers_ticked(self) -> CpuState {
        CpuState {
            delay: if self.delay > 0 {
                (self.delay - 1) as u8
            } else {
                0
            },
            sound: if self.sound > 0 {
                (self.sound - 1) as u8
            } else {
                0
            },
            ..self
        }
    }

    /// Pops the top return address and resumes after it; an empty stack, or
    /// a stack pointer past the stack, is an error.
    pub open spec fn returned(self) -> Result<CpuState, Chip8Error> {
        if self.sp == 0 {
            Err(Chip8Error::StackUnderflow { pc: self.pc })
        } else if self.sp > STACK_DEPTH {
            Err(Chip8Error::StackOverflow { pc: self.pc })
        } else {
            Ok(
                CpuState {
                    sp: (self.sp - 1) as u8,
                    pc: next_pc(self.stack[self.sp - 1]),
                    ..self
                },
            )
        }
    }

    /// Pushes the program counter and continues at `addr`; a full stack is an error.
    pub open spec fn called(self, addr: u16) -> Result<CpuState, Chip8Error> {
        if self.sp >= STACK_DEPTH {
            Err(Chip8Error::StackOverflow { pc: self.pc })
        } else {
            Ok(
                CpuState {
                    stack: self.stack.update(self.sp as int, self.pc),
                    sp: (self.sp + 1) as u8,
                    pc: addr,
                    ..self
                },
            )
        }
    }

    /// `Vx` = `Vx + Vy` modulo 256, then `VF` = 1 on overflow, else 0.
    pub open spec fn add_with_carry(self, x: int, y: int) -> CpuState {
        let sum = self.v[x] + self.v[y];
        self.with_reg(x, (sum % 256) as u8).with_reg(
            FLAG as int,
            if sum > 255 {
                1
            } else {
                0
            },
        ).advanced()
    }

    /// `Vx` = `Vx - Vy` modulo 256, then `VF` = 1 when `Vx >= Vy`, else 0.
    pub open spec fn sub_with_borrow(self, x: int, y: int) -> CpuState {
        let (vx, vy) = (self.v[x], self.v[y]);
        self.with_reg(x, ((vx - vy + 256) % 256) as u8).with_reg(
            FLAG as int,
            if vx >= vy {
                1
            } else {
                0
            },
        ).advanced()
    }

    /// `Vx` = `Vy - Vx` modulo 256, then `VF` = 1 when `Vy >= Vx`, else 0.
    pub open spec fn reverse_sub(self, x: int, y: int) -> CpuState {
        let (vx, vy) = (self.v[x], self.v[y]);
        self.with_reg(x, ((vy - vx + 256) % 256) as u8).with_reg(
            FLAG as int,
            if vy >= vx {
                1
            } else {
                0
            },
        ).advanced()
    }

    /// `Vx` halved, then `VF` = its old lowest bit.
    pub open spec fn shifted_right(self, x: int) -> CpuState {
        let vx = self.v[x];
        self.with_reg(x, (vx / 2) as u8).with_reg(FLAG as int, (vx % 2) as u8).advanced()
    }

    /// `Vx` doubled modulo 256, then `VF` = its old highest bit.
    pub open spec fn shifted_left(self, x: int) -> CpuState {
        let vx = self.v[x];
        self.with_reg(x, ((vx * 2) % 256) as u8).with_reg(FLAG as int, (vx / 128) as u8).advanced()
    }

    /// `V0..=Vx` read from memory from `I` on; the other registers kept.
    pub open spec fn registers_loaded(self, x: int, mem: Seq<u8>) -> CpuState {
        CpuState {
            v: Seq::new(
                self.v.len(),
                |k: int|
                    if k <= x {
                        mem[wrap_addr(self.i + k)]
                    } else {
                        self.v[k]
                    },
            ),
            ..self
        }.advanced()
    }

    /// With a key held, `Vx` = the lowest held key and the program counter
    /// moves on; with none, nothing changes.
    pub open spec fn key_waited(self, x: int, keys: Seq<bool>) -> CpuState {
        match lowest_key_from(keys, 0) {
            Some(k) => self.with_reg(x, k).advanced(),
            None => self,
        }
    }
}

/// The CPU: registers, index, program counter, call stack and the two timers.
#[derive(Debug)]
pub struct CPU {
    pub v: [u8; 16],
    pub i: u16,
    pub delay: u8,
    pub sound: u8,
    pub pc: u16,
    pub sp: u8,
    pub stack: [u16; 16],
}

impl View for CPU {
    type V = CpuState;

    open spec fn view(&self) -> CpuState {
        CpuState {
            v: self.v@,
            i: self.i,
            delay: self.delay,
            sound: self.sound,
            pc: self.pc,
            sp: self.sp,
            stack: self.stack@,
        }
    }
}

impl CPU {
    /// Zeroed registers, an empty stack, and the program counter at the program start.
    pub fn new() -> (c: Self)
        ensures
            forall|k: int| 0 <= k < REGISTERS ==> #[trigger] c.v@[k] == 0,
            c.i == 0,
            c.delay == 0,
            c.sound == 0,
            c.pc == PROGRAM_START,
            c.sp == 0,
            forall|k: int| 0 <= k < STACK_DEPTH ==> #[trigger] c.stack@[k] == 0,
    {
        CPU { v: [0u8; 16], i: 0, delay: 0, sound: 0, pc: 0x200, sp: 0, stack: [0u16; 16] }
    }

    /// The big-endian instruction word at the program counter.
    pub fn get_op(&self, memory: &Memory) -> (op: u16)
        ensures
            op == memory.data@[wrap_addr(self.pc as int)] * 256 + memory.data@[wrap_addr(
                self.pc + 1,
            )],
    {
        let hi = memory.get(self.pc as usize % MEMORY_SIZE) as u16;
        let lo = memory.get((self.pc as usize + 1) % MEMORY_SIZE) as u16;
        hi * 256 + lo
    }

    fn advance(&mut self)
        ensures
            final(self)@ == old(self)@.advanced(),
    {
        self.pc = self.pc.wrapping_add(2);
    }

    /// Counts each timer down by one unless it is already zero.
    pub fn update(&mut self)
        ensures
            final(self)@ == old(self)@.timers_ticked(),
    {
        if self.delay > 0 {
            self.delay = self.delay - 1;
        }
        if self.sound > 0 {
            self.sound = self.sound - 1;
        }
    }

    /// Clears the display.
    pub fn clear_screen(&mut self, screen: &mut Screen)
        ensures
            forall|k: int| 0 <= k < crate::screen::PIXELS ==> !#[trigger] final(screen).buffer@[k],
            final(self)@ == old(self)@.advanced(),
    {
        screen.clear();
        self.advance();
    }

    /// Pops a return address and resumes after the call that pushed it.
    pub fn return_from_subroutine(&mut self) -> (r: Result<(), Chip8Error>)
        ensures
            r is Ok <==> old(self)@.returned() is Ok,
            r matches Err(e) ==> old(self)@.returned() == Err::<CpuState, Chip8Error>(e)
                && final(self)@ == old(self)@,
            old(self)@.returned() matches Ok(s) ==> final(self)@ == s,
    {
        if self.sp == 0 {
            return Err(Chip8Error::StackUnderflow { pc: self.pc });
        }
        if self.sp as usize > STACK_DEPTH {
            return Err(Chip8Error::StackOverflow { pc: self.pc });
        }
        self.sp = self.sp - 1;
        self.pc = self.stack[self.sp as usize];
        self.advance();
        Ok(())
    }

    /// Continues at `addr`.
    pub fn jump(&mut self, addr: u16)
        ensures
            final(self)@ == (CpuState { pc: addr, ..old(self)@ }),
    {
        self.pc = addr;
    }

    /// Pushes the program counter and continues at `addr`.
    pub fn call(&mut self, addr: u16) -> (r: Result<(), Chip8Error>)
        ensures
            r is Ok <==> old(self)@.called(addr) is Ok,
            r matches Err(e) ==> old(self)@.called(addr) == Err::<CpuState, Chip8Error>(e)
                && final(self)@ == old(self)@,
            old(self)@.called(addr) matches Ok(s) ==> final(self)@ == s,
    {
        if self.sp as usize >= STACK_DEPTH {
            return Err(Chip8Error::StackOverflow { pc: self.pc });
        }
        self.stack[self.sp as usize] = self.pc;
        self.sp = self.sp + 1;
        self.pc = addr;
        Ok(())
    }

    /// Moves the program counter past one instruction when `condition` holds.
    pub fn skip_if_condition(&mut self, condition: bool)
        ensures
            final(self)@ == if condition {
                old(self)@.advanced()
            } else {
                old(self)@
            },
    {
        if condition {
            self.advance();
        }
    }

    /// Skips the next instruction when `Vx` equals the operand (`Vy`, or the byte `y`).
    pub fn skip_equal(&mut self, x: u8, y: u8, use_vy: bool)
        requires
            x < REGISTERS,
            use_vy ==> y < REGISTERS,
        ensures
            final(self)@ == old(self)@.skip_next_if(
                old(self)@.v[x as int] == old(self)@.operand(y, use_vy),
            ),
    {
        let vx = self.v[x as usize];
        let vy = if use_vy {
            self.v[y as usize]
        } else {
            y
        };
        self.skip_if_condition(vx == vy);
        self.advance();
    }

    /// Skips the next instruction when `Vx` differs from the operand (`Vy`, or the byte `y`).
    pub fn skip_not_equal(&mut self, x: u8, y: u8, use_vy: bool)
        requires
            x < REGISTERS,
            use_vy ==> y < REGISTERS,
        ensures
            final(self)@ == old(self)@.skip_next_if(
                old(self)@.v[x as int] != old(self)@.operand(y, use_vy),
            ),
    {
        let vx = self.v[x as usize];
        let vy = if use_vy {
            self.v[y as usize]
        } else {
            y
        };
        self.skip_if_condition(vx != vy);
        self.advance();
    }

    /// `Vx` = the operand (`Vy`, or the byte `y`).
    pub fn load(&mut self, x: u8, y: u8, use_vy: bool)
        requires
            x < REGISTERS,
            use_vy ==> y < REGISTERS,
        ensures
            final(self)@ == old(self)@.with_reg(x as int, old(self)@.operand(y, use_vy)).advanced(),
    {
        let vy = if use_vy {
            self.v[y as usize]
        } else {
            y
        };
        self.v[x as usize] = vy;
        self.advance();
    }

    /// `Vx` += the operand (`Vy`, or the byte `y`), wrapping, with no flag.
    pub fn add(&mut self, x: u8, y: u8, use_vy: bool)
        requires
            x < REGISTERS,
            use_vy ==> y < REGISTERS,
        ensures
            final(self)@ == old(self)@.with_reg(
                x as int,
                ((old(self)@.v[x as int] + old(self)@.operand(y, use_vy)) % 256) as u8,
            ).advanced(),
    {
        let vy = if use_vy {
            self.v[y as usize]
        } else {
            y
        };
        self.v[x as usize] = self.v[x as usize].wrapping_add(vy);
        self.advance();
    }

    /// `Vx` |= `Vy`.
    pub fn or(&mut self, x: u8, y: u8)
        requires
            x < REGISTERS,
            y < REGISTERS,
        ensures
            final(self)@ == old(self)@.with_reg(
                x as int,
                old(self)@.v[x as int] | old(self)@.v[y as int],
            ).advanced(),
    {
        self.v[x as usize] = self.v[x as usize] | self.v[y as usize];
        self.advance();
    }

    /// `Vx` &= `Vy`.
    pub fn and(&mut self, x: u8, y: u8)
        requires
            x < REGISTERS,
            y < REGISTERS,
        ensures
            final(self)@ == old(self)@.with_reg(
                x as int,
                old(self)@.v[x as int] & old(self)@.v[y as int],
            ).advanced(),
    {
        self.v[x as usize] = self.v[x as usize] & self.v[y as usize];
        self.advance();
    }

    /// `Vx` ^= `Vy`.
    pub fn xor(&mut self, x: u8, y: u8)
        requires
            x < REGISTERS,
            y < REGISTERS,
        ensures
            final(self)@ == old(self)@.with_reg(
                x as int,
                old(self)@.v[x as int] ^ old(self)@.v[y as int],
            ).advanced(),
    {
        self.v[x as usize] = self.v[x as usize] ^ self.v[y as usize];
        self.advance();
    }

    /// `Vx` += `Vy`, wrapping; then `VF` = 1 when the sum overflowed, else 0.
    pub fn add_with_carrier(&mut self, x: u8, y: u8)
        requires
            x < REGISTERS,
            y < REGISTERS,
        ensures
            final(self)@ == old(self)@.add_with_carry(x as int, y as int),
    {
        let vx = self.v[x as usize];
        let vy = self.v[y as usize];
        let carry = vx as u16 + vy as u16 > 255;
        self.v[x as usize] = vx.wrapping_add(vy);
        self.v[FLAG] = if carry {
            1
        } else {
            0
        };
        self.advance();
    }

    /// `Vx` -= `Vy`, wrapping; then `VF` = 1 when `Vx >= Vy` (no borrow), else 0.
    pub fn sub_with_carrier(&mut self, x: u8, y: u8)
        requires
            x < REGISTERS,
            y < REGISTERS,
        ensures
            final(self)@ == old(self)@.sub_with_borrow(x as int, y as int),
    {
        let vx = self.v[x as usize];
        let vy = self.v[y as usize];
        self.v[x as usize] = vx.wrapping_sub(vy);
        self.v[FLAG] = if vx >= vy {
            1
        } else {
            0
        };
        self.advance();
    }

    /// `Vx` = `Vy` - `Vx`, wrapping; then `VF` = 1 when `Vy >= Vx` (no borrow), else 0.
    pub fn sub_not_borrow(&mut self, x: u8, y: u8)
        requires
            x < REGISTERS,
            y < REGISTERS,
        ensures
            final(self)@ == old(self)@.reverse_sub(x as int, y as int),
    {
        let vx = self.v[x as usize];
        let vy = self.v[y as usize];
        self.v[x as usize] = vy.wrapping_sub(vx);
        self.v[FLAG] = if vy >= vx {
            1
        } else {
            0
        };
        self.advance();
    }

    /// `Vx` >>= 1; then `VF` = the bit shifted out.
    pub fn shift_right(&mut self, x: u8)
        requires
            x < REGISTERS,
        ensures
            final(self)@ == old(self)@.shifted_right(x as int),
    {
        let vx = self.v[x as usize];
        assert(vx >> 1u8 == vx / 2 && vx & 1u8 == vx % 2) by (bit_vector);
        self.v[x as usize] = vx >> 1u8;
        self.v[FLAG] = vx & 1u8;
        self.advance();
    }

    /// `Vx` <<= 1; then `VF` = the bit shifted out.
    pub fn shift_left(&mut self, x: u8)
        requires
            x < REGISTERS,
        ensures
            final(self)@ == old(self)@.shifted_left(x as int),
    {
        let vx = self.v[x as usize];
        assert(vx << 1u8 == (vx * 2) % 256 && vx >> 7u8 == vx / 128) by (bit_vector);
        self.v[x as usize] = vx << 1u8;
        self.v[FLAG] = vx >> 7u8;
        self.advance();
    }

    /// `I` = `addr`.
    pub fn load_i(&mut self, addr: u16)
        ensures
            final(self)@ == (CpuState { i: addr, ..old(self)@ }).advanced(),
    {
        self.i = addr;
        self.advance();
    }

    /// Continues at `V0 + addr`, wrapping at 16 bits.
    pub fn jump_v0(&mut self, addr: u16)
        ensures
            final(self)@ == (CpuState {
                pc: ((old(self)@.v[0] + addr) % 0x10000) as u16,
                ..old(self)@
            }),
    {
        self.pc = (self.v[0] as u16).wrapping_add(addr);
    }

    /// `Vx` = `random_byte` & `kk`.
    pub fn set_random_byte(&mut self, x: u8, kk: u8, random_byte: u8)
        requires
            x < REGISTERS,
        ensures
            final(self)@ == old(self)@.with_reg(x as int, random_byte & kk).advanced(),
    {
        self.v[x as usize] = random_byte & kk;
        self.advance();
    }

    /// Skips the next instruction when the key in `Vx` is held.
    pub fn skip_if_key_is_pressed(&mut self, x: u8, keys: &[bool; 16])
        requires
            x < REGISTERS,
        ensures
            final(self)@ == old(self)@.skip_next_if(key_down(keys@, old(self)@.v[x as int])),
    {
        let k = self.v[x as usize];
        let down = (k as usize) < KEYS && keys[k as usize];
        self.skip_if_condition(down);
        self.advance();
    }

    /// Skips the next instruction when the key in `Vx` is not held.
    pub fn skip_if_key_is_not_pressed(&mut self, x: u8, keys: &[bool; 16])
        requires
            x < REGISTERS,
        ensures
            final(self)@ == old(self)@.skip_next_if(!key_down(keys@, old(self)@.v[x as int])),
    {
        let k = self.v[x as usize];
        let down = (k as usize) < KEYS && keys[k as usize];
        self.skip_if_condition(!down);
        self.advance();
    }

    /// `Vx` = the delay timer.
    pub fn load_delay(&mut self, x: u8)
        requires
            x < REGISTERS,
        ensures
            final(self)@ == old(self)@.with_reg(x as int, old(self)@.delay).advanced(),
    {
        self.v[x as usize] = self.delay;
        self.advance();
    }

    /// Stores the lowest held key in `Vx` and moves on; with no key held the
    /// program counter stays, so the instruction runs again.
    pub fn wait_for_key_press(&mut self, x: u8, keys: &[bool; 16])
        requires
            x < REGISTERS,
        ensures
            final(self)@ == old(self)@.key_waited(x as int, keys@),
    {
        let mut k: usize = 0;
        while k < KEYS
            invariant
                x < REGISTERS,
                k <= KEYS,
                keys@.len() == KEYS,
                lowest_key_from(keys@, 0) == lowest_key_from(keys@, k as int),
                self@ == old(self)@,
            decreases KEYS - k,
        {
            if keys[k] {
                self.v[x as usize] = k as u8;
                self.advance();
                return;
            }
            k = k + 1;
        }
    }

    /// Delay timer = `Vx`.
    pub fn set_delay_timer(&mut self, x: u8)
        requires
            x < REGISTERS,
        ensures
            final(self)@ == (CpuState { delay: old(self)@.v[x as int], ..old(self)@ }).advanced(),
    {
        self.delay = self.v[x as usize];
        self.advance();
    }

    /// Sound timer = `Vx`.
    pub fn set_sound_timer(&mut self, x: u8)
        requires
            x < REGISTERS,
        ensures
            final(self)@ == (CpuState { sound: old(self)@.v[x as int], ..old(self)@ }).advanced(),
    {
        self.sound = self.v[x as usize];
        self.advance();
    }

    /// `I` += `Vx`, wrapping at 16 bits.
    pub fn set_i(&mut self, x: u8)
        requires
            x < REGISTERS,
        ensures
            final(self)@ == (CpuState {
                i: ((old(self)@.i + old(self)@.v[x as int]) % 0x10000) as u16,
                ..old(self)@
            }).advanced(),
    {
        self.i = self.i.wrapping_add(self.v[x as usize] as u16);
        self.advance();
    }

    /// `I` = the address of the five-byte font glyph for the digit in `Vx`.
    pub fn load_sprite(&mut self, x: u8)
        requires
            x < REGISTERS,
        ensures
            final(self)@ == (CpuState { i: (old(self)@.v[x as int] * 5) as u16, ..old(self)@ }).advanced(),
    {
        self.i = self.v[x as usize] as u16 * 5;
        self.advance();
    }

    /// Writes the hundreds, tens and ones digits of `Vx` at `I`, `I + 1`, `I + 2`.
    pub fn store_bcd(&mut self, x: u8, memory: &mut Memory)
        requires
            x < REGISTERS,
        ensures
            final(memory).data@ == stored_bcd(old(memory).data@, old(self)@.i, old(self)@.v[x as int]),
            final(self)@ == old(self)@.advanced(),
    {
        let vx = self.v[x as usize];
        let i = self.i as usize;
        memory.set(i % MEMORY_SIZE, vx / 100);
        memory.set((i + 1) % MEMORY_SIZE, (vx / 10) % 10);
        memory.set((i + 2) % MEMORY_SIZE, vx % 10);
        self.advance();
    }

    /// Writes `V0..=Vx` to memory from `I` on.
    pub fn store_registers(&mut self, x: u8, memory: &mut Memory)
        requires
            x < REGISTERS,
        ensures
            final(memory).data@ == stored_registers(old(memory).data@, old(self)@.i, old(self)@.v, x as int),
            final(self)@ == old(self)@.advanced(),
    {
        let i = self.i as usize;
        let mut k: usize = 0;
        while k <= x as usize
            invariant
                x < REGISTERS,
                k <= x + 1,
                i == self.i,
                self@ == old(self)@,
                memory.data@.len() == MEMORY_SIZE,
                forall|a: int|
                    0 <= a < MEMORY_SIZE ==> #[trigger] memory.data@[a] == if (a - i) % (
                    MEMORY_SIZE as int) < k {
                        self.v@[(a - i) % (MEMORY_SIZE as int)]
                    } else {
                        old(memory).data@[a]
                    },
            decreases x + 1 - k,
        {
            memory.set((i + k) % MEMORY_SIZE, self.v[k]);
            k = k + 1;
        }
        assert(memory.data@ =~= stored_registers(old(memory).data@, self.i, self.v@, x as int));
        self.advance();
    }

    /// Reads `V0..=Vx` from memory from `I` on.
    pub fn load_registers(&mut self, x: u8, memory: &Memory)
        requires
            x < REGISTERS,
        ensures
            final(self)@ == old(self)@.registers_loaded(x as int, memory.data@),
    {
        let i = self.i as usize;
        let mut k: usize = 0;
        while k <= x as usize
            invariant
                x < REGISTERS,
                k <= x + 1,
                i == self.i,
                self@ == (CpuState { v: self.v@, ..old(self)@ }),
                self.v@.len() == REGISTERS,
                forall|r: int|
                    0 <= r < REGISTERS ==> #[trigger] self.v@[r] == if r < k {
                        memory.data@[wrap_addr(i + r)]
                    } else {
                        old(self).v@[r]
                    },
            decreases x + 1 - k,
        {
            self.v[k] = memory.get((i + k) % MEMORY_SIZE);
            k = k + 1;
        }
        assert(self.v@ =~= old(self)@.registers_loaded(x as int, memory.data@).v);
        self.advance();
    }

    /// Draws the `n`-row sprite stored at `I` at (`Vx`, `Vy`); then `VF` = 1
    /// when a set sprite bit met a pixel that was on, else 0.
    pub fn update_sprite(&mut self, memory: &Memory, screen: &mut Screen, x: u8, y: u8, n: u8)
        requires
            x < REGISTERS,
            y < REGISTERS,
            n <= MAX_SPRITE_ROWS,
        ensures
            ({
                let rows = sprite_rows(memory.data@, old(self)@.i, n as int);
                let (vx, vy) = (old(self)@.v[x as int] as int, old(self)@.v[y as int] as int);
                &&& final(screen).buffer@ == drawn(old(screen).buffer@, rows, vx, vy)
                &&& final(self)@ == old(self)@.with_reg(
                    FLAG as int,
                    if collides(old(screen).buffer@, rows, vx, vy) {
                        1
                    } else {
                        0
                    },
                ).advanced()
            }),
    {
        let vx = self.v[x as usize];
        let vy = self.v[y as usize];
        let i = self.i as usize;
        let mut rows: Vec<u8> = Vec::new();
        let mut r: usize = 0;
        while r < n as usize
            invariant
                n <= MAX_SPRITE_ROWS,
                r <= n,
                i == self.i,
                rows@ =~= sprite_rows(memory.data@, self.i, r as int),
            decreases n - r,
        {
            rows.push(memory.get((i + r) % MEMORY_SIZE));
            r = r + 1;
        }
        let collision = screen.draw_sprite(vx, vy, rows.as_slice());
        self.v[FLAG] = if collision {
            1
        } else {
            0
        };
        self.advance();
    }
}

/// Adding with carry sets `VF` to 1 exactly when `Vx + Vy` exceeds 255, else
/// to 0; unless `Vx` is `VF` itself, `Vx` then holds the sum modulo 256.
pub proof fn lemma_add_with_carry(c: CPU, x: u8, y: u8)
    requires
        x < REGISTERS,
        y < REGISTERS,
    ensures
        ({
            let (vx, vy, t) = (c.v@[x as int], c.v@[y as int], c@.add_with_carry(x as int, y as int));
            &&& (t.v[FLAG as int] == 1) <==> vx + vy > 255
            &&& (t.v[FLAG as int] == 0) <==> vx + vy <= 255
            &&& x != FLAG ==> t.v[x as int] == (vx + vy) % 256
        }),
{
}

/// Subtracting with borrow sets `VF` to 1 exactly when `Vx >= Vy`, else to 0.
pub proof fn lemma_sub_with_borrow(c: CPU, x: u8, y: u8)
    requires
        x < REGISTERS,
        y < REGISTERS,
    ensures
        ({
            let (vx, vy, t) = (c.v@[x as int], c.v@[y as int], c@.sub_with_borrow(x as int, y as int));
            &&& (t.v[FLAG as int] == 1) <==> vx >= vy
            &&& (t.v[FLAG as int] == 0) <==> vx < vy
        }),
{
}

/// A right shift leaves the old least significant bit of `Vx` in `VF`, a left
/// shift its old most significant bit. The pair loses a bit: shifting right
/// and then left leaves `Vx` (other than `VF`) with its lowest bit cleared.
pub proof fn lemma_shift_bits(c: CPU, x: u8)
    requires
        x < REGISTERS,
    ensures
        ({
            let vx = c.v@[x as int];
            let right = c@.shifted_right(x as int);
            &&& right.v[FLAG as int] == vx % 2
            &&& c@.shifted_left(x as int).v[FLAG as int] == vx / 128
            &&& x != FLAG ==> right.shifted_left(x as int).v[x as int] == vx - vx % 2
        }),
{
}

/// Storing `V0..=Vx` at `I` and loading them back from the same `I` gives back
/// every register as it was.
pub proof fn lemma_store_load_registers(c: CPU, memory: Memory, x: u8)
    requires
        x < REGISTERS,
    ensures
        ({
            let stored = stored_registers(memory.data@, c.i, c.v@, x as int);
            c@.advanced().registers_loaded(x as int, stored).v == c.v@
        }),
{
    let stored = stored_registers(memory.data@, c.i, c.v@, x as int);
    let back = c@.advanced().registers_loaded(x as int, stored).v;
    assert forall|k: int| 0 <= k < REGISTERS implies #[trigger] back[k] == c.v@[k] by {
        if k <= x {
            let a = wrap_addr(c.i + k);
            assert((a - c.i) % (MEMORY_SIZE as int) == k);
        }
    }
    assert(back =~= c.v@);
}

/// A call followed by a return resumes at the instruction after the call,
/// with the stack pointer back where it was.
pub proof fn lemma_call_return(c: CPU, addr: u16)
    requires
        c.sp < STACK_DEPTH,
    ensures
        c@.called(addr) matches Ok(called) && called.returned() matches Ok(back) && back.pc
            == next_pc(c.pc) && back.sp == c.sp,
{
}

} // verus!
