use vstd::prelude::*;

verus! {

/// A decoded instruction. `x` and `y` select registers, `kk` is an immediate
/// byte, `n` a sprite height and `addr` a 12-bit address.
#[derive(Debug, Clone, Copy, PartialEq, Eq, Structural)]
pub enum Instruction {
    /// `00E0`
    ClearScreen,
    /// `00EE`
    Return,
    /// `1nnn`
    Jump { addr: u16 },
    /// `2nnn`
    Call { addr: u16 },
    /// `3xkk`
    SkipEqualByte { x: u8, kk: u8 },
    /// `4xkk`
    SkipNotEqualByte { x: u8, kk: u8 },
    /// `5xy_`
    SkipEqualReg { x: u8, y: u8 },
    /// `6xkk`
    LoadByte { x: u8, kk: u8 },
    /// `7xkk`
    AddByte { x: u8, kk: u8 },
    /// `8xy0`
    LoadReg { x: u8, y: u8 },
    /// `8xy1`
    Or { x: u8, y: u8 },
    /// `8xy2`
    And { x: u8, y: u8 },
    /// `8xy3`
    Xor { x: u8, y: u8 },
    /// `8xy4`
    AddWithCarry { x: u8, y: u8 },
    /// `8xy5`
    SubWithBorrow { x: u8, y: u8 },
    /// `8xy6`
    ShiftRight { x: u8 },
    /// `8xy7`
    ReverseSub { x: u8, y: u8 },
    /// `8xyE`
    ShiftLeft { x: u8 },
    /// `9xy_`
    SkipNotEqualReg { x: u8, y: u8 },
    /// `Annn`
    LoadIndex { addr: u16 },
    /// `Bnnn`
    JumpV0 { addr: u16 },
    /// `Cxkk`
    Random { x: u8, kk: u8 },
    /// `Dxyn`
    Draw { x: u8, y: u8, n: u8 },
    /// `Ex9E`
    SkipKeyPressed { x: u8 },
    /// `ExA1`
    SkipKeyNotPressed { x: u8 },
    /// `Fx07`
    LoadDelay { x: u8 },
    /// `Fx0A`
    WaitKey { x: u8 },
    /// `Fx15`
    SetDelay { x: u8 },
    /// `Fx18`
    SetSound { x: u8 },
    /// `Fx1E`
    AddIndex { x: u8 },
    /// `Fx29`
    LoadFont { x: u8 },
    /// `Fx33`
    StoreBcd { x: u8 },
    /// `Fx55`
    StoreRegisters { x: u8 },
    /// `Fx65`
    LoadRegisters { x: u8 },
}

/// The top nibble of an instruction word: its family.
pub open spec fn family(op: u16) -> u8 {
    (op / 0x1000) as u8
}

/// The second nibble: register selector `x`.
pub open spec fn nibble_x(op: u16) -> u8 {
    ((op / 0x100) % 16) as u8
}

/// The third nibble: register selector `y`.
pub open spec fn nibble_y(op: u16) -> u8 {
    ((op / 0x10) % 16) as u8
}

/// The low nibble.
pub open spec fn nibble_n(op: u16) -> u8 {
    (op % 16) as u8
}

/// The low byte.
pub open spec fn low_byte(op: u16) -> u8 {
    (op % 0x100) as u8
}

/// The low twelve bits.
pub open spec fn address(op: u16) -> u16 {
    (op % 0x1000) as u16
}

/// The instruction that a word encodes, if any.
pub open spec fn decode_spec(op: u16) -> Option<Instruction> {
    let (x, y, n, kk, addr) = (nibble_x(op), nibble_y(op), nibble_n(op), low_byte(op), address(op));
    match family(op) {
        0x0 => if op == 0x00E0 {
            Some(Instruction::ClearScreen)
        } else if op == 0x00EE {
            Some(Instruction::Return)
        } else {
            None
        },
        0x1 => Some(Instruction::Jump { addr }),
        0x2 => Some(Instruction::Call { addr }),
        0x3 => Some(Instruction::SkipEqualByte { x, kk }),
        0x4 => Some(Instruction::SkipNotEqualByte { x, kk }),
        0x5 => Some(Instruction::SkipEqualReg { x, y }),
        0x6 => Some(Instruction::LoadByte { x, kk }),
        0x7 => Some(Instruction::AddByte { x, kk }),
        0x8 => match n {
            0x0 => Some(Instruction::LoadReg { x, y }),
            0x1 => Some(Instruction::Or { x, y }),
            0x2 => Some(Instruction::And { x, y }),
            0x3 => Some(Instruction::Xor { x, y }),
            0x4 => Some(Instruction::AddWithCarry { x, y }),
            0x5 => Some(Instruction::SubWithBorrow { x, y }),
            0x6 => Some(Instruction::ShiftRight { x }),
            0x7 => Some(Instruction::ReverseSub { x, y }),
            0xE => Some(Instruction::ShiftLeft { x }),
            _ => None,
        },
        0x9 => Some(Instruction::SkipNotEqualReg { x, y }),
        0xA => Some(Instruction::LoadIndex { addr }),
        0xB => Some(Instruction::JumpV0 { addr }),
        0xC => Some(Instruction::Random { x, kk }),
        0xD => Some(Instruction::Draw { x, y, n }),
        0xE => match kk {
            0x9E => Some(Instruction::SkipKeyPressed { x }),
            0xA1 => Some(Instruction::SkipKeyNotPressed { x }),
            _ => None,
        },
        _ => match kk {
            0x07 => Some(Instruction::LoadDelay { x }),
            0x0A => Some(Instruction::WaitKey { x }),
            0x15 => Some(Instruction::SetDelay { x }),
            0x18 => Some(Instruction::SetSound { x }),
            0x1E => Some(Instruction::AddIndex { x }),
            0x29 => Some(Instruction::LoadFont { x }),
            0x33 => Some(Instruction::StoreBcd { x }),
            0x55 => Some(Instruction::StoreRegisters { x }),
            0x65 => Some(Instruction::LoadRegisters { x }),
            _ => None,
        },
    }
}

impl Instruction {
    /// Register selectors and sprite heights are nibbles; addresses are 12 bits.
    pub open spec fn wf(self) -> bool {
        match self {
            Instruction::ClearScreen | Instruction::Return => true,
            Instruction::Jump { addr } | Instruction::Call { addr } | Instruction::LoadIndex {
                addr,
            } | Instruction::JumpV0 { addr } => addr < 0x1000,
            Instruction::SkipEqualByte { x, .. } | Instruction::SkipNotEqualByte { x, .. }
            | Instruction::LoadByte { x, .. } | Instruction::AddByte { x, .. }
            | Instruction::Random { x, .. } => x < 16,
            Instruction::SkipEqualReg { x, y } | Instruction::LoadReg { x, y } | Instruction::Or {
                x,
                y,
            } | Instruction::And { x, y } | Instruction::Xor { x, y } | Instruction::AddWithCarry {
                x,
                y,
            } | Instruction::SubWithBorrow { x, y } | Instruction::ReverseSub { x, y }
            | Instruction::SkipNotEqualReg { x, y } => x < 16 && y < 16,
            Instruction::Draw { x, y, n } => x < 16 && y < 16 && n < 16,
            Instruction::ShiftRight { x } | Instruction::ShiftLeft { x }
            | Instruction::SkipKeyPressed { x } | Instruction::SkipKeyNotPressed { x }
            | Instruction::LoadDelay { x } | Instruction::WaitKey { x } | Instruction::SetDelay {
                x,
            } | Instruction::SetSound { x } | Instruction::AddIndex { x } | Instruction::LoadFont {
                x,
            } | Instruction::StoreBcd { x } | Instruction::StoreRegisters { x }
            | Instruction::LoadRegisters { x } => x < 16,
        }
    }

    /// Splits a word into its fields and picks the instruction it encodes;
    /// `None` for a word that encodes none.
    pub fn decode(op: u16) -> (r: Option<Instruction>)
        ensures
            r == decode_spec(op),
            r matches Some(ins) ==> ins.wf(),
    {
        let x = ((op / 0x100) % 16) as u8;
        let y = ((op / 0x10) % 16) as u8;
        let n = (op % 16) as u8;
        let kk = (op % 0x100) as u8;
        let addr = op % 0x1000;
        match op / 0x1000 {
            0x0 => if op == 0x00E0 {
                Some(Instruction::ClearScreen)
            } else if op == 0x00EE {
                Some(Instruction::Return)
            } else {
                None
            },
            0x1 => Some(Instruction::Jump { addr }),
            0x2 => Some(Instruction::Call { addr }),
            0x3 => Some(Instruction::SkipEqualByte { x, kk }),
            0x4 => Some(Instruction::SkipNotEqualByte { x, kk }),
            0x5 => Some(Instruction::SkipEqualReg { x, y }),
            0x6 => Some(Instruction::LoadByte { x, kk }),
            0x7 => Some(Instruction::AddByte { x, kk }),
            0x8 => match n {
                0x0 => Some(Instruction::LoadReg { x, y }),
                0x1 => Some(Instruction::Or { x, y }),
                0x2 => Some(Instruction::And { x, y }),
                0x3 => Some(Instruction::Xor { x, y }),
                0x4 => Some(Instruction::AddWithCarry { x, y }),
                0x5 => Some(Instruction::SubWithBorrow { x, y }),
                0x6 => Some(Instruction::ShiftRight { x }),
                0x7 => Some(Instruction::ReverseSub { x, y }),
                0xE => Some(Instruction::ShiftLeft { x }),
                _ => None,
            },
            0x9 => Some(Instruction::SkipNotEqualReg { x, y }),
            0xA => Some(Instruction::LoadIndex { addr }),
            0xB => Some(Instruction::JumpV0 { addr }),
            0xC => Some(Instruction::Random { x, kk }),
            0xD => Some(Instruction::Draw { x, y, n }),
            0xE => match kk {
                0x9E => Some(Instruction::SkipKeyPressed { x }),
                0xA1 => Some(Instruction::SkipKeyNotPressed { x }),
                _ => None,
            },
            _ => match kk {
                0x07 => Some(Instruction::LoadDelay { x }),
                0x0A => Some(Instruction::WaitKey { x }),
                0x15 => Some(Instruction::SetDelay { x }),
                0x18 => Some(Instruction::SetSound { x }),
                0x1E => Some(Instruction::AddIndex { x }),
                0x29 => Some(Instruction::LoadFont { x }),
                0x33 => Some(Instruction::StoreBcd { x }),
                0x55 => Some(Instruction::StoreRegisters { x }),
                0x65 => Some(Instruction::LoadRegisters { x }),
                _ => None,
            },
        }
    }
}

} // verus!
