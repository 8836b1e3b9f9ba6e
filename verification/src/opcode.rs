use vstd::prelude::*;

verus! {

/// A decoded instruction. Register operands are indices below 16.
#[derive(Debug, Clone, Copy, PartialEq, Eq)]
pub enum Instruction {
    ClearDisplay,
    Return,
    Jump { target: u16 },
    Call { target: u16 },
    SkipEqImm { x: usize, nn: u8 },
    SkipNeImm { x: usize, nn: u8 },
    SkipEqReg { x: usize, y: usize },
    LoadImm { x: usize, nn: u8 },
    AddImm { x: usize, nn: u8 },
    Assign { x: usize, y: usize },
    Or { x: usize, y: usize },
    And { x: usize, y: usize },
    Xor { x: usize, y: usize },
    AddCarry { x: usize, y: usize },
    SubBorrow { x: usize, y: usize },
    ShiftRight { x: usize },
    ReverseSub { x: usize, y: usize },
    ShiftLeft { x: usize },
    SetAddress { target: u16 },
    Random { x: usize, nn: u8 },
    Draw { x: usize, y: usize, rows: u8 },
    AddAddress { x: usize },
    StoreBlock { x: usize },
    LoadBlock { x: usize },
    /// Two bytes that encode no instruction of the machine.
    Unknown { hi: u8, lo: u8 },
}

impl Instruction {
    /// Every register operand names one of the sixteen registers, and a
    /// sprite has at most fifteen rows.
    pub open spec fn wf(self) -> bool {
        match self {
            Instruction::SkipEqImm { x, .. }
            | Instruction::SkipNeImm { x, .. }
            | Instruction::LoadImm { x, .. }
            | Instruction::AddImm { x, .. }
            | Instruction::Random { x, .. }
            | Instruction::ShiftRight { x }
            | Instruction::ShiftLeft { x }
            | Instruction::AddAddress { x }
            | Instruction::StoreBlock { x }
            | Instruction::LoadBlock { x } => x < 16,
            Instruction::SkipEqReg { x, y }
            | Instruction::Assign { x, y }
            | Instruction::Or { x, y }
            | Instruction::And { x, y }
            | Instruction::Xor { x, y }
            | Instruction::AddCarry { x, y }
            | Instruction::SubBorrow { x, y }
            | Instruction::ReverseSub { x, y } => x < 16 && y < 16,
            Instruction::Draw { x, y, rows } => x < 16 && y < 16 && rows < 16,
            Instruction::Jump { target }
            | Instruction::Call { target }
            | Instruction::SetAddress { target } => target < 0x1000,
            _ => true,
        }
    }
}

/// The two raw bytes of an instruction, in the order they lie in memory.
#[derive(Debug, Clone, Copy)]
pub struct Opcode(pub u8, pub u8);

impl Opcode {
    /// The upper four bits of a byte.
    pub open spec fn spec_high_nib(byte: u8) -> u8 {
        byte / 16
    }

    /// The lower four bits of a byte.
    pub open spec fn spec_low_nib(byte: u8) -> u8 {
        byte % 16
    }

    #[verifier::when_used_as_spec(spec_high_nib)]
    pub fn high_nib(byte: u8) -> (nib: u8)
        ensures
            nib == Self::spec_high_nib(byte),
    {
        assert(byte >> 4 == byte / 16) by (bit_vector);
        byte >> 4
    }

    #[verifier::when_used_as_spec(spec_low_nib)]
    pub fn low_nib(byte: u8) -> (nib: u8)
        ensures
            nib == Self::spec_low_nib(byte),
    {
        assert(byte & 0x0f == byte % 16) by (bit_vector);
        byte & 0x0f
    }

    /// First register operand: the low nibble of the first byte.
    pub open spec fn spec_x(&self) -> usize {
        (self.0 % 16) as usize
    }

    /// Second register operand: the high nibble of the second byte.
    pub open spec fn spec_y(&self) -> usize {
        (self.1 / 16) as usize
    }

    /// Four-bit immediate: the low nibble of the second byte.
    pub open spec fn spec_n(&self) -> u8 {
        self.1 % 16
    }

    /// Twelve-bit address: the low nibble of the first byte above the second byte.
    pub open spec fn spec_nnn(&self) -> u16 {
        ((self.0 % 16) * 256 + self.1) as u16
    }

    /// Eight-bit immediate: the second byte.
    pub open spec fn spec_nn(&self) -> u8 {
        self.1
    }

    #[verifier::when_used_as_spec(spec_x)]
    pub fn x(&self) -> (r: usize)
        ensures
            r == self.spec_x(),
            r < 16,
    {
        Opcode::low_nib(self.0) as usize
    }

    #[verifier::when_used_as_spec(spec_y)]
    pub fn y(&self) -> (r: usize)
        ensures
            r == self.spec_y(),
            r < 16,
    {
        Opcode::high_nib(self.1) as usize
    }

    #[verifier::when_used_as_spec(spec_n)]
    pub fn n(&self) -> (r: u8)
        ensures
            r == self.spec_n(),
            r < 16,
    {
        Opcode::low_nib(self.1)
    }

    #[verifier::when_used_as_spec(spec_nnn)]
    pub fn nnn(&self) -> (r: u16)
        ensures
            r == self.spec_nnn(),
            r < 0x1000,
    {
        let hi: u16 = Opcode::low_nib(self.0) as u16;
        let lo: u16 = self.1 as u16;
        assert((hi << 8 | lo) == hi * 256 + lo) by (bit_vector)
            requires
                hi < 16,
                lo < 256,
        ;
        hi << 8 | lo
    }

    #[verifier::when_used_as_spec(spec_nn)]
    pub fn nn(&self) -> (r: u8)
        ensures
            r == self.spec_nn(),
    {
        self.1
    }

    /// The instruction that the two bytes encode: the primary key is the
    /// high nibble of the first byte, the secondary key the second byte or
    /// its low nibble.
    pub open spec fn spec_decode(&self) -> Instruction {
        let k = self.0 / 16;
        let x = self.spec_x();
        let y = self.spec_y();
        let nn = self.1;
        let nnn = self.spec_nnn();
        let sub = self.1 % 16;
        if k == 0x0 && nn == 0xe0 {
            Instruction::ClearDisplay
        } else if k == 0x0 && nn == 0xee {
            Instruction::Return
        } else if k == 0x1 {
            Instruction::Jump { target: nnn }
        } else if k == 0x2 {
            Instruction::Call { target: nnn }
        } else if k == 0x3 {
            Instruction::SkipEqImm { x, nn }
        } else if k == 0x4 {
            Instruction::SkipNeImm { x, nn }
        } else if k == 0x5 {
            Instruction::SkipEqReg { x, y }
        } else if k == 0x6 {
            Instruction::LoadImm { x, nn }
        } else if k == 0x7 {
            Instruction::AddImm { x, nn }
        } else if k == 0x8 && sub == 0x0 {
            Instruction::Assign { x, y }
        } else if k == 0x8 && sub == 0x1 {
            Instruction::Or { x, y }
        } else if k == 0x8 && sub == 0x2 {
            Instruction::And { x, y }
        } else if k == 0x8 && sub == 0x3 {
            Instruction::Xor { x, y }
        } else if k == 0x8 && sub == 0x4 {
            Instruction::AddCarry { x, y }
        } else if k == 0x8 && sub == 0x5 {
            Instruction::SubBorrow { x, y }
        } else if k == 0x8 && sub == 0x6 {
            Instruction::ShiftRight { x }
        } else if k == 0x8 && sub == 0x7 {
            Instruction::ReverseSub { x, y }
        } else if k == 0x8 && sub == 0xe {
            Instruction::ShiftLeft { x }
        } else if k == 0xa {
            Instruction::SetAddress { target: nnn }
        } else if k == 0xc {
            Instruction::Random { x, nn }
        } else if k == 0xd {
            Instruction::Draw { x, y, rows: sub }
        } else if k == 0xf && nn == 0x1e {
            Instruction::AddAddress { x }
        } else if k == 0xf && nn == 0x55 {
            Instruction::StoreBlock { x }
        } else if k == 0xf && nn == 0x65 {
            Instruction::LoadBlock { x }
        } else {
            Instruction::Unknown { hi: self.0, lo: self.1 }
        }
    }

    /// Decodes the two bytes. Any pair decodes; a pair that encodes no
    /// instruction decodes to `Unknown` with the bytes kept.
    #[verifier::when_used_as_spec(spec_decode)]
    pub fn decode(&self) -> (ins: Instruction)
        ensures
            ins == self.spec_decode(),
            ins.wf(),
    {
        let x: usize = self.x();
        let y: usize = self.y();
        let nn: u8 = self.1;
        let unknown = Instruction::Unknown { hi: self.0, lo: self.1 };
        match Opcode::high_nib(self.0) {
            0x00 => match self.1 {
                0xe0 => Instruction::ClearDisplay,
                0xee => Instruction::Return,
                _ => unknown,
            },
            0x01 => Instruction::Jump { target: self.nnn() },
            0x02 => Instruction::Call { target: self.nnn() },
            0x03 => Instruction::SkipEqImm { x, nn },
            0x04 => Instruction::SkipNeImm { x, nn },
            0x05 => Instruction::SkipEqReg { x, y },
            0x06 => Instruction::LoadImm { x, nn },
            0x07 => Instruction::AddImm { x, nn },
            0x08 => match Opcode::low_nib(self.1) {
                0x0 => Instruction::Assign { x, y },
                0x1 => Instruction::Or { x, y },
                0x2 => Instruction::And { x, y },
                0x3 => Instruction::Xor { x, y },
                0x4 => Instruction::AddCarry { x, y },
                0x5 => Instruction::SubBorrow { x, y },
                0x6 => Instruction::ShiftRight { x },
                0x7 => Instruction::ReverseSub { x, y },
                0xe => Instruction::ShiftLeft { x },
                _ => unknown,
            },
            0x0a => Instruction::SetAddress { target: self.nnn() },
            0x0c => Instruction::Random { x, nn },
            0x0d => Instruction::Draw { x, y, rows: self.n() },
            0x0f => match self.1 {
                0x1e => Instruction::AddAddress { x },
                0x55 => Instruction::StoreBlock { x },
                0x65 => Instruction::LoadBlock { x },
                _ => unknown,
            },
            _ => unknown,
        }
    }
}

} // verus!
