use crate::error::InstructionError;
use vstd::prelude::*;
use vstd::std_specs::convert::TryFromSpecImpl;

verus! {

/// The closed CHIP-8 instruction set. Variant names spell the opcode pattern:
/// `X` and `Y` are register indices, `N` a 4-bit count, `NN` an 8-bit
/// immediate and `NNN` a 12-bit address.
#[derive(Clone, Copy, Debug, PartialEq, Eq, Structural)]
pub enum Instruction {
    /// Clear the screen.
    Ins00E0,
    /// Return from a subroutine.
    Ins00EE,
    /// Jump to `NNN`.
    Ins1NNN(u16),
    /// Call the subroutine at `NNN`.
    Ins2NNN(u16),
    /// Skip the next instruction if `VX == NN`.
    Ins3XNN(u8, u8),
    /// Skip the next instruction if `VX != NN`.
    Ins4XNN(u8, u8),
    /// Skip the next instruction if `VX == VY`.
    Ins5XY0(u8, u8),
    /// `VX = NN`.
    Ins6XNN(u8, u8),
    /// `VX += NN`, wrapping, flag register untouched.
    Ins7XNN(u8, u8),
    /// `VX = VY`.
    Ins8XY0(u8, u8),
    /// `VX |= VY`, flag register zeroed.
    Ins8XY1(u8, u8),
    /// `VX &= VY`, flag register zeroed.
    Ins8XY2(u8, u8),
    /// `VX ^= VY`, flag register zeroed.
    Ins8XY3(u8, u8),
    /// `VX += VY`, wrapping, flag register set to the carry.
    Ins8XY4(u8, u8),
    /// `VX -= VY`, wrapping, flag register set to 1 unless a borrow occurred.
    Ins8XY5(u8, u8),
    /// `VX = VY >> 1`, flag register set to the dropped bit.
    Ins8XY6(u8, u8),
    /// `VX = VY - VX`, wrapping, flag register set to 1 unless a borrow occurred.
    Ins8XY7(u8, u8),
    /// `VX = VY << 1`, flag register set to the dropped bit.
    Ins8XYE(u8, u8),
    /// Skip the next instruction if `VX != VY`.
    Ins9XY0(u8, u8),
    /// `I = NNN`.
    InsANNN(u16),
    /// Jump to `V0 + NNN`.
    InsBNNN(u16),
    /// `VX = random & NN`.
    InsCXNN(u8, u8),
    /// Draw an `N`-row sprite from memory at `I` to the screen at `(VX, VY)`.
    InsDXYN(u8, u8, u8),
    /// Skip the next instruction if the key numbered `VX` is pressed.
    InsEX9E(u8),
    /// Skip the next instruction if the key numbered `VX` is not pressed.
    InsEXA1(u8),
    /// `VX = delay timer`.
    InsFX07(u8),
    /// Wait for a key press and store the key's number in `VX`.
    InsFX0A(u8),
    /// `delay timer = VX`.
    InsFX15(u8),
    /// `sound timer = VX`.
    InsFX18(u8),
    /// `I += VX`, wrapping.
    InsFX1E(u8),
    /// `I = ` address of the font glyph for the low four bits of `VX`.
    InsFX29(u8),
    /// Store the three decimal digits of `VX` at `I`, `I + 1`, `I + 2`.
    InsFX33(u8),
    /// Store `V0..=VX` to memory at `I`, then advance `I` past them.
    InsFX55(u8),
    /// Load `V0..=VX` from memory at `I`, then advance `I` past them.
    InsFX65(u8),
}

impl Instruction {
    /// The four 4-bit digits of an opcode, most significant first.
    pub open spec fn spec_nibbles(opcode: u16) -> (u8, u8, u8, u8) {
        (
            (opcode / 0x1000) as u8,
            (opcode / 0x100 % 0x10) as u8,
            (opcode / 0x10 % 0x10) as u8,
            (opcode % 0x10) as u8,
        )
    }

    /// The 12-bit address held in the three low digits of an opcode.
    pub open spec fn spec_nnn(opcode: u16) -> u16 {
        (opcode % 0x1000) as u16
    }

    /// The 8-bit immediate held in the two low digits of an opcode.
    pub open spec fn spec_nn(opcode: u16) -> u8 {
        (opcode % 0x100) as u8
    }

    /// The instruction table: which instruction an opcode stands for, or the
    /// failure for an opcode that matches no pattern.
    pub open spec fn decode(opcode: u16) -> Result<Instruction, InstructionError> {
        let (n1, n2, n3, n4) = Self::spec_nibbles(opcode);
        let nnn = Self::spec_nnn(opcode);
        let nn = Self::spec_nn(opcode);
        match (n1, n2, n3, n4) {
            (0x0, 0x0, 0xE, 0x0) => Ok(Instruction::Ins00E0),
            (0x0, 0x0, 0xE, 0xE) => Ok(Instruction::Ins00EE),
            (0x1, _, _, _) => Ok(Instruction::Ins1NNN(nnn)),
            (0x2, _, _, _) => Ok(Instruction::Ins2NNN(nnn)),
            (0x3, _, _, _) => Ok(Instruction::Ins3XNN(n2, nn)),
            (0x4, _, _, _) => Ok(Instruction::Ins4XNN(n2, nn)),
            (0x5, _, _, 0x0) => Ok(Instruction::Ins5XY0(n2, n3)),
            (0x6, _, _, _) => Ok(Instruction::Ins6XNN(n2, nn)),
            (0x7, _, _, _) => Ok(Instruction::Ins7XNN(n2, nn)),
            (0x8, _, _, 0x0) => Ok(Instruction::Ins8XY0(n2, n3)),
            (0x8, _, _, 0x1) => Ok(Instruction::Ins8XY1(n2, n3)),
            (0x8, _, _, 0x2) => Ok(Instruction::Ins8XY2(n2, n3)),
            (0x8, _, _, 0x3) => Ok(Instruction::Ins8XY3(n2, n3)),
            (0x8, _, _, 0x4) => Ok(Instruction::Ins8XY4(n2, n3)),
            (0x8, _, _, 0x5) => Ok(Instruction::Ins8XY5(n2, n3)),
            (0x8, _, _, 0x6) => Ok(Instruction::Ins8XY6(n2, n3)),
            (0x8, _, _, 0x7) => Ok(Instruction::Ins8XY7(n2, n3)),
            (0x8, _, _, 0xE) => Ok(Instruction::Ins8XYE(n2, n3)),
            (0x9, _, _, 0x0) => Ok(Instruction::Ins9XY0(n2, n3)),
            (0xA, _, _, _) => Ok(Instruction::InsANNN(nnn)),
            (0xB, _, _, _) => Ok(Instruction::InsBNNN(nnn)),
            (0xC, _, _, _) => Ok(Instruction::InsCXNN(n2, nn)),
            (0xD, _, _, _) => Ok(Instruction::InsDXYN(n2, n3, n4)),
            (0xE, _, 0x9, 0xE) => Ok(Instruction::InsEX9E(n2)),
            (0xE, _, 0xA, 0x1) => Ok(Instruction::InsEXA1(n2)),
            (0xF, _, 0x0, 0x7) => Ok(Instruction::InsFX07(n2)),
            (0xF, _, 0x0, 0xA) => Ok(Instruction::InsFX0A(n2)),
            (0xF, _, 0x1, 0x5) => Ok(Instruction::InsFX15(n2)),
            (0xF, _, 0x1, 0x8) => Ok(Instruction::InsFX18(n2)),
            (0xF, _, 0x1, 0xE) => Ok(Instruction::InsFX1E(n2)),
            (0xF, _, 0x2, 0x9) => Ok(Instruction::InsFX29(n2)),
            (0xF, _, 0x3, 0x3) => Ok(Instruction::InsFX33(n2)),
            (0xF, _, 0x5, 0x5) => Ok(Instruction::InsFX55(n2)),
            (0xF, _, 0x6, 0x5) => Ok(Instruction::InsFX65(n2)),
            _ => Err(InstructionError::UnknownOpcode(opcode)),
        }
    }

    /// Every operand fits the opcode field it is carried in: register indices
    /// and the sprite height in 4 bits, addresses in 12.
    pub open spec fn well_formed(self) -> bool {
        match self {
            Instruction::Ins00E0 | Instruction::Ins00EE => true,
            Instruction::Ins1NNN(nnn)
            | Instruction::Ins2NNN(nnn)
            | Instruction::InsANNN(nnn)
            | Instruction::InsBNNN(nnn) => nnn < 0x1000,
            Instruction::Ins3XNN(x, _)
            | Instruction::Ins4XNN(x, _)
            | Instruction::Ins6XNN(x, _)
            | Instruction::Ins7XNN(x, _)
            | Instruction::InsCXNN(x, _) => x < 0x10,
            Instruction::Ins5XY0(x, y)
            | Instruction::Ins8XY0(x, y)
            | Instruction::Ins8XY1(x, y)
            | Instruction::Ins8XY2(x, y)
            | Instruction::Ins8XY3(x, y)
            | Instruction::Ins8XY4(x, y)
            | Instruction::Ins8XY5(x, y)
            | Instruction::Ins8XY6(x, y)
            | Instruction::Ins8XY7(x, y)
            | Instruction::Ins8XYE(x, y)
            | Instruction::Ins9XY0(x, y) => x < 0x10 && y < 0x10,
            Instruction::InsDXYN(x, y, n) => x < 0x10 && y < 0x10 && n < 0x10,
            Instruction::InsEX9E(x)
            | Instruction::InsEXA1(x)
            | Instruction::InsFX07(x)
            | Instruction::InsFX0A(x)
            | Instruction::InsFX15(x)
            | Instruction::InsFX18(x)
            | Instruction::InsFX1E(x)
            | Instruction::InsFX29(x)
            | Instruction::InsFX33(x)
            | Instruction::InsFX55(x)
            | Instruction::InsFX65(x) => x < 0x10,
        }
    }

    /// The opcode that an instruction is written as.
    pub open spec fn encode(self) -> int {
        match self {
            Instruction::Ins00E0 => 0x00E0,
            Instruction::Ins00EE => 0x00EE,
            Instruction::Ins1NNN(nnn) => 0x1000 + nnn,
            Instruction::Ins2NNN(nnn) => 0x2000 + nnn,
            Instruction::Ins3XNN(x, nn) => 0x3000 + 0x100 * x + nn,
            Instruction::Ins4XNN(x, nn) => 0x4000 + 0x100 * x + nn,
            Instruction::Ins5XY0(x, y) => 0x5000 + 0x100 * x + 0x10 * y,
            Instruction::Ins6XNN(x, nn) => 0x6000 + 0x100 * x + nn,
            Instruction::Ins7XNN(x, nn) => 0x7000 + 0x100 * x + nn,
            Instruction::Ins8XY0(x, y) => 0x8000 + 0x100 * x + 0x10 * y,
            Instruction::Ins8XY1(x, y) => 0x8001 + 0x100 * x + 0x10 * y,
            Instruction::Ins8XY2(x, y) => 0x8002 + 0x100 * x + 0x10 * y,
            Instruction::Ins8XY3(x, y) => 0x8003 + 0x100 * x + 0x10 * y,
            Instruction::Ins8XY4(x, y) => 0x8004 + 0x100 * x + 0x10 * y,
            Instruction::Ins8XY5(x, y) => 0x8005 + 0x100 * x + 0x10 * y,
            Instruction::Ins8XY6(x, y) => 0x8006 + 0x100 * x + 0x10 * y,
            Instruction::Ins8XY7(x, y) => 0x8007 + 0x100 * x + 0x10 * y,
            Instruction::Ins8XYE(x, y) => 0x800E + 0x100 * x + 0x10 * y,
            Instruction::Ins9XY0(x, y) => 0x9000 + 0x100 * x + 0x10 * y,
            Instruction::InsANNN(nnn) => 0xA000 + nnn,
            Instruction::InsBNNN(nnn) => 0xB000 + nnn,
            Instruction::InsCXNN(x, nn) => 0xC000 + 0x100 * x + nn,
            Instruction::InsDXYN(x, y, n) => 0xD000 + 0x100 * x + 0x10 * y + n,
            Instruction::InsEX9E(x) => 0xE09E + 0x100 * x,
            Instruction::InsEXA1(x) => 0xE0A1 + 0x100 * x,
            Instruction::InsFX07(x) => 0xF007 + 0x100 * x,
            Instruction::InsFX0A(x) => 0xF00A + 0x100 * x,
            Instruction::InsFX15(x) => 0xF015 + 0x100 * x,
            Instruction::InsFX18(x) => 0xF018 + 0x100 * x,
            Instruction::InsFX1E(x) => 0xF01E + 0x100 * x,
            Instruction::InsFX29(x) => 0xF029 + 0x100 * x,
            Instruction::InsFX33(x) => 0xF033 + 0x100 * x,
            Instruction::InsFX55(x) => 0xF055 + 0x100 * x,
            Instruction::InsFX65(x) => 0xF065 + 0x100 * x,
        }
    }

    /// Splits an opcode into its four 4-bit digits, most significant first.
    pub fn nibbles(opcode: u16) -> (out: (u8, u8, u8, u8))
        ensures
            out == Self::spec_nibbles(opcode),
            out.0 < 0x10 && out.1 < 0x10 && out.2 < 0x10 && out.3 < 0x10,
            opcode == 0x1000 * out.0 + 0x100 * out.1 + 0x10 * out.2 + out.3,
    {
        assert((opcode & 0xF000) >> 12 == opcode / 0x1000) by (bit_vector);
        assert((opcode & 0x0F00) >> 8 == opcode / 0x100 % 0x10) by (bit_vector);
        assert((opcode & 0x00F0) >> 4 == opcode / 0x10 % 0x10) by (bit_vector);
        assert(opcode & 0x000F == opcode % 0x10) by (bit_vector);
        proof {
            Self::lemma_digits(opcode);
        }
        (
            ((opcode & 0xF000) >> 12) as u8,
            ((opcode & 0x0F00) >> 8) as u8,
            ((opcode & 0x00F0) >> 4) as u8,
            (opcode & 0x000F) as u8,
        )
    }

    /// The 12-bit address operand of an opcode.
    pub fn nnn(opcode: u16) -> (out: u16)
        ensures
            out == Self::spec_nnn(opcode),
            out < 0x1000,
    {
        assert(opcode & 0x0FFF == opcode % 0x1000) by (bit_vector);
        opcode & 0x0FFF
    }

    /// The 8-bit immediate operand of an opcode.
    pub fn nn(opcode: u16) -> (out: u8)
        ensures
            out == Self::spec_nn(opcode),
    {
        assert(opcode & 0x00FF == opcode % 0x100) by (bit_vector);
        (opcode & 0x00FF) as u8
    }

    /// Decoding is defined on every opcode and depends on nothing else: equal
    /// opcodes decode alike, every opcode gives an instruction or fails, and
    /// it fails only with `UnknownOpcode` carrying the very opcode that was
    /// refused.
    pub proof fn lemma_decode_total_and_pure(opcode: u16, again: u16)
        ensures
            opcode == again ==> Self::decode(opcode) == Self::decode(again),
            Self::decode(opcode) is Ok || Self::decode(opcode) == Err::<
                Instruction,
                InstructionError,
            >(InstructionError::UnknownOpcode(opcode)),
    {
    }

    /// The opcodes that fail to decode are exactly those that no instruction
    /// with operands in range is written as.
    pub proof fn lemma_unknown_iff_off_table(opcode: u16)
        ensures
            Self::decode(opcode) is Err <==> forall|instruction: Instruction|
                instruction.well_formed() ==> #[trigger] instruction.encode() != opcode,
    {
        Self::lemma_decode_then_encode(opcode);
        if Self::decode(opcode) is Err {
            assert forall|instruction: Instruction| instruction.well_formed() implies #[trigger]
                instruction.encode() != opcode by {
                Self::lemma_encode_then_decode(instruction);
            }
        } else {
            let instruction = Self::decode(opcode)->Ok_0;
            assert(instruction.well_formed() && instruction.encode() == opcode);
        }
    }

    /// An opcode is the positional value of its four digits, and its address
    /// and immediate operands are those of the low three and low two.
    proof fn lemma_digits(opcode: u16)
        ensures
            ({
                let (n1, n2, n3, n4) = Self::spec_nibbles(opcode);
                &&& n1 < 0x10 && n2 < 0x10 && n3 < 0x10 && n4 < 0x10
                &&& opcode == 0x1000 * n1 + 0x100 * n2 + 0x10 * n3 + n4
                &&& Self::spec_nnn(opcode) == 0x100 * n2 + 0x10 * n3 + n4
                &&& Self::spec_nn(opcode) == 0x10 * n3 + n4
            }),
    {
    }

    /// Four digits in positional notation are the digits of the number they
    /// write.
    proof fn lemma_digits_of(n1: int, n2: int, n3: int, n4: int)
        requires
            0 <= n1 < 0x10,
            0 <= n2 < 0x10,
            0 <= n3 < 0x10,
            0 <= n4 < 0x10,
        ensures
            ({
                let opcode = (0x1000 * n1 + 0x100 * n2 + 0x10 * n3 + n4) as u16;
                &&& opcode == 0x1000 * n1 + 0x100 * n2 + 0x10 * n3 + n4
                &&& Self::spec_nibbles(opcode) == (n1 as u8, n2 as u8, n3 as u8, n4 as u8)
                &&& Self::spec_nnn(opcode) == 0x100 * n2 + 0x10 * n3 + n4
                &&& Self::spec_nn(opcode) == 0x10 * n3 + n4
            }),
    {
        let code = 0x1000 * n1 + 0x100 * n2 + 0x10 * n3 + n4;
        assert(code / 0x1000 == n1);
        assert(code / 0x100 == 0x10 * n1 + n2);
        assert(code / 0x10 == 0x100 * n1 + 0x10 * n2 + n3);
    }

    /// The digits of a leading digit followed by a 12-bit address.
    proof fn lemma_address_digits(n1: int, nnn: u16)
        requires
            0 <= n1 < 0x10,
            nnn < 0x1000,
        ensures
            ({
                let opcode = (0x1000 * n1 + nnn) as u16;
                &&& opcode == 0x1000 * n1 + nnn
                &&& Self::spec_nibbles(opcode).0 == n1
                &&& Self::spec_nnn(opcode) == nnn
            }),
    {
        Self::lemma_digits_of(
            n1,
            (nnn / 0x100) as int,
            (nnn / 0x10 % 0x10) as int,
            (nnn % 0x10) as int,
        );
    }

    /// The digits of a leading digit, a register index and an 8-bit immediate.
    proof fn lemma_immediate_digits(n1: int, x: u8, nn: u8)
        requires
            0 <= n1 < 0x10,
            x < 0x10,
        ensures
            ({
                let opcode = (0x1000 * n1 + 0x100 * x + nn) as u16;
                &&& opcode == 0x1000 * n1 + 0x100 * x + nn
                &&& Self::spec_nibbles(opcode).0 == n1
                &&& Self::spec_nibbles(opcode).1 == x
                &&& Self::spec_nn(opcode) == nn
            }),
    {
        Self::lemma_digits_of(n1, x as int, (nn / 0x10) as int, (nn % 0x10) as int);
    }

    /// A decoded instruction has every operand in range and is written as
    /// exactly the opcode it came from.
    pub proof fn lemma_decode_then_encode(opcode: u16)
        ensures
            Self::decode(opcode) matches Ok(instruction) ==> instruction.well_formed()
                && instruction.encode() == opcode,
    {
        Self::lemma_digits(opcode);
    }

    /// Every instruction with operands in range is what its own opcode decodes
    /// to: the table has one entry per instruction and no two overlap.
    pub proof fn lemma_encode_then_decode(instruction: Instruction)
        requires
            instruction.well_formed(),
        ensures
            0 <= instruction.encode() <= u16::MAX,
            Self::decode(instruction.encode() as u16) == Ok::<Instruction, InstructionError>(
                instruction,
            ),
    {
        match instruction {
            Instruction::Ins00E0 => Self::lemma_digits_of(0x0, 0x0, 0xE, 0x0),
            Instruction::Ins00EE => Self::lemma_digits_of(0x0, 0x0, 0xE, 0xE),
            Instruction::Ins1NNN(nnn) => Self::lemma_address_digits(0x1, nnn),
            Instruction::Ins2NNN(nnn) => Self::lemma_address_digits(0x2, nnn),
            Instruction::InsANNN(nnn) => Self::lemma_address_digits(0xA, nnn),
            Instruction::InsBNNN(nnn) => Self::lemma_address_digits(0xB, nnn),
            Instruction::Ins3XNN(x, nn) => Self::lemma_immediate_digits(0x3, x, nn),
            Instruction::Ins4XNN(x, nn) => Self::lemma_immediate_digits(0x4, x, nn),
            Instruction::Ins6XNN(x, nn) => Self::lemma_immediate_digits(0x6, x, nn),
            Instruction::Ins7XNN(x, nn) => Self::lemma_immediate_digits(0x7, x, nn),
            Instruction::InsCXNN(x, nn) => Self::lemma_immediate_digits(0xC, x, nn),
            Instruction::Ins5XY0(x, y) => Self::lemma_digits_of(0x5, x as int, y as int, 0x0),
            Instruction::Ins8XY0(x, y) => Self::lemma_digits_of(0x8, x as int, y as int, 0x0),
            Instruction::Ins8XY1(x, y) => Self::lemma_digits_of(0x8, x as int, y as int, 0x1),
            Instruction::Ins8XY2(x, y) => Self::lemma_digits_of(0x8, x as int, y as int, 0x2),
            Instruction::Ins8XY3(x, y) => Self::lemma_digits_of(0x8, x as int, y as int, 0x3),
            Instruction::Ins8XY4(x, y) => Self::lemma_digits_of(0x8, x as int, y as int, 0x4),
            Instruction::Ins8XY5(x, y) => Self::lemma_digits_of(0x8, x as int, y as int, 0x5),
            Instruction::Ins8XY6(x, y) => Self::lemma_digits_of(0x8, x as int, y as int, 0x6),
            Instruction::Ins8XY7(x, y) => Self::lemma_digits_of(0x8, x as int, y as int, 0x7),
            Instruction::Ins8XYE(x, y) => Self::lemma_digits_of(0x8, x as int, y as int, 0xE),
            Instruction::Ins9XY0(x, y) => Self::lemma_digits_of(0x9, x as int, y as int, 0x0),
            Instruction::InsDXYN(x, y, n) => Self::lemma_digits_of(
                0xD,
                x as int,
                y as int,
                n as int,
            ),
            Instruction::InsEX9E(x) => Self::lemma_digits_of(0xE, x as int, 0x9, 0xE),
            Instruction::InsEXA1(x) => Self::lemma_digits_of(0xE, x as int, 0xA, 0x1),
            Instruction::InsFX07(x) => Self::lemma_digits_of(0xF, x as int, 0x0, 0x7),
            Instruction::InsFX0A(x) => Self::lemma_digits_of(0xF, x as int, 0x0, 0xA),
            Instruction::InsFX15(x) => Self::lemma_digits_of(0xF, x as int, 0x1, 0x5),
            Instruction::InsFX18(x) => Self::lemma_digits_of(0xF, x as int, 0x1, 0x8),
            Instruction::InsFX1E(x) => Self::lemma_digits_of(0xF, x as int, 0x1, 0xE),
            Instruction::InsFX29(x) => Self::lemma_digits_of(0xF, x as int, 0x2, 0x9),
            Instruction::InsFX33(x) => Self::lemma_digits_of(0xF, x as int, 0x3, 0x3),
            Instruction::InsFX55(x) => Self::lemma_digits_of(0xF, x as int, 0x5, 0x5),
            Instruction::InsFX65(x) => Self::lemma_digits_of(0xF, x as int, 0x6, 0x5),
        }
    }
}

impl TryFrom<u16> for Instruction {
    type Error = InstructionError;

    /// Decodes an opcode by the instruction table.
    fn try_from(opcode: u16) -> (out: Result<Self, InstructionError>)
        ensures
            out == Instruction::decode(opcode),
            out matches Ok(instruction) ==> instruction.well_formed() && instruction.encode()
                == opcode,
            out is Err ==> out == Err::<Instruction, InstructionError>(
                InstructionError::UnknownOpcode(opcode),
            ),
    {
        let (n1, n2, n3, n4) = Instruction::nibbles(opcode);
        match (n1, n2, n3, n4) {
            (0x0, 0x0, 0xE, 0x0) => Ok(Instruction::Ins00E0),
            (0x0, 0x0, 0xE, 0xE) => Ok(Instruction::Ins00EE),
            (0x1, _, _, _) => Ok(Instruction::Ins1NNN(Instruction::nnn(opcode))),
            (0x2, _, _, _) => Ok(Instruction::Ins2NNN(Instruction::nnn(opcode))),
            (0x3, _, _, _) => Ok(Instruction::Ins3XNN(n2, Instruction::nn(opcode))),
            (0x4, _, _, _) => Ok(Instruction::Ins4XNN(n2, Instruction::nn(opcode))),
            (0x5, _, _, 0x0) => Ok(Instruction::Ins5XY0(n2, n3)),
            (0x6, _, _, _) => Ok(Instruction::Ins6XNN(n2, Instruction::nn(opcode))),
            (0x7, _, _, _) => Ok(Instruction::Ins7XNN(n2, Instruction::nn(opcode))),
            (0x8, _, _, 0x0) => Ok(Instruction::Ins8XY0(n2, n3)),
            (0x8, _, _, 0x1) => Ok(Instruction::Ins8XY1(n2, n3)),
            (0x8, _, _, 0x2) => Ok(Instruction::Ins8XY2(n2, n3)),
            (0x8, _, _, 0x3) => Ok(Instruction::Ins8XY3(n2, n3)),
            (0x8, _, _, 0x4) => Ok(Instruction::Ins8XY4(n2, n3)),
            (0x8, _, _, 0x5) => Ok(Instruction::Ins8XY5(n2, n3)),
            (0x8, _, _, 0x6) => Ok(Instruction::Ins8XY6(n2, n3)),
            (0x8, _, _, 0x7) => Ok(Instruction::Ins8XY7(n2, n3)),
            (0x8, _, _, 0xE) => Ok(Instruction::Ins8XYE(n2, n3)),
            (0x9, _, _, 0x0) => Ok(Instruction::Ins9XY0(n2, n3)),
            (0xA, _, _, _) => Ok(Instruction::InsANNN(Instruction::nnn(opcode))),
            (0xB, _, _, _) => Ok(Instruction::InsBNNN(Instruction::nnn(opcode))),
            (0xC, _, _, _) => Ok(Instruction::InsCXNN(n2, Instruction::nn(opcode))),
            (0xD, _, _, _) => Ok(Instruction::InsDXYN(n2, n3, n4)),
            (0xE, _, 0x9, 0xE) => Ok(Instruction::InsEX9E(n2)),
            (0xE, _, 0xA, 0x1) => Ok(Instruction::InsEXA1(n2)),
            (0xF, _, 0x0, 0x7) => Ok(Instruction::InsFX07(n2)),
            (0xF, _, 0x0, 0xA) => Ok(Instruction::InsFX0A(n2)),
            (0xF, _, 0x1, 0x5) => Ok(Instruction::InsFX15(n2)),
            (0xF, _, 0x1, 0x8) => Ok(Instruction::InsFX18(n2)),
            (0xF, _, 0x1, 0xE) => Ok(Instruction::InsFX1E(n2)),
            (0xF, _, 0x2, 0x9) => Ok(Instruction::InsFX29(n2)),
            (0xF, _, 0x3, 0x3) => Ok(Instruction::InsFX33(n2)),
            (0xF, _, 0x5, 0x5) => Ok(Instruction::InsFX55(n2)),
            (0xF, _, 0x6, 0x5) => Ok(Instruction::InsFX65(n2)),
            _ => Err(InstructionError::UnknownOpcode(opcode)),
        }
    }
}

/// What `Instruction::try_from` returns: the table's answer, for every opcode.
impl TryFromSpecImpl<u16> for Instruction {
    open spec fn obeys_try_from_spec() -> bool {
        true
    }

    open spec fn try_from_spec(opcode: u16) -> Result<Self, InstructionError> {
        Instruction::decode(opcode)
    }
}

} // verus!
