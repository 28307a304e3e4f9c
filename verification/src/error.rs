use vstd::prelude::*;
use vstd::string::StringExecFns;

verus! {

/// Why an opcode could not be turned into an instruction.
#[derive(Clone, Copy, Debug, PartialEq, Eq, Structural)]
pub enum InstructionError {
    /// The opcode matches no entry of the instruction table; the raw opcode is
    /// carried along for diagnostics.
    UnknownOpcode(u16),
}

/// The characters that write the hexadecimal digits, in lower case.
pub open spec fn hex_digits() -> Seq<char> {
    seq!['0', '1', '2', '3', '4', '5', '6', '7', '8', '9', 'a', 'b', 'c', 'd', 'e', 'f']
}

/// A 16-bit value written as four hexadecimal digits, leading zeros kept.
pub open spec fn hex_text(value: u16) -> Seq<char> {
    seq![
        hex_digits()[value as int / 0x1000],
        hex_digits()[value as int / 0x100 % 0x10],
        hex_digits()[value as int / 0x10 % 0x10],
        hex_digits()[value as int % 0x10],
    ]
}

/// One hexadecimal digit as text.
fn hex_digit(digit: u16) -> (out: &'static str)
    requires
        digit < 0x10,
    ensures
        out@ == seq![hex_digits()[digit as int]],
{
    proof {
        reveal_strlit("0");
        reveal_strlit("1");
        reveal_strlit("2");
        reveal_strlit("3");
        reveal_strlit("4");
        reveal_strlit("5");
        reveal_strlit("6");
        reveal_strlit("7");
        reveal_strlit("8");
        reveal_strlit("9");
        reveal_strlit("a");
        reveal_strlit("b");
        reveal_strlit("c");
        reveal_strlit("d");
        reveal_strlit("e");
        reveal_strlit("f");
    }
    match digit {
        0x0 => "0",
        0x1 => "1",
        0x2 => "2",
        0x3 => "3",
        0x4 => "4",
        0x5 => "5",
        0x6 => "6",
        0x7 => "7",
        0x8 => "8",
        0x9 => "9",
        0xA => "a",
        0xB => "b",
        0xC => "c",
        0xD => "d",
        0xE => "e",
        _ => "f",
    }
}

impl InstructionError {
    /// The text of the error: the variant's name and, in brackets, the opcode
    /// as four hexadecimal digits.
    pub open spec fn message_text(self) -> Seq<char> {
        match self {
            InstructionError::UnknownOpcode(opcode) => "UnknownOpcode("@ + hex_text(opcode) + ")"@,
        }
    }

    /// Writes the error out for a diagnostic, as in `UnknownOpcode(5cd1)`.
    pub fn message(&self) -> (out: String)
        ensures
            out@ == self.message_text(),
    {
        match self {
            InstructionError::UnknownOpcode(opcode) => {
                let mut out = String::from_str("UnknownOpcode(");
                out.append(hex_digit(*opcode / 0x1000));
                out.append(hex_digit(*opcode / 0x100 % 0x10));
                out.append(hex_digit(*opcode / 0x10 % 0x10));
                out.append(hex_digit(*opcode % 0x10));
                out.append(")");
                out
            },
        }
    }
}

} // verus!
