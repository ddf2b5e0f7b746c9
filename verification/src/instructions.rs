use vstd::prelude::*;
use crate::Address;
use crate::Byte;

verus! {

/// The instruction set, as a closed sum type: one variant per opcode
/// pattern of the two-byte big-endian instruction word, each carrying only
/// the operand fields its semantics require (register indices, an 8-bit
/// immediate, a 12-bit address, or a nibble count).
#[derive(Clone, Copy, PartialEq, Eq, Structural, Debug)]
pub enum Instruction {
    /// 0nnn: jump to a machine code routine.  The pattern is recognized,
    /// but this core gives it no effect: executing it is reported as an
    /// unimplemented-opcode fault, never as a silent no-op.
    SYS { address: Address },
    /// 00E0: clear the display.
    CLS,
    /// 00EE: return from a subroutine; the program counter is popped from
    /// the stack.
    RTS,
    /// 1nnn: jump to the address.
    JMP { address: Address },
    /// 2nnn: call the subroutine at the address; the address of the
    /// instruction after the call is pushed on the stack.
    JSR { address: Address },
    /// 3xkk: skip the next instruction if Vx == kk.
    SE { reg_id: Byte, value: Byte },
    /// 4xkk: skip the next instruction if Vx != kk.
    SNE { reg_id: Byte, value: Byte },
    /// 5xy0: skip the next instruction if Vx == Vy.
    SEXY { x_reg_id: Byte, y_reg_id: Byte },
    /// 6xkk: Vx = kk.
    MOV { reg_id: Byte, value: Byte },
    /// 7xkk: Vx = (Vx + kk) mod 256; the flag register is untouched.
    ADD { reg_id: Byte, value: Byte },
    /// 8xy0: Vx = Vy.
    MOVXY { x_reg_id: Byte, y_reg_id: Byte },
    /// 8xy1: Vx |= Vy.
    ORXY { x_reg_id: Byte, y_reg_id: Byte },
    /// 8xy2: Vx &= Vy.
    ANDXY { x_reg_id: Byte, y_reg_id: Byte },
    /// 8xy3: Vx ^= Vy.
    XORXY { x_reg_id: Byte, y_reg_id: Byte },
    /// 8xy4: Vx = (Vx + Vy) mod 256; VF = 1 iff the untruncated sum
    /// exceeds 255, else 0.  The flag is written after the result, so on
    /// x == 0xF the carry is what remains in VF.
    ADDXY { x_reg_id: Byte, y_reg_id: Byte },
    /// 8xy5: Vx = (Vx - Vy) mod 256; VF = 1 iff a borrow occurs
    /// (Vx < Vy), else 0.  This core consistently sets the flag on
    /// borrow, the inverse of the other documented convention.
    SUBXY { x_reg_id: Byte, y_reg_id: Byte },
    /// 8xy6: VF = Vx & 1, then Vx >>= 1.
    SHR { reg_id: Byte },
    /// 8xy7: Vx = (Vy - Vx) mod 256; VF = 1 iff a borrow occurs
    /// (Vy < Vx), else 0, under the same convention as 8xy5.
    RSUBXY { x_reg_id: Byte, y_reg_id: Byte },
    /// 8xyE: VF = the most significant bit of Vx, then Vx <<= 1.
    SHL { reg_id: Byte },
    /// 9xy0: skip the next instruction if Vx != Vy.
    SNEXY { x_reg_id: Byte, y_reg_id: Byte },
    /// Annn: I = nnn.
    MOVI { address: Address },
    /// Bnnn: jump to nnn + V0.
    JMI { address: Address },
    /// Cxkk: Vx = random byte AND kk.
    RAND { reg_id: Byte, value: Byte },
    /// Dxyn: XOR-blit the n-byte sprite at I onto the display at
    /// (Vx, Vy); VF = 1 iff a pixel was cleared.
    DRW { x_reg_id: Byte, y_reg_id: Byte, value: Byte },
    /// Ex9E: skip the next instruction if the key Vx is pressed.
    SKP { reg_id: Byte },
    /// ExA1: skip the next instruction if the key Vx is not pressed.
    SKNP { reg_id: Byte },
    /// Fx07: Vx = delay timer.
    GDELAY { reg_id: Byte },
    /// Fx0A: wait for a key: while no key is pressed the program counter
    /// stays put, so the instruction runs again on the next tick; once a
    /// key is pressed, Vx = the lowest pressed key code.
    KEY { reg_id: Byte },
    /// Fx15: delay timer = Vx.
    SDELAY { reg_id: Byte },
    /// Fx18: sound timer = Vx.
    SSOUND { reg_id: Byte },
    /// Fx1E: I = (I + Vx) mod 4096; only the low 12 bits of the index
    /// register are meaningful.
    ADI { reg_id: Byte },
    /// Fx29: point I at the five-byte glyph sprite for the hex digit Vx.
    FONT { reg_id: Byte },
    /// Fx33: write the hundreds, tens and units digits of Vx to memory at
    /// I, I+1 and I+2; I itself is unchanged.
    BCD { reg_id: Byte },
    /// Fx55: store V0..=Vx to memory starting at I; I advances past the
    /// stored run.
    STR { reg_id: Byte },
    /// Fx65: load V0..=Vx from memory starting at I; I advances past the
    /// loaded run.
    LDR { reg_id: Byte },
}

impl Instruction {
    /// Every operand field is in range: register indices and nibble
    /// counts below 16, addresses below 4096.  Decoding only produces
    /// well-formed instructions.
    pub open spec fn wf(self) -> bool {
        match self {
            Instruction::SYS { address } => address < 0x1000,
            Instruction::CLS => true,
            Instruction::RTS => true,
            Instruction::JMP { address } => address < 0x1000,
            Instruction::JSR { address } => address < 0x1000,
            Instruction::SE { reg_id, value } => reg_id < 16,
            Instruction::SNE { reg_id, value } => reg_id < 16,
            Instruction::SEXY { x_reg_id, y_reg_id } => x_reg_id < 16 && y_reg_id < 16,
            Instruction::MOV { reg_id, value } => reg_id < 16,
            Instruction::ADD { reg_id, value } => reg_id < 16,
            Instruction::MOVXY { x_reg_id, y_reg_id } => x_reg_id < 16 && y_reg_id < 16,
            Instruction::ORXY { x_reg_id, y_reg_id } => x_reg_id < 16 && y_reg_id < 16,
            Instruction::ANDXY { x_reg_id, y_reg_id } => x_reg_id < 16 && y_reg_id < 16,
            Instruction::XORXY { x_reg_id, y_reg_id } => x_reg_id < 16 && y_reg_id < 16,
            Instruction::ADDXY { x_reg_id, y_reg_id } => x_reg_id < 16 && y_reg_id < 16,
            Instruction::SUBXY { x_reg_id, y_reg_id } => x_reg_id < 16 && y_reg_id < 16,
            Instruction::SHR { reg_id } => reg_id < 16,
            Instruction::RSUBXY { x_reg_id, y_reg_id } => x_reg_id < 16 && y_reg_id < 16,
            Instruction::SHL { reg_id } => reg_id < 16,
            Instruction::SNEXY { x_reg_id, y_reg_id } => x_reg_id < 16 && y_reg_id < 16,
            Instruction::MOVI { address } => address < 0x1000,
            Instruction::JMI { address } => address < 0x1000,
            Instruction::RAND { reg_id, value } => reg_id < 16,
            Instruction::DRW { x_reg_id, y_reg_id, value } => x_reg_id < 16 && y_reg_id < 16
                && value < 16,
            Instruction::SKP { reg_id } => reg_id < 16,
            Instruction::SKNP { reg_id } => reg_id < 16,
            Instruction::GDELAY { reg_id } => reg_id < 16,
            Instruction::KEY { reg_id } => reg_id < 16,
            Instruction::SDELAY { reg_id } => reg_id < 16,
            Instruction::SSOUND { reg_id } => reg_id < 16,
            Instruction::ADI { reg_id } => reg_id < 16,
            Instruction::FONT { reg_id } => reg_id < 16,
            Instruction::BCD { reg_id } => reg_id < 16,
            Instruction::STR { reg_id } => reg_id < 16,
            Instruction::LDR { reg_id } => reg_id < 16,
        }
    }
}

/// The byte immediate built from two nibbles: high * 16 + low.
pub open spec fn spec_two_nibbles(high: u8, low: u8) -> u8 {
    (16 * high + low) as u8
}

/// The 12-bit address built from three nibbles.
pub open spec fn spec_three_nibbles(high: u8, middle: u8, low: u8) -> u16 {
    (256 * high + 16 * middle + low) as u16
}

/// The decode table of the instruction set, over the four nibbles of the
/// instruction word, n3 the highest.  Families sharing a leading nibble
/// are told apart by their trailing nibble or byte; a pattern outside the
/// table decodes to `None`.
pub open spec fn decode_nibbles(n3: u8, n2: u8, n1: u8, n0: u8) -> Option<Instruction> {
    if n3 == 0x0 {
        if n2 == 0x0 && n1 == 0xE && n0 == 0x0 {
            Some(Instruction::CLS)
        } else if n2 == 0x0 && n1 == 0xE && n0 == 0xE {
            Some(Instruction::RTS)
        } else {
            Some(Instruction::SYS { address: spec_three_nibbles(n2, n1, n0) })
        }
    } else if n3 == 0x1 {
        Some(Instruction::JMP { address: spec_three_nibbles(n2, n1, n0) })
    } else if n3 == 0x2 {
        Some(Instruction::JSR { address: spec_three_nibbles(n2, n1, n0) })
    } else if n3 == 0x3 {
        Some(Instruction::SE { reg_id: n2, value: spec_two_nibbles(n1, n0) })
    } else if n3 == 0x4 {
        Some(Instruction::SNE { reg_id: n2, value: spec_two_nibbles(n1, n0) })
    } else if n3 == 0x5 {
        if n0 == 0x0 {
            Some(Instruction::SEXY { x_reg_id: n2, y_reg_id: n1 })
        } else {
            None
        }
    } else if n3 == 0x6 {
        Some(Instruction::MOV { reg_id: n2, value: spec_two_nibbles(n1, n0) })
    } else if n3 == 0x7 {
        Some(Instruction::ADD { reg_id: n2, value: spec_two_nibbles(n1, n0) })
    } else if n3 == 0x8 {
        if n0 == 0x0 {
            Some(Instruction::MOVXY { x_reg_id: n2, y_reg_id: n1 })
        } else if n0 == 0x1 {
            Some(Instruction::ORXY { x_reg_id: n2, y_reg_id: n1 })
        } else if n0 == 0x2 {
            Some(Instruction::ANDXY { x_reg_id: n2, y_reg_id: n1 })
        } else if n0 == 0x3 {
            Some(Instruction::XORXY { x_reg_id: n2, y_reg_id: n1 })
        } else if n0 == 0x4 {
            Some(Instruction::ADDXY { x_reg_id: n2, y_reg_id: n1 })
        } else if n0 == 0x5 {
            Some(Instruction::SUBXY { x_reg_id: n2, y_reg_id: n1 })
        } else if n0 == 0x6 {
            Some(Instruction::SHR { reg_id: n2 })
        } else if n0 == 0x7 {
            Some(Instruction::RSUBXY { x_reg_id: n2, y_reg_id: n1 })
        } else if n0 == 0xE {
            Some(Instruction::SHL { reg_id: n2 })
        } else {
            None
        }
    } else if n3 == 0x9 {
        if n0 == 0x0 {
            Some(Instruction::SNEXY { x_reg_id: n2, y_reg_id: n1 })
        } else {
            None
        }
    } else if n3 == 0xA {
        Some(Instruction::MOVI { address: spec_three_nibbles(n2, n1, n0) })
    } else if n3 == 0xB {
        Some(Instruction::JMI { address: spec_three_nibbles(n2, n1, n0) })
    } else if n3 == 0xC {
        Some(Instruction::RAND { reg_id: n2, value: spec_two_nibbles(n1, n0) })
    } else if n3 == 0xD {
        Some(Instruction::DRW { x_reg_id: n2, y_reg_id: n1, value: n0 })
    } else if n3 == 0xE {
        if n1 == 0x9 && n0 == 0xE {
            Some(Instruction::SKP { reg_id: n2 })
        } else if n1 == 0xA && n0 == 0x1 {
            Some(Instruction::SKNP { reg_id: n2 })
        } else {
            None
        }
    } else {
        if n1 == 0x0 && n0 == 0x7 {
            Some(Instruction::GDELAY { reg_id: n2 })
        } else if n1 == 0x0 && n0 == 0xA {
            Some(Instruction::KEY { reg_id: n2 })
        } else if n1 == 0x1 && n0 == 0x5 {
            Some(Instruction::SDELAY { reg_id: n2 })
        } else if n1 == 0x1 && n0 == 0x8 {
            Some(Instruction::SSOUND { reg_id: n2 })
        } else if n1 == 0x1 && n0 == 0xE {
            Some(Instruction::ADI { reg_id: n2 })
        } else if n1 == 0x2 && n0 == 0x9 {
            Some(Instruction::FONT { reg_id: n2 })
        } else if n1 == 0x3 && n0 == 0x3 {
            Some(Instruction::BCD { reg_id: n2 })
        } else if n1 == 0x5 && n0 == 0x5 {
            Some(Instruction::STR { reg_id: n2 })
        } else if n1 == 0x6 && n0 == 0x5 {
            Some(Instruction::LDR { reg_id: n2 })
        } else {
            None
        }
    }
}

/// What a 16-bit instruction word decodes to: the word is split into its
/// four nibbles, highest first, and looked up in the decode table.
pub open spec fn decode(code: u16) -> Option<Instruction> {
    decode_nibbles(
        ((code & 0xF000) >> 12) as u8,
        ((code & 0x0F00) >> 8) as u8,
        ((code & 0x00F0) >> 4) as u8,
        (code & 0x000F) as u8,
    )
}

impl Instruction {
    /// Decodes one instruction word.  Decoding is a pure function of the
    /// word: the result is exactly `decode(code)`, so the same word
    /// always yields the same instruction value, and an unmatched bit
    /// pattern yields `None`.
    pub fn parse_code(code: u16) -> (r: Option<Instruction>)
        ensures
            r == decode(code),
            r matches Some(i) ==> i.wf(),
    {
        let nibbles: [u8; 4] = [
            (code & 0x000F) as u8,
            ((code & 0x00F0) >> 4) as u8,
            ((code & 0x0F00) >> 8) as u8,
            ((code & 0xF000) >> 12) as u8,
        ];
        proof {
            assert((code & 0x000F) < 16 && ((code & 0x00F0) >> 4) < 16
                && ((code & 0x0F00) >> 8) < 16 && ((code & 0xF000) >> 12) < 16) by (bit_vector);
        }
        match_nibbles(&nibbles)
    }
}

/// Looks the four nibbles of an instruction word up in the decode table;
/// `nibbles[0]` is the lowest nibble of the word, `nibbles[3]` the
/// highest.
pub fn match_nibbles(nibbles: &[u8; 4]) -> (r: Option<Instruction>)
    requires
        forall|k: int| 0 <= k < 4 ==> nibbles[k] < 16,
    ensures
        r == decode_nibbles(nibbles[3], nibbles[2], nibbles[1], nibbles[0]),
        r matches Some(i) ==> i.wf(),
{
    let n0 = nibbles[0];
    let n1 = nibbles[1];
    let n2 = nibbles[2];
    let n3 = nibbles[3];
    if n3 == 0x0 {
        if n2 == 0x0 && n1 == 0xE && n0 == 0x0 {
            Some(Instruction::CLS)
        } else if n2 == 0x0 && n1 == 0xE && n0 == 0xE {
            Some(Instruction::RTS)
        } else {
            Some(Instruction::SYS { address: three_nibbles(n2, n1, n0) })
        }
    } else if n3 == 0x1 {
        Some(Instruction::JMP { address: three_nibbles(n2, n1, n0) })
    } else if n3 == 0x2 {
        Some(Instruction::JSR { address: three_nibbles(n2, n1, n0) })
    } else if n3 == 0x3 {
        Some(Instruction::SE { reg_id: n2, value: two_nibbles(n1, n0) })
    } else if n3 == 0x4 {
        Some(Instruction::SNE { reg_id: n2, value: two_nibbles(n1, n0) })
    } else if n3 == 0x5 {
        if n0 == 0x0 {
            Some(Instruction::SEXY { x_reg_id: n2, y_reg_id: n1 })
        } else {
            None
        }
    } else if n3 == 0x6 {
        Some(Instruction::MOV { reg_id: n2, value: two_nibbles(n1, n0) })
    } else if n3 == 0x7 {
        Some(Instruction::ADD { reg_id: n2, value: two_nibbles(n1, n0) })
    } else if n3 == 0x8 {
        if n0 == 0x0 {
            Some(Instruction::MOVXY { x_reg_id: n2, y_reg_id: n1 })
        } else if n0 == 0x1 {
            Some(Instruction::ORXY { x_reg_id: n2, y_reg_id: n1 })
        } else if n0 == 0x2 {
            Some(Instruction::ANDXY { x_reg_id: n2, y_reg_id: n1 })
        } else if n0 == 0x3 {
            Some(Instruction::XORXY { x_reg_id: n2, y_reg_id: n1 })
        } else if n0 == 0x4 {
            Some(Instruction::ADDXY { x_reg_id: n2, y_reg_id: n1 })
        } else if n0 == 0x5 {
            Some(Instruction::SUBXY { x_reg_id: n2, y_reg_id: n1 })
        } else if n0 == 0x6 {
            Some(Instruction::SHR { reg_id: n2 })
        } else if n0 == 0x7 {
            Some(Instruction::RSUBXY { x_reg_id: n2, y_reg_id: n1 })
        } else if n0 == 0xE {
            Some(Instruction::SHL { reg_id: n2 })
        } else {
            None
        }
    } else if n3 == 0x9 {
        if n0 == 0x0 {
            Some(Instruction::SNEXY { x_reg_id: n2, y_reg_id: n1 })
        } else {
            None
        }
    } else if n3 == 0xA {
        Some(Instruction::MOVI { address: three_nibbles(n2, n1, n0) })
    } else if n3 == 0xB {
        Some(Instruction::JMI { address: three_nibbles(n2, n1, n0) })
    } else if n3 == 0xC {
        Some(Instruction::RAND { reg_id: n2, value: two_nibbles(n1, n0) })
    } else if n3 == 0xD {
        Some(Instruction::DRW { x_reg_id: n2, y_reg_id: n1, value: n0 })
    } else if n3 == 0xE {
        if n1 == 0x9 && n0 == 0xE {
            Some(Instruction::SKP { reg_id: n2 })
        } else if n1 == 0xA && n0 == 0x1 {
            Some(Instruction::SKNP { reg_id: n2 })
        } else {
            None
        }
    } else {
        if n1 == 0x0 && n0 == 0x7 {
            Some(Instruction::GDELAY { reg_id: n2 })
        } else if n1 == 0x0 && n0 == 0xA {
            Some(Instruction::KEY { reg_id: n2 })
        } else if n1 == 0x1 && n0 == 0x5 {
            Some(Instruction::SDELAY { reg_id: n2 })
        } else if n1 == 0x1 && n0 == 0x8 {
            Some(Instruction::SSOUND { reg_id: n2 })
        } else if n1 == 0x1 && n0 == 0xE {
            Some(Instruction::ADI { reg_id: n2 })
        } else if n1 == 0x2 && n0 == 0x9 {
            Some(Instruction::FONT { reg_id: n2 })
        } else if n1 == 0x3 && n0 == 0x3 {
            Some(Instruction::BCD { reg_id: n2 })
        } else if n1 == 0x5 && n0 == 0x5 {
            Some(Instruction::STR { reg_id: n2 })
        } else if n1 == 0x6 && n0 == 0x5 {
            Some(Instruction::LDR { reg_id: n2 })
        } else {
            None
        }
    }
}

/// The byte immediate of a `kk` operand: `high` and `low` are the two
/// nibbles of the byte.
pub fn two_nibbles(high: u8, low: u8) -> (r: u8)
    requires
        high < 16,
        low < 16,
    ensures
        r == spec_two_nibbles(high, low),
        r == 16 * high + low,
{
    16 * high + low
}

/// The 12-bit address of an `nnn` operand, from its three nibbles.
pub fn three_nibbles(high: u8, middle: u8, low: u8) -> (r: u16)
    requires
        high < 16,
        middle < 16,
        low < 16,
    ensures
        r == spec_three_nibbles(high, middle, low),
        r == 256 * high + 16 * middle + low,
        r < 0x1000,
{
    256 * (high as u16) + 16 * (middle as u16) + (low as u16)
}

} // verus!
