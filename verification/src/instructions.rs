//! The instruction set: operand widths, opcodes and system calls, with the
//! numbers and names by which the assembler and the machine know them.

use vstd::prelude::*;
use vstd::string::*;

verus! {

/// The operand width of a sized instruction.
#[derive(Clone, Copy, Debug, PartialEq, Eq, Structural)]
pub enum Width {
    Byte,
    Short,
    Int,
    Long,
}

impl Width {
    /// The number of bytes of an operand of this width.
    pub open spec fn bytes(self) -> int {
        match self {
            Width::Byte => 1,
            Width::Short => 2,
            Width::Int => 4,
            Width::Long => 8,
        }
    }

    /// The number of values of this width: 256 to the power `bytes()`.
    pub open spec fn modulus(self) -> int {
        match self {
            Width::Byte => 0x100,
            Width::Short => 0x1_0000,
            Width::Int => 0x1_0000_0000,
            Width::Long => 0x1_0000_0000_0000_0000,
        }
    }

    /// The place of this width among the four variants of a sized family.
    pub open spec fn position(self) -> int {
        match self {
            Width::Byte => 0,
            Width::Short => 1,
            Width::Int => 2,
            Width::Long => 3,
        }
    }

    /// The width at a place among the four: the inverse of `position`.
    pub open spec fn at(place: int) -> Width {
        if place <= 0 {
            Width::Byte
        } else if place == 1 {
            Width::Short
        } else if place == 2 {
            Width::Int
        } else {
            Width::Long
        }
    }

    /// The suffix that names this width in an instruction's name.
    pub open spec fn spec_suffix(self) -> Seq<char> {
        match self {
            Width::Byte => "Byte"@,
            Width::Short => "Short"@,
            Width::Int => "Int"@,
            Width::Long => "Long"@,
        }
    }

    pub fn size(self) -> (n: usize)
        ensures
            n == self.bytes(),
    {
        match self {
            Width::Byte => 1,
            Width::Short => 2,
            Width::Int => 4,
            Width::Long => 8,
        }
    }

    pub fn suffix(self) -> (s: &'static str)
        ensures
            s@ == self.spec_suffix(),
    {
        match self {
            Width::Byte => "Byte",
            Width::Short => "Short",
            Width::Int => "Int",
            Width::Long => "Long",
        }
    }

    fn index(self) -> (i: u16)
        ensures
            i == self.position(),
    {
        match self {
            Width::Byte => 0,
            Width::Short => 1,
            Width::Int => 2,
            Width::Long => 3,
        }
    }

    fn from_index(i: u16) -> (w: Width)
        requires
            i < 4,
        ensures
            w == Width::at(i as int),
    {
        if i == 0 {
            Width::Byte
        } else if i == 1 {
            Width::Short
        } else if i == 2 {
            Width::Int
        } else {
            Width::Long
        }
    }
}

/// An opcode. A sized family has one opcode for each width; the opcodes are
/// numbered in the order written here, the four widths of a family in a row.
#[derive(Clone, Copy, Debug, PartialEq, Eq, Structural)]
pub enum Instructions {
    Halt,
    NoOperation,
    SysCall,
    LoadRegister(Width),
    AddRegisters(Width),
    SubtractRegisters(Width),
    AddRegisterImmediate(Width),
    SubtractRegisterImmediate(Width),
    IncrementRegister,
    DecrementRegister,
    CompareRegister(Width),
    CompareRegisterLiteral(Width),
    JumpTo,
    JumpIfEqualTo,
    JumpIfGreaterThan,
    JumpIfLessThan,
    JumpIfZero,
    MoveRegisters(Width),
    PushRegister(Width),
    PopRegister(Width),
    MoveMemoryRegister(Width),
    MoveRegisterMemory(Width),
    PushMemory(Width),
    PopMemory(Width),
    BitwiseAndRegisters(Width),
    BitwiseOrRegisters(Width),
    BitwiseXOrRegisters(Width),
    BitwiseNotRegister(Width),
    BitwiseAndRegisterImmediate(Width),
    BitwiseOrRegisterImmediate(Width),
    BitwiseXOrRegisterImmediate(Width),
    MoveAddressedRegisterRegister(Width),
    MoveRegisterAddressedRegister(Width),
    MoveAddressedRegisters(Width),
}

/// The number of opcodes; every opcode's number is below it.
pub const INSTRUCTION_COUNT: u16 = 106;

impl Instructions {
    /// The number of the first opcode of this opcode's family.
    pub open spec fn spec_base(self) -> int {
        match self {
            Instructions::Halt => 0,
            Instructions::NoOperation => 1,
            Instructions::SysCall => 2,
            Instructions::LoadRegister(_) => 3,
            Instructions::AddRegisters(_) => 7,
            Instructions::SubtractRegisters(_) => 11,
            Instructions::AddRegisterImmediate(_) => 15,
            Instructions::SubtractRegisterImmediate(_) => 19,
            Instructions::IncrementRegister => 23,
            Instructions::DecrementRegister => 24,
            Instructions::CompareRegister(_) => 25,
            Instructions::CompareRegisterLiteral(_) => 29,
            Instructions::JumpTo => 33,
            Instructions::JumpIfEqualTo => 34,
            Instructions::JumpIfGreaterThan => 35,
            Instructions::JumpIfLessThan => 36,
            Instructions::JumpIfZero => 37,
            Instructions::MoveRegisters(_) => 38,
            Instructions::PushRegister(_) => 42,
            Instructions::PopRegister(_) => 46,
            Instructions::MoveMemoryRegister(_) => 50,
            Instructions::MoveRegisterMemory(_) => 54,
            Instructions::PushMemory(_) => 58,
            Instructions::PopMemory(_) => 62,
            Instructions::BitwiseAndRegisters(_) => 66,
            Instructions::BitwiseOrRegisters(_) => 70,
            Instructions::BitwiseXOrRegisters(_) => 74,
            Instructions::BitwiseNotRegister(_) => 78,
            Instructions::BitwiseAndRegisterImmediate(_) => 82,
            Instructions::BitwiseOrRegisterImmediate(_) => 86,
            Instructions::BitwiseXOrRegisterImmediate(_) => 90,
            Instructions::MoveAddressedRegisterRegister(_) => 94,
            Instructions::MoveRegisterAddressedRegister(_) => 98,
            Instructions::MoveAddressedRegisters(_) => 102,
        }
    }

    /// The width of a sized opcode.
    pub open spec fn spec_width(self) -> Option<Width> {
        match self {
            Instructions::LoadRegister(w) => Some(w),
            Instructions::AddRegisters(w) => Some(w),
            Instructions::SubtractRegisters(w) => Some(w),
            Instructions::AddRegisterImmediate(w) => Some(w),
            Instructions::SubtractRegisterImmediate(w) => Some(w),
            Instructions::CompareRegister(w) => Some(w),
            Instructions::CompareRegisterLiteral(w) => Some(w),
            Instructions::MoveRegisters(w) => Some(w),
            Instructions::PushRegister(w) => Some(w),
            Instructions::PopRegister(w) => Some(w),
            Instructions::MoveMemoryRegister(w) => Some(w),
            Instructions::MoveRegisterMemory(w) => Some(w),
            Instructions::PushMemory(w) => Some(w),
            Instructions::PopMemory(w) => Some(w),
            Instructions::BitwiseAndRegisters(w) => Some(w),
            Instructions::BitwiseOrRegisters(w) => Some(w),
            Instructions::BitwiseXOrRegisters(w) => Some(w),
            Instructions::BitwiseNotRegister(w) => Some(w),
            Instructions::BitwiseAndRegisterImmediate(w) => Some(w),
            Instructions::BitwiseOrRegisterImmediate(w) => Some(w),
            Instructions::BitwiseXOrRegisterImmediate(w) => Some(w),
            Instructions::MoveAddressedRegisterRegister(w) => Some(w),
            Instructions::MoveRegisterAddressedRegister(w) => Some(w),
            Instructions::MoveAddressedRegisters(w) => Some(w),
            _ => None,
        }
    }

    /// The family's name, without the width.
    pub open spec fn spec_family_name(self) -> Seq<char> {
        match self {
            Instructions::Halt => "Halt"@,
            Instructions::NoOperation => "NoOperation"@,
            Instructions::SysCall => "SysCall"@,
            Instructions::LoadRegister(_) => "LoadRegister"@,
            Instructions::AddRegisters(_) => "AddRegisters"@,
            Instructions::SubtractRegisters(_) => "SubtractRegisters"@,
            Instructions::AddRegisterImmediate(_) => "AddRegisterImmediate"@,
            Instructions::SubtractRegisterImmediate(_) => "SubtractRegisterImmediate"@,
            Instructions::IncrementRegister => "IncrementRegister"@,
            Instructions::DecrementRegister => "DecrementRegister"@,
            Instructions::CompareRegister(_) => "CompareRegister"@,
            Instructions::CompareRegisterLiteral(_) => "CompareRegisterLiteral"@,
            Instructions::JumpTo => "JumpTo"@,
            Instructions::JumpIfEqualTo => "JumpIfEqualTo"@,
            Instructions::JumpIfGreaterThan => "JumpIfGreaterThan"@,
            Instructions::JumpIfLessThan => "JumpIfLessThan"@,
            Instructions::JumpIfZero => "JumpIfZero"@,
            Instructions::MoveRegisters(_) => "MoveRegisters"@,
            Instructions::PushRegister(_) => "PushRegister"@,
            Instructions::PopRegister(_) => "PopRegister"@,
            Instructions::MoveMemoryRegister(_) => "MoveMemoryRegister"@,
            Instructions::MoveRegisterMemory(_) => "MoveRegisterMemory"@,
            Instructions::PushMemory(_) => "PushMemory"@,
            Instructions::PopMemory(_) => "PopMemory"@,
            Instructions::BitwiseAndRegisters(_) => "BitwiseAndRegisters"@,
            Instructions::BitwiseOrRegisters(_) => "BitwiseOrRegisters"@,
            Instructions::BitwiseXOrRegisters(_) => "BitwiseXOrRegisters"@,
            Instructions::BitwiseNotRegister(_) => "BitwiseNotRegister"@,
            Instructions::BitwiseAndRegisterImmediate(_) => "BitwiseAndRegisterImmediate"@,
            Instructions::BitwiseOrRegisterImmediate(_) => "BitwiseOrRegisterImmediate"@,
            Instructions::BitwiseXOrRegisterImmediate(_) => "BitwiseXOrRegisterImmediate"@,
            Instructions::MoveAddressedRegisterRegister(_) => "MoveAddressedRegisterRegister"@,
            Instructions::MoveRegisterAddressedRegister(_) => "MoveRegisterAddressedRegister"@,
            Instructions::MoveAddressedRegisters(_) => "MoveAddressedRegisters"@,
        }
    }

    /// The opcode's number: the family's first number plus the width's place.
    pub open spec fn spec_code(self) -> int {
        match self.spec_width() {
            Some(w) => self.spec_base() + w.position(),
            None => self.spec_base(),
        }
    }

    /// The opcode's name in source text: the family's name, then the width.
    pub open spec fn spec_name(self) -> Seq<char> {
        match self.spec_width() {
            Some(w) => self.spec_family_name() + w.spec_suffix(),
            None => self.spec_family_name(),
        }
    }

    /// The opcode numbered `code`, for a `code` below `INSTRUCTION_COUNT`.
    pub open spec fn spec_from_code(code: int) -> Instructions {
        if code <= 0 {
            Instructions::Halt
        } else if code <= 1 {
            Instructions::NoOperation
        } else if code <= 2 {
            Instructions::SysCall
        } else if code < 7 {
            Instructions::LoadRegister(Width::at(code - 3))
        } else if code < 11 {
            Instructions::AddRegisters(Width::at(code - 7))
        } else if code < 15 {
            Instructions::SubtractRegisters(Width::at(code - 11))
        } else if code < 19 {
            Instructions::AddRegisterImmediate(Width::at(code - 15))
        } else if code < 23 {
            Instructions::SubtractRegisterImmediate(Width::at(code - 19))
        } else if code <= 23 {
            Instructions::IncrementRegister
        } else if code <= 24 {
            Instructions::DecrementRegister
        } else if code < 29 {
            Instructions::CompareRegister(Width::at(code - 25))
        } else if code < 33 {
            Instructions::CompareRegisterLiteral(Width::at(code - 29))
        } else if code <= 33 {
            Instructions::JumpTo
        } else if code <= 34 {
            Instructions::JumpIfEqualTo
        } else if code <= 35 {
            Instructions::JumpIfGreaterThan
        } else if code <= 36 {
            Instructions::JumpIfLessThan
        } else if code <= 37 {
            Instructions::JumpIfZero
        } else if code < 42 {
            Instructions::MoveRegisters(Width::at(code - 38))
        } else if code < 46 {
            Instructions::PushRegister(Width::at(code - 42))
        } else if code < 50 {
            Instructions::PopRegister(Width::at(code - 46))
        } else if code < 54 {
            Instructions::MoveMemoryRegister(Width::at(code - 50))
        } else if code < 58 {
            Instructions::MoveRegisterMemory(Width::at(code - 54))
        } else if code < 62 {
            Instructions::PushMemory(Width::at(code - 58))
        } else if code < 66 {
            Instructions::PopMemory(Width::at(code - 62))
        } else if code < 70 {
            Instructions::BitwiseAndRegisters(Width::at(code - 66))
        } else if code < 74 {
            Instructions::BitwiseOrRegisters(Width::at(code - 70))
        } else if code < 78 {
            Instructions::BitwiseXOrRegisters(Width::at(code - 74))
        } else if code < 82 {
            Instructions::BitwiseNotRegister(Width::at(code - 78))
        } else if code < 86 {
            Instructions::BitwiseAndRegisterImmediate(Width::at(code - 82))
        } else if code < 90 {
            Instructions::BitwiseOrRegisterImmediate(Width::at(code - 86))
        } else if code < 94 {
            Instructions::BitwiseXOrRegisterImmediate(Width::at(code - 90))
        } else if code < 98 {
            Instructions::MoveAddressedRegisterRegister(Width::at(code - 94))
        } else if code < 102 {
            Instructions::MoveRegisterAddressedRegister(Width::at(code - 98))
        } else {
            Instructions::MoveAddressedRegisters(Width::at(code - 102))
        }
    }

    /// The first opcode, by number from `from` on, that is named `name`.
    pub open spec fn first_named(name: Seq<char>, from: int) -> Option<Instructions>
        decreases INSTRUCTION_COUNT - from,
    {
        if from < 0 || from >= INSTRUCTION_COUNT {
            None
        } else if Self::spec_from_code(from).spec_name() == name {
            Some(Self::spec_from_code(from))
        } else {
            Self::first_named(name, from + 1)
        }
    }

    /// The opcode named `name`, if there is one.
    pub open spec fn spec_from_name(name: Seq<char>) -> Option<Instructions> {
        Self::first_named(name, 0)
    }

    /// Every opcode's number is below `INSTRUCTION_COUNT`, and the opcode is
    /// found again from its number.
    #[verifier::spinoff_prover]
    pub proof fn code_round_trip(op: Instructions)
        ensures
            0 <= op.spec_code() < INSTRUCTION_COUNT,
            Self::spec_from_code(op.spec_code()) == op,
    {
        match op.spec_width() {
            Some(w) => {
                let place = w.position();
                assert(0 <= place < 4 && Width::at(place) == w);
                assert(op.spec_code() == op.spec_base() + place);
            },
            None => {
                assert(op.spec_code() == op.spec_base());
            },
        }
    }

    /// Two opcodes with the same number are the same opcode.
    pub proof fn code_is_injective(a: Instructions, b: Instructions)
        requires
            a.spec_code() == b.spec_code(),
        ensures
            a == b,
    {
        Self::code_round_trip(a);
        Self::code_round_trip(b);
    }

    /// Every number below `INSTRUCTION_COUNT` is the number of the opcode
    /// found from it.
    pub proof fn from_code_round_trip(code: int)
        requires
            0 <= code < INSTRUCTION_COUNT,
        ensures
            Self::spec_from_code(code).spec_code() == code,
    {
        let op = Self::spec_from_code(code);
        match op.spec_width() {
            Some(w) => {
                assert(Width::at(code - op.spec_base()).position() == code - op.spec_base());
            },
            None => {},
        }
    }

    /// Two opcodes whose families have the same name are of the same family.
    proof fn family_names_differ(a: Instructions, b: Instructions)
        requires
            a.spec_family_name() == b.spec_family_name(),
        ensures
            a.spec_base() == b.spec_base(),
    {
        reveal_strlit("Halt");
        reveal_strlit("NoOperation");
        reveal_strlit("SysCall");
        reveal_strlit("LoadRegister");
        reveal_strlit("AddRegisters");
        reveal_strlit("SubtractRegisters");
        reveal_strlit("AddRegisterImmediate");
        reveal_strlit("SubtractRegisterImmediate");
        reveal_strlit("IncrementRegister");
        reveal_strlit("DecrementRegister");
        reveal_strlit("CompareRegister");
        reveal_strlit("CompareRegisterLiteral");
        reveal_strlit("JumpTo");
        reveal_strlit("JumpIfEqualTo");
        reveal_strlit("JumpIfGreaterThan");
        reveal_strlit("JumpIfLessThan");
        reveal_strlit("JumpIfZero");
        reveal_strlit("MoveRegisters");
        reveal_strlit("PushRegister");
        reveal_strlit("PopRegister");
        reveal_strlit("MoveMemoryRegister");
        reveal_strlit("MoveRegisterMemory");
        reveal_strlit("PushMemory");
        reveal_strlit("PopMemory");
        reveal_strlit("BitwiseAndRegisters");
        reveal_strlit("BitwiseOrRegisters");
        reveal_strlit("BitwiseXOrRegisters");
        reveal_strlit("BitwiseNotRegister");
        reveal_strlit("BitwiseAndRegisterImmediate");
        reveal_strlit("BitwiseOrRegisterImmediate");
        reveal_strlit("BitwiseXOrRegisterImmediate");
        reveal_strlit("MoveAddressedRegisterRegister");
        reveal_strlit("MoveRegisterAddressedRegister");
        reveal_strlit("MoveAddressedRegisters");
        assert("Halt"@.len() == 4 && "Halt"@[0] == 'H');
        assert("NoOperation"@.len() == 11 && "NoOperation"@[0] == 'N' && "NoOperation"@[7] == 't');
        assert("SysCall"@.len() == 7 && "SysCall"@[0] == 'S');
        assert("LoadRegister"@.len() == 12 && "LoadRegister"@[0] == 'L'
            && "LoadRegister"@[7] == 'i');
        assert("AddRegisters"@.len() == 12 && "AddRegisters"@[0] == 'A'
            && "AddRegisters"@[7] == 's');
        assert("SubtractRegisters"@.len() == 17 && "SubtractRegisters"@[0] == 'S'
            && "SubtractRegisters"@[7] == 't');
        assert("AddRegisterImmediate"@.len() == 20 && "AddRegisterImmediate"@[0] == 'A'
            && "AddRegisterImmediate"@[7] == 's');
        assert("SubtractRegisterImmediate"@.len() == 25 && "SubtractRegisterImmediate"@[0] == 'S'
            && "SubtractRegisterImmediate"@[7] == 't');
        assert("IncrementRegister"@.len() == 17 && "IncrementRegister"@[0] == 'I'
            && "IncrementRegister"@[7] == 'n');
        assert("DecrementRegister"@.len() == 17 && "DecrementRegister"@[0] == 'D'
            && "DecrementRegister"@[7] == 'n');
        assert("CompareRegister"@.len() == 15 && "CompareRegister"@[0] == 'C'
            && "CompareRegister"@[7] == 'R');
        assert("CompareRegisterLiteral"@.len() == 22 && "CompareRegisterLiteral"@[0] == 'C'
            && "CompareRegisterLiteral"@[7] == 'R');
        assert("JumpTo"@.len() == 6 && "JumpTo"@[0] == 'J');
        assert("JumpIfEqualTo"@.len() == 13 && "JumpIfEqualTo"@[0] == 'J'
            && "JumpIfEqualTo"@[7] == 'q');
        assert("JumpIfGreaterThan"@.len() == 17 && "JumpIfGreaterThan"@[0] == 'J'
            && "JumpIfGreaterThan"@[7] == 'r');
        assert("JumpIfLessThan"@.len() == 14 && "JumpIfLessThan"@[0] == 'J'
            && "JumpIfLessThan"@[7] == 'e');
        assert("JumpIfZero"@.len() == 10 && "JumpIfZero"@[0] == 'J' && "JumpIfZero"@[7] == 'e');
        assert("MoveRegisters"@.len() == 13 && "MoveRegisters"@[0] == 'M'
            && "MoveRegisters"@[7] == 'i');
        assert("PushRegister"@.len() == 12 && "PushRegister"@[0] == 'P'
            && "PushRegister"@[7] == 'i');
        assert("PopRegister"@.len() == 11 && "PopRegister"@[0] == 'P' && "PopRegister"@[7] == 's');
        assert("MoveMemoryRegister"@.len() == 18 && "MoveMemoryRegister"@[0] == 'M'
            && "MoveMemoryRegister"@[7] == 'o');
        assert("MoveRegisterMemory"@.len() == 18 && "MoveRegisterMemory"@[0] == 'M'
            && "MoveRegisterMemory"@[7] == 'i');
        assert("PushMemory"@.len() == 10 && "PushMemory"@[0] == 'P' && "PushMemory"@[7] == 'o');
        assert("PopMemory"@.len() == 9 && "PopMemory"@[0] == 'P' && "PopMemory"@[7] == 'r');
        assert("BitwiseAndRegisters"@.len() == 19 && "BitwiseAndRegisters"@[0] == 'B'
            && "BitwiseAndRegisters"@[7] == 'A');
        assert("BitwiseOrRegisters"@.len() == 18 && "BitwiseOrRegisters"@[0] == 'B'
            && "BitwiseOrRegisters"@[7] == 'O');
        assert("BitwiseXOrRegisters"@.len() == 19 && "BitwiseXOrRegisters"@[0] == 'B'
            && "BitwiseXOrRegisters"@[7] == 'X');
        assert("BitwiseNotRegister"@.len() == 18 && "BitwiseNotRegister"@[0] == 'B'
            && "BitwiseNotRegister"@[7] == 'N');
        assert("BitwiseAndRegisterImmediate"@.len() == 27
            && "BitwiseAndRegisterImmediate"@[0] == 'B'
            && "BitwiseAndRegisterImmediate"@[7] == 'A');
        assert("BitwiseOrRegisterImmediate"@.len() == 26 && "BitwiseOrRegisterImmediate"@[0] == 'B'
            && "BitwiseOrRegisterImmediate"@[7] == 'O');
        assert("BitwiseXOrRegisterImmediate"@.len() == 27
            && "BitwiseXOrRegisterImmediate"@[0] == 'B'
            && "BitwiseXOrRegisterImmediate"@[7] == 'X');
        assert("MoveAddressedRegisterRegister"@.len() == 29
            && "MoveAddressedRegisterRegister"@[0] == 'M'
            && "MoveAddressedRegisterRegister"@[7] == 'r');
        assert("MoveRegisterAddressedRegister"@.len() == 29
            && "MoveRegisterAddressedRegister"@[0] == 'M'
            && "MoveRegisterAddressedRegister"@[7] == 'i');
        assert("MoveAddressedRegisters"@.len() == 22 && "MoveAddressedRegisters"@[0] == 'M'
            && "MoveAddressedRegisters"@[7] == 'r');
    }

    /// The last two characters of a width's suffix tell the width.
    proof fn suffix_ends(w: Width)
        ensures
            w.spec_suffix().len() >= 3,
            w.spec_suffix().last() == (match w {
                Width::Byte => 'e',
                Width::Short => 't',
                Width::Int => 't',
                Width::Long => 'g',
            }),
            w.spec_suffix()[w.spec_suffix().len() - 2] == (match w {
                Width::Byte => 't',
                Width::Short => 'r',
                Width::Int => 'n',
                Width::Long => 'n',
            }),
    {
        reveal_strlit("Byte");
        reveal_strlit("Short");
        reveal_strlit("Int");
        reveal_strlit("Long");
        assert("Byte"@.len() == 4 && "Byte"@[3] == 'e' && "Byte"@[2] == 't');
        assert("Short"@.len() == 5 && "Short"@[4] == 't' && "Short"@[3] == 'r');
        assert("Int"@.len() == 3 && "Int"@[2] == 't' && "Int"@[1] == 'n');
        assert("Long"@.len() == 4 && "Long"@[3] == 'g' && "Long"@[2] == 'n');
    }

    /// The name of an opcode without a width does not end as a width's
    /// suffix does.
    proof fn unsized_name_ends(op: Instructions, w: Width)
        requires
            op.spec_width() is None,
        ensures
            op.spec_name().len() >= 2,
            op.spec_name().last() != w.spec_suffix().last() || op.spec_name()[op.spec_name().len()
                - 2] != w.spec_suffix()[w.spec_suffix().len() - 2],
    {
        Self::suffix_ends(w);
        reveal_strlit("Halt");
        reveal_strlit("NoOperation");
        reveal_strlit("SysCall");
        reveal_strlit("IncrementRegister");
        reveal_strlit("DecrementRegister");
        reveal_strlit("JumpTo");
        reveal_strlit("JumpIfEqualTo");
        reveal_strlit("JumpIfGreaterThan");
        reveal_strlit("JumpIfLessThan");
        reveal_strlit("JumpIfZero");
        assert("Halt"@.len() == 4 && "Halt"@[3] == 't' && "Halt"@[2] == 'l');
        assert("NoOperation"@.len() == 11 && "NoOperation"@[10] == 'n' && "NoOperation"@[9] == 'o');
        assert("SysCall"@.len() == 7 && "SysCall"@[6] == 'l' && "SysCall"@[5] == 'l');
        assert("IncrementRegister"@.len() == 17 && "IncrementRegister"@[16] == 'r'
            && "IncrementRegister"@[15] == 'e');
        assert("DecrementRegister"@.len() == 17 && "DecrementRegister"@[16] == 'r'
            && "DecrementRegister"@[15] == 'e');
        assert("JumpTo"@.len() == 6 && "JumpTo"@[5] == 'o' && "JumpTo"@[4] == 'T');
        assert("JumpIfEqualTo"@.len() == 13 && "JumpIfEqualTo"@[12] == 'o'
            && "JumpIfEqualTo"@[11] == 'T');
        assert("JumpIfGreaterThan"@.len() == 17 && "JumpIfGreaterThan"@[16] == 'n'
            && "JumpIfGreaterThan"@[15] == 'a');
        assert("JumpIfLessThan"@.len() == 14 && "JumpIfLessThan"@[13] == 'n'
            && "JumpIfLessThan"@[12] == 'a');
        assert("JumpIfZero"@.len() == 10 && "JumpIfZero"@[9] == 'o' && "JumpIfZero"@[8] == 'r');
    }

    /// Two opcodes with the same name are the same opcode.
    pub proof fn name_is_injective(a: Instructions, b: Instructions)
        requires
            a.spec_name() == b.spec_name(),
        ensures
            a == b,
    {
        match (a.spec_width(), b.spec_width()) {
            (None, None) => {
                Self::family_names_differ(a, b);
            },
            (Some(wa), None) => {
                Self::suffix_ends(wa);
                Self::unsized_name_ends(b, wa);
            },
            (None, Some(wb)) => {
                Self::suffix_ends(wb);
                Self::unsized_name_ends(a, wb);
            },
            (Some(wa), Some(wb)) => {
                Self::suffix_ends(wa);
                Self::suffix_ends(wb);
                let fa = a.spec_family_name();
                let fb = b.spec_family_name();
                let sa = wa.spec_suffix();
                let sb = wb.spec_suffix();
                assert((fb + sb).last() == sb.last());
                assert((fb + sb)[(fb + sb).len() - 2] == sb[sb.len() - 2]);
                assert(fa =~= (fa + sa).subrange(0, fa.len() as int));
                assert(fb =~= (fb + sb).subrange(0, fb.len() as int));
                Self::family_names_differ(a, b);
            },
        }
        Self::code_round_trip(a);
        Self::code_round_trip(b);
    }

    /// An opcode is the first with its name from any number up to its own.
    proof fn first_named_finds(op: Instructions, from: int)
        requires
            0 <= from <= op.spec_code(),
        ensures
            Self::first_named(op.spec_name(), from) == Some(op),
        decreases op.spec_code() - from,
    {
        Self::code_round_trip(op);
        if from < op.spec_code() {
            let other = Self::spec_from_code(from);
            Self::from_code_round_trip(from);
            if other.spec_name() == op.spec_name() {
                Self::name_is_injective(other, op);
            }
            Self::first_named_finds(op, from + 1);
        }
    }

    /// Every opcode is found by its name.
    pub proof fn name_round_trip(op: Instructions)
        ensures
            Self::spec_from_name(op.spec_name()) == Some(op),
    {
        Self::code_round_trip(op);
        Self::first_named_finds(op, 0);
    }

    /// What is found from a number on by a name has that name.
    proof fn first_named_has_name(name: Seq<char>, from: int)
        ensures
            Self::first_named(name, from) matches Some(found) ==> found.spec_name() == name,
        decreases INSTRUCTION_COUNT - from,
    {
        if 0 <= from < INSTRUCTION_COUNT && Self::spec_from_code(from).spec_name() != name {
            Self::first_named_has_name(name, from + 1);
        }
    }

    /// A name finds the opcode that has it, and nothing where none has it.
    pub proof fn from_name_is_exact(name: Seq<char>)
        ensures
            match Self::spec_from_name(name) {
                Some(found) => found.spec_name() == name,
                None => forall|other: Instructions| other.spec_name() != name,
            },
    {
        Self::first_named_has_name(name, 0);
        assert forall|other: Instructions| other.spec_name() == name implies Self::spec_from_name(
            name,
        ) is Some by {
            Self::name_round_trip(other);
        }
    }

    fn base(self) -> (b: u16)
        ensures
            b == self.spec_base(),
    {
        match self {
            Instructions::Halt => 0,
            Instructions::NoOperation => 1,
            Instructions::SysCall => 2,
            Instructions::LoadRegister(_) => 3,
            Instructions::AddRegisters(_) => 7,
            Instructions::SubtractRegisters(_) => 11,
            Instructions::AddRegisterImmediate(_) => 15,
            Instructions::SubtractRegisterImmediate(_) => 19,
            Instructions::IncrementRegister => 23,
            Instructions::DecrementRegister => 24,
            Instructions::CompareRegister(_) => 25,
            Instructions::CompareRegisterLiteral(_) => 29,
            Instructions::JumpTo => 33,
            Instructions::JumpIfEqualTo => 34,
            Instructions::JumpIfGreaterThan => 35,
            Instructions::JumpIfLessThan => 36,
            Instructions::JumpIfZero => 37,
            Instructions::MoveRegisters(_) => 38,
            Instructions::PushRegister(_) => 42,
            Instructions::PopRegister(_) => 46,
            Instructions::MoveMemoryRegister(_) => 50,
            Instructions::MoveRegisterMemory(_) => 54,
            Instructions::PushMemory(_) => 58,
            Instructions::PopMemory(_) => 62,
            Instructions::BitwiseAndRegisters(_) => 66,
            Instructions::BitwiseOrRegisters(_) => 70,
            Instructions::BitwiseXOrRegisters(_) => 74,
            Instructions::BitwiseNotRegister(_) => 78,
            Instructions::BitwiseAndRegisterImmediate(_) => 82,
            Instructions::BitwiseOrRegisterImmediate(_) => 86,
            Instructions::BitwiseXOrRegisterImmediate(_) => 90,
            Instructions::MoveAddressedRegisterRegister(_) => 94,
            Instructions::MoveRegisterAddressedRegister(_) => 98,
            Instructions::MoveAddressedRegisters(_) => 102,
        }
    }

    pub fn width(self) -> (w: Option<Width>)
        ensures
            w == self.spec_width(),
    {
        match self {
            Instructions::LoadRegister(w) => Some(w),
            Instructions::AddRegisters(w) => Some(w),
            Instructions::SubtractRegisters(w) => Some(w),
            Instructions::AddRegisterImmediate(w) => Some(w),
            Instructions::SubtractRegisterImmediate(w) => Some(w),
            Instructions::CompareRegister(w) => Some(w),
            Instructions::CompareRegisterLiteral(w) => Some(w),
            Instructions::MoveRegisters(w) => Some(w),
            Instructions::PushRegister(w) => Some(w),
            Instructions::PopRegister(w) => Some(w),
            Instructions::MoveMemoryRegister(w) => Some(w),
            Instructions::MoveRegisterMemory(w) => Some(w),
            Instructions::PushMemory(w) => Some(w),
            Instructions::PopMemory(w) => Some(w),
            Instructions::BitwiseAndRegisters(w) => Some(w),
            Instructions::BitwiseOrRegisters(w) => Some(w),
            Instructions::BitwiseXOrRegisters(w) => Some(w),
            Instructions::BitwiseNotRegister(w) => Some(w),
            Instructions::BitwiseAndRegisterImmediate(w) => Some(w),
            Instructions::BitwiseOrRegisterImmediate(w) => Some(w),
            Instructions::BitwiseXOrRegisterImmediate(w) => Some(w),
            Instructions::MoveAddressedRegisterRegister(w) => Some(w),
            Instructions::MoveRegisterAddressedRegister(w) => Some(w),
            Instructions::MoveAddressedRegisters(w) => Some(w),
            _ => None,
        }
    }

    fn family_name(self) -> (s: &'static str)
        ensures
            s@ == self.spec_family_name(),
    {
        match self {
            Instructions::Halt => "Halt",
            Instructions::NoOperation => "NoOperation",
            Instructions::SysCall => "SysCall",
            Instructions::LoadRegister(_) => "LoadRegister",
            Instructions::AddRegisters(_) => "AddRegisters",
            Instructions::SubtractRegisters(_) => "SubtractRegisters",
            Instructions::AddRegisterImmediate(_) => "AddRegisterImmediate",
            Instructions::SubtractRegisterImmediate(_) => "SubtractRegisterImmediate",
            Instructions::IncrementRegister => "IncrementRegister",
            Instructions::DecrementRegister => "DecrementRegister",
            Instructions::CompareRegister(_) => "CompareRegister",
            Instructions::CompareRegisterLiteral(_) => "CompareRegisterLiteral",
            Instructions::JumpTo => "JumpTo",
            Instructions::JumpIfEqualTo => "JumpIfEqualTo",
            Instructions::JumpIfGreaterThan => "JumpIfGreaterThan",
            Instructions::JumpIfLessThan => "JumpIfLessThan",
            Instructions::JumpIfZero => "JumpIfZero",
            Instructions::MoveRegisters(_) => "MoveRegisters",
            Instructions::PushRegister(_) => "PushRegister",
            Instructions::PopRegister(_) => "PopRegister",
            Instructions::MoveMemoryRegister(_) => "MoveMemoryRegister",
            Instructions::MoveRegisterMemory(_) => "MoveRegisterMemory",
            Instructions::PushMemory(_) => "PushMemory",
            Instructions::PopMemory(_) => "PopMemory",
            Instructions::BitwiseAndRegisters(_) => "BitwiseAndRegisters",
            Instructions::BitwiseOrRegisters(_) => "BitwiseOrRegisters",
            Instructions::BitwiseXOrRegisters(_) => "BitwiseXOrRegisters",
            Instructions::BitwiseNotRegister(_) => "BitwiseNotRegister",
            Instructions::BitwiseAndRegisterImmediate(_) => "BitwiseAndRegisterImmediate",
            Instructions::BitwiseOrRegisterImmediate(_) => "BitwiseOrRegisterImmediate",
            Instructions::BitwiseXOrRegisterImmediate(_) => "BitwiseXOrRegisterImmediate",
            Instructions::MoveAddressedRegisterRegister(_) => "MoveAddressedRegisterRegister",
            Instructions::MoveRegisterAddressedRegister(_) => "MoveRegisterAddressedRegister",
            Instructions::MoveAddressedRegisters(_) => "MoveAddressedRegisters",
        }
    }

    pub fn code(self) -> (c: u16)
        ensures
            c == self.spec_code(),
            c < INSTRUCTION_COUNT,
    {
        match self.width() {
            Some(w) => self.base() + w.index(),
            None => self.base(),
        }
    }

    pub fn from_code(code: u16) -> (r: Option<Instructions>)
        ensures
            code < INSTRUCTION_COUNT ==> r == Some(Self::spec_from_code(code as int)),
            code < INSTRUCTION_COUNT ==> Self::spec_from_code(code as int).spec_code() == code,
            code >= INSTRUCTION_COUNT ==> r is None,
    {
        let r =
        if code == 0 {
            Some(Instructions::Halt)
        } else if code == 1 {
            Some(Instructions::NoOperation)
        } else if code == 2 {
            Some(Instructions::SysCall)
        } else if code < 7 {
            Some(Instructions::LoadRegister(Width::from_index(code - 3)))
        } else if code < 11 {
            Some(Instructions::AddRegisters(Width::from_index(code - 7)))
        } else if code < 15 {
            Some(Instructions::SubtractRegisters(Width::from_index(code - 11)))
        } else if code < 19 {
            Some(Instructions::AddRegisterImmediate(Width::from_index(code - 15)))
        } else if code < 23 {
            Some(Instructions::SubtractRegisterImmediate(Width::from_index(code - 19)))
        } else if code == 23 {
            Some(Instructions::IncrementRegister)
        } else if code == 24 {
            Some(Instructions::DecrementRegister)
        } else if code < 29 {
            Some(Instructions::CompareRegister(Width::from_index(code - 25)))
        } else if code < 33 {
            Some(Instructions::CompareRegisterLiteral(Width::from_index(code - 29)))
        } else if code == 33 {
            Some(Instructions::JumpTo)
        } else if code == 34 {
            Some(Instructions::JumpIfEqualTo)
        } else if code == 35 {
            Some(Instructions::JumpIfGreaterThan)
        } else if code == 36 {
            Some(Instructions::JumpIfLessThan)
        } else if code == 37 {
            Some(Instructions::JumpIfZero)
        } else if code < 42 {
            Some(Instructions::MoveRegisters(Width::from_index(code - 38)))
        } else if code < 46 {
            Some(Instructions::PushRegister(Width::from_index(code - 42)))
        } else if code < 50 {
            Some(Instructions::PopRegister(Width::from_index(code - 46)))
        } else if code < 54 {
            Some(Instructions::MoveMemoryRegister(Width::from_index(code - 50)))
        } else if code < 58 {
            Some(Instructions::MoveRegisterMemory(Width::from_index(code - 54)))
        } else if code < 62 {
            Some(Instructions::PushMemory(Width::from_index(code - 58)))
        } else if code < 66 {
            Some(Instructions::PopMemory(Width::from_index(code - 62)))
        } else if code < 70 {
            Some(Instructions::BitwiseAndRegisters(Width::from_index(code - 66)))
        } else if code < 74 {
            Some(Instructions::BitwiseOrRegisters(Width::from_index(code - 70)))
        } else if code < 78 {
            Some(Instructions::BitwiseXOrRegisters(Width::from_index(code - 74)))
        } else if code < 82 {
            Some(Instructions::BitwiseNotRegister(Width::from_index(code - 78)))
        } else if code < 86 {
            Some(Instructions::BitwiseAndRegisterImmediate(Width::from_index(code - 82)))
        } else if code < 90 {
            Some(Instructions::BitwiseOrRegisterImmediate(Width::from_index(code - 86)))
        } else if code < 94 {
            Some(Instructions::BitwiseXOrRegisterImmediate(Width::from_index(code - 90)))
        } else if code < 98 {
            Some(Instructions::MoveAddressedRegisterRegister(Width::from_index(code - 94)))
        } else if code < 102 {
            Some(Instructions::MoveRegisterAddressedRegister(Width::from_index(code - 98)))
        } else if code < 106 {
            Some(Instructions::MoveAddressedRegisters(Width::from_index(code - 102)))
        } else {
            None
        };
        proof {
            if code < INSTRUCTION_COUNT {
                Self::from_code_round_trip(code as int);
            }
        }
        r
    }

    pub fn name(self) -> (s: String)
        ensures
            s@ == self.spec_name(),
    {
        let mut s = String::from_str(self.family_name());
        match self.width() {
            Some(w) => {
                s.append(w.suffix());
            },
            None => {},
        }
        s
    }

    pub fn from_name(name: &str) -> (r: Option<Instructions>)
        ensures
            r == Self::spec_from_name(name@),
    {
        let wanted = String::from_str(name);
        let mut code: u16 = 0;
        while code < INSTRUCTION_COUNT
            invariant
                code <= INSTRUCTION_COUNT,
                wanted@ == name@,
                Self::spec_from_name(name@) == Self::first_named(name@, code as int),
            decreases INSTRUCTION_COUNT - code,
        {
            match Self::from_code(code) {
                Some(op) => {
                    if op.name() == wanted {
                        return Some(op);
                    }
                },
                None => {},
            }
            code += 1;
        }
        None
    }
}

/// A system call, numbered in the order written here.
#[derive(Clone, Copy, Debug, PartialEq, Eq, Structural)]
pub enum SysCalls {
    PrintRegister,
    PrintRegisterSigned,
    PrintCString,
    MemoryAllocate,
    MemoryFree,
    FOpen,
    FClose,
    FGetC,
    FTell,
    FSeek,
}

/// The number of system calls; every system call's number is below it.
pub const SYSCALL_COUNT: u8 = 10;

impl SysCalls {
    pub open spec fn spec_code(self) -> int {
        match self {
            SysCalls::PrintRegister => 0,
            SysCalls::PrintRegisterSigned => 1,
            SysCalls::PrintCString => 2,
            SysCalls::MemoryAllocate => 3,
            SysCalls::MemoryFree => 4,
            SysCalls::FOpen => 5,
            SysCalls::FClose => 6,
            SysCalls::FGetC => 7,
            SysCalls::FTell => 8,
            SysCalls::FSeek => 9,
        }
    }

    pub open spec fn spec_name(self) -> Seq<char> {
        match self {
            SysCalls::PrintRegister => "PrintRegister"@,
            SysCalls::PrintRegisterSigned => "PrintRegisterSigned"@,
            SysCalls::PrintCString => "PrintCString"@,
            SysCalls::MemoryAllocate => "MemoryAllocate"@,
            SysCalls::MemoryFree => "MemoryFree"@,
            SysCalls::FOpen => "FOpen"@,
            SysCalls::FClose => "FClose"@,
            SysCalls::FGetC => "FGetC"@,
            SysCalls::FTell => "FTell"@,
            SysCalls::FSeek => "FSeek"@,
        }
    }

    /// The system call numbered `code`, for a `code` below `SYSCALL_COUNT`.
    pub open spec fn spec_from_code(code: int) -> SysCalls {
        if code <= 0 {
            SysCalls::PrintRegister
        } else if code == 1 {
            SysCalls::PrintRegisterSigned
        } else if code == 2 {
            SysCalls::PrintCString
        } else if code == 3 {
            SysCalls::MemoryAllocate
        } else if code == 4 {
            SysCalls::MemoryFree
        } else if code == 5 {
            SysCalls::FOpen
        } else if code == 6 {
            SysCalls::FClose
        } else if code == 7 {
            SysCalls::FGetC
        } else if code == 8 {
            SysCalls::FTell
        } else {
            SysCalls::FSeek
        }
    }

    /// The first system call, by number from `from` on, that is named `name`.
    pub open spec fn first_named(name: Seq<char>, from: int) -> Option<SysCalls>
        decreases SYSCALL_COUNT - from,
    {
        if from < 0 || from >= SYSCALL_COUNT {
            None
        } else if Self::spec_from_code(from).spec_name() == name {
            Some(Self::spec_from_code(from))
        } else {
            Self::first_named(name, from + 1)
        }
    }

    /// The system call named `name`, if there is one.
    pub open spec fn spec_from_name(name: Seq<char>) -> Option<SysCalls> {
        Self::first_named(name, 0)
    }

    /// Every system call's number is below `SYSCALL_COUNT`, and the system
    /// call is found again from its number.
    pub proof fn code_round_trip(call: SysCalls)
        ensures
            0 <= call.spec_code() < SYSCALL_COUNT,
            Self::spec_from_code(call.spec_code()) == call,
    {
    }

    /// Every system call is found by its name.
    pub proof fn name_round_trip(call: SysCalls)
        ensures
            Self::spec_from_name(call.spec_name()) == Some(call),
    {
        reveal_strlit("PrintRegister");
        reveal_strlit("PrintRegisterSigned");
        reveal_strlit("PrintCString");
        reveal_strlit("MemoryAllocate");
        reveal_strlit("MemoryFree");
        reveal_strlit("FOpen");
        reveal_strlit("FClose");
        reveal_strlit("FGetC");
        reveal_strlit("FTell");
        reveal_strlit("FSeek");
        assert("PrintRegister"@.len() == 13 && "PrintRegister"@[1] == 'r');
        assert("PrintRegisterSigned"@.len() == 19 && "PrintRegisterSigned"@[1] == 'r');
        assert("PrintCString"@.len() == 12 && "PrintCString"@[1] == 'r');
        assert("MemoryAllocate"@.len() == 14 && "MemoryAllocate"@[1] == 'e');
        assert("MemoryFree"@.len() == 10 && "MemoryFree"@[1] == 'e');
        assert("FOpen"@.len() == 5 && "FOpen"@[1] == 'O');
        assert("FClose"@.len() == 6 && "FClose"@[1] == 'C');
        assert("FGetC"@.len() == 5 && "FGetC"@[1] == 'G');
        assert("FTell"@.len() == 5 && "FTell"@[1] == 'T');
        assert("FSeek"@.len() == 5 && "FSeek"@[1] == 'S');
        reveal_with_fuel(SysCalls::first_named, 11);
    }

    /// What is found from a number on by a name has that name.
    proof fn first_named_has_name(name: Seq<char>, from: int)
        ensures
            Self::first_named(name, from) matches Some(found) ==> found.spec_name() == name,
        decreases SYSCALL_COUNT - from,
    {
        if 0 <= from < SYSCALL_COUNT && Self::spec_from_code(from).spec_name() != name {
            Self::first_named_has_name(name, from + 1);
        }
    }

    /// A name finds the system call that has it, and nothing where none has it.
    pub proof fn from_name_is_exact(name: Seq<char>)
        ensures
            match Self::spec_from_name(name) {
                Some(found) => found.spec_name() == name,
                None => forall|other: SysCalls| other.spec_name() != name,
            },
    {
        Self::first_named_has_name(name, 0);
        assert forall|other: SysCalls| other.spec_name() == name implies Self::spec_from_name(
            name,
        ) is Some by {
            Self::name_round_trip(other);
        }
    }

    pub fn code(self) -> (c: u8)
        ensures
            c == self.spec_code(),
            c < SYSCALL_COUNT,
    {
        match self {
            SysCalls::PrintRegister => 0,
            SysCalls::PrintRegisterSigned => 1,
            SysCalls::PrintCString => 2,
            SysCalls::MemoryAllocate => 3,
            SysCalls::MemoryFree => 4,
            SysCalls::FOpen => 5,
            SysCalls::FClose => 6,
            SysCalls::FGetC => 7,
            SysCalls::FTell => 8,
            SysCalls::FSeek => 9,
        }
    }

    pub fn from_code(code: u8) -> (r: Option<SysCalls>)
        ensures
            code < SYSCALL_COUNT ==> r == Some(Self::spec_from_code(code as int)),
            code < SYSCALL_COUNT ==> Self::spec_from_code(code as int).spec_code() == code,
            code >= SYSCALL_COUNT ==> r is None,
    {
        if code == 0 {
            Some(SysCalls::PrintRegister)
        } else if code == 1 {
            Some(SysCalls::PrintRegisterSigned)
        } else if code == 2 {
            Some(SysCalls::PrintCString)
        } else if code == 3 {
            Some(SysCalls::MemoryAllocate)
        } else if code == 4 {
            Some(SysCalls::MemoryFree)
        } else if code == 5 {
            Some(SysCalls::FOpen)
        } else if code == 6 {
            Some(SysCalls::FClose)
        } else if code == 7 {
            Some(SysCalls::FGetC)
        } else if code == 8 {
            Some(SysCalls::FTell)
        } else if code == 9 {
            Some(SysCalls::FSeek)
        } else {
            None
        }
    }

    pub fn name(self) -> (s: &'static str)
        ensures
            s@ == self.spec_name(),
    {
        match self {
            SysCalls::PrintRegister => "PrintRegister",
            SysCalls::PrintRegisterSigned => "PrintRegisterSigned",
            SysCalls::PrintCString => "PrintCString",
            SysCalls::MemoryAllocate => "MemoryAllocate",
            SysCalls::MemoryFree => "MemoryFree",
            SysCalls::FOpen => "FOpen",
            SysCalls::FClose => "FClose",
            SysCalls::FGetC => "FGetC",
            SysCalls::FTell => "FTell",
            SysCalls::FSeek => "FSeek",
        }
    }

    pub fn from_name(name: &str) -> (r: Option<SysCalls>)
        ensures
            r == Self::spec_from_name(name@),
    {
        let wanted = String::from_str(name);
        let mut code: u8 = 0;
        while code < SYSCALL_COUNT
            invariant
                code <= SYSCALL_COUNT,
                wanted@ == name@,
                Self::spec_from_name(name@) == Self::first_named(name@, code as int),
            decreases SYSCALL_COUNT - code,
        {
            match Self::from_code(code) {
                Some(call) => {
                    if String::from_str(call.name()) == wanted {
                        return Some(call);
                    }
                },
                None => {},
            }
            code += 1;
        }
        None
    }
}

} // verus!
