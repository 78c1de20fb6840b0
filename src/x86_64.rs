//! x86-64 general purpose registers and the views of their parts.
//!
//! Every register is identified by its number, 0 to 15 (`rax` to `r15`);
//! converting between widths keeps the number.

use vstd::prelude::*;

verus! {

/// A 64-bit general purpose register.
#[derive(Clone, Copy, Debug, Hash, PartialEq, Eq, Structural)]
pub enum Reg64 {
    Rax,
    Rbx,
    Rcx,
    Rdx,
    Rsi,
    Rdi,
    Rbp,
    Rsp,
    R8,
    R9,
    R10,
    R11,
    R12,
    R13,
    R14,
    R15,
}

impl Reg64 {
    /// The register's number.
    pub open spec fn index(self) -> u8 {
        match self {
            Self::Rax => 0,
            Self::Rbx => 1,
            Self::Rcx => 2,
            Self::Rdx => 3,
            Self::Rsi => 4,
            Self::Rdi => 5,
            Self::Rbp => 6,
            Self::Rsp => 7,
            Self::R8 => 8,
            Self::R9 => 9,
            Self::R10 => 10,
            Self::R11 => 11,
            Self::R12 => 12,
            Self::R13 => 13,
            Self::R14 => 14,
            Self::R15 => 15,
        }
    }

    /// The register with number `i`; the last one for any larger number.
    pub open spec fn numbered(i: u8) -> Self {
        match i {
            0 => Self::Rax,
            1 => Self::Rbx,
            2 => Self::Rcx,
            3 => Self::Rdx,
            4 => Self::Rsi,
            5 => Self::Rdi,
            6 => Self::Rbp,
            7 => Self::Rsp,
            8 => Self::R8,
            9 => Self::R9,
            10 => Self::R10,
            11 => Self::R11,
            12 => Self::R12,
            13 => Self::R13,
            14 => Self::R14,
            _ => Self::R15,
        }
    }

    /// The register's name in assembly.
    pub open spec fn name(self) -> Seq<char> {
        match self {
            Self::Rax => seq!['r', 'a', 'x'],
            Self::Rbx => seq!['r', 'b', 'x'],
            Self::Rcx => seq!['r', 'c', 'x'],
            Self::Rdx => seq!['r', 'd', 'x'],
            Self::Rsi => seq!['r', 's', 'i'],
            Self::Rdi => seq!['r', 'd', 'i'],
            Self::Rbp => seq!['r', 'b', 'p'],
            Self::Rsp => seq!['r', 's', 'p'],
            Self::R8 => seq!['r', '8'],
            Self::R9 => seq!['r', '9'],
            Self::R10 => seq!['r', '1', '0'],
            Self::R11 => seq!['r', '1', '1'],
            Self::R12 => seq!['r', '1', '2'],
            Self::R13 => seq!['r', '1', '3'],
            Self::R14 => seq!['r', '1', '4'],
            Self::R15 => seq!['r', '1', '5'],
        }
    }

    /// The register's name in assembly, such as `rax`.
    pub fn as_str(self) -> (r: &'static str)
        ensures
            r@ == self.name(),
    {
        match self {
            Self::Rax => {
                proof {
                    reveal_strlit("rax");
                }
                "rax"
            },
            Self::Rbx => {
                proof {
                    reveal_strlit("rbx");
                }
                "rbx"
            },
            Self::Rcx => {
                proof {
                    reveal_strlit("rcx");
                }
                "rcx"
            },
            Self::Rdx => {
                proof {
                    reveal_strlit("rdx");
                }
                "rdx"
            },
            Self::Rsi => {
                proof {
                    reveal_strlit("rsi");
                }
                "rsi"
            },
            Self::Rdi => {
                proof {
                    reveal_strlit("rdi");
                }
                "rdi"
            },
            Self::Rbp => {
                proof {
                    reveal_strlit("rbp");
                }
                "rbp"
            },
            Self::Rsp => {
                proof {
                    reveal_strlit("rsp");
                }
                "rsp"
            },
            Self::R8 => {
                proof {
                    reveal_strlit("r8");
                }
                "r8"
            },
            Self::R9 => {
                proof {
                    reveal_strlit("r9");
                }
                "r9"
            },
            Self::R10 => {
                proof {
                    reveal_strlit("r10");
                }
                "r10"
            },
            Self::R11 => {
                proof {
                    reveal_strlit("r11");
                }
                "r11"
            },
            Self::R12 => {
                proof {
                    reveal_strlit("r12");
                }
                "r12"
            },
            Self::R13 => {
                proof {
                    reveal_strlit("r13");
                }
                "r13"
            },
            Self::R14 => {
                proof {
                    reveal_strlit("r14");
                }
                "r14"
            },
            Self::R15 => {
                proof {
                    reveal_strlit("r15");
                }
                "r15"
            },
        }
    }
}

/// The low 32 bits of a general purpose register.
#[derive(Clone, Copy, Debug, Hash, PartialEq, Eq, Structural)]
pub enum Reg32 {
    Eax,
    Ebx,
    Ecx,
    Edx,
    Esi,
    Edi,
    Ebp,
    Esp,
    R8d,
    R9d,
    R10d,
    R11d,
    R12d,
    R13d,
    R14d,
    R15d,
}

impl Reg32 {
    /// The register's number.
    pub open spec fn index(self) -> u8 {
        match self {
            Self::Eax => 0,
            Self::Ebx => 1,
            Self::Ecx => 2,
            Self::Edx => 3,
            Self::Esi => 4,
            Self::Edi => 5,
            Self::Ebp => 6,
            Self::Esp => 7,
            Self::R8d => 8,
            Self::R9d => 9,
            Self::R10d => 10,
            Self::R11d => 11,
            Self::R12d => 12,
            Self::R13d => 13,
            Self::R14d => 14,
            Self::R15d => 15,
        }
    }

    /// The register with number `i`; the last one for any larger number.
    pub open spec fn numbered(i: u8) -> Self {
        match i {
            0 => Self::Eax,
            1 => Self::Ebx,
            2 => Self::Ecx,
            3 => Self::Edx,
            4 => Self::Esi,
            5 => Self::Edi,
            6 => Self::Ebp,
            7 => Self::Esp,
            8 => Self::R8d,
            9 => Self::R9d,
            10 => Self::R10d,
            11 => Self::R11d,
            12 => Self::R12d,
            13 => Self::R13d,
            14 => Self::R14d,
            _ => Self::R15d,
        }
    }

    /// The register's name in assembly.
    pub open spec fn name(self) -> Seq<char> {
        match self {
            Self::Eax => seq!['e', 'a', 'x'],
            Self::Ebx => seq!['e', 'b', 'x'],
            Self::Ecx => seq!['e', 'c', 'x'],
            Self::Edx => seq!['e', 'd', 'x'],
            Self::Esi => seq!['e', 's', 'i'],
            Self::Edi => seq!['e', 'd', 'i'],
            Self::Ebp => seq!['e', 'b', 'p'],
            Self::Esp => seq!['e', 's', 'p'],
            Self::R8d => seq!['r', '8', 'd'],
            Self::R9d => seq!['r', '9', 'd'],
            Self::R10d => seq!['r', '1', '0', 'd'],
            Self::R11d => seq!['r', '1', '1', 'd'],
            Self::R12d => seq!['r', '1', '2', 'd'],
            Self::R13d => seq!['r', '1', '3', 'd'],
            Self::R14d => seq!['r', '1', '4', 'd'],
            Self::R15d => seq!['r', '1', '5', 'd'],
        }
    }

    /// The register's name in assembly, such as `rax`.
    pub fn as_str(self) -> (r: &'static str)
        ensures
            r@ == self.name(),
    {
        match self {
            Self::Eax => {
                proof {
                    reveal_strlit("eax");
                }
                "eax"
            },
            Self::Ebx => {
                proof {
                    reveal_strlit("ebx");
                }
                "ebx"
            },
            Self::Ecx => {
                proof {
                    reveal_strlit("ecx");
                }
                "ecx"
            },
            Self::Edx => {
                proof {
                    reveal_strlit("edx");
                }
                "edx"
            },
            Self::Esi => {
                proof {
                    reveal_strlit("esi");
                }
                "esi"
            },
            Self::Edi => {
                proof {
                    reveal_strlit("edi");
                }
                "edi"
            },
            Self::Ebp => {
                proof {
                    reveal_strlit("ebp");
                }
                "ebp"
            },
            Self::Esp => {
                proof {
                    reveal_strlit("esp");
                }
                "esp"
            },
            Self::R8d => {
                proof {
                    reveal_strlit("r8d");
                }
                "r8d"
            },
            Self::R9d => {
                proof {
                    reveal_strlit("r9d");
                }
                "r9d"
            },
            Self::R10d => {
                proof {
                    reveal_strlit("r10d");
                }
                "r10d"
            },
            Self::R11d => {
                proof {
                    reveal_strlit("r11d");
                }
                "r11d"
            },
            Self::R12d => {
                proof {
                    reveal_strlit("r12d");
                }
                "r12d"
            },
            Self::R13d => {
                proof {
                    reveal_strlit("r13d");
                }
                "r13d"
            },
            Self::R14d => {
                proof {
                    reveal_strlit("r14d");
                }
                "r14d"
            },
            Self::R15d => {
                proof {
                    reveal_strlit("r15d");
                }
                "r15d"
            },
        }
    }
}

/// The low 16 bits of a general purpose register.
#[derive(Clone, Copy, Debug, Hash, PartialEq, Eq, Structural)]
pub enum Reg16 {
    Ax,
    Bx,
    Cx,
    Dx,
    Si,
    Di,
    Bp,
    Sp,
    R8w,
    R9w,
    R10w,
    R11w,
    R12w,
    R13w,
    R14w,
    R15w,
}

impl Reg16 {
    /// The register's number.
    pub open spec fn index(self) -> u8 {
        match self {
            Self::Ax => 0,
            Self::Bx => 1,
            Self::Cx => 2,
            Self::Dx => 3,
            Self::Si => 4,
            Self::Di => 5,
            Self::Bp => 6,
            Self::Sp => 7,
            Self::R8w => 8,
            Self::R9w => 9,
            Self::R10w => 10,
            Self::R11w => 11,
            Self::R12w => 12,
            Self::R13w => 13,
            Self::R14w => 14,
            Self::R15w => 15,
        }
    }

    /// The register with number `i`; the last one for any larger number.
    pub open spec fn numbered(i: u8) -> Self {
        match i {
            0 => Self::Ax,
            1 => Self::Bx,
            2 => Self::Cx,
            3 => Self::Dx,
            4 => Self::Si,
            5 => Self::Di,
            6 => Self::Bp,
            7 => Self::Sp,
            8 => Self::R8w,
            9 => Self::R9w,
            10 => Self::R10w,
            11 => Self::R11w,
            12 => Self::R12w,
            13 => Self::R13w,
            14 => Self::R14w,
            _ => Self::R15w,
        }
    }

    /// The register's name in assembly.
    pub open spec fn name(self) -> Seq<char> {
        match self {
            Self::Ax => seq!['a', 'x'],
            Self::Bx => seq!['b', 'x'],
            Self::Cx => seq!['c', 'x'],
            Self::Dx => seq!['d', 'x'],
            Self::Si => seq!['s', 'i'],
            Self::Di => seq!['d', 'i'],
            Self::Bp => seq!['b', 'p'],
            Self::Sp => seq!['s', 'p'],
            Self::R8w => seq!['r', '8', 'w'],
            Self::R9w => seq!['r', '9', 'w'],
            Self::R10w => seq!['r', '1', '0', 'w'],
            Self::R11w => seq!['r', '1', '1', 'w'],
            Self::R12w => seq!['r', '1', '2', 'w'],
            Self::R13w => seq!['r', '1', '3', 'w'],
            Self::R14w => seq!['r', '1', '4', 'w'],
            Self::R15w => seq!['r', '1', '5', 'w'],
        }
    }

    /// The register's name in assembly, such as `rax`.
    pub fn as_str(self) -> (r: &'static str)
        ensures
            r@ == self.name(),
    {
        match self {
            Self::Ax => {
                proof {
                    reveal_strlit("ax");
                }
                "ax"
            },
            Self::Bx => {
                proof {
                    reveal_strlit("bx");
                }
                "bx"
            },
            Self::Cx => {
                proof {
                    reveal_strlit("cx");
                }
                "cx"
            },
            Self::Dx => {
                proof {
                    reveal_strlit("dx");
                }
                "dx"
            },
            Self::Si => {
                proof {
                    reveal_strlit("si");
                }
                "si"
            },
            Self::Di => {
                proof {
                    reveal_strlit("di");
                }
                "di"
            },
            Self::Bp => {
                proof {
                    reveal_strlit("bp");
                }
                "bp"
            },
            Self::Sp => {
                proof {
                    reveal_strlit("sp");
                }
                "sp"
            },
            Self::R8w => {
                proof {
                    reveal_strlit("r8w");
                }
                "r8w"
            },
            Self::R9w => {
                proof {
                    reveal_strlit("r9w");
                }
                "r9w"
            },
            Self::R10w => {
                proof {
                    reveal_strlit("r10w");
                }
                "r10w"
            },
            Self::R11w => {
                proof {
                    reveal_strlit("r11w");
                }
                "r11w"
            },
            Self::R12w => {
                proof {
                    reveal_strlit("r12w");
                }
                "r12w"
            },
            Self::R13w => {
                proof {
                    reveal_strlit("r13w");
                }
                "r13w"
            },
            Self::R14w => {
                proof {
                    reveal_strlit("r14w");
                }
                "r14w"
            },
            Self::R15w => {
                proof {
                    reveal_strlit("r15w");
                }
                "r15w"
            },
        }
    }
}

/// The low 8 bits of a general purpose register.
#[derive(Clone, Copy, Debug, Hash, PartialEq, Eq, Structural)]
pub enum Reg8l {
    Al,
    Bl,
    Cl,
    Dl,
    Sil,
    Dil,
    Bpl,
    Spl,
    R8b,
    R9b,
    R10b,
    R11b,
    R12b,
    R13b,
    R14b,
    R15b,
}

impl Reg8l {
    /// The register's number.
    pub open spec fn index(self) -> u8 {
        match self {
            Self::Al => 0,
            Self::Bl => 1,
            Self::Cl => 2,
            Self::Dl => 3,
            Self::Sil => 4,
            Self::Dil => 5,
            Self::Bpl => 6,
            Self::Spl => 7,
            Self::R8b => 8,
            Self::R9b => 9,
            Self::R10b => 10,
            Self::R11b => 11,
            Self::R12b => 12,
            Self::R13b => 13,
            Self::R14b => 14,
            Self::R15b => 15,
        }
    }

    /// The register with number `i`; the last one for any larger number.
    pub open spec fn numbered(i: u8) -> Self {
        match i {
            0 => Self::Al,
            1 => Self::Bl,
            2 => Self::Cl,
            3 => Self::Dl,
            4 => Self::Sil,
            5 => Self::Dil,
            6 => Self::Bpl,
            7 => Self::Spl,
            8 => Self::R8b,
            9 => Self::R9b,
            10 => Self::R10b,
            11 => Self::R11b,
            12 => Self::R12b,
            13 => Self::R13b,
            14 => Self::R14b,
            _ => Self::R15b,
        }
    }

    /// The register's name in assembly.
    pub open spec fn name(self) -> Seq<char> {
        match self {
            Self::Al => seq!['a', 'l'],
            Self::Bl => seq!['b', 'l'],
            Self::Cl => seq!['c', 'l'],
            Self::Dl => seq!['d', 'l'],
            Self::Sil => seq!['s', 'i', 'l'],
            Self::Dil => seq!['d', 'i', 'l'],
            Self::Bpl => seq!['b', 'p', 'l'],
            Self::Spl => seq!['s', 'p', 'l'],
            Self::R8b => seq!['r', '8', 'b'],
            Self::R9b => seq!['r', '9', 'b'],
            Self::R10b => seq!['r', '1', '0', 'b'],
            Self::R11b => seq!['r', '1', '1', 'b'],
            Self::R12b => seq!['r', '1', '2', 'b'],
            Self::R13b => seq!['r', '1', '3', 'b'],
            Self::R14b => seq!['r', '1', '4', 'b'],
            Self::R15b => seq!['r', '1', '5', 'b'],
        }
    }

    /// The register's name in assembly, such as `rax`.
    pub fn as_str(self) -> (r: &'static str)
        ensures
            r@ == self.name(),
    {
        match self {
            Self::Al => {
                proof {
                    reveal_strlit("al");
                }
                "al"
            },
            Self::Bl => {
                proof {
                    reveal_strlit("bl");
                }
                "bl"
            },
            Self::Cl => {
                proof {
                    reveal_strlit("cl");
                }
                "cl"
            },
            Self::Dl => {
                proof {
                    reveal_strlit("dl");
                }
                "dl"
            },
            Self::Sil => {
                proof {
                    reveal_strlit("sil");
                }
                "sil"
            },
            Self::Dil => {
                proof {
                    reveal_strlit("dil");
                }
                "dil"
            },
            Self::Bpl => {
                proof {
                    reveal_strlit("bpl");
                }
                "bpl"
            },
            Self::Spl => {
                proof {
                    reveal_strlit("spl");
                }
                "spl"
            },
            Self::R8b => {
                proof {
                    reveal_strlit("r8b");
                }
                "r8b"
            },
            Self::R9b => {
                proof {
                    reveal_strlit("r9b");
                }
                "r9b"
            },
            Self::R10b => {
                proof {
                    reveal_strlit("r10b");
                }
                "r10b"
            },
            Self::R11b => {
                proof {
                    reveal_strlit("r11b");
                }
                "r11b"
            },
            Self::R12b => {
                proof {
                    reveal_strlit("r12b");
                }
                "r12b"
            },
            Self::R13b => {
                proof {
                    reveal_strlit("r13b");
                }
                "r13b"
            },
            Self::R14b => {
                proof {
                    reveal_strlit("r14b");
                }
                "r14b"
            },
            Self::R15b => {
                proof {
                    reveal_strlit("r15b");
                }
                "r15b"
            },
        }
    }
}

/// Bits 8 to 15 of one of the first four general purpose registers.
#[derive(Clone, Copy, Debug, Hash, PartialEq, Eq, Structural)]
pub enum Reg8h {
    Ah,
    Bh,
    Ch,
    Dh,
}

impl Reg8h {
    /// The register's number.
    pub open spec fn index(self) -> u8 {
        match self {
            Self::Ah => 0,
            Self::Bh => 1,
            Self::Ch => 2,
            Self::Dh => 3,
        }
    }

    /// The register with number `i`; the last one for any larger number.
    pub open spec fn numbered(i: u8) -> Self {
        match i {
            0 => Self::Ah,
            1 => Self::Bh,
            2 => Self::Ch,
            _ => Self::Dh,
        }
    }

    /// The register's name in assembly.
    pub open spec fn name(self) -> Seq<char> {
        match self {
            Self::Ah => seq!['a', 'h'],
            Self::Bh => seq!['b', 'h'],
            Self::Ch => seq!['c', 'h'],
            Self::Dh => seq!['d', 'h'],
        }
    }

    /// The register's name in assembly, such as `rax`.
    pub fn as_str(self) -> (r: &'static str)
        ensures
            r@ == self.name(),
    {
        match self {
            Self::Ah => {
                proof {
                    reveal_strlit("ah");
                }
                "ah"
            },
            Self::Bh => {
                proof {
                    reveal_strlit("bh");
                }
                "bh"
            },
            Self::Ch => {
                proof {
                    reveal_strlit("ch");
                }
                "ch"
            },
            Self::Dh => {
                proof {
                    reveal_strlit("dh");
                }
                "dh"
            },
        }
    }
}

impl Reg64 {
    #[allow(non_snake_case)]
    pub fn as_Reg32(self) -> (r: Reg32)
        ensures
            r.index() == self.index(),
    {
        match self {
            Self::Rax => Reg32::Eax,
            Self::Rbx => Reg32::Ebx,
            Self::Rcx => Reg32::Ecx,
            Self::Rdx => Reg32::Edx,
            Self::Rsi => Reg32::Esi,
            Self::Rdi => Reg32::Edi,
            Self::Rbp => Reg32::Ebp,
            Self::Rsp => Reg32::Esp,
            Self::R8 => Reg32::R8d,
            Self::R9 => Reg32::R9d,
            Self::R10 => Reg32::R10d,
            Self::R11 => Reg32::R11d,
            Self::R12 => Reg32::R12d,
            Self::R13 => Reg32::R13d,
            Self::R14 => Reg32::R14d,
            Self::R15 => Reg32::R15d,
        }
    }

    pub fn as_reg32(self) -> (r: Reg32)
        ensures
            r.index() == self.index(),
    {
        self.as_Reg32()
    }

    #[allow(non_snake_case)]
    pub fn as_Reg16(self) -> (r: Reg16)
        ensures
            r.index() == self.index(),
    {
        match self {
            Self::Rax => Reg16::Ax,
            Self::Rbx => Reg16::Bx,
            Self::Rcx => Reg16::Cx,
            Self::Rdx => Reg16::Dx,
            Self::Rsi => Reg16::Si,
            Self::Rdi => Reg16::Di,
            Self::Rbp => Reg16::Bp,
            Self::Rsp => Reg16::Sp,
            Self::R8 => Reg16::R8w,
            Self::R9 => Reg16::R9w,
            Self::R10 => Reg16::R10w,
            Self::R11 => Reg16::R11w,
            Self::R12 => Reg16::R12w,
            Self::R13 => Reg16::R13w,
            Self::R14 => Reg16::R14w,
            Self::R15 => Reg16::R15w,
        }
    }

    pub fn as_reg16(self) -> (r: Reg16)
        ensures
            r.index() == self.index(),
    {
        self.as_Reg16()
    }

    #[allow(non_snake_case)]
    pub fn as_Reg8l(self) -> (r: Reg8l)
        ensures
            r.index() == self.index(),
    {
        match self {
            Self::Rax => Reg8l::Al,
            Self::Rbx => Reg8l::Bl,
            Self::Rcx => Reg8l::Cl,
            Self::Rdx => Reg8l::Dl,
            Self::Rsi => Reg8l::Sil,
            Self::Rdi => Reg8l::Dil,
            Self::Rbp => Reg8l::Bpl,
            Self::Rsp => Reg8l::Spl,
            Self::R8 => Reg8l::R8b,
            Self::R9 => Reg8l::R9b,
            Self::R10 => Reg8l::R10b,
            Self::R11 => Reg8l::R11b,
            Self::R12 => Reg8l::R12b,
            Self::R13 => Reg8l::R13b,
            Self::R14 => Reg8l::R14b,
            Self::R15 => Reg8l::R15b,
        }
    }

    pub fn as_reg8l(self) -> (r: Reg8l)
        ensures
            r.index() == self.index(),
    {
        self.as_Reg8l()
    }

    /// Only the first four registers have a high byte.
    #[allow(non_snake_case)]
    pub fn as_Reg8h_unsafe(self) -> (r: Reg8h)
        requires
            self.index() < 4,
        ensures
            r.index() == self.index(),
    {
        match self {
            Self::Rax => Reg8h::Ah,
            Self::Rbx => Reg8h::Bh,
            Self::Rcx => Reg8h::Ch,
            _ => Reg8h::Dh,
        }
    }

    pub fn as_reg8h_unsafe(self) -> (r: Reg8h)
        requires
            self.index() < 4,
        ensures
            r.index() == self.index(),
    {
        self.as_Reg8h_unsafe()
    }

    /// The high byte of the register, where it has one.
    #[allow(non_snake_case)]
    pub fn as_Reg8h(self) -> (r: Option<Reg8h>)
        ensures
            r is Some <==> self.index() < 4,
            r matches Some(h) ==> h.index() == self.index(),
    {
        match self {
            Self::Rax | Self::Rbx | Self::Rcx | Self::Rdx => Some(self.as_Reg8h_unsafe()),
            _ => None,
        }
    }

    pub fn as_reg8h(self) -> (r: Option<Reg8h>)
        ensures
            r is Some <==> self.index() < 4,
            r matches Some(h) ==> h.index() == self.index(),
    {
        self.as_Reg8h()
    }
}

impl Reg32 {
    #[allow(non_snake_case)]
    pub fn as_Reg64(self) -> (r: Reg64)
        ensures
            r.index() == self.index(),
    {
        match self {
            Self::Eax => Reg64::Rax,
            Self::Ebx => Reg64::Rbx,
            Self::Ecx => Reg64::Rcx,
            Self::Edx => Reg64::Rdx,
            Self::Esi => Reg64::Rsi,
            Self::Edi => Reg64::Rdi,
            Self::Ebp => Reg64::Rbp,
            Self::Esp => Reg64::Rsp,
            Self::R8d => Reg64::R8,
            Self::R9d => Reg64::R9,
            Self::R10d => Reg64::R10,
            Self::R11d => Reg64::R11,
            Self::R12d => Reg64::R12,
            Self::R13d => Reg64::R13,
            Self::R14d => Reg64::R14,
            Self::R15d => Reg64::R15,
        }
    }

    pub fn as_reg64(self) -> (r: Reg64)
        ensures
            r.index() == self.index(),
    {
        self.as_Reg64()
    }

    #[allow(non_snake_case)]
    pub fn as_Reg16(self) -> (r: Reg16)
        ensures
            r.index() == self.index(),
    {
        match self {
            Self::Eax => Reg16::Ax,
            Self::Ebx => Reg16::Bx,
            Self::Ecx => Reg16::Cx,
            Self::Edx => Reg16::Dx,
            Self::Esi => Reg16::Si,
            Self::Edi => Reg16::Di,
            Self::Ebp => Reg16::Bp,
            Self::Esp => Reg16::Sp,
            Self::R8d => Reg16::R8w,
            Self::R9d => Reg16::R9w,
            Self::R10d => Reg16::R10w,
            Self::R11d => Reg16::R11w,
            Self::R12d => Reg16::R12w,
            Self::R13d => Reg16::R13w,
            Self::R14d => Reg16::R14w,
            Self::R15d => Reg16::R15w,
        }
    }

    pub fn as_reg16(self) -> (r: Reg16)
        ensures
            r.index() == self.index(),
    {
        self.as_Reg16()
    }

    #[allow(non_snake_case)]
    pub fn as_Reg8l(self) -> (r: Reg8l)
        ensures
            r.index() == self.index(),
    {
        match self {
            Self::Eax => Reg8l::Al,
            Self::Ebx => Reg8l::Bl,
            Self::Ecx => Reg8l::Cl,
            Self::Edx => Reg8l::Dl,
            Self::Esi => Reg8l::Sil,
            Self::Edi => Reg8l::Dil,
            Self::Ebp => Reg8l::Bpl,
            Self::Esp => Reg8l::Spl,
            Self::R8d => Reg8l::R8b,
            Self::R9d => Reg8l::R9b,
            Self::R10d => Reg8l::R10b,
            Self::R11d => Reg8l::R11b,
            Self::R12d => Reg8l::R12b,
            Self::R13d => Reg8l::R13b,
            Self::R14d => Reg8l::R14b,
            Self::R15d => Reg8l::R15b,
        }
    }

    pub fn as_reg8l(self) -> (r: Reg8l)
        ensures
            r.index() == self.index(),
    {
        self.as_Reg8l()
    }

    /// Only the first four registers have a high byte.
    #[allow(non_snake_case)]
    pub fn as_Reg8h_unsafe(self) -> (r: Reg8h)
        requires
            self.index() < 4,
        ensures
            r.index() == self.index(),
    {
        match self {
            Self::Eax => Reg8h::Ah,
            Self::Ebx => Reg8h::Bh,
            Self::Ecx => Reg8h::Ch,
            _ => Reg8h::Dh,
        }
    }

    pub fn as_reg8h_unsafe(self) -> (r: Reg8h)
        requires
            self.index() < 4,
        ensures
            r.index() == self.index(),
    {
        self.as_Reg8h_unsafe()
    }

    /// The high byte of the register, where it has one.
    #[allow(non_snake_case)]
    pub fn as_Reg8h(self) -> (r: Option<Reg8h>)
        ensures
            r is Some <==> self.index() < 4,
            r matches Some(h) ==> h.index() == self.index(),
    {
        match self {
            Self::Eax | Self::Ebx | Self::Ecx | Self::Edx => Some(self.as_Reg8h_unsafe()),
            _ => None,
        }
    }

    pub fn as_reg8h(self) -> (r: Option<Reg8h>)
        ensures
            r is Some <==> self.index() < 4,
            r matches Some(h) ==> h.index() == self.index(),
    {
        self.as_Reg8h()
    }
}

impl Reg16 {
    #[allow(non_snake_case)]
    pub fn as_Reg64(self) -> (r: Reg64)
        ensures
            r.index() == self.index(),
    {
        match self {
            Self::Ax => Reg64::Rax,
            Self::Bx => Reg64::Rbx,
            Self::Cx => Reg64::Rcx,
            Self::Dx => Reg64::Rdx,
            Self::Si => Reg64::Rsi,
            Self::Di => Reg64::Rdi,
            Self::Bp => Reg64::Rbp,
            Self::Sp => Reg64::Rsp,
            Self::R8w => Reg64::R8,
            Self::R9w => Reg64::R9,
            Self::R10w => Reg64::R10,
            Self::R11w => Reg64::R11,
            Self::R12w => Reg64::R12,
            Self::R13w => Reg64::R13,
            Self::R14w => Reg64::R14,
            Self::R15w => Reg64::R15,
        }
    }

    pub fn as_reg64(self) -> (r: Reg64)
        ensures
            r.index() == self.index(),
    {
        self.as_Reg64()
    }

    #[allow(non_snake_case)]
    pub fn as_Reg32(self) -> (r: Reg32)
        ensures
            r.index() == self.index(),
    {
        match self {
            Self::Ax => Reg32::Eax,
            Self::Bx => Reg32::Ebx,
            Self::Cx => Reg32::Ecx,
            Self::Dx => Reg32::Edx,
            Self::Si => Reg32::Esi,
            Self::Di => Reg32::Edi,
            Self::Bp => Reg32::Ebp,
            Self::Sp => Reg32::Esp,
            Self::R8w => Reg32::R8d,
            Self::R9w => Reg32::R9d,
            Self::R10w => Reg32::R10d,
            Self::R11w => Reg32::R11d,
            Self::R12w => Reg32::R12d,
            Self::R13w => Reg32::R13d,
            Self::R14w => Reg32::R14d,
            Self::R15w => Reg32::R15d,
        }
    }

    pub fn as_reg32(self) -> (r: Reg32)
        ensures
            r.index() == self.index(),
    {
        self.as_Reg32()
    }

    #[allow(non_snake_case)]
    pub fn as_Reg8l(self) -> (r: Reg8l)
        ensures
            r.index() == self.index(),
    {
        match self {
            Self::Ax => Reg8l::Al,
            Self::Bx => Reg8l::Bl,
            Self::Cx => Reg8l::Cl,
            Self::Dx => Reg8l::Dl,
            Self::Si => Reg8l::Sil,
            Self::Di => Reg8l::Dil,
            Self::Bp => Reg8l::Bpl,
            Self::Sp => Reg8l::Spl,
            Self::R8w => Reg8l::R8b,
            Self::R9w => Reg8l::R9b,
            Self::R10w => Reg8l::R10b,
            Self::R11w => Reg8l::R11b,
            Self::R12w => Reg8l::R12b,
            Self::R13w => Reg8l::R13b,
            Self::R14w => Reg8l::R14b,
            Self::R15w => Reg8l::R15b,
        }
    }

    pub fn as_reg8l(self) -> (r: Reg8l)
        ensures
            r.index() == self.index(),
    {
        self.as_Reg8l()
    }

    /// Only the first four registers have a high byte.
    #[allow(non_snake_case)]
    pub fn as_Reg8h_unsafe(self) -> (r: Reg8h)
        requires
            self.index() < 4,
        ensures
            r.index() == self.index(),
    {
        match self {
            Self::Ax => Reg8h::Ah,
            Self::Bx => Reg8h::Bh,
            Self::Cx => Reg8h::Ch,
            _ => Reg8h::Dh,
        }
    }

    pub fn as_reg8h_unsafe(self) -> (r: Reg8h)
        requires
            self.index() < 4,
        ensures
            r.index() == self.index(),
    {
        self.as_Reg8h_unsafe()
    }

    /// The high byte of the register, where it has one.
    #[allow(non_snake_case)]
    pub fn as_Reg8h(self) -> (r: Option<Reg8h>)
        ensures
            r is Some <==> self.index() < 4,
            r matches Some(h) ==> h.index() == self.index(),
    {
        match self {
            Self::Ax | Self::Bx | Self::Cx | Self::Dx => Some(self.as_Reg8h_unsafe()),
            _ => None,
        }
    }

    pub fn as_reg8h(self) -> (r: Option<Reg8h>)
        ensures
            r is Some <==> self.index() < 4,
            r matches Some(h) ==> h.index() == self.index(),
    {
        self.as_Reg8h()
    }
}

impl Reg8l {
    #[allow(non_snake_case)]
    pub fn as_Reg64(self) -> (r: Reg64)
        ensures
            r.index() == self.index(),
    {
        match self {
            Self::Al => Reg64::Rax,
            Self::Bl => Reg64::Rbx,
            Self::Cl => Reg64::Rcx,
            Self::Dl => Reg64::Rdx,
            Self::Sil => Reg64::Rsi,
            Self::Dil => Reg64::Rdi,
            Self::Bpl => Reg64::Rbp,
            Self::Spl => Reg64::Rsp,
            Self::R8b => Reg64::R8,
            Self::R9b => Reg64::R9,
            Self::R10b => Reg64::R10,
            Self::R11b => Reg64::R11,
            Self::R12b => Reg64::R12,
            Self::R13b => Reg64::R13,
            Self::R14b => Reg64::R14,
            Self::R15b => Reg64::R15,
        }
    }

    pub fn as_reg64(self) -> (r: Reg64)
        ensures
            r.index() == self.index(),
    {
        self.as_Reg64()
    }

    #[allow(non_snake_case)]
    pub fn as_Reg32(self) -> (r: Reg32)
        ensures
            r.index() == self.index(),
    {
        match self {
            Self::Al => Reg32::Eax,
            Self::Bl => Reg32::Ebx,
            Self::Cl => Reg32::Ecx,
            Self::Dl => Reg32::Edx,
            Self::Sil => Reg32::Esi,
            Self::Dil => Reg32::Edi,
            Self::Bpl => Reg32::Ebp,
            Self::Spl => Reg32::Esp,
            Self::R8b => Reg32::R8d,
            Self::R9b => Reg32::R9d,
            Self::R10b => Reg32::R10d,
            Self::R11b => Reg32::R11d,
            Self::R12b => Reg32::R12d,
            Self::R13b => Reg32::R13d,
            Self::R14b => Reg32::R14d,
            Self::R15b => Reg32::R15d,
        }
    }

    pub fn as_reg32(self) -> (r: Reg32)
        ensures
            r.index() == self.index(),
    {
        self.as_Reg32()
    }

    #[allow(non_snake_case)]
    pub fn as_Reg16(self) -> (r: Reg16)
        ensures
            r.index() == self.index(),
    {
        match self {
            Self::Al => Reg16::Ax,
            Self::Bl => Reg16::Bx,
            Self::Cl => Reg16::Cx,
            Self::Dl => Reg16::Dx,
            Self::Sil => Reg16::Si,
            Self::Dil => Reg16::Di,
            Self::Bpl => Reg16::Bp,
            Self::Spl => Reg16::Sp,
            Self::R8b => Reg16::R8w,
            Self::R9b => Reg16::R9w,
            Self::R10b => Reg16::R10w,
            Self::R11b => Reg16::R11w,
            Self::R12b => Reg16::R12w,
            Self::R13b => Reg16::R13w,
            Self::R14b => Reg16::R14w,
            Self::R15b => Reg16::R15w,
        }
    }

    pub fn as_reg16(self) -> (r: Reg16)
        ensures
            r.index() == self.index(),
    {
        self.as_Reg16()
    }

    /// Only the first four registers have a high byte.
    #[allow(non_snake_case)]
    pub fn as_Reg8h_unsafe(self) -> (r: Reg8h)
        requires
            self.index() < 4,
        ensures
            r.index() == self.index(),
    {
        match self {
            Self::Al => Reg8h::Ah,
            Self::Bl => Reg8h::Bh,
            Self::Cl => Reg8h::Ch,
            _ => Reg8h::Dh,
        }
    }

    pub fn as_reg8h_unsafe(self) -> (r: Reg8h)
        requires
            self.index() < 4,
        ensures
            r.index() == self.index(),
    {
        self.as_Reg8h_unsafe()
    }

    /// The high byte of the register, where it has one.
    #[allow(non_snake_case)]
    pub fn as_Reg8h(self) -> (r: Option<Reg8h>)
        ensures
            r is Some <==> self.index() < 4,
            r matches Some(h) ==> h.index() == self.index(),
    {
        match self {
            Self::Al | Self::Bl | Self::Cl | Self::Dl => Some(self.as_Reg8h_unsafe()),
            _ => None,
        }
    }

    pub fn as_reg8h(self) -> (r: Option<Reg8h>)
        ensures
            r is Some <==> self.index() < 4,
            r matches Some(h) ==> h.index() == self.index(),
    {
        self.as_Reg8h()
    }
}

impl Reg8h {
    #[allow(non_snake_case)]
    pub fn as_Reg64(self) -> (r: Reg64)
        ensures
            r.index() == self.index(),
    {
        match self {
            Self::Ah => Reg64::Rax,
            Self::Bh => Reg64::Rbx,
            Self::Ch => Reg64::Rcx,
            Self::Dh => Reg64::Rdx,
        }
    }

    pub fn as_reg64(self) -> (r: Reg64)
        ensures
            r.index() == self.index(),
    {
        self.as_Reg64()
    }

    #[allow(non_snake_case)]
    pub fn as_Reg32(self) -> (r: Reg32)
        ensures
            r.index() == self.index(),
    {
        match self {
            Self::Ah => Reg32::Eax,
            Self::Bh => Reg32::Ebx,
            Self::Ch => Reg32::Ecx,
            Self::Dh => Reg32::Edx,
        }
    }

    pub fn as_reg32(self) -> (r: Reg32)
        ensures
            r.index() == self.index(),
    {
        self.as_Reg32()
    }

    #[allow(non_snake_case)]
    pub fn as_Reg16(self) -> (r: Reg16)
        ensures
            r.index() == self.index(),
    {
        match self {
            Self::Ah => Reg16::Ax,
            Self::Bh => Reg16::Bx,
            Self::Ch => Reg16::Cx,
            Self::Dh => Reg16::Dx,
        }
    }

    pub fn as_reg16(self) -> (r: Reg16)
        ensures
            r.index() == self.index(),
    {
        self.as_Reg16()
    }

    #[allow(non_snake_case)]
    pub fn as_Reg8l(self) -> (r: Reg8l)
        ensures
            r.index() == self.index(),
    {
        match self {
            Self::Ah => Reg8l::Al,
            Self::Bh => Reg8l::Bl,
            Self::Ch => Reg8l::Cl,
            Self::Dh => Reg8l::Dl,
        }
    }

    pub fn as_reg8l(self) -> (r: Reg8l)
        ensures
            r.index() == self.index(),
    {
        self.as_Reg8l()
    }
}

// conversions through `From` (and so `Into`)

impl From<Reg64> for Reg32 {
    fn from(reg: Reg64) -> (r: Reg32)
        ensures
            r.index() == reg.index(),
    {
        reg.as_Reg32()
    }
}

impl vstd::std_specs::convert::FromSpecImpl<Reg64> for Reg32 {
    open spec fn obeys_from_spec() -> bool {
        true
    }

    open spec fn from_spec(v: Reg64) -> Reg32 {
        Reg32::numbered(v.index())
    }
}

impl From<Reg64> for Reg16 {
    fn from(reg: Reg64) -> (r: Reg16)
        ensures
            r.index() == reg.index(),
    {
        reg.as_Reg16()
    }
}

impl vstd::std_specs::convert::FromSpecImpl<Reg64> for Reg16 {
    open spec fn obeys_from_spec() -> bool {
        true
    }

    open spec fn from_spec(v: Reg64) -> Reg16 {
        Reg16::numbered(v.index())
    }
}

impl From<Reg64> for Reg8l {
    fn from(reg: Reg64) -> (r: Reg8l)
        ensures
            r.index() == reg.index(),
    {
        reg.as_Reg8l()
    }
}

impl vstd::std_specs::convert::FromSpecImpl<Reg64> for Reg8l {
    open spec fn obeys_from_spec() -> bool {
        true
    }

    open spec fn from_spec(v: Reg64) -> Reg8l {
        Reg8l::numbered(v.index())
    }
}

impl From<Reg64> for Option<Reg8h> {
    fn from(reg: Reg64) -> (r: Option<Reg8h>)
        ensures
            r is Some <==> reg.index() < 4,
            r matches Some(h) ==> h.index() == reg.index(),
    {
        reg.as_Reg8h()
    }
}

impl vstd::std_specs::convert::FromSpecImpl<Reg64> for Option<Reg8h> {
    open spec fn obeys_from_spec() -> bool {
        true
    }

    open spec fn from_spec(v: Reg64) -> Option<Reg8h> {
        if v.index() < 4 {
            Some(Reg8h::numbered(v.index()))
        } else {
            None
        }
    }
}

impl From<Reg32> for Reg64 {
    fn from(reg: Reg32) -> (r: Reg64)
        ensures
            r.index() == reg.index(),
    {
        reg.as_Reg64()
    }
}

impl vstd::std_specs::convert::FromSpecImpl<Reg32> for Reg64 {
    open spec fn obeys_from_spec() -> bool {
        true
    }

    open spec fn from_spec(v: Reg32) -> Reg64 {
        Reg64::numbered(v.index())
    }
}

impl From<Reg32> for Reg16 {
    fn from(reg: Reg32) -> (r: Reg16)
        ensures
            r.index() == reg.index(),
    {
        reg.as_Reg16()
    }
}

impl vstd::std_specs::convert::FromSpecImpl<Reg32> for Reg16 {
    open spec fn obeys_from_spec() -> bool {
        true
    }

    open spec fn from_spec(v: Reg32) -> Reg16 {
        Reg16::numbered(v.index())
    }
}

impl From<Reg32> for Reg8l {
    fn from(reg: Reg32) -> (r: Reg8l)
        ensures
            r.index() == reg.index(),
    {
        reg.as_Reg8l()
    }
}

impl vstd::std_specs::convert::FromSpecImpl<Reg32> for Reg8l {
    open spec fn obeys_from_spec() -> bool {
        true
    }

    open spec fn from_spec(v: Reg32) -> Reg8l {
        Reg8l::numbered(v.index())
    }
}

impl From<Reg32> for Option<Reg8h> {
    fn from(reg: Reg32) -> (r: Option<Reg8h>)
        ensures
            r is Some <==> reg.index() < 4,
            r matches Some(h) ==> h.index() == reg.index(),
    {
        reg.as_Reg8h()
    }
}

impl vstd::std_specs::convert::FromSpecImpl<Reg32> for Option<Reg8h> {
    open spec fn obeys_from_spec() -> bool {
        true
    }

    open spec fn from_spec(v: Reg32) -> Option<Reg8h> {
        if v.index() < 4 {
            Some(Reg8h::numbered(v.index()))
        } else {
            None
        }
    }
}

impl From<Reg16> for Reg64 {
    fn from(reg: Reg16) -> (r: Reg64)
        ensures
            r.index() == reg.index(),
    {
        reg.as_Reg64()
    }
}

impl vstd::std_specs::convert::FromSpecImpl<Reg16> for Reg64 {
    open spec fn obeys_from_spec() -> bool {
        true
    }

    open spec fn from_spec(v: Reg16) -> Reg64 {
        Reg64::numbered(v.index())
    }
}

impl From<Reg16> for Reg32 {
    fn from(reg: Reg16) -> (r: Reg32)
        ensures
            r.index() == reg.index(),
    {
        reg.as_Reg32()
    }
}

impl vstd::std_specs::convert::FromSpecImpl<Reg16> for Reg32 {
    open spec fn obeys_from_spec() -> bool {
        true
    }

    open spec fn from_spec(v: Reg16) -> Reg32 {
        Reg32::numbered(v.index())
    }
}

impl From<Reg16> for Reg8l {
    fn from(reg: Reg16) -> (r: Reg8l)
        ensures
            r.index() == reg.index(),
    {
        reg.as_Reg8l()
    }
}

impl vstd::std_specs::convert::FromSpecImpl<Reg16> for Reg8l {
    open spec fn obeys_from_spec() -> bool {
        true
    }

    open spec fn from_spec(v: Reg16) -> Reg8l {
        Reg8l::numbered(v.index())
    }
}

impl From<Reg16> for Option<Reg8h> {
    fn from(reg: Reg16) -> (r: Option<Reg8h>)
        ensures
            r is Some <==> reg.index() < 4,
            r matches Some(h) ==> h.index() == reg.index(),
    {
        reg.as_Reg8h()
    }
}

impl vstd::std_specs::convert::FromSpecImpl<Reg16> for Option<Reg8h> {
    open spec fn obeys_from_spec() -> bool {
        true
    }

    open spec fn from_spec(v: Reg16) -> Option<Reg8h> {
        if v.index() < 4 {
            Some(Reg8h::numbered(v.index()))
        } else {
            None
        }
    }
}

impl From<Reg8l> for Reg64 {
    fn from(reg: Reg8l) -> (r: Reg64)
        ensures
            r.index() == reg.index(),
    {
        reg.as_Reg64()
    }
}

impl vstd::std_specs::convert::FromSpecImpl<Reg8l> for Reg64 {
    open spec fn obeys_from_spec() -> bool {
        true
    }

    open spec fn from_spec(v: Reg8l) -> Reg64 {
        Reg64::numbered(v.index())
    }
}

impl From<Reg8l> for Reg32 {
    fn from(reg: Reg8l) -> (r: Reg32)
        ensures
            r.index() == reg.index(),
    {
        reg.as_Reg32()
    }
}

impl vstd::std_specs::convert::FromSpecImpl<Reg8l> for Reg32 {
    open spec fn obeys_from_spec() -> bool {
        true
    }

    open spec fn from_spec(v: Reg8l) -> Reg32 {
        Reg32::numbered(v.index())
    }
}

impl From<Reg8l> for Reg16 {
    fn from(reg: Reg8l) -> (r: Reg16)
        ensures
            r.index() == reg.index(),
    {
        reg.as_Reg16()
    }
}

impl vstd::std_specs::convert::FromSpecImpl<Reg8l> for Reg16 {
    open spec fn obeys_from_spec() -> bool {
        true
    }

    open spec fn from_spec(v: Reg8l) -> Reg16 {
        Reg16::numbered(v.index())
    }
}

impl From<Reg8l> for Option<Reg8h> {
    fn from(reg: Reg8l) -> (r: Option<Reg8h>)
        ensures
            r is Some <==> reg.index() < 4,
            r matches Some(h) ==> h.index() == reg.index(),
    {
        reg.as_Reg8h()
    }
}

impl vstd::std_specs::convert::FromSpecImpl<Reg8l> for Option<Reg8h> {
    open spec fn obeys_from_spec() -> bool {
        true
    }

    open spec fn from_spec(v: Reg8l) -> Option<Reg8h> {
        if v.index() < 4 {
            Some(Reg8h::numbered(v.index()))
        } else {
            None
        }
    }
}

impl From<Reg8h> for Reg64 {
    fn from(reg: Reg8h) -> (r: Reg64)
        ensures
            r.index() == reg.index(),
    {
        reg.as_Reg64()
    }
}

impl vstd::std_specs::convert::FromSpecImpl<Reg8h> for Reg64 {
    open spec fn obeys_from_spec() -> bool {
        true
    }

    open spec fn from_spec(v: Reg8h) -> Reg64 {
        Reg64::numbered(v.index())
    }
}

impl From<Reg8h> for Reg32 {
    fn from(reg: Reg8h) -> (r: Reg32)
        ensures
            r.index() == reg.index(),
    {
        reg.as_Reg32()
    }
}

impl vstd::std_specs::convert::FromSpecImpl<Reg8h> for Reg32 {
    open spec fn obeys_from_spec() -> bool {
        true
    }

    open spec fn from_spec(v: Reg8h) -> Reg32 {
        Reg32::numbered(v.index())
    }
}

impl From<Reg8h> for Reg16 {
    fn from(reg: Reg8h) -> (r: Reg16)
        ensures
            r.index() == reg.index(),
    {
        reg.as_Reg16()
    }
}

impl vstd::std_specs::convert::FromSpecImpl<Reg8h> for Reg16 {
    open spec fn obeys_from_spec() -> bool {
        true
    }

    open spec fn from_spec(v: Reg8h) -> Reg16 {
        Reg16::numbered(v.index())
    }
}

impl From<Reg8h> for Reg8l {
    fn from(reg: Reg8h) -> (r: Reg8l)
        ensures
            r.index() == reg.index(),
    {
        reg.as_Reg8l()
    }
}

impl vstd::std_specs::convert::FromSpecImpl<Reg8h> for Reg8l {
    open spec fn obeys_from_spec() -> bool {
        true
    }

    open spec fn from_spec(v: Reg8h) -> Reg8l {
        Reg8l::numbered(v.index())
    }
}

} // verus!
