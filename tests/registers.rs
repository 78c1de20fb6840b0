use langkit::x86_64::{Reg16, Reg32, Reg64, Reg8h, Reg8l};

const ALL_REG64: [Reg64; 16] = [Reg64::Rax, Reg64::Rbx, Reg64::Rcx, Reg64::Rdx, Reg64::Rsi, Reg64::Rdi, Reg64::Rbp, Reg64::Rsp, Reg64::R8, Reg64::R9, Reg64::R10, Reg64::R11, Reg64::R12, Reg64::R13, Reg64::R14, Reg64::R15];
const ALL_REG32: [Reg32; 16] = [Reg32::Eax, Reg32::Ebx, Reg32::Ecx, Reg32::Edx, Reg32::Esi, Reg32::Edi, Reg32::Ebp, Reg32::Esp, Reg32::R8d, Reg32::R9d, Reg32::R10d, Reg32::R11d, Reg32::R12d, Reg32::R13d, Reg32::R14d, Reg32::R15d];
const ALL_REG16: [Reg16; 16] = [Reg16::Ax, Reg16::Bx, Reg16::Cx, Reg16::Dx, Reg16::Si, Reg16::Di, Reg16::Bp, Reg16::Sp, Reg16::R8w, Reg16::R9w, Reg16::R10w, Reg16::R11w, Reg16::R12w, Reg16::R13w, Reg16::R14w, Reg16::R15w];
const ALL_REG8L: [Reg8l; 16] = [Reg8l::Al, Reg8l::Bl, Reg8l::Cl, Reg8l::Dl, Reg8l::Sil, Reg8l::Dil, Reg8l::Bpl, Reg8l::Spl, Reg8l::R8b, Reg8l::R9b, Reg8l::R10b, Reg8l::R11b, Reg8l::R12b, Reg8l::R13b, Reg8l::R14b, Reg8l::R15b];
const ALL_REG8H: [Reg8h; 4] = [Reg8h::Ah, Reg8h::Bh, Reg8h::Ch, Reg8h::Dh];

#[test]
fn reg64_conversions_keep_the_register() {
    for (i, reg) in ALL_REG64.into_iter().enumerate() {
        assert_eq!(reg.as_reg32(), ALL_REG32[i]);
        let converted: Reg32 = reg.into();
        assert_eq!(converted, ALL_REG32[i]);
        assert_eq!(reg.as_Reg32(), ALL_REG32[i]);
        assert_eq!(reg.as_reg16(), ALL_REG16[i]);
        let converted: Reg16 = reg.into();
        assert_eq!(converted, ALL_REG16[i]);
        assert_eq!(reg.as_Reg16(), ALL_REG16[i]);
        assert_eq!(reg.as_reg8l(), ALL_REG8L[i]);
        let converted: Reg8l = reg.into();
        assert_eq!(converted, ALL_REG8L[i]);
        assert_eq!(reg.as_Reg8l(), ALL_REG8L[i]);
        assert_eq!(reg.as_reg8h(), ALL_REG8H.get(i).copied());
        let converted: Option<Reg8h> = reg.into();
        assert_eq!(converted, ALL_REG8H.get(i).copied());
        assert_eq!(reg.as_Reg8h(), reg.as_reg8h());
        if i < 4 {
            assert_eq!(reg.as_reg8h_unsafe(), ALL_REG8H[i]);
            assert_eq!(reg.as_Reg8h_unsafe(), ALL_REG8H[i]);
        }
    }
}

#[test]
fn reg32_conversions_keep_the_register() {
    for (i, reg) in ALL_REG32.into_iter().enumerate() {
        assert_eq!(reg.as_reg64(), ALL_REG64[i]);
        let converted: Reg64 = reg.into();
        assert_eq!(converted, ALL_REG64[i]);
        assert_eq!(reg.as_Reg64(), ALL_REG64[i]);
        assert_eq!(reg.as_reg16(), ALL_REG16[i]);
        let converted: Reg16 = reg.into();
        assert_eq!(converted, ALL_REG16[i]);
        assert_eq!(reg.as_Reg16(), ALL_REG16[i]);
        assert_eq!(reg.as_reg8l(), ALL_REG8L[i]);
        let converted: Reg8l = reg.into();
        assert_eq!(converted, ALL_REG8L[i]);
        assert_eq!(reg.as_Reg8l(), ALL_REG8L[i]);
        assert_eq!(reg.as_reg8h(), ALL_REG8H.get(i).copied());
        let converted: Option<Reg8h> = reg.into();
        assert_eq!(converted, ALL_REG8H.get(i).copied());
        assert_eq!(reg.as_Reg8h(), reg.as_reg8h());
        if i < 4 {
            assert_eq!(reg.as_reg8h_unsafe(), ALL_REG8H[i]);
            assert_eq!(reg.as_Reg8h_unsafe(), ALL_REG8H[i]);
        }
    }
}

#[test]
fn reg16_conversions_keep_the_register() {
    for (i, reg) in ALL_REG16.into_iter().enumerate() {
        assert_eq!(reg.as_reg64(), ALL_REG64[i]);
        let converted: Reg64 = reg.into();
        assert_eq!(converted, ALL_REG64[i]);
        assert_eq!(reg.as_Reg64(), ALL_REG64[i]);
        assert_eq!(reg.as_reg32(), ALL_REG32[i]);
        let converted: Reg32 = reg.into();
        assert_eq!(converted, ALL_REG32[i]);
        assert_eq!(reg.as_Reg32(), ALL_REG32[i]);
        assert_eq!(reg.as_reg8l(), ALL_REG8L[i]);
        let converted: Reg8l = reg.into();
        assert_eq!(converted, ALL_REG8L[i]);
        assert_eq!(reg.as_Reg8l(), ALL_REG8L[i]);
        assert_eq!(reg.as_reg8h(), ALL_REG8H.get(i).copied());
        let converted: Option<Reg8h> = reg.into();
        assert_eq!(converted, ALL_REG8H.get(i).copied());
        assert_eq!(reg.as_Reg8h(), reg.as_reg8h());
        if i < 4 {
            assert_eq!(reg.as_reg8h_unsafe(), ALL_REG8H[i]);
            assert_eq!(reg.as_Reg8h_unsafe(), ALL_REG8H[i]);
        }
    }
}

#[test]
fn reg8l_conversions_keep_the_register() {
    for (i, reg) in ALL_REG8L.into_iter().enumerate() {
        assert_eq!(reg.as_reg64(), ALL_REG64[i]);
        let converted: Reg64 = reg.into();
        assert_eq!(converted, ALL_REG64[i]);
        assert_eq!(reg.as_Reg64(), ALL_REG64[i]);
        assert_eq!(reg.as_reg32(), ALL_REG32[i]);
        let converted: Reg32 = reg.into();
        assert_eq!(converted, ALL_REG32[i]);
        assert_eq!(reg.as_Reg32(), ALL_REG32[i]);
        assert_eq!(reg.as_reg16(), ALL_REG16[i]);
        let converted: Reg16 = reg.into();
        assert_eq!(converted, ALL_REG16[i]);
        assert_eq!(reg.as_Reg16(), ALL_REG16[i]);
        assert_eq!(reg.as_reg8h(), ALL_REG8H.get(i).copied());
        let converted: Option<Reg8h> = reg.into();
        assert_eq!(converted, ALL_REG8H.get(i).copied());
        assert_eq!(reg.as_Reg8h(), reg.as_reg8h());
        if i < 4 {
            assert_eq!(reg.as_reg8h_unsafe(), ALL_REG8H[i]);
            assert_eq!(reg.as_Reg8h_unsafe(), ALL_REG8H[i]);
        }
    }
}

#[test]
fn reg8h_conversions_keep_the_register() {
    for (i, reg) in ALL_REG8H.into_iter().enumerate() {
        assert_eq!(reg.as_reg64(), ALL_REG64[i]);
        let converted: Reg64 = reg.into();
        assert_eq!(converted, ALL_REG64[i]);
        assert_eq!(reg.as_Reg64(), ALL_REG64[i]);
        assert_eq!(reg.as_reg32(), ALL_REG32[i]);
        let converted: Reg32 = reg.into();
        assert_eq!(converted, ALL_REG32[i]);
        assert_eq!(reg.as_Reg32(), ALL_REG32[i]);
        assert_eq!(reg.as_reg16(), ALL_REG16[i]);
        let converted: Reg16 = reg.into();
        assert_eq!(converted, ALL_REG16[i]);
        assert_eq!(reg.as_Reg16(), ALL_REG16[i]);
        assert_eq!(reg.as_reg8l(), ALL_REG8L[i]);
        let converted: Reg8l = reg.into();
        assert_eq!(converted, ALL_REG8L[i]);
        assert_eq!(reg.as_Reg8l(), ALL_REG8L[i]);
    }
}

#[test]
fn named_register_examples() {
    assert_eq!(Reg64::Rax.as_reg32(), Reg32::Eax);
    assert_eq!(Reg64::R15.as_reg16(), Reg16::R15w);
    assert_eq!(Reg32::Esp.as_reg8l(), Reg8l::Spl);
    assert_eq!(Reg16::Si.as_reg8h(), None);
    assert_eq!(Reg8l::Dl.as_reg8h(), Some(Reg8h::Dh));
    assert_eq!(Reg8h::Ch.as_reg64(), Reg64::Rcx);
    assert_eq!(Reg8h::Bh.as_reg8l(), Reg8l::Bl);
}

#[test]
fn register_names() {
    assert_eq!(Reg64::Rax.as_str(), "rax");
    assert_eq!(Reg64::R15.as_str(), "r15");
    assert_eq!(Reg32::R8d.as_str(), "r8d");
    assert_eq!(Reg16::Bp.as_str(), "bp");
    assert_eq!(Reg8l::Sil.as_str(), "sil");
    assert_eq!(Reg8l::R12b.as_str(), "r12b");
    assert_eq!(Reg8h::Dh.as_str(), "dh");
    for reg in ALL_REG64 {
        assert_eq!(reg.as_str(), format!("{reg:?}").to_lowercase());
    }
    for reg in ALL_REG32 {
        assert_eq!(reg.as_str(), format!("{reg:?}").to_lowercase());
    }
    for reg in ALL_REG16 {
        assert_eq!(reg.as_str(), format!("{reg:?}").to_lowercase());
    }
    for reg in ALL_REG8L {
        assert_eq!(reg.as_str(), format!("{reg:?}").to_lowercase());
    }
    for reg in ALL_REG8H {
        assert_eq!(reg.as_str(), format!("{reg:?}").to_lowercase());
    }
}
