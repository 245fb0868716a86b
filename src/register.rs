//! Decoding of raw `(number, value)` register records into named registers.

use vstd::prelude::*;

verus! {

/// One hardware register and its 64-bit value. Numbers outside the fixed
/// table are kept verbatim in `Other`.
#[derive(Debug, PartialEq, Eq, Structural, Clone, Copy)]
pub enum Register {
    Rax(u64),
    Rbx(u64),
    Rcx(u64),
    Rdx(u64),
    Rsi(u64),
    Rdi(u64),
    Rbp(u64),
    Rsp(u64),
    R8(u64),
    R9(u64),
    R10(u64),
    R11(u64),
    R12(u64),
    R13(u64),
    R14(u64),
    R15(u64),
    Rip(u64),
    Eflags(u64),
    Cs(u64),
    Ss(u64),
    Ds(u64),
    Es(u64),
    Fs(u64),
    Gs(u64),
    St0(u64),
    St1(u64),
    St2(u64),
    St3(u64),
    St4(u64),
    St5(u64),
    St6(u64),
    St7(u64),
    Fctrl(u64),
    Ftag(u64),
    Fiseg(u64),
    Fioff(u64),
    Foseg(u64),
    Fooff(u64),
    Fop(u64),
    FsBase(u64),
    GsBase(u64),
    KgsBase(u64),
    Cr0(u64),
    Cr2(u64),
    Cr3(u64),
    Cr4(u64),
    Cr8(u64),
    Efer(u64),
    Mxcsr(u64),
    Other { number: u8, value: u64 },
}

/// The numbers that the fixed table maps to a named register.
pub open spec fn in_table(number: u8) -> bool {
    ||| number <= 37
    ||| number == 39
    ||| 155 <= number <= 163
    ||| number == 180
}

/// The fixed table: the register that a raw record `(number, value)` denotes.
pub open spec fn register_of(number: u8, value: u64) -> Register {
    match number {
        0 => Register::Rax(value),
        1 => Register::Rbx(value),
        2 => Register::Rcx(value),
        3 => Register::Rdx(value),
        4 => Register::Rsi(value),
        5 => Register::Rdi(value),
        6 => Register::Rbp(value),
        7 => Register::Rsp(value),
        8 => Register::R8(value),
        9 => Register::R9(value),
        10 => Register::R10(value),
        11 => Register::R11(value),
        12 => Register::R12(value),
        13 => Register::R13(value),
        14 => Register::R14(value),
        15 => Register::R15(value),
        16 => Register::Rip(value),
        17 => Register::Eflags(value),
        18 => Register::Cs(value),
        19 => Register::Ss(value),
        20 => Register::Ds(value),
        21 => Register::Es(value),
        22 => Register::Fs(value),
        23 => Register::Gs(value),
        24 => Register::St0(value),
        25 => Register::St1(value),
        26 => Register::St2(value),
        27 => Register::St3(value),
        28 => Register::St4(value),
        29 => Register::St5(value),
        30 => Register::St6(value),
        31 => Register::St7(value),
        32 => Register::Fctrl(value),
        33 => Register::Ftag(value),
        34 => Register::Fiseg(value),
        35 => Register::Fioff(value),
        36 => Register::Foseg(value),
        37 => Register::Fooff(value),
        39 => Register::Fop(value),
        155 => Register::FsBase(value),
        156 => Register::GsBase(value),
        157 => Register::KgsBase(value),
        158 => Register::Cr0(value),
        159 => Register::Cr2(value),
        160 => Register::Cr3(value),
        161 => Register::Cr4(value),
        162 => Register::Cr8(value),
        163 => Register::Efer(value),
        180 => Register::Mxcsr(value),
        _ => Register::Other { number, value },
    }
}

/// The raw number that a register is reported under.
pub open spec fn number_of(r: Register) -> u8 {
    match r {
        Register::Rax(_) => 0,
        Register::Rbx(_) => 1,
        Register::Rcx(_) => 2,
        Register::Rdx(_) => 3,
        Register::Rsi(_) => 4,
        Register::Rdi(_) => 5,
        Register::Rbp(_) => 6,
        Register::Rsp(_) => 7,
        Register::R8(_) => 8,
        Register::R9(_) => 9,
        Register::R10(_) => 10,
        Register::R11(_) => 11,
        Register::R12(_) => 12,
        Register::R13(_) => 13,
        Register::R14(_) => 14,
        Register::R15(_) => 15,
        Register::Rip(_) => 16,
        Register::Eflags(_) => 17,
        Register::Cs(_) => 18,
        Register::Ss(_) => 19,
        Register::Ds(_) => 20,
        Register::Es(_) => 21,
        Register::Fs(_) => 22,
        Register::Gs(_) => 23,
        Register::St0(_) => 24,
        Register::St1(_) => 25,
        Register::St2(_) => 26,
        Register::St3(_) => 27,
        Register::St4(_) => 28,
        Register::St5(_) => 29,
        Register::St6(_) => 30,
        Register::St7(_) => 31,
        Register::Fctrl(_) => 32,
        Register::Ftag(_) => 33,
        Register::Fiseg(_) => 34,
        Register::Fioff(_) => 35,
        Register::Foseg(_) => 36,
        Register::Fooff(_) => 37,
        Register::Fop(_) => 39,
        Register::FsBase(_) => 155,
        Register::GsBase(_) => 156,
        Register::KgsBase(_) => 157,
        Register::Cr0(_) => 158,
        Register::Cr2(_) => 159,
        Register::Cr3(_) => 160,
        Register::Cr4(_) => 161,
        Register::Cr8(_) => 162,
        Register::Efer(_) => 163,
        Register::Mxcsr(_) => 180,
        Register::Other { number, .. } => number,
    }
}

/// The value that a register carries.
pub open spec fn value_of(r: Register) -> u64 {
    match r {
        Register::Rax(v) => v,
        Register::Rbx(v) => v,
        Register::Rcx(v) => v,
        Register::Rdx(v) => v,
        Register::Rsi(v) => v,
        Register::Rdi(v) => v,
        Register::Rbp(v) => v,
        Register::Rsp(v) => v,
        Register::R8(v) => v,
        Register::R9(v) => v,
        Register::R10(v) => v,
        Register::R11(v) => v,
        Register::R12(v) => v,
        Register::R13(v) => v,
        Register::R14(v) => v,
        Register::R15(v) => v,
        Register::Rip(v) => v,
        Register::Eflags(v) => v,
        Register::Cs(v) => v,
        Register::Ss(v) => v,
        Register::Ds(v) => v,
        Register::Es(v) => v,
        Register::Fs(v) => v,
        Register::Gs(v) => v,
        Register::St0(v) => v,
        Register::St1(v) => v,
        Register::St2(v) => v,
        Register::St3(v) => v,
        Register::St4(v) => v,
        Register::St5(v) => v,
        Register::St6(v) => v,
        Register::St7(v) => v,
        Register::Fctrl(v) => v,
        Register::Ftag(v) => v,
        Register::Fiseg(v) => v,
        Register::Fioff(v) => v,
        Register::Foseg(v) => v,
        Register::Fooff(v) => v,
        Register::Fop(v) => v,
        Register::FsBase(v) => v,
        Register::GsBase(v) => v,
        Register::KgsBase(v) => v,
        Register::Cr0(v) => v,
        Register::Cr2(v) => v,
        Register::Cr3(v) => v,
        Register::Cr4(v) => v,
        Register::Cr8(v) => v,
        Register::Efer(v) => v,
        Register::Mxcsr(v) => v,
        Register::Other { value, .. } => value,
    }
}

/// Decodes a raw `(number, value)` record through the fixed table; this never
/// fails, as unknown numbers become `Other`.
impl From<(u8, u64)> for Register {
    fn from(record: (u8, u64)) -> Self {
        let (number, value) = record;
        match number {
            0 => Register::Rax(value),
            1 => Register::Rbx(value),
            2 => Register::Rcx(value),
            3 => Register::Rdx(value),
            4 => Register::Rsi(value),
            5 => Register::Rdi(value),
            6 => Register::Rbp(value),
            7 => Register::Rsp(value),
            8 => Register::R8(value),
            9 => Register::R9(value),
            10 => Register::R10(value),
            11 => Register::R11(value),
            12 => Register::R12(value),
            13 => Register::R13(value),
            14 => Register::R14(value),
            15 => Register::R15(value),
            16 => Register::Rip(value),
            17 => Register::Eflags(value),
            18 => Register::Cs(value),
            19 => Register::Ss(value),
            20 => Register::Ds(value),
            21 => Register::Es(value),
            22 => Register::Fs(value),
            23 => Register::Gs(value),
            24 => Register::St0(value),
            25 => Register::St1(value),
            26 => Register::St2(value),
            27 => Register::St3(value),
            28 => Register::St4(value),
            29 => Register::St5(value),
            30 => Register::St6(value),
            31 => Register::St7(value),
            32 => Register::Fctrl(value),
            33 => Register::Ftag(value),
            34 => Register::Fiseg(value),
            35 => Register::Fioff(value),
            36 => Register::Foseg(value),
            37 => Register::Fooff(value),
            39 => Register::Fop(value),
            155 => Register::FsBase(value),
            156 => Register::GsBase(value),
            157 => Register::KgsBase(value),
            158 => Register::Cr0(value),
            159 => Register::Cr2(value),
            160 => Register::Cr3(value),
            161 => Register::Cr4(value),
            162 => Register::Cr8(value),
            163 => Register::Efer(value),
            180 => Register::Mxcsr(value),
            _ => Register::Other { number, value },
        }
    }
}

impl vstd::std_specs::convert::FromSpecImpl<(u8, u64)> for Register {
    open spec fn obeys_from_spec() -> bool {
        true
    }

    open spec fn from_spec(record: (u8, u64)) -> Register {
        register_of(record.0, record.1)
    }
}

impl Register {
    /// Whether this register fell outside the fixed table.
    pub fn is_other(&self) -> (r: bool)
        ensures
            r == (*self is Other),
    {
        matches!(self, Register::Other { .. })
    }
}

/// Every number of the fixed table decodes to a named register that is
/// reported under that same number and carries the given value.
pub proof fn lemma_decode_in_table(number: u8, value: u64)
    requires
        in_table(number),
    ensures
        !(register_of(number, value) is Other),
        number_of(register_of(number, value)) == number,
        value_of(register_of(number, value)) == value,
{
}

/// Every number outside the fixed table decodes to `Other`, with the number
/// and the value kept verbatim.
pub proof fn lemma_decode_outside_table(number: u8, value: u64)
    requires
        !in_table(number),
    ensures
        register_of(number, value) == (Register::Other { number, value }),
{
}

/// A decoded register is `Other` exactly when its number is outside the fixed
/// table.
pub proof fn lemma_decode_other_iff(number: u8, value: u64)
    ensures
        (register_of(number, value) is Other) <==> !in_table(number),
{
}

} // verus!
