//! The machine as the code generator sees it: registers, the calling
//! convention, memory operands, conditions and traps.
use vstd::prelude::*;

verus! {

/// A general-purpose register, by its number.
#[derive(Clone, Copy, Debug, PartialEq, Eq, Structural)]
pub struct Reg(pub u8);

/// A floating-point register, by its number.
#[derive(Clone, Copy, Debug, PartialEq, Eq, Structural)]
pub struct FReg(pub u8);

/// The register in which a function hands back an integer or a reference,
/// and the first scratch register of the code generator.
pub open spec fn reg_result() -> Reg {
    Reg(0)
}

/// The second integer scratch register.
pub open spec fn reg_tmp1() -> Reg {
    Reg(10)
}

/// The register in which a function hands back a floating-point number, and
/// the first floating-point scratch register.
pub open spec fn freg_result() -> FReg {
    FReg(0)
}

/// The second floating-point scratch register.
pub open spec fn freg_tmp1() -> FReg {
    FReg(1)
}

/// The register in which a function hands back an integer or a reference.
#[allow(non_snake_case)]
#[verifier::when_used_as_spec(reg_result)]
pub fn REG_RESULT() -> (reg: Reg)
    ensures
        reg == reg_result(),
{
    Reg(0)
}

/// The second integer scratch register.
#[allow(non_snake_case)]
#[verifier::when_used_as_spec(reg_tmp1)]
pub fn REG_TMP1() -> (reg: Reg)
    ensures
        reg == reg_tmp1(),
{
    Reg(10)
}

/// The register in which a function hands back a floating-point number.
#[allow(non_snake_case)]
#[verifier::when_used_as_spec(freg_result)]
pub fn FREG_RESULT() -> (reg: FReg)
    ensures
        reg == freg_result(),
{
    FReg(0)
}

/// The second floating-point scratch register.
#[allow(non_snake_case)]
#[verifier::when_used_as_spec(freg_tmp1)]
pub fn FREG_TMP1() -> (reg: FReg)
    ensures
        reg == freg_tmp1(),
{
    FReg(1)
}

/// How many integer arguments travel in registers.
pub const REG_PARAMS_LEN: usize = 6;

/// How many floating-point arguments travel in registers.
pub const FREG_PARAMS_LEN: usize = 8;

/// The offset from the frame pointer of the first argument that the caller
/// left on the stack.
pub const PARAM_OFFSET: i32 = 16;

/// The distance between two arguments on the stack.
pub const PARAM_SLOT: i32 = 8;

/// The register that carries the integer argument number `idx`.
pub open spec fn reg_param(idx: int) -> Reg {
    if idx == 0 {
        Reg(7)
    } else if idx == 1 {
        Reg(6)
    } else if idx == 2 {
        Reg(2)
    } else if idx == 3 {
        Reg(1)
    } else if idx == 4 {
        Reg(8)
    } else {
        Reg(9)
    }
}

/// The register that carries the floating-point argument number `idx`.
pub open spec fn freg_param(idx: int) -> FReg {
    FReg(idx as u8)
}

/// The register that carries the integer argument number `idx`.
pub fn reg_params(idx: usize) -> (reg: Reg)
    requires
        idx < REG_PARAMS_LEN,
    ensures
        reg == reg_param(idx as int),
{
    if idx == 0 {
        Reg(7)
    } else if idx == 1 {
        Reg(6)
    } else if idx == 2 {
        Reg(2)
    } else if idx == 3 {
        Reg(1)
    } else if idx == 4 {
        Reg(8)
    } else {
        Reg(9)
    }
}

/// The register that carries the floating-point argument number `idx`.
pub fn freg_params(idx: usize) -> (reg: FReg)
    requires
        idx < FREG_PARAMS_LEN,
    ensures
        reg == freg_param(idx as int),
{
    FReg(idx as u8)
}

/// A register of either file.
#[derive(Clone, Copy, Debug, PartialEq, Eq, Structural)]
pub enum ExprStore {
    Reg(Reg),
    FReg(FReg),
}

impl ExprStore {
    /// Whether this is a floating-point register.
    pub fn is_freg(self) -> (b: bool)
        ensures
            b == (self is FReg),
    {
        match self {
            ExprStore::FReg(_) => true,
            ExprStore::Reg(_) => false,
        }
    }
}

/// A memory operand.
#[derive(Clone, Copy, Debug, PartialEq, Eq, Structural)]
pub enum Mem {
    /// A slot of the current frame, by its offset from the frame pointer.
    Local(i32),
    /// The memory at a register plus a displacement.
    Base(Reg, i32),
}

/// The conditions on which machine code branches or sets a register.
#[derive(Clone, Copy, Debug, PartialEq, Eq, Structural)]
pub enum CondCode {
    Zero,
    NonZero,
    Equal,
    NotEqual,
    Greater,
    GreaterEq,
    Less,
    LessEq,
}

/// The faults that machine code raises.
#[derive(Clone, Copy, Debug, PartialEq, Eq, Structural)]
pub enum Trap {
    /// Division by zero.
    Div0,
    /// A failed assertion.
    Assert,
    /// An index outside an array.
    IndexOutOfBounds,
    /// The use of a null reference.
    Nil,
    /// A failed cast.
    Cast,
}

} // verus!
