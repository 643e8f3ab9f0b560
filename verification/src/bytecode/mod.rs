//! The register bytecode: instructions over typed virtual registers, the
//! table of registers and the pool of constants of a function.
use vstd::prelude::*;

use crate::ty::BytecodeType;
use crate::vm::{ClassDefId, FctDefId, FieldId, GlobalId};

pub mod dumper;



verus! {

/// The largest number of instructions that a function may have.
///
/// An instruction may add a word to the constant area of the code, and a
/// word of that area is addressed by its distance in bytes from the code,
/// which is a signed number of 32 bits: the area holds `0x0fff_ffff` words
/// of eight bytes at most, and so a function as many instructions.
pub const MAX_CODE: usize = 0x0fff_ffff;

/// A virtual register: an index into the register table of its function.
#[derive(Clone, Copy, Debug, PartialEq, Eq, Structural)]
pub struct Register(pub usize);

impl Register {
    /// The index of the register.
    pub fn to_usize(self) -> (idx: usize)
        ensures
            idx == self.0,
    {
        self.0
    }
}

/// An index into the pool of constants of a function.
#[derive(Clone, Copy, Debug, PartialEq, Eq, Structural)]
pub struct ConstPoolIdx(pub usize);

impl ConstPoolIdx {
    /// The index as a number.
    pub fn to_usize(self) -> (idx: usize)
        ensures
            idx == self.0,
    {
        self.0
    }
}

/// A bytecode position: the index of an instruction in the instruction
/// sequence of its function, counted from zero.
#[derive(Clone, Copy, Debug, PartialEq, Eq, Structural)]
pub struct BytecodeOffset(pub u32);

impl BytecodeOffset {
    /// The position as a `u32`.
    pub fn to_u32(self) -> (idx: u32)
        ensures
            idx == self.0,
    {
        self.0
    }

    /// The position as a `usize`.
    pub fn to_usize(self) -> (idx: usize)
        ensures
            idx == self.0,
    {
        self.0 as usize
    }
}

/// A constant that is too wide to stand in an instruction. Floating-point
/// constants are held by their bits.
#[derive(Clone, Debug)]
pub enum ConstPoolEntry {
    String(std::string::String),
    Float32(u32),
    Float64(u64),
    Int(i32),
    Int64(i64),
    Char(char),
}

/// An instruction. Operands are virtual registers, small literals and
/// indices into the tables of the function or of the runtime. The
/// destination comes first.
#[derive(Clone, Copy, Debug, PartialEq, Eq, Structural)]
pub enum Bytecode {
    AddInt(Register, Register, Register),
    AddLong(Register, Register, Register),
    AddFloat(Register, Register, Register),
    AddDouble(Register, Register, Register),
    SubInt(Register, Register, Register),
    SubLong(Register, Register, Register),
    SubFloat(Register, Register, Register),
    SubDouble(Register, Register, Register),
    NegInt(Register, Register),
    NegLong(Register, Register),
    NegFloat(Register, Register),
    NegDouble(Register, Register),
    MulInt(Register, Register, Register),
    MulLong(Register, Register, Register),
    MulFloat(Register, Register, Register),
    MulDouble(Register, Register, Register),
    DivInt(Register, Register, Register),
    DivLong(Register, Register, Register),
    DivFloat(Register, Register, Register),
    DivDouble(Register, Register, Register),
    ModInt(Register, Register, Register),
    ModLong(Register, Register, Register),
    AndInt(Register, Register, Register),
    AndLong(Register, Register, Register),
    OrInt(Register, Register, Register),
    OrLong(Register, Register, Register),
    XorInt(Register, Register, Register),
    XorLong(Register, Register, Register),
    NotBool(Register, Register),
    NotInt(Register, Register),
    NotLong(Register, Register),
    ShlInt(Register, Register, Register),
    ShrInt(Register, Register, Register),
    SarInt(Register, Register, Register),
    ShlLong(Register, Register, Register),
    ShrLong(Register, Register, Register),
    SarLong(Register, Register, Register),
    RolInt(Register, Register, Register),
    RorInt(Register, Register, Register),
    RolLong(Register, Register, Register),
    RorLong(Register, Register, Register),
    ReinterpretIntAsFloat(Register, Register),
    ReinterpretFloatAsInt(Register, Register),
    ReinterpretDoubleAsLong(Register, Register),
    ReinterpretLongAsDouble(Register, Register),
    ExtendByteToChar(Register, Register),
    ExtendByteToInt(Register, Register),
    ExtendByteToLong(Register, Register),
    ExtendIntToLong(Register, Register),
    ExtendCharToLong(Register, Register),
    CastCharToInt(Register, Register),
    CastIntToByte(Register, Register),
    CastIntToChar(Register, Register),
    CastInt64ToByte(Register, Register),
    CastInt64ToChar(Register, Register),
    CastInt64ToInt(Register, Register),
    ConvertIntToFloat(Register, Register),
    ConvertIntToDouble(Register, Register),
    ConvertLongToFloat(Register, Register),
    ConvertLongToDouble(Register, Register),
    TruncateFloatToInt(Register, Register),
    TruncateFloatToLong(Register, Register),
    TruncateDoubleToInt(Register, Register),
    TruncateDoubleToLong(Register, Register),
    InstanceOf(Register, Register, ClassDefId),
    CheckedCast(Register, ClassDefId),
    MovBool(Register, Register),
    MovByte(Register, Register),
    MovChar(Register, Register),
    MovInt(Register, Register),
    MovInt64(Register, Register),
    MovFloat(Register, Register),
    MovDouble(Register, Register),
    MovPtr(Register, Register),
    LoadFieldBool(Register, Register, ClassDefId, FieldId),
    LoadFieldUInt8(Register, Register, ClassDefId, FieldId),
    LoadFieldChar(Register, Register, ClassDefId, FieldId),
    LoadFieldInt(Register, Register, ClassDefId, FieldId),
    LoadFieldInt64(Register, Register, ClassDefId, FieldId),
    LoadFieldFloat(Register, Register, ClassDefId, FieldId),
    LoadFieldDouble(Register, Register, ClassDefId, FieldId),
    LoadFieldPtr(Register, Register, ClassDefId, FieldId),
    StoreFieldBool(Register, Register, ClassDefId, FieldId),
    StoreFieldUInt8(Register, Register, ClassDefId, FieldId),
    StoreFieldChar(Register, Register, ClassDefId, FieldId),
    StoreFieldInt(Register, Register, ClassDefId, FieldId),
    StoreFieldInt64(Register, Register, ClassDefId, FieldId),
    StoreFieldFloat(Register, Register, ClassDefId, FieldId),
    StoreFieldDouble(Register, Register, ClassDefId, FieldId),
    StoreFieldPtr(Register, Register, ClassDefId, FieldId),
    LoadGlobalBool(Register, GlobalId),
    LoadGlobalByte(Register, GlobalId),
    LoadGlobalChar(Register, GlobalId),
    LoadGlobalInt(Register, GlobalId),
    LoadGlobalLong(Register, GlobalId),
    LoadGlobalFloat(Register, GlobalId),
    LoadGlobalDouble(Register, GlobalId),
    LoadGlobalPtr(Register, GlobalId),
    StoreGlobalBool(Register, GlobalId),
    StoreGlobalByte(Register, GlobalId),
    StoreGlobalChar(Register, GlobalId),
    StoreGlobalInt(Register, GlobalId),
    StoreGlobalLong(Register, GlobalId),
    StoreGlobalFloat(Register, GlobalId),
    StoreGlobalDouble(Register, GlobalId),
    StoreGlobalPtr(Register, GlobalId),
    PushRegister(Register),
    ConstNil(Register),
    ConstTrue(Register),
    ConstFalse(Register),
    ConstZeroByte(Register),
    ConstZeroChar(Register),
    ConstZeroInt(Register),
    ConstZeroLong(Register),
    ConstZeroFloat(Register),
    ConstZeroDouble(Register),
    ConstChar(Register, ConstPoolIdx),
    ConstUInt8(Register, u8),
    ConstInt(Register, ConstPoolIdx),
    ConstInt64(Register, ConstPoolIdx),
    ConstFloat(Register, ConstPoolIdx),
    ConstDouble(Register, ConstPoolIdx),
    ConstString(Register, ConstPoolIdx),
    TestEqPtr(Register, Register, Register),
    TestNePtr(Register, Register, Register),
    TestEqBool(Register, Register, Register),
    TestNeBool(Register, Register, Register),
    TestEqByte(Register, Register, Register),
    TestNeByte(Register, Register, Register),
    TestGtByte(Register, Register, Register),
    TestGeByte(Register, Register, Register),
    TestLtByte(Register, Register, Register),
    TestLeByte(Register, Register, Register),
    TestEqChar(Register, Register, Register),
    TestNeChar(Register, Register, Register),
    TestGtChar(Register, Register, Register),
    TestGeChar(Register, Register, Register),
    TestLtChar(Register, Register, Register),
    TestLeChar(Register, Register, Register),
    TestEqEnum(Register, Register, Register),
    TestNeEnum(Register, Register, Register),
    TestEqInt(Register, Register, Register),
    TestNeInt(Register, Register, Register),
    TestGtInt(Register, Register, Register),
    TestGeInt(Register, Register, Register),
    TestLtInt(Register, Register, Register),
    TestLeInt(Register, Register, Register),
    TestEqInt64(Register, Register, Register),
    TestNeInt64(Register, Register, Register),
    TestGtInt64(Register, Register, Register),
    TestGeInt64(Register, Register, Register),
    TestLtInt64(Register, Register, Register),
    TestLeInt64(Register, Register, Register),
    TestEqFloat(Register, Register, Register),
    TestNeFloat(Register, Register, Register),
    TestGtFloat(Register, Register, Register),
    TestGeFloat(Register, Register, Register),
    TestLtFloat(Register, Register, Register),
    TestLeFloat(Register, Register, Register),
    TestEqDouble(Register, Register, Register),
    TestNeDouble(Register, Register, Register),
    TestGtDouble(Register, Register, Register),
    TestGeDouble(Register, Register, Register),
    TestLtDouble(Register, Register, Register),
    TestLeDouble(Register, Register, Register),
    Assert(Register),
    JumpIfFalse(Register, u32),
    JumpIfFalseConst(Register, ConstPoolIdx),
    JumpIfTrue(Register, u32),
    JumpIfTrueConst(Register, ConstPoolIdx),
    JumpLoop(u32),
    Jump(u32),
    JumpConst(ConstPoolIdx),
    InvokeDirectVoid(FctDefId, u32),
    InvokeDirectBool(Register, FctDefId, u32),
    InvokeDirectByte(Register, FctDefId, u32),
    InvokeDirectChar(Register, FctDefId, u32),
    InvokeDirectInt(Register, FctDefId, u32),
    InvokeDirectInt64(Register, FctDefId, u32),
    InvokeDirectFloat(Register, FctDefId, u32),
    InvokeDirectDouble(Register, FctDefId, u32),
    InvokeDirectPtr(Register, FctDefId, u32),
    InvokeVirtualVoid(FctDefId, u32),
    InvokeVirtualBool(Register, FctDefId, u32),
    InvokeVirtualByte(Register, FctDefId, u32),
    InvokeVirtualChar(Register, FctDefId, u32),
    InvokeVirtualInt(Register, FctDefId, u32),
    InvokeVirtualInt64(Register, FctDefId, u32),
    InvokeVirtualFloat(Register, FctDefId, u32),
    InvokeVirtualDouble(Register, FctDefId, u32),
    InvokeVirtualPtr(Register, FctDefId, u32),
    InvokeStaticVoid(FctDefId, u32),
    InvokeStaticBool(Register, FctDefId, u32),
    InvokeStaticByte(Register, FctDefId, u32),
    InvokeStaticChar(Register, FctDefId, u32),
    InvokeStaticInt(Register, FctDefId, u32),
    InvokeStaticInt64(Register, FctDefId, u32),
    InvokeStaticFloat(Register, FctDefId, u32),
    InvokeStaticDouble(Register, FctDefId, u32),
    InvokeStaticPtr(Register, FctDefId, u32),
    NewObject(Register, ClassDefId),
    NewArray(Register, ClassDefId, Register),
    NilCheck(Register),
    LoadArrayBool(Register, Register, Register),
    LoadArrayByte(Register, Register, Register),
    LoadArrayChar(Register, Register, Register),
    LoadArrayInt(Register, Register, Register),
    LoadArrayInt64(Register, Register, Register),
    LoadArrayFloat(Register, Register, Register),
    LoadArrayDouble(Register, Register, Register),
    LoadArrayPtr(Register, Register, Register),
    StoreArrayBool(Register, Register, Register),
    StoreArrayByte(Register, Register, Register),
    StoreArrayChar(Register, Register, Register),
    StoreArrayInt(Register, Register, Register),
    StoreArrayInt64(Register, Register, Register),
    StoreArrayFloat(Register, Register, Register),
    StoreArrayDouble(Register, Register, Register),
    StoreArrayPtr(Register, Register, Register),
    ArrayLength(Register, Register),
    ArrayBoundCheck(Register, Register),
    RetVoid,
    RetBool(Register),
    RetByte(Register),
    RetChar(Register),
    RetInt(Register),
    RetInt64(Register),
    RetFloat(Register),
    RetDouble(Register),
    RetPtr(Register),
}

/// How the operands of an instruction are laid out in a trace.
pub enum Layout {
    /// No operands.
    Inst,
    /// Three registers.
    Reg3(Register, Register, Register),
    /// Two registers.
    Reg2(Register, Register),
    /// Two registers and a class.
    Reg2Cls(Register, Register, ClassDefId),
    /// One register.
    Reg1(Register),
    /// A register and a class.
    Reg1Cls(Register, ClassDefId),
    /// A register and a constant of the pool.
    Reg1Idx(Register, ConstPoolIdx),
    /// A constant of the pool.
    Idx(ConstPoolIdx),
    /// A register and a number.
    Reg1U32(Register, u32),
    /// A jump, by the distance to its target: positive forwards.
    Jump(int),
    /// A jump on the value of a register, by the distance to its target.
    Reg1Jump(Register, int),
    /// Two registers and a field of a class.
    Field(Register, Register, ClassDefId, FieldId),
    /// A register and a global variable.
    Global(Register, GlobalId),
    /// A function and a number of arguments.
    FctVoid(FctDefId, u32),
    /// A register, a function and a number of arguments.
    Fct(Register, FctDefId, u32),
    /// A register and a class.
    New(Register, ClassDefId),
    /// A register, a class and a register.
    NewArray(Register, ClassDefId, Register),
}

impl Bytecode {
    /// The name of the instruction.
    pub open spec fn mnemonic(self) -> Seq<char> {
        match self {
            Bytecode::AddInt(..) => "AddInt"@,
            Bytecode::AddLong(..) => "AddLong"@,
            Bytecode::AddFloat(..) => "AddFloat"@,
            Bytecode::AddDouble(..) => "AddDouble"@,
            Bytecode::SubInt(..) => "SubInt"@,
            Bytecode::SubLong(..) => "SubLong"@,
            Bytecode::SubFloat(..) => "SubFloat"@,
            Bytecode::SubDouble(..) => "SubDouble"@,
            Bytecode::NegInt(..) => "NegInt"@,
            Bytecode::NegLong(..) => "NegLong"@,
            Bytecode::NegFloat(..) => "NegFloat"@,
            Bytecode::NegDouble(..) => "NegDouble"@,
            Bytecode::MulInt(..) => "MulInt"@,
            Bytecode::MulLong(..) => "MulLong"@,
            Bytecode::MulFloat(..) => "MulFloat"@,
            Bytecode::MulDouble(..) => "MulDouble"@,
            Bytecode::DivInt(..) => "DivInt"@,
            Bytecode::DivLong(..) => "DivLong"@,
            Bytecode::DivFloat(..) => "DivFloat"@,
            Bytecode::DivDouble(..) => "DivDouble"@,
            Bytecode::ModInt(..) => "ModInt"@,
            Bytecode::ModLong(..) => "ModLong"@,
            Bytecode::AndInt(..) => "AndInt"@,
            Bytecode::AndLong(..) => "AndLong"@,
            Bytecode::OrInt(..) => "OrInt"@,
            Bytecode::OrLong(..) => "OrLong"@,
            Bytecode::XorInt(..) => "XorInt"@,
            Bytecode::XorLong(..) => "XorLong"@,
            Bytecode::NotBool(..) => "NotBool"@,
            Bytecode::NotInt(..) => "NotInt"@,
            Bytecode::NotLong(..) => "NotLong"@,
            Bytecode::ShlInt(..) => "ShlInt"@,
            Bytecode::ShrInt(..) => "ShrInt"@,
            Bytecode::SarInt(..) => "SarInt"@,
            Bytecode::ShlLong(..) => "ShlLong"@,
            Bytecode::ShrLong(..) => "ShrLong"@,
            Bytecode::SarLong(..) => "SarLong"@,
            Bytecode::RolInt(..) => "RolInt"@,
            Bytecode::RorInt(..) => "RorInt"@,
            Bytecode::RolLong(..) => "RolLong"@,
            Bytecode::RorLong(..) => "RorLong"@,
            Bytecode::ReinterpretIntAsFloat(..) => "ReinterpretIntAsFloat"@,
            Bytecode::ReinterpretFloatAsInt(..) => "ReinterpretFloatAsInt"@,
            Bytecode::ReinterpretDoubleAsLong(..) => "ReinterpretDoubleAsLong"@,
            Bytecode::ReinterpretLongAsDouble(..) => "ReinterpretLongAsDouble"@,
            Bytecode::ExtendByteToChar(..) => "ExtendByteToChar"@,
            Bytecode::ExtendByteToInt(..) => "ExtendByteToInt"@,
            Bytecode::ExtendByteToLong(..) => "ExtendByteToLong"@,
            Bytecode::ExtendIntToLong(..) => "ExtendIntToLong"@,
            Bytecode::ExtendCharToLong(..) => "ExtendCharToLong"@,
            Bytecode::CastCharToInt(..) => "CastCharToInt"@,
            Bytecode::CastIntToByte(..) => "CastIntToByte"@,
            Bytecode::CastIntToChar(..) => "CastIntToChar"@,
            Bytecode::CastInt64ToByte(..) => "CastInt64ToByte"@,
            Bytecode::CastInt64ToChar(..) => "CastInt64ToChar"@,
            Bytecode::CastInt64ToInt(..) => "CastInt64ToInt"@,
            Bytecode::ConvertIntToFloat(..) => "ConvertIntToFloat"@,
            Bytecode::ConvertIntToDouble(..) => "ConvertIntToDouble"@,
            Bytecode::ConvertLongToFloat(..) => "ConvertLongToFloat"@,
            Bytecode::ConvertLongToDouble(..) => "ConvertLongToDouble"@,
            Bytecode::TruncateFloatToInt(..) => "TruncateFloatToInt"@,
            Bytecode::TruncateFloatToLong(..) => "TruncateFloatToLong"@,
            Bytecode::TruncateDoubleToInt(..) => "TruncateDoubleToInt"@,
            Bytecode::TruncateDoubleToLong(..) => "TruncateDoubleToLong"@,
            Bytecode::InstanceOf(..) => "InstanceOf"@,
            Bytecode::CheckedCast(..) => "CheckedCast"@,
            Bytecode::MovBool(..) => "MovBool"@,
            Bytecode::MovByte(..) => "MovByte"@,
            Bytecode::MovChar(..) => "MovChar"@,
            Bytecode::MovInt(..) => "MovInt"@,
            Bytecode::MovInt64(..) => "MovInt64"@,
            Bytecode::MovFloat(..) => "MovFloat"@,
            Bytecode::MovDouble(..) => "MovDouble"@,
            Bytecode::MovPtr(..) => "MovPtr"@,
            Bytecode::LoadFieldBool(..) => "LoadFieldBool"@,
            Bytecode::LoadFieldUInt8(..) => "LoadFieldUInt8"@,
            Bytecode::LoadFieldChar(..) => "LoadFieldChar"@,
            Bytecode::LoadFieldInt(..) => "LoadFieldInt"@,
            Bytecode::LoadFieldInt64(..) => "LoadFieldInt64"@,
            Bytecode::LoadFieldFloat(..) => "LoadFieldFloat"@,
            Bytecode::LoadFieldDouble(..) => "LoadFieldDouble"@,
            Bytecode::LoadFieldPtr(..) => "LoadFieldPtr"@,
            Bytecode::StoreFieldBool(..) => "StoreFieldBool"@,
            Bytecode::StoreFieldUInt8(..) => "StoreFieldUInt8"@,
            Bytecode::StoreFieldChar(..) => "StoreFieldChar"@,
            Bytecode::StoreFieldInt(..) => "StoreFieldInt"@,
            Bytecode::StoreFieldInt64(..) => "StoreFieldInt64"@,
            Bytecode::StoreFieldFloat(..) => "StoreFieldFloat"@,
            Bytecode::StoreFieldDouble(..) => "StoreFieldDouble"@,
            Bytecode::StoreFieldPtr(..) => "StoreFieldPtr"@,
            Bytecode::LoadGlobalBool(..) => "LoadGlobalBool"@,
            Bytecode::LoadGlobalByte(..) => "LoadGlobalByte"@,
            Bytecode::LoadGlobalChar(..) => "LoadGlobalChar"@,
            Bytecode::LoadGlobalInt(..) => "LoadGlobalInt"@,
            Bytecode::LoadGlobalLong(..) => "LoadGlobalLong"@,
            Bytecode::LoadGlobalFloat(..) => "LoadGlobalFloat"@,
            Bytecode::LoadGlobalDouble(..) => "LoadGlobalDouble"@,
            Bytecode::LoadGlobalPtr(..) => "LoadGlobalPtr"@,
            Bytecode::StoreGlobalBool(..) => "StoreGlobalBool"@,
            Bytecode::StoreGlobalByte(..) => "StoreGlobalByte"@,
            Bytecode::StoreGlobalChar(..) => "StoreGlobalChar"@,
            Bytecode::StoreGlobalInt(..) => "StoreGlobalInt"@,
            Bytecode::StoreGlobalLong(..) => "StoreGlobalLong"@,
            Bytecode::StoreGlobalFloat(..) => "StoreGlobalFloat"@,
            Bytecode::StoreGlobalDouble(..) => "StoreGlobalDouble"@,
            Bytecode::StoreGlobalPtr(..) => "StoreGlobalPtr"@,
            Bytecode::PushRegister(..) => "PushRegister"@,
            Bytecode::ConstNil(..) => "ConstNil"@,
            Bytecode::ConstTrue(..) => "ConstTrue"@,
            Bytecode::ConstFalse(..) => "ConstFalse"@,
            Bytecode::ConstZeroByte(..) => "ConstZeroByte"@,
            Bytecode::ConstZeroChar(..) => "ConstZeroChar"@,
            Bytecode::ConstZeroInt(..) => "ConstZeroInt"@,
            Bytecode::ConstZeroLong(..) => "ConstZeroLong"@,
            Bytecode::ConstZeroFloat(..) => "ConstZeroFloat"@,
            Bytecode::ConstZeroDouble(..) => "ConstZeroDouble"@,
            Bytecode::ConstChar(..) => "ConstChar"@,
            Bytecode::ConstUInt8(..) => "ConstUInt8"@,
            Bytecode::ConstInt(..) => "ConstInt"@,
            Bytecode::ConstInt64(..) => "ConstInt64"@,
            Bytecode::ConstFloat(..) => "ConstFloat"@,
            Bytecode::ConstDouble(..) => "ConstDouble"@,
            Bytecode::ConstString(..) => "ConstString"@,
            Bytecode::TestEqPtr(..) => "TestEqPtr"@,
            Bytecode::TestNePtr(..) => "TestNePtr"@,
            Bytecode::TestEqBool(..) => "TestEqBool"@,
            Bytecode::TestNeBool(..) => "TestNeBool"@,
            Bytecode::TestEqByte(..) => "TestEqByte"@,
            Bytecode::TestNeByte(..) => "TestNeByte"@,
            Bytecode::TestGtByte(..) => "TestGtByte"@,
            Bytecode::TestGeByte(..) => "TestGeByte"@,
            Bytecode::TestLtByte(..) => "TestLtByte"@,
            Bytecode::TestLeByte(..) => "TestLeByte"@,
            Bytecode::TestEqChar(..) => "TestEqChar"@,
            Bytecode::TestNeChar(..) => "TestNeChar"@,
            Bytecode::TestGtChar(..) => "TestGtChar"@,
            Bytecode::TestGeChar(..) => "TestGeChar"@,
            Bytecode::TestLtChar(..) => "TestLtChar"@,
            Bytecode::TestLeChar(..) => "TestLeChar"@,
            Bytecode::TestEqEnum(..) => "TestEqEnum"@,
            Bytecode::TestNeEnum(..) => "TestNeEnum"@,
            Bytecode::TestEqInt(..) => "TestEqInt"@,
            Bytecode::TestNeInt(..) => "TestNeInt"@,
            Bytecode::TestGtInt(..) => "TestGtInt"@,
            Bytecode::TestGeInt(..) => "TestGeInt"@,
            Bytecode::TestLtInt(..) => "TestLtInt"@,
            Bytecode::TestLeInt(..) => "TestLeInt"@,
            Bytecode::TestEqInt64(..) => "TestEqInt64"@,
            Bytecode::TestNeInt64(..) => "TestNeInt64"@,
            Bytecode::TestGtInt64(..) => "TestGtInt64"@,
            Bytecode::TestGeInt64(..) => "TestGeInt64"@,
            Bytecode::TestLtInt64(..) => "TestLtInt64"@,
            Bytecode::TestLeInt64(..) => "TestLeInt64"@,
            Bytecode::TestEqFloat(..) => "TestEqFloat"@,
            Bytecode::TestNeFloat(..) => "TestNeFloat"@,
            Bytecode::TestGtFloat(..) => "TestGtFloat"@,
            Bytecode::TestGeFloat(..) => "TestGeFloat"@,
            Bytecode::TestLtFloat(..) => "TestLtFloat"@,
            Bytecode::TestLeFloat(..) => "TestLeFloat"@,
            Bytecode::TestEqDouble(..) => "TestEqDouble"@,
            Bytecode::TestNeDouble(..) => "TestNeDouble"@,
            Bytecode::TestGtDouble(..) => "TestGtDouble"@,
            Bytecode::TestGeDouble(..) => "TestGeDouble"@,
            Bytecode::TestLtDouble(..) => "TestLtDouble"@,
            Bytecode::TestLeDouble(..) => "TestLeDouble"@,
            Bytecode::Assert(..) => "Assert"@,
            Bytecode::JumpIfFalse(..) => "JumpIfFalse"@,
            Bytecode::JumpIfFalseConst(..) => "JumpIfFalseConst"@,
            Bytecode::JumpIfTrue(..) => "JumpIfTrue"@,
            Bytecode::JumpIfTrueConst(..) => "JumpIfTrueConst"@,
            Bytecode::JumpLoop(..) => "JumpLoop"@,
            Bytecode::Jump(..) => "Jump"@,
            Bytecode::JumpConst(..) => "JumpConst"@,
            Bytecode::InvokeDirectVoid(..) => "InvokeDirectVoid"@,
            Bytecode::InvokeDirectBool(..) => "InvokeDirectBool"@,
            Bytecode::InvokeDirectByte(..) => "InvokeDirectByte"@,
            Bytecode::InvokeDirectChar(..) => "InvokeDirectChar"@,
            Bytecode::InvokeDirectInt(..) => "InvokeDirectInt"@,
            Bytecode::InvokeDirectInt64(..) => "InvokeDirectInt64"@,
            Bytecode::InvokeDirectFloat(..) => "InvokeDirectFloat"@,
            Bytecode::InvokeDirectDouble(..) => "InvokeDirectDouble"@,
            Bytecode::InvokeDirectPtr(..) => "InvokeDirectPtr"@,
            Bytecode::InvokeVirtualVoid(..) => "InvokeVirtualVoid"@,
            Bytecode::InvokeVirtualBool(..) => "InvokeVirtualBool"@,
            Bytecode::InvokeVirtualByte(..) => "InvokeVirtualByte"@,
            Bytecode::InvokeVirtualChar(..) => "InvokeVirtualChar"@,
            Bytecode::InvokeVirtualInt(..) => "InvokeVirtualInt"@,
            Bytecode::InvokeVirtualInt64(..) => "InvokeVirtualInt64"@,
            Bytecode::InvokeVirtualFloat(..) => "InvokeVirtualFloat"@,
            Bytecode::InvokeVirtualDouble(..) => "InvokeVirtualDouble"@,
            Bytecode::InvokeVirtualPtr(..) => "InvokeVirtualPtr"@,
            Bytecode::InvokeStaticVoid(..) => "InvokeStaticVoid"@,
            Bytecode::InvokeStaticBool(..) => "InvokeStaticBool"@,
            Bytecode::InvokeStaticByte(..) => "InvokeStaticByte"@,
            Bytecode::InvokeStaticChar(..) => "InvokeStaticChar"@,
            Bytecode::InvokeStaticInt(..) => "InvokeStaticInt"@,
            Bytecode::InvokeStaticInt64(..) => "InvokeStaticInt64"@,
            Bytecode::InvokeStaticFloat(..) => "InvokeStaticFloat"@,
            Bytecode::InvokeStaticDouble(..) => "InvokeStaticDouble"@,
            Bytecode::InvokeStaticPtr(..) => "InvokeStaticPtr"@,
            Bytecode::NewObject(..) => "NewObject"@,
            Bytecode::NewArray(..) => "NewArray"@,
            Bytecode::NilCheck(..) => "NilCheck"@,
            Bytecode::LoadArrayBool(..) => "LoadArrayBool"@,
            Bytecode::LoadArrayByte(..) => "LoadArrayByte"@,
            Bytecode::LoadArrayChar(..) => "LoadArrayChar"@,
            Bytecode::LoadArrayInt(..) => "LoadArrayInt"@,
            Bytecode::LoadArrayInt64(..) => "LoadArrayInt64"@,
            Bytecode::LoadArrayFloat(..) => "LoadArrayFloat"@,
            Bytecode::LoadArrayDouble(..) => "LoadArrayDouble"@,
            Bytecode::LoadArrayPtr(..) => "LoadArrayPtr"@,
            Bytecode::StoreArrayBool(..) => "StoreArrayBool"@,
            Bytecode::StoreArrayByte(..) => "StoreArrayByte"@,
            Bytecode::StoreArrayChar(..) => "StoreArrayChar"@,
            Bytecode::StoreArrayInt(..) => "StoreArrayInt"@,
            Bytecode::StoreArrayInt64(..) => "StoreArrayInt64"@,
            Bytecode::StoreArrayFloat(..) => "StoreArrayFloat"@,
            Bytecode::StoreArrayDouble(..) => "StoreArrayDouble"@,
            Bytecode::StoreArrayPtr(..) => "StoreArrayPtr"@,
            Bytecode::ArrayLength(..) => "ArrayLength"@,
            Bytecode::ArrayBoundCheck(..) => "ArrayBoundCheck"@,
            Bytecode::RetVoid => "RetVoid"@,
            Bytecode::RetBool(..) => "RetBool"@,
            Bytecode::RetByte(..) => "RetByte"@,
            Bytecode::RetChar(..) => "RetChar"@,
            Bytecode::RetInt(..) => "RetInt"@,
            Bytecode::RetInt64(..) => "RetInt64"@,
            Bytecode::RetFloat(..) => "RetFloat"@,
            Bytecode::RetDouble(..) => "RetDouble"@,
            Bytecode::RetPtr(..) => "RetPtr"@,
        }
    }

    /// The operands of the instruction, as a trace shows them.
    pub open spec fn layout(self) -> Layout {
        match self {
            Bytecode::AddInt(dest, lhs, rhs) => Layout::Reg3(dest, lhs, rhs),
            Bytecode::AddLong(dest, lhs, rhs) => Layout::Reg3(dest, lhs, rhs),
            Bytecode::AddFloat(dest, lhs, rhs) => Layout::Reg3(dest, lhs, rhs),
            Bytecode::AddDouble(dest, lhs, rhs) => Layout::Reg3(dest, lhs, rhs),
            Bytecode::SubInt(dest, lhs, rhs) => Layout::Reg3(dest, lhs, rhs),
            Bytecode::SubLong(dest, lhs, rhs) => Layout::Reg3(dest, lhs, rhs),
            Bytecode::SubFloat(dest, lhs, rhs) => Layout::Reg3(dest, lhs, rhs),
            Bytecode::SubDouble(dest, lhs, rhs) => Layout::Reg3(dest, lhs, rhs),
            Bytecode::NegInt(dest, src) => Layout::Reg2(dest, src),
            Bytecode::NegLong(dest, src) => Layout::Reg2(dest, src),
            Bytecode::NegFloat(dest, src) => Layout::Reg2(dest, src),
            Bytecode::NegDouble(dest, src) => Layout::Reg2(dest, src),
            Bytecode::MulInt(dest, lhs, rhs) => Layout::Reg3(dest, lhs, rhs),
            Bytecode::MulLong(dest, lhs, rhs) => Layout::Reg3(dest, lhs, rhs),
            Bytecode::MulFloat(dest, lhs, rhs) => Layout::Reg3(dest, lhs, rhs),
            Bytecode::MulDouble(dest, lhs, rhs) => Layout::Reg3(dest, lhs, rhs),
            Bytecode::DivInt(dest, lhs, rhs) => Layout::Reg3(dest, lhs, rhs),
            Bytecode::DivLong(dest, lhs, rhs) => Layout::Reg3(dest, lhs, rhs),
            Bytecode::DivFloat(dest, lhs, rhs) => Layout::Reg3(dest, lhs, rhs),
            Bytecode::DivDouble(dest, lhs, rhs) => Layout::Reg3(dest, lhs, rhs),
            Bytecode::ModInt(dest, lhs, rhs) => Layout::Reg3(dest, lhs, rhs),
            Bytecode::ModLong(dest, lhs, rhs) => Layout::Reg3(dest, lhs, rhs),
            Bytecode::AndInt(dest, lhs, rhs) => Layout::Reg3(dest, lhs, rhs),
            Bytecode::AndLong(dest, lhs, rhs) => Layout::Reg3(dest, lhs, rhs),
            Bytecode::OrInt(dest, lhs, rhs) => Layout::Reg3(dest, lhs, rhs),
            Bytecode::OrLong(dest, lhs, rhs) => Layout::Reg3(dest, lhs, rhs),
            Bytecode::XorInt(dest, lhs, rhs) => Layout::Reg3(dest, lhs, rhs),
            Bytecode::XorLong(dest, lhs, rhs) => Layout::Reg3(dest, lhs, rhs),
            Bytecode::NotBool(dest, src) => Layout::Reg2(dest, src),
            Bytecode::NotInt(dest, src) => Layout::Reg2(dest, src),
            Bytecode::NotLong(dest, src) => Layout::Reg2(dest, src),
            Bytecode::ShlInt(dest, lhs, rhs) => Layout::Reg3(dest, lhs, rhs),
            Bytecode::ShrInt(dest, lhs, rhs) => Layout::Reg3(dest, lhs, rhs),
            Bytecode::SarInt(dest, lhs, rhs) => Layout::Reg3(dest, lhs, rhs),
            Bytecode::ShlLong(dest, lhs, rhs) => Layout::Reg3(dest, lhs, rhs),
            Bytecode::ShrLong(dest, lhs, rhs) => Layout::Reg3(dest, lhs, rhs),
            Bytecode::SarLong(dest, lhs, rhs) => Layout::Reg3(dest, lhs, rhs),
            Bytecode::RolInt(dest, lhs, rhs) => Layout::Reg3(dest, lhs, rhs),
            Bytecode::RorInt(dest, lhs, rhs) => Layout::Reg3(dest, lhs, rhs),
            Bytecode::RolLong(dest, lhs, rhs) => Layout::Reg3(dest, lhs, rhs),
            Bytecode::RorLong(dest, lhs, rhs) => Layout::Reg3(dest, lhs, rhs),
            Bytecode::ReinterpretIntAsFloat(dest, src) => Layout::Reg2(dest, src),
            Bytecode::ReinterpretFloatAsInt(dest, src) => Layout::Reg2(dest, src),
            Bytecode::ReinterpretDoubleAsLong(dest, src) => Layout::Reg2(dest, src),
            Bytecode::ReinterpretLongAsDouble(dest, src) => Layout::Reg2(dest, src),
            Bytecode::ExtendByteToChar(dest, src) => Layout::Reg2(dest, src),
            Bytecode::ExtendByteToInt(dest, src) => Layout::Reg2(dest, src),
            Bytecode::ExtendByteToLong(dest, src) => Layout::Reg2(dest, src),
            Bytecode::ExtendIntToLong(dest, src) => Layout::Reg2(dest, src),
            Bytecode::ExtendCharToLong(dest, src) => Layout::Reg2(dest, src),
            Bytecode::CastCharToInt(dest, src) => Layout::Reg2(dest, src),
            Bytecode::CastIntToByte(dest, src) => Layout::Reg2(dest, src),
            Bytecode::CastIntToChar(dest, src) => Layout::Reg2(dest, src),
            Bytecode::CastInt64ToByte(dest, src) => Layout::Reg2(dest, src),
            Bytecode::CastInt64ToChar(dest, src) => Layout::Reg2(dest, src),
            Bytecode::CastInt64ToInt(dest, src) => Layout::Reg2(dest, src),
            Bytecode::ConvertIntToFloat(dest, src) => Layout::Reg2(dest, src),
            Bytecode::ConvertIntToDouble(dest, src) => Layout::Reg2(dest, src),
            Bytecode::ConvertLongToFloat(dest, src) => Layout::Reg2(dest, src),
            Bytecode::ConvertLongToDouble(dest, src) => Layout::Reg2(dest, src),
            Bytecode::TruncateFloatToInt(dest, src) => Layout::Reg2(dest, src),
            Bytecode::TruncateFloatToLong(dest, src) => Layout::Reg2(dest, src),
            Bytecode::TruncateDoubleToInt(dest, src) => Layout::Reg2(dest, src),
            Bytecode::TruncateDoubleToLong(dest, src) => Layout::Reg2(dest, src),
            Bytecode::InstanceOf(dest, src, cls_id) => Layout::Reg2Cls(dest, src, cls_id),
            Bytecode::CheckedCast(src, cls_id) => Layout::Reg1Cls(src, cls_id),
            Bytecode::MovBool(dest, src) => Layout::Reg2(dest, src),
            Bytecode::MovByte(dest, src) => Layout::Reg2(dest, src),
            Bytecode::MovChar(dest, src) => Layout::Reg2(dest, src),
            Bytecode::MovInt(dest, src) => Layout::Reg2(dest, src),
            Bytecode::MovInt64(dest, src) => Layout::Reg2(dest, src),
            Bytecode::MovFloat(dest, src) => Layout::Reg2(dest, src),
            Bytecode::MovDouble(dest, src) => Layout::Reg2(dest, src),
            Bytecode::MovPtr(dest, src) => Layout::Reg2(dest, src),
            Bytecode::LoadFieldBool(dest, obj, cls, field) => Layout::Field(dest, obj, cls, field),
            Bytecode::LoadFieldUInt8(dest, obj, cls, field) => Layout::Field(dest, obj, cls, field),
            Bytecode::LoadFieldChar(dest, obj, cls, field) => Layout::Field(dest, obj, cls, field),
            Bytecode::LoadFieldInt(dest, obj, cls, field) => Layout::Field(dest, obj, cls, field),
            Bytecode::LoadFieldInt64(dest, obj, cls, field) => Layout::Field(dest, obj, cls, field),
            Bytecode::LoadFieldFloat(dest, obj, cls, field) => Layout::Field(dest, obj, cls, field),
            Bytecode::LoadFieldDouble(dest, obj, cls, field) => Layout::Field(dest, obj, cls, field),
            Bytecode::LoadFieldPtr(dest, obj, cls, field) => Layout::Field(dest, obj, cls, field),
            Bytecode::StoreFieldBool(src, obj, cls, field) => Layout::Field(src, obj, cls, field),
            Bytecode::StoreFieldUInt8(src, obj, cls, field) => Layout::Field(src, obj, cls, field),
            Bytecode::StoreFieldChar(src, obj, cls, field) => Layout::Field(src, obj, cls, field),
            Bytecode::StoreFieldInt(src, obj, cls, field) => Layout::Field(src, obj, cls, field),
            Bytecode::StoreFieldInt64(src, obj, cls, field) => Layout::Field(src, obj, cls, field),
            Bytecode::StoreFieldFloat(src, obj, cls, field) => Layout::Field(src, obj, cls, field),
            Bytecode::StoreFieldDouble(src, obj, cls, field) => Layout::Field(src, obj, cls, field),
            Bytecode::StoreFieldPtr(src, obj, cls, field) => Layout::Field(src, obj, cls, field),
            Bytecode::LoadGlobalBool(dest, glob) => Layout::Global(dest, glob),
            Bytecode::LoadGlobalByte(dest, glob) => Layout::Global(dest, glob),
            Bytecode::LoadGlobalChar(dest, glob) => Layout::Global(dest, glob),
            Bytecode::LoadGlobalInt(dest, glob) => Layout::Global(dest, glob),
            Bytecode::LoadGlobalLong(dest, glob) => Layout::Global(dest, glob),
            Bytecode::LoadGlobalFloat(dest, glob) => Layout::Global(dest, glob),
            Bytecode::LoadGlobalDouble(dest, glob) => Layout::Global(dest, glob),
            Bytecode::LoadGlobalPtr(dest, glob) => Layout::Global(dest, glob),
            Bytecode::StoreGlobalBool(src, glob) => Layout::Global(src, glob),
            Bytecode::StoreGlobalByte(src, glob) => Layout::Global(src, glob),
            Bytecode::StoreGlobalChar(src, glob) => Layout::Global(src, glob),
            Bytecode::StoreGlobalInt(src, glob) => Layout::Global(src, glob),
            Bytecode::StoreGlobalLong(src, glob) => Layout::Global(src, glob),
            Bytecode::StoreGlobalFloat(src, glob) => Layout::Global(src, glob),
            Bytecode::StoreGlobalDouble(src, glob) => Layout::Global(src, glob),
            Bytecode::StoreGlobalPtr(src, glob) => Layout::Global(src, glob),
            Bytecode::PushRegister(src) => Layout::Reg1(src),
            Bytecode::ConstNil(dest) => Layout::Reg1(dest),
            Bytecode::ConstTrue(dest) => Layout::Reg1(dest),
            Bytecode::ConstFalse(dest) => Layout::Reg1(dest),
            Bytecode::ConstZeroByte(dest) => Layout::Reg1(dest),
            Bytecode::ConstZeroChar(dest) => Layout::Reg1(dest),
            Bytecode::ConstZeroInt(dest) => Layout::Reg1(dest),
            Bytecode::ConstZeroLong(dest) => Layout::Reg1(dest),
            Bytecode::ConstZeroFloat(dest) => Layout::Reg1(dest),
            Bytecode::ConstZeroDouble(dest) => Layout::Reg1(dest),
            Bytecode::ConstChar(dest, value) => Layout::Reg1Idx(dest, value),
            Bytecode::ConstUInt8(dest, value) => Layout::Reg1U32(dest, value as u32),
            Bytecode::ConstInt(dest, value) => Layout::Reg1Idx(dest, value),
            Bytecode::ConstInt64(dest, value) => Layout::Reg1Idx(dest, value),
            Bytecode::ConstFloat(dest, value) => Layout::Reg1Idx(dest, value),
            Bytecode::ConstDouble(dest, value) => Layout::Reg1Idx(dest, value),
            Bytecode::ConstString(dest, value) => Layout::Reg1Idx(dest, value),
            Bytecode::TestEqPtr(dest, lhs, rhs) => Layout::Reg3(dest, lhs, rhs),
            Bytecode::TestNePtr(dest, lhs, rhs) => Layout::Reg3(dest, lhs, rhs),
            Bytecode::TestEqBool(dest, lhs, rhs) => Layout::Reg3(dest, lhs, rhs),
            Bytecode::TestNeBool(dest, lhs, rhs) => Layout::Reg3(dest, lhs, rhs),
            Bytecode::TestEqByte(dest, lhs, rhs) => Layout::Reg3(dest, lhs, rhs),
            Bytecode::TestNeByte(dest, lhs, rhs) => Layout::Reg3(dest, lhs, rhs),
            Bytecode::TestGtByte(dest, lhs, rhs) => Layout::Reg3(dest, lhs, rhs),
            Bytecode::TestGeByte(dest, lhs, rhs) => Layout::Reg3(dest, lhs, rhs),
            Bytecode::TestLtByte(dest, lhs, rhs) => Layout::Reg3(dest, lhs, rhs),
            Bytecode::TestLeByte(dest, lhs, rhs) => Layout::Reg3(dest, lhs, rhs),
            Bytecode::TestEqChar(dest, lhs, rhs) => Layout::Reg3(dest, lhs, rhs),
            Bytecode::TestNeChar(dest, lhs, rhs) => Layout::Reg3(dest, lhs, rhs),
            Bytecode::TestGtChar(dest, lhs, rhs) => Layout::Reg3(dest, lhs, rhs),
            Bytecode::TestGeChar(dest, lhs, rhs) => Layout::Reg3(dest, lhs, rhs),
            Bytecode::TestLtChar(dest, lhs, rhs) => Layout::Reg3(dest, lhs, rhs),
            Bytecode::TestLeChar(dest, lhs, rhs) => Layout::Reg3(dest, lhs, rhs),
            Bytecode::TestEqEnum(dest, lhs, rhs) => Layout::Reg3(dest, lhs, rhs),
            Bytecode::TestNeEnum(dest, lhs, rhs) => Layout::Reg3(dest, lhs, rhs),
            Bytecode::TestEqInt(dest, lhs, rhs) => Layout::Reg3(dest, lhs, rhs),
            Bytecode::TestNeInt(dest, lhs, rhs) => Layout::Reg3(dest, lhs, rhs),
            Bytecode::TestGtInt(dest, lhs, rhs) => Layout::Reg3(dest, lhs, rhs),
            Bytecode::TestGeInt(dest, lhs, rhs) => Layout::Reg3(dest, lhs, rhs),
            Bytecode::TestLtInt(dest, lhs, rhs) => Layout::Reg3(dest, lhs, rhs),
            Bytecode::TestLeInt(dest, lhs, rhs) => Layout::Reg3(dest, lhs, rhs),
            Bytecode::TestEqInt64(dest, lhs, rhs) => Layout::Reg3(dest, lhs, rhs),
            Bytecode::TestNeInt64(dest, lhs, rhs) => Layout::Reg3(dest, lhs, rhs),
            Bytecode::TestGtInt64(dest, lhs, rhs) => Layout::Reg3(dest, lhs, rhs),
            Bytecode::TestGeInt64(dest, lhs, rhs) => Layout::Reg3(dest, lhs, rhs),
            Bytecode::TestLtInt64(dest, lhs, rhs) => Layout::Reg3(dest, lhs, rhs),
            Bytecode::TestLeInt64(dest, lhs, rhs) => Layout::Reg3(dest, lhs, rhs),
            Bytecode::TestEqFloat(dest, lhs, rhs) => Layout::Reg3(dest, lhs, rhs),
            Bytecode::TestNeFloat(dest, lhs, rhs) => Layout::Reg3(dest, lhs, rhs),
            Bytecode::TestGtFloat(dest, lhs, rhs) => Layout::Reg3(dest, lhs, rhs),
            Bytecode::TestGeFloat(dest, lhs, rhs) => Layout::Reg3(dest, lhs, rhs),
            Bytecode::TestLtFloat(dest, lhs, rhs) => Layout::Reg3(dest, lhs, rhs),
            Bytecode::TestLeFloat(dest, lhs, rhs) => Layout::Reg3(dest, lhs, rhs),
            Bytecode::TestEqDouble(dest, lhs, rhs) => Layout::Reg3(dest, lhs, rhs),
            Bytecode::TestNeDouble(dest, lhs, rhs) => Layout::Reg3(dest, lhs, rhs),
            Bytecode::TestGtDouble(dest, lhs, rhs) => Layout::Reg3(dest, lhs, rhs),
            Bytecode::TestGeDouble(dest, lhs, rhs) => Layout::Reg3(dest, lhs, rhs),
            Bytecode::TestLtDouble(dest, lhs, rhs) => Layout::Reg3(dest, lhs, rhs),
            Bytecode::TestLeDouble(dest, lhs, rhs) => Layout::Reg3(dest, lhs, rhs),
            Bytecode::Assert(value) => Layout::Reg1(value),
            Bytecode::JumpIfFalse(opnd, offset) => Layout::Reg1Jump(opnd, offset as int),
            Bytecode::JumpIfFalseConst(opnd, idx) => Layout::Reg1Idx(opnd, idx),
            Bytecode::JumpIfTrue(opnd, offset) => Layout::Reg1Jump(opnd, offset as int),
            Bytecode::JumpIfTrueConst(opnd, idx) => Layout::Reg1Idx(opnd, idx),
            Bytecode::JumpLoop(offset) => Layout::Jump(-(offset as int)),
            Bytecode::Jump(offset) => Layout::Jump(offset as int),
            Bytecode::JumpConst(idx) => Layout::Idx(idx),
            Bytecode::InvokeDirectVoid(fctdef, count) => Layout::FctVoid(fctdef, count),
            Bytecode::InvokeDirectBool(dest, fctdef, count) => Layout::Fct(dest, fctdef, count),
            Bytecode::InvokeDirectByte(dest, fctdef, count) => Layout::Fct(dest, fctdef, count),
            Bytecode::InvokeDirectChar(dest, fctdef, count) => Layout::Fct(dest, fctdef, count),
            Bytecode::InvokeDirectInt(dest, fctdef, count) => Layout::Fct(dest, fctdef, count),
            Bytecode::InvokeDirectInt64(dest, fctdef, count) => Layout::Fct(dest, fctdef, count),
            Bytecode::InvokeDirectFloat(dest, fctdef, count) => Layout::Fct(dest, fctdef, count),
            Bytecode::InvokeDirectDouble(dest, fctdef, count) => Layout::Fct(dest, fctdef, count),
            Bytecode::InvokeDirectPtr(dest, fctdef, count) => Layout::Fct(dest, fctdef, count),
            Bytecode::InvokeVirtualVoid(fctdef, count) => Layout::FctVoid(fctdef, count),
            Bytecode::InvokeVirtualBool(dest, fctdef, count) => Layout::Fct(dest, fctdef, count),
            Bytecode::InvokeVirtualByte(dest, fctdef, count) => Layout::Fct(dest, fctdef, count),
            Bytecode::InvokeVirtualChar(dest, fctdef, count) => Layout::Fct(dest, fctdef, count),
            Bytecode::InvokeVirtualInt(dest, fctdef, count) => Layout::Fct(dest, fctdef, count),
            Bytecode::InvokeVirtualInt64(dest, fctdef, count) => Layout::Fct(dest, fctdef, count),
            Bytecode::InvokeVirtualFloat(dest, fctdef, count) => Layout::Fct(dest, fctdef, count),
            Bytecode::InvokeVirtualDouble(dest, fctdef, count) => Layout::Fct(dest, fctdef, count),
            Bytecode::InvokeVirtualPtr(dest, fctdef, count) => Layout::Fct(dest, fctdef, count),
            Bytecode::InvokeStaticVoid(fctdef, count) => Layout::FctVoid(fctdef, count),
            Bytecode::InvokeStaticBool(dest, fctdef, count) => Layout::Fct(dest, fctdef, count),
            Bytecode::InvokeStaticByte(dest, fctdef, count) => Layout::Fct(dest, fctdef, count),
            Bytecode::InvokeStaticChar(dest, fctdef, count) => Layout::Fct(dest, fctdef, count),
            Bytecode::InvokeStaticInt(dest, fctdef, count) => Layout::Fct(dest, fctdef, count),
            Bytecode::InvokeStaticInt64(dest, fctdef, count) => Layout::Fct(dest, fctdef, count),
            Bytecode::InvokeStaticFloat(dest, fctdef, count) => Layout::Fct(dest, fctdef, count),
            Bytecode::InvokeStaticDouble(dest, fctdef, count) => Layout::Fct(dest, fctdef, count),
            Bytecode::InvokeStaticPtr(dest, fctdef, count) => Layout::Fct(dest, fctdef, count),
            Bytecode::NewObject(dest, cls) => Layout::New(dest, cls),
            Bytecode::NewArray(dest, cls, length) => Layout::NewArray(dest, cls, length),
            Bytecode::NilCheck(obj) => Layout::Reg1(obj),
            Bytecode::LoadArrayBool(dest, arr, idx) => Layout::Reg3(dest, arr, idx),
            Bytecode::LoadArrayByte(dest, arr, idx) => Layout::Reg3(dest, arr, idx),
            Bytecode::LoadArrayChar(dest, arr, idx) => Layout::Reg3(dest, arr, idx),
            Bytecode::LoadArrayInt(dest, arr, idx) => Layout::Reg3(dest, arr, idx),
            Bytecode::LoadArrayInt64(dest, arr, idx) => Layout::Reg3(dest, arr, idx),
            Bytecode::LoadArrayFloat(dest, arr, idx) => Layout::Reg3(dest, arr, idx),
            Bytecode::LoadArrayDouble(dest, arr, idx) => Layout::Reg3(dest, arr, idx),
            Bytecode::LoadArrayPtr(dest, arr, idx) => Layout::Reg3(dest, arr, idx),
            Bytecode::StoreArrayBool(src, arr, idx) => Layout::Reg3(src, arr, idx),
            Bytecode::StoreArrayByte(src, arr, idx) => Layout::Reg3(src, arr, idx),
            Bytecode::StoreArrayChar(src, arr, idx) => Layout::Reg3(src, arr, idx),
            Bytecode::StoreArrayInt(src, arr, idx) => Layout::Reg3(src, arr, idx),
            Bytecode::StoreArrayInt64(src, arr, idx) => Layout::Reg3(src, arr, idx),
            Bytecode::StoreArrayFloat(src, arr, idx) => Layout::Reg3(src, arr, idx),
            Bytecode::StoreArrayDouble(src, arr, idx) => Layout::Reg3(src, arr, idx),
            Bytecode::StoreArrayPtr(src, arr, idx) => Layout::Reg3(src, arr, idx),
            Bytecode::ArrayLength(dest, arr) => Layout::Reg2(dest, arr),
            Bytecode::ArrayBoundCheck(arr, idx) => Layout::Reg2(arr, idx),
            Bytecode::RetVoid => Layout::Inst,
            Bytecode::RetBool(opnd) => Layout::Reg1(opnd),
            Bytecode::RetByte(opnd) => Layout::Reg1(opnd),
            Bytecode::RetChar(opnd) => Layout::Reg1(opnd),
            Bytecode::RetInt(opnd) => Layout::Reg1(opnd),
            Bytecode::RetInt64(opnd) => Layout::Reg1(opnd),
            Bytecode::RetFloat(opnd) => Layout::Reg1(opnd),
            Bytecode::RetDouble(opnd) => Layout::Reg1(opnd),
            Bytecode::RetPtr(opnd) => Layout::Reg1(opnd),
        }
    }
}
/// The bytecode of a function: its instructions, its pool of constants, and
/// its table of registers, which gives each register a type and a slot of
/// the stack frame.
#[derive(Debug)]
pub struct BytecodeFunction {
    /// The instructions, in the order in which they run.
    pub code: Vec<Bytecode>,
    /// The constants that instructions refer to by index.
    pub const_pool: Vec<ConstPoolEntry>,
    /// The type of each register.
    pub registers: Vec<BytecodeType>,
    /// The frame slot of each register: its offset from the frame pointer.
    pub offset: Vec<i32>,
    /// The size of the stack frame in bytes.
    pub stacksize: i32,
}

impl BytecodeFunction {
    /// Every register has a type and a frame slot, and the function is of a
    /// size that the code generator can address.
    pub open spec fn wf(&self) -> bool {
        &&& self.registers@.len() == self.offset@.len()
        &&& self.code@.len() <= MAX_CODE
    }

    /// Whether `reg` is declared in the register table.
    pub open spec fn declares(&self, reg: Register) -> bool {
        reg.0 < self.registers@.len()
    }

    /// The bytecode with the given parts, unless the two columns of the
    /// register table differ in length or the function is too large.
    pub fn new(
        code: Vec<Bytecode>,
        const_pool: Vec<ConstPoolEntry>,
        registers: Vec<BytecodeType>,
        offset: Vec<i32>,
        stacksize: i32,
    ) -> (r: Option<BytecodeFunction>)
        ensures
            r is Some <==> (registers@.len() == offset@.len() && code@.len() <= MAX_CODE),
            r matches Some(bc) ==> bc.wf() && bc.code == code && bc.const_pool == const_pool
                && bc.registers == registers && bc.offset == offset && bc.stacksize == stacksize,
    {
        if registers.len() == offset.len() && code.len() <= MAX_CODE {
            Some(BytecodeFunction { code, const_pool, registers, offset, stacksize })
        } else {
            None
        }
    }

    /// Whether the function is well formed.
    pub fn is_wf(&self) -> (b: bool)
        ensures
            b == self.wf(),
    {
        self.registers.len() == self.offset.len() && self.code.len() <= MAX_CODE
    }

    /// The instructions.
    pub fn code(&self) -> (code: &Vec<Bytecode>)
        ensures
            code == self.code,
    {
        &self.code
    }

    /// The types of the registers, by register index.
    pub fn registers(&self) -> (registers: &Vec<BytecodeType>)
        ensures
            registers == self.registers,
    {
        &self.registers
    }

    /// Whether `reg` is declared in the register table.
    pub fn has_register(&self, reg: Register) -> (b: bool)
        ensures
            b == self.declares(reg),
    {
        reg.0 < self.registers.len()
    }

    /// The type of the register `reg`.
    pub fn register(&self, reg: Register) -> (ty: BytecodeType)
        requires
            self.declares(reg),
        ensures
            ty == self.registers@[reg.0 as int],
    {
        self.registers[reg.0]
    }

    /// The frame slot of the register `reg`.
    pub fn offset(&self, reg: Register) -> (offset: i32)
        requires
            self.wf(),
            self.declares(reg),
        ensures
            offset == self.offset@[reg.0 as int],
    {
        self.offset[reg.0]
    }

    /// The size of the stack frame in bytes.
    pub fn stacksize(&self) -> (size: i32)
        ensures
            size == self.stacksize,
    {
        self.stacksize
    }

    /// The constant with the index `idx`, if the pool has one.
    pub fn const_pool(&self, idx: ConstPoolIdx) -> (r: Option<&ConstPoolEntry>)
        ensures
            idx.0 < self.const_pool@.len() ==> r == Some(&self.const_pool@[idx.0 as int]),
            idx.0 >= self.const_pool@.len() ==> r is None,
    {
        if idx.0 < self.const_pool.len() {
            Some(&self.const_pool[idx.0])
        } else {
            None
        }
    }
}

} // verus!
