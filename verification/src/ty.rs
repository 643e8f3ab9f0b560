//! Value types and the machine modes they are held in.
use vstd::prelude::*;

verus! {

/// How a value is held in a machine register or a memory slot.
#[derive(Clone, Copy, Debug, PartialEq, Eq, Structural)]
pub enum MachineMode {
    Int8,
    Int32,
    Int64,
    Float32,
    Float64,
    Ptr,
}

impl MachineMode {
    /// Whether values of this mode live in floating-point registers.
    pub open spec fn float(self) -> bool {
        self == MachineMode::Float32 || self == MachineMode::Float64
    }

    /// Whether values of this mode live in floating-point registers.
    pub fn is_float(self) -> (b: bool)
        ensures
            b == self.float(),
    {
        match self {
            MachineMode::Float32 | MachineMode::Float64 => true,
            _ => false,
        }
    }

    /// The number of bytes that a value of this mode occupies.
    pub fn size(self) -> (bytes: i32)
        ensures
            bytes == match self {
                MachineMode::Int8 => 1i32,
                MachineMode::Int32 => 4i32,
                MachineMode::Int64 => 8i32,
                MachineMode::Float32 => 4i32,
                MachineMode::Float64 => 8i32,
                MachineMode::Ptr => 8i32,
            },
    {
        match self {
            MachineMode::Int8 => 1,
            MachineMode::Int32 => 4,
            MachineMode::Int64 => 8,
            MachineMode::Float32 => 4,
            MachineMode::Float64 => 8,
            MachineMode::Ptr => 8,
        }
    }
}

/// The type of the values that a virtual register, a parameter, a field or
/// a global variable holds.
#[derive(Clone, Copy, Debug, PartialEq, Eq, Structural)]
pub enum BytecodeType {
    Bool,
    Byte,
    Char,
    Int,
    Long,
    Float,
    Double,
    Ptr,
}

impl BytecodeType {
    /// The machine mode in which values of this type are held.
    pub open spec fn spec_mode(self) -> MachineMode {
        match self {
            BytecodeType::Bool => MachineMode::Int8,
            BytecodeType::Byte => MachineMode::Int8,
            BytecodeType::Char => MachineMode::Int32,
            BytecodeType::Int => MachineMode::Int32,
            BytecodeType::Long => MachineMode::Int64,
            BytecodeType::Float => MachineMode::Float32,
            BytecodeType::Double => MachineMode::Float64,
            BytecodeType::Ptr => MachineMode::Ptr,
        }
    }

    /// The machine mode in which values of this type are held.
    #[verifier::when_used_as_spec(spec_mode)]
    pub fn mode(self) -> (mode: MachineMode)
        ensures
            mode == self.spec_mode(),
    {
        match self {
            BytecodeType::Bool => MachineMode::Int8,
            BytecodeType::Byte => MachineMode::Int8,
            BytecodeType::Char => MachineMode::Int32,
            BytecodeType::Int => MachineMode::Int32,
            BytecodeType::Long => MachineMode::Int64,
            BytecodeType::Float => MachineMode::Float32,
            BytecodeType::Double => MachineMode::Float64,
            BytecodeType::Ptr => MachineMode::Ptr,
        }
    }

    /// The name of the type as the trace facility prints it.
    pub open spec fn name(self) -> Seq<char> {
        match self {
            BytecodeType::Bool => "Bool"@,
            BytecodeType::Byte => "Byte"@,
            BytecodeType::Char => "Char"@,
            BytecodeType::Int => "Int"@,
            BytecodeType::Long => "Long"@,
            BytecodeType::Float => "Float"@,
            BytecodeType::Double => "Double"@,
            BytecodeType::Ptr => "Ptr"@,
        }
    }

    /// The name of the type as the trace facility prints it.
    pub fn as_str(self) -> (s: &'static str)
        ensures
            s@ == self.name(),
    {
        match self {
            BytecodeType::Bool => "Bool",
            BytecodeType::Byte => "Byte",
            BytecodeType::Char => "Char",
            BytecodeType::Int => "Int",
            BytecodeType::Long => "Long",
            BytecodeType::Float => "Float",
            BytecodeType::Double => "Double",
            BytecodeType::Ptr => "Ptr",
        }
    }
}

/// A list of types: the types that stand for the type parameters of a
/// class or of a function.
#[derive(Clone, Debug)]
pub struct TypeList {
    pub types: Vec<BytecodeType>,
}

impl TypeList {
    /// The empty list.
    pub fn empty() -> (list: TypeList)
        ensures
            list.types@ == Seq::<BytecodeType>::empty(),
    {
        TypeList { types: Vec::new() }
    }

    /// The list of the given types.
    pub fn with(types: Vec<BytecodeType>) -> (list: TypeList)
        ensures
            list.types == types,
    {
        TypeList { types }
    }

    /// The number of types in the list.
    pub fn len(&self) -> (n: usize)
        ensures
            n == self.types@.len(),
    {
        self.types.len()
    }
}

} // verus!
