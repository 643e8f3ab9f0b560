//! What the compiler reads of the runtime: the identifiers of its entities,
//! the layout of classes, the storage of globals, and the function that is
//! compiled.
use vstd::prelude::*;

use crate::gc::Address;
use crate::position::Position;
use crate::ty::BytecodeType;

verus! {

/// Identifies a function.
#[derive(Clone, Copy, Debug, PartialEq, Eq, Structural)]
pub struct FctId(pub usize);

/// Identifies a specialised function.
#[derive(Clone, Copy, Debug, PartialEq, Eq, Structural)]
pub struct FctDefId(pub usize);

/// Identifies a specialised class.
#[derive(Clone, Copy, Debug, PartialEq, Eq, Structural)]
pub struct ClassDefId(pub usize);

/// Identifies a field of a class.
#[derive(Clone, Copy, Debug, PartialEq, Eq, Structural)]
pub struct FieldId(pub usize);

/// Identifies a global variable.
#[derive(Clone, Copy, Debug, PartialEq, Eq, Structural)]
pub struct GlobalId(pub usize);

impl FctId {
    /// The index of the function in the function table.
    pub fn to_usize(self) -> (idx: usize)
        ensures
            idx == self.0,
    {
        self.0
    }
}

impl FctDefId {
    /// The index of the specialised function in its table.
    pub fn to_usize(self) -> (idx: usize)
        ensures
            idx == self.0,
    {
        self.0
    }
}

impl ClassDefId {
    /// The index of the specialised class in its table.
    pub fn to_usize(self) -> (idx: usize)
        ensures
            idx == self.0,
    {
        self.0
    }
}

impl FieldId {
    /// The index of the field in its class.
    pub fn to_usize(self) -> (idx: usize)
        ensures
            idx == self.0,
    {
        self.0
    }

    /// The index of the field in its class.
    pub fn idx(self) -> (idx: usize)
        ensures
            idx == self.0,
    {
        self.0
    }
}

impl GlobalId {
    /// The index of the global variable in its table.
    pub fn to_usize(self) -> (idx: usize)
        ensures
            idx == self.0,
    {
        self.0
    }
}

/// A field of a class: its type and its offset in an object.
#[derive(Clone, Copy, Debug, PartialEq, Eq, Structural)]
pub struct FieldDef {
    pub ty: BytecodeType,
    pub offset: i32,
}

/// A specialised class: its fields and the size of its instances.
#[derive(Debug)]
pub struct ClassDef {
    pub fields: Vec<FieldDef>,
    pub size: i32,
}

/// A global variable: its type and the address of its storage.
#[derive(Clone, Copy, Debug, PartialEq, Eq, Structural)]
pub struct GlobalDef {
    pub ty: BytecodeType,
    pub address_value: Address,
}

/// The settings of the runtime that the compiler looks at.
#[derive(Debug)]
pub struct Args {
    /// The functions whose bytecode is to be traced, as a pattern.
    pub flag_emit_bytecode: Option<String>,
    /// The functions whose code is to begin with a breakpoint, as a pattern.
    pub flag_emit_debug: Option<String>,
}

/// The runtime, as far as the compiler reads it.
#[derive(Debug)]
pub struct VM {
    pub args: Args,
    /// The page that safepoint polls read.
    pub polling_page: Address,
    pub class_defs: Vec<ClassDef>,
    pub globals: Vec<GlobalDef>,
}

/// The function that is compiled, as far as the compiler reads it.
#[derive(Debug)]
pub struct Fct {
    pub id: FctId,
    /// The full name of the function.
    pub name: String,
    /// The types of the parameters in the order of their declaration, with
    /// the receiver first where the function has one.
    pub params: Vec<BytecodeType>,
    /// Whether the function can leave with an exception.
    pub throws: bool,
    /// Where the function is declared.
    pub pos: Position,
}

impl Fct {
    /// The types of the parameters, the receiver first.
    pub fn params_with_self(&self) -> (params: &Vec<BytecodeType>)
        ensures
            params == self.params,
    {
        &self.params
    }
}

} // verus!
