//! What the code generator for expressions reads of the program: what the
//! semantic analysis has found out about the nodes of a function, the
//! layout of classes, and where functions are to be called.
use std::collections::HashMap;
use vstd::prelude::*;

use crate::ast::NodeId;
use crate::gc::Address;
use crate::ty::MachineMode;
use crate::vm::FctId;

verus! {

/// Identifies a class.
#[derive(Clone, Copy, Debug, PartialEq, Eq, Structural)]
pub struct ClassId(pub usize);

/// Identifies a property of a class.
#[derive(Clone, Copy, Debug, PartialEq, Eq, Structural)]
pub struct PropId(pub usize);

/// Identifies a variable of a function.
#[derive(Clone, Copy, Debug, PartialEq, Eq, Structural)]
pub struct VarId(pub usize);

/// The types of the source language.
#[derive(Clone, Copy, Debug, PartialEq, Eq, Structural)]
pub enum BuiltinType {
    Unit,
    Int,
    Bool,
    Str,
    Ptr,
}

impl BuiltinType {
    /// The machine mode in which values of this type are held.
    pub open spec fn spec_mode(self) -> MachineMode {
        match self {
            BuiltinType::Unit => MachineMode::Ptr,
            BuiltinType::Int => MachineMode::Int32,
            BuiltinType::Bool => MachineMode::Int8,
            BuiltinType::Str => MachineMode::Ptr,
            BuiltinType::Ptr => MachineMode::Ptr,
        }
    }

    /// The machine mode in which values of this type are held.
    #[verifier::when_used_as_spec(spec_mode)]
    pub fn mode(self) -> (mode: MachineMode)
        ensures
            mode == self.spec_mode(),
    {
        match self {
            BuiltinType::Unit => MachineMode::Ptr,
            BuiltinType::Int => MachineMode::Int32,
            BuiltinType::Bool => MachineMode::Int8,
            BuiltinType::Str => MachineMode::Ptr,
            BuiltinType::Ptr => MachineMode::Ptr,
        }
    }
}

/// What a name stands for.
#[derive(Clone, Copy, Debug, PartialEq, Eq, Structural)]
pub enum IdentType {
    Var(VarId),
    Prop(ClassId, PropId),
}

/// What a call calls.
#[derive(Clone, Copy, Debug, PartialEq, Eq, Structural)]
pub enum CallType {
    Fct(FctId),
    Method(ClassId, FctId),
    Ctor(ClassId, FctId),
}

impl CallType {
    /// The function that is called.
    pub open spec fn callee(self) -> FctId {
        match self {
            CallType::Fct(fid) => fid,
            CallType::Method(_, fid) => fid,
            CallType::Ctor(_, fid) => fid,
        }
    }

    /// The function that is called.
    pub fn fct_id(&self) -> (fid: FctId)
        ensures
            fid == self.callee(),
    {
        match *self {
            CallType::Fct(fid) => fid,
            CallType::Method(_, fid) => fid,
            CallType::Ctor(_, fid) => fid,
        }
    }

    /// Whether the call creates an object.
    pub fn is_ctor(&self) -> (b: bool)
        ensures
            b == (self is Ctor),
    {
        match *self {
            CallType::Ctor(_, _) => true,
            _ => false,
        }
    }

    /// Whether the call is that of a method.
    pub fn is_method(&self) -> (b: bool)
        ensures
            b == (self is Method),
    {
        match *self {
            CallType::Method(_, _) => true,
            _ => false,
        }
    }

    /// The class of the method or of the object that is created.
    pub open spec fn class(self) -> ClassId {
        match self {
            CallType::Method(cls, _) => cls,
            CallType::Ctor(cls, _) => cls,
            CallType::Fct(_) => ClassId(0),
        }
    }

    /// The class of the method or of the object that is created.
    pub fn cls_id(&self) -> (cls: ClassId)
        requires
            !(self is Fct),
        ensures
            cls == self.class(),
    {
        match *self {
            CallType::Method(cls, _) => cls,
            CallType::Ctor(cls, _) => cls,
            CallType::Fct(_) => ClassId(0),
        }
    }
}

/// Where the value of a node is kept while the expression around it is
/// evaluated: in a register, or in a temporary slot of the frame.
#[derive(Clone, Copy, Debug, PartialEq, Eq, Structural)]
pub enum Store {
    Reg,
    Temp(i32),
}

impl Store {
    /// The offset of the temporary slot.
    pub open spec fn slot(self) -> i32 {
        match self {
            Store::Temp(offset) => offset,
            Store::Reg => 0,
        }
    }

    /// The offset of the temporary slot.
    pub fn offset(&self) -> (offset: i32)
        requires
            self is Temp,
        ensures
            offset == self.slot(),
    {
        match *self {
            Store::Temp(offset) => offset,
            Store::Reg => 0,
        }
    }
}

/// A variable: its type and its slot in the frame.
#[derive(Clone, Copy, Debug, PartialEq, Eq, Structural)]
pub struct Var {
    pub data_type: BuiltinType,
    pub offset: i32,
}

/// A property: its type and its offset in an object.
#[derive(Clone, Copy, Debug, PartialEq, Eq, Structural)]
pub struct Prop {
    pub ty: BuiltinType,
    pub offset: i32,
}

/// A class: the size of its instances and its properties.
#[derive(Debug)]
pub struct Class {
    pub size: i32,
    pub props: Vec<Prop>,
}

/// What the semantic analysis has found out about a function with a body.
#[derive(Debug)]
pub struct FctSrc {
    /// What each call calls.
    pub calls: HashMap<usize, CallType>,
    /// What each name stands for.
    pub defs: HashMap<usize, IdentType>,
    /// The type of each expression.
    pub types: HashMap<usize, BuiltinType>,
    /// Where the value of a node is kept; in a register where nothing is
    /// said.
    pub storage: HashMap<usize, Store>,
    /// The variables, the receiver first where there is one.
    pub vars: Vec<Var>,
    /// The size of the part of the frame that holds the variables.
    pub localsize: i32,
    /// The size of the part of the frame that holds temporary values.
    pub tempsize: i32,
    /// The size of the part of the frame that holds arguments of calls.
    pub argsize: i32,
    /// The code of the function, where it has been compiled.
    pub jit_fct: Option<Address>,
    /// The stub of the function, where one has been made.
    pub stub: Option<Address>,
}

/// The largest size of a part of a frame and the largest offset in it.
///
/// A frame has three parts, and a slot in it is addressed by its distance
/// from the frame pointer, a signed number of 32 bits: three parts of this
/// size are the largest whose sum is such a number.
pub const MAX_FRAME: i32 = 0x2aaa_aaaa;

impl FctSrc {
    /// Where the value of the node `id` is kept.
    pub open spec fn store_of(&self, id: NodeId) -> Store {
        if self.storage@.contains_key(id.0) {
            self.storage@[id.0]
        } else {
            Store::Reg
        }
    }

    /// The sizes of the parts of the frame are sizes that the operations
    /// can address.
    pub open spec fn wf(&self) -> bool {
        &&& 0 <= self.localsize <= MAX_FRAME
        &&& 0 <= self.tempsize <= MAX_FRAME
        &&& 0 <= self.argsize <= MAX_FRAME
    }

    /// Whether the frame is of a size that the operations can address.
    pub fn is_wf(&self) -> (b: bool)
        ensures
            b == self.wf(),
    {
        0 <= self.localsize && self.localsize <= MAX_FRAME && 0 <= self.tempsize && self.tempsize
            <= MAX_FRAME && 0 <= self.argsize && self.argsize <= MAX_FRAME
    }

    /// Where the value of the node `id` is kept.
    pub fn get_store(&self, id: NodeId) -> (store: Store)
        ensures
            store == self.store_of(id),
    {
        broadcast use vstd::std_specs::hash::group_hash_axioms;

        match self.storage.get(&id.0) {
            Some(store) => *store,
            None => Store::Reg,
        }
    }

    /// The type of the expression `id`.
    pub fn get_type(&self, id: NodeId) -> (ty: BuiltinType)
        requires
            self.types@.contains_key(id.0),
        ensures
            ty == self.types@[id.0],
    {
        broadcast use vstd::std_specs::hash::group_hash_axioms;

        *self.types.get(&id.0).unwrap()
    }

    /// The size of the frame.
    pub open spec fn frame_size(&self) -> int {
        self.tempsize + self.localsize + self.argsize
    }

    /// The size of the frame.
    pub fn stacksize(&self) -> (size: i32)
        requires
            self.wf(),
        ensures
            size == self.frame_size(),
    {
        self.tempsize + self.localsize + self.argsize
    }
}

/// How a function is implemented.
#[derive(Debug)]
pub enum FctKind {
    /// By a body in the source language.
    Source(FctSrc),
    /// By code of the runtime at this address.
    Builtin(Address),
    /// By the compiler itself.
    Intrinsic,
}

/// A function.
#[derive(Debug)]
pub struct Fct {
    pub id: FctId,
    pub return_type: BuiltinType,
    pub kind: FctKind,
}

impl Fct {
    /// What the semantic analysis has found out about the function.
    pub open spec fn source(&self) -> FctSrc {
        self.kind->Source_0
    }

    /// What the semantic analysis has found out about the function.
    pub fn src(&self) -> (src: &FctSrc)
        requires
            self.kind is Source,
        ensures
            *src == self.source(),
    {
        match &self.kind {
            FctKind::Source(src) => src,
            _ => vstd::pervasive::unreached(),
        }
    }

    /// The variable that holds the receiver.
    pub fn var_self(&self) -> (var: Var)
        requires
            self.kind is Source,
            self.source().vars@.len() > 0,
        ensures
            var == self.source().vars@[0],
    {
        self.src().vars[0]
    }
}

/// The program.
#[derive(Debug)]
pub struct Context {
    pub classes: Vec<Class>,
    pub fcts: Vec<Fct>,
}

} // verus!
