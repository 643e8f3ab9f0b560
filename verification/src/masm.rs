//! The code emitter of the baseline compiler.
//!
//! The emitter collects machine operations in a buffer. An offset into the
//! code is an index into that buffer. Jumps name labels; a label is bound to
//! an offset, at once or later. Beside the operations the emitter keeps the
//! constant area, which holds the addresses that the code loads, and the
//! tables of safepoints, comments and source positions.
use vstd::prelude::*;

use crate::bytecode::ConstPoolIdx;
use crate::compiler::fct::{
    below, climbing, climbs, lemma_climbing_floor, moved, rising, with_comment, Comments,
    ExHandler, GcPoint, GcPoints, JitBaselineFct, JitDescriptor, LazyCompilationData,
    PositionTable,
};
use crate::cpu::{CondCode, ExprStore, FReg, Mem, Reg, Trap};
use crate::gc::Address;
use crate::position::Position;
use crate::text::{decimal, push_decimal};
use crate::ty::MachineMode;
use crate::ast::NodeId;
use crate::vm::{ClassDefId, FctId, FieldId, GlobalId};

verus! {

/// The largest offset into the code that the tables can record.
pub const MAX_OFFSET: usize = 0x7fff_ffff;

/// The size of an entry of the constant area in bytes.
pub const PTR_SIZE: i32 = 8;

/// A label: a place in the code that jumps name before its offset is known.
#[derive(Clone, Copy, Debug, PartialEq, Eq, Structural)]
pub struct Label(pub usize);

/// The integer operations with two operands.
#[derive(Clone, Copy, Debug, PartialEq, Eq, Structural)]
pub enum IntOp {
    Add,
    Sub,
    Mul,
    Div,
    Mod,
    And,
    Or,
    Xor,
    Shl,
    Shr,
    Sar,
}

/// The floating-point operations with two operands.
#[derive(Clone, Copy, Debug, PartialEq, Eq, Structural)]
pub enum FloatOp {
    Add,
    Sub,
    Mul,
    Div,
}

/// A machine operation.
#[allow(inconsistent_fields)]
#[derive(Clone, Copy, Debug, PartialEq, Eq, Structural)]
pub enum MachineOp {
    /// A breakpoint.
    Debug,
    /// Sets up a stack frame of the given size.
    Prolog { stacksize: i32 },
    /// Takes the stack frame down and returns to the caller.
    Epilog,
    /// Reads the polling page: the collector stops the function here when
    /// it has protected the page.
    Safepoint { polling_page: Address },
    /// Loads a register from memory.
    LoadMem { mode: MachineMode, dest: ExprStore, mem: Mem },
    /// Stores a register to memory.
    StoreMem { mode: MachineMode, mem: Mem, src: ExprStore },
    /// `dest = lhs op rhs` on integers.
    IntBinary { op: IntOp, mode: MachineMode, dest: Reg, lhs: Reg, rhs: Reg },
    /// `dest = lhs op rhs` on floating-point numbers.
    FloatBinary { op: FloatOp, mode: MachineMode, dest: FReg, lhs: FReg, rhs: FReg },
    /// `dest = -src` on integers.
    IntNeg { mode: MachineMode, dest: Reg, src: Reg },
    /// `dest = !src` on booleans.
    BoolNot { dest: Reg, src: Reg },
    /// Loads the field at `offset` of the object that `base` points to.
    LoadField { mode: MachineMode, dest: ExprStore, base: Reg, offset: i32 },
    /// Stores to the field at `offset` of the object that `base` points to.
    StoreField { mode: MachineMode, base: Reg, offset: i32, src: ExprStore },
    /// Loads the entry of the constant area that begins `disp` bytes before
    /// the code. In machine code the entry is addressed from the
    /// instruction pointer.
    LoadConstpool { dest: Reg, disp: i32 },
    /// Loads the null reference.
    LoadNil { dest: Reg },
    /// Loads the boolean `true`.
    LoadTrue { dest: Reg },
    /// Loads the boolean `false`.
    LoadFalse { dest: Reg },
    /// Loads an integer.
    LoadIntConst { mode: MachineMode, dest: Reg, value: i64 },
    /// Loads a floating-point number, given by its bits.
    LoadFloatConst { mode: MachineMode, dest: FReg, bits: u64 },
    /// Compares two registers and sets the flags.
    CmpReg { mode: MachineMode, lhs: Reg, rhs: Reg },
    /// Sets `dest` to one where the flags meet the condition, else to zero.
    SetIf { dest: Reg, cond: CondCode },
    /// Compares two floating-point registers and sets `dest` to one where
    /// the condition holds of them, else to zero.
    FloatCmp { mode: MachineMode, dest: Reg, lhs: FReg, rhs: FReg, cond: CondCode },
    /// Jumps to the label where the register meets the condition.
    TestAndJumpIf { cond: CondCode, reg: Reg, label: Label },
    /// Jumps to the label.
    Jump { label: Label },
    /// Raises a fault: control leaves the function for the fault handler.
    Trap { trap: Trap },
    /// Copies a register.
    MovReg { mode: MachineMode, dest: Reg, src: Reg },
    /// `dest = ~src` on integers.
    IntNot { mode: MachineMode, dest: Reg, src: Reg },
    /// Pushes a register on the stack, as an argument of a call.
    PushParam { reg: Reg },
    /// Takes `size` bytes of arguments from the stack.
    FreeStack { size: i32 },
    /// Calls the code at the address in the register.
    Call { reg: Reg },
}

/// A comment on the code.
#[derive(Clone, Copy, Debug)]
pub enum Comment {
    /// A fixed text.
    Lit(&'static str),
    /// An empty line.
    Newline,
    /// A load of a field.
    LoadField(ClassDefId, FieldId),
    /// A store to a field.
    StoreField(ClassDefId, FieldId),
    /// A load of a global variable.
    LoadGlobal(GlobalId),
    /// A store to a global variable.
    StoreGlobal(GlobalId),
    /// A load of a string constant.
    LoadString(ConstPoolIdx),
}

impl Comment {
    /// The text of the comment.
    pub open spec fn text(self) -> Seq<char> {
        match self {
            Comment::Lit(text) => text@,
            Comment::Newline => Seq::empty(),
            Comment::LoadField(cls, field) => "load field "@ + decimal(cls.0 as nat) + seq![':']
                + decimal(field.0 as nat),
            Comment::StoreField(cls, field) => "store field "@ + decimal(cls.0 as nat) + seq![':']
                + decimal(field.0 as nat),
            Comment::LoadGlobal(gid) => "load global "@ + decimal(gid.0 as nat),
            Comment::StoreGlobal(gid) => "store global "@ + decimal(gid.0 as nat),
            Comment::LoadString(idx) => "load string @"@ + decimal(idx.0 as nat),
        }
    }

    /// The text of the comment.
    pub fn to_string(&self) -> (text: String)
        ensures
            text@ == self.text(),
    {
        match *self {
            Comment::Lit(text) => String::from_str(text),
            Comment::Newline => String::new(),
            Comment::LoadField(cls, field) => {
                let mut text = String::from_str("load field ");
                push_decimal(&mut text, cls.0 as u64);
                text.push(':');
                push_decimal(&mut text, field.0 as u64);
                text
            },
            Comment::StoreField(cls, field) => {
                let mut text = String::from_str("store field ");
                push_decimal(&mut text, cls.0 as u64);
                text.push(':');
                push_decimal(&mut text, field.0 as u64);
                text
            },
            Comment::LoadGlobal(gid) => {
                let mut text = String::from_str("load global ");
                push_decimal(&mut text, gid.0 as u64);
                text
            },
            Comment::StoreGlobal(gid) => {
                let mut text = String::from_str("store global ");
                push_decimal(&mut text, gid.0 as u64);
                text
            },
            Comment::LoadString(idx) => {
                let mut text = String::from_str("load string @");
                push_decimal(&mut text, idx.0 as u64);
                text
            },
        }
    }
}

/// What an entry of the constant area holds.
#[derive(Clone, Copy, Debug, PartialEq, Eq, Structural)]
pub enum DSegValue {
    /// An address that is known when the code is generated.
    Addr(Address),
    /// The address of a string constant of the function, which is known
    /// once the string has been placed in the permanent space.
    Str(ConstPoolIdx),
    /// The address of the string of a literal of the syntax tree, which is
    /// known once the string has been allocated.
    Literal(NodeId),
    /// The address of a function of the runtime.
    Builtin(Builtin),
    /// The address of the stub of a function that is compiled when it is
    /// called first, which is known once the stub has been made.
    Stub(FctId),
}

/// The functions of the runtime that generated code calls.
#[derive(Clone, Copy, Debug, PartialEq, Eq, Structural)]
pub enum Builtin {
    /// Compares two strings.
    Strcmp,
    /// Joins two strings.
    Strcat,
    /// Allocates an object.
    GcAlloc,
}

/// The constant area: the addresses that the code loads. It lies before the
/// code; the entry number `i`, counted from zero, begins `PTR_SIZE * (i + 1)`
/// bytes before the code, so that the entry added last lies farthest from
/// it.
#[derive(Debug)]
pub struct DSeg {
    pub entries: Vec<DSegValue>,
}

impl DSeg {
    /// The largest number of entries.
    pub open spec fn capacity() -> int {
        0x0fff_ffff
    }

    /// The empty constant area.
    pub fn new() -> (dseg: DSeg)
        ensures
            dseg.entries@ == Seq::<DSegValue>::empty(),
    {
        DSeg { entries: Vec::new() }
    }

    /// The size of the area in bytes.
    pub fn size(&self) -> (size: i32)
        requires
            self.entries@.len() <= DSeg::capacity(),
        ensures
            size == PTR_SIZE * self.entries@.len(),
    {
        PTR_SIZE * (self.entries.len() as i32)
    }

    /// Adds an entry and gives its displacement: the distance from the
    /// start of the code back to the entry.
    pub fn add_value(&mut self, value: DSegValue) -> (disp: i32)
        requires
            old(self).entries@.len() < DSeg::capacity(),
        ensures
            final(self).entries@ == old(self).entries@.push(value),
            disp == PTR_SIZE * (old(self).entries@.len() + 1),
    {
        self.entries.push(value);
        PTR_SIZE * (self.entries.len() as i32)
    }
}

/// The abstract content of a [`BaselineAssembler`].
pub struct AsmView {
    /// The operations emitted so far.
    pub ops: Seq<MachineOp>,
    /// For each label the offset it is bound to, if it is bound.
    pub labels: Seq<Option<usize>>,
    /// The entries of the constant area.
    pub dseg: Seq<DSegValue>,
    /// The frame slots that hold references, for each safepoint.
    pub gcpoints: Map<i32, Seq<i32>>,
    /// The comments by rising offset.
    pub comments: Seq<(u32, Seq<Seq<char>>)>,
    /// The source positions by rising offset.
    pub positions: Seq<(u32, Position)>,
}

impl AsmView {
    /// The content after the operation `op` has been emitted.
    pub open spec fn emit(self, op: MachineOp) -> AsmView {
        AsmView { ops: self.ops.push(op), ..self }
    }

    /// The content after a label has been created.
    pub open spec fn label(self) -> AsmView {
        AsmView { labels: self.labels.push(None), ..self }
    }

    /// The content after the label `lbl` has been bound to `offset`.
    pub open spec fn bind(self, lbl: Label, offset: usize) -> AsmView {
        AsmView { labels: self.labels.update(lbl.0 as int, Some(offset)), ..self }
    }

    /// The content after `comment` has been attached to the current offset.
    pub open spec fn comment(self, comment: Comment) -> AsmView {
        AsmView {
            comments: with_comment(self.comments, self.ops.len() as u32, comment.text()),
            ..self
        }
    }

    /// The content after `value` has been added to the constant area.
    pub open spec fn constant(self, value: DSegValue) -> AsmView {
        AsmView { dseg: self.dseg.push(value), ..self }
    }

    /// The displacement of the entry that is added next to the constant
    /// area.
    pub open spec fn next_disp(self) -> int {
        PTR_SIZE * (self.dseg.len() + 1)
    }

    /// The content after a safepoint has been emitted at which the frame
    /// slots `slots` hold references: the poll, and the entry of the
    /// safepoint table at the offset of the poll.
    pub open spec fn safepoint(self, polling_page: Address, slots: Seq<i32>) -> AsmView {
        AsmView {
            ops: self.ops.push(MachineOp::Safepoint { polling_page }),
            gcpoints: self.gcpoints.insert(self.ops.len() as i32, slots),
            ..self
        }
    }

    /// The content after the prolog has been emitted for a function that is
    /// declared at `position`.
    pub open spec fn prolog(self, stacksize: i32, position: Position) -> AsmView {
        AsmView {
            ops: self.ops.push(MachineOp::Prolog { stacksize }),
            positions: self.positions.push((self.ops.len() as u32, position)),
            ..self
        }
    }

    /// The tables refer to code that has been emitted, and are in order.
    pub open spec fn wf(self) -> bool {
        &&& rising(self.comments)
        &&& rising(self.positions)
        &&& self.comments.len() > 0 ==> self.comments.last().0 <= self.ops.len()
        &&& self.positions.len() > 0 ==> self.positions.last().0 < self.ops.len()
        &&& forall|k: i32| self.gcpoints.contains_key(k) ==> 0 <= k < self.ops.len()
        &&& forall|l: int|
            0 <= l < self.labels.len() ==> ((#[trigger] self.labels[l]) matches Some(offset)
                ==> offset <= self.ops.len())
    }

    /// Whether the label `lbl` has been created.
    pub open spec fn has_label(self, lbl: Label) -> bool {
        lbl.0 < self.labels.len()
    }

    /// Whether the label `lbl` has been created and is bound.
    pub open spec fn bound(self, lbl: Label) -> bool {
        self.has_label(lbl) && self.labels[lbl.0 as int] is Some
    }

    /// Whether every label is bound.
    pub open spec fn all_bound(self) -> bool {
        forall|l: int| 0 <= l < self.labels.len() ==> (#[trigger] self.labels[l]) is Some
    }
}

/// Emitting an operation keeps the tables in order.
pub broadcast proof fn lemma_emit_wf(a: AsmView, op: MachineOp)
    requires
        a.wf(),
    ensures
        #[trigger] a.emit(op).wf(),
{
    let b = a.emit(op);
    assert forall|l: int| 0 <= l < b.labels.len() implies ((#[trigger] b.labels[l]) matches Some(
        offset,
    ) ==> offset <= b.ops.len()) by {
        assert(b.labels[l] == a.labels[l]);
    }
    assert forall|k: i32| b.gcpoints.contains_key(k) implies 0 <= k < b.ops.len() by {
        assert(a.gcpoints.contains_key(k));
    }
}

/// Creating a label keeps the tables in order.
pub broadcast proof fn lemma_label_wf(a: AsmView)
    requires
        a.wf(),
    ensures
        #[trigger] a.label().wf(),
{
    let b = a.label();
    assert forall|l: int| 0 <= l < b.labels.len() implies ((#[trigger] b.labels[l]) matches Some(
        offset,
    ) ==> offset <= b.ops.len()) by {
        if l < a.labels.len() {
            assert(b.labels[l] == a.labels[l]);
        }
    }
}

/// Binding a label to an offset inside the code keeps the tables in order.
pub broadcast proof fn lemma_bind_wf(a: AsmView, lbl: Label, offset: usize)
    requires
        a.wf(),
        a.has_label(lbl),
        offset <= a.ops.len(),
    ensures
        #[trigger] a.bind(lbl, offset).wf(),
{
    let b = a.bind(lbl, offset);
    assert forall|l: int| 0 <= l < b.labels.len() implies ((#[trigger] b.labels[l]) matches Some(
        o,
    ) ==> o <= b.ops.len()) by {
        if l != lbl.0 {
            assert(b.labels[l] == a.labels[l]);
        }
    }
}

/// Attaching a comment to the current offset keeps the tables in order.
pub broadcast proof fn lemma_comment_wf(a: AsmView, comment: Comment)
    requires
        a.wf(),
        a.ops.len() <= MAX_OFFSET,
    ensures
        #[trigger] a.comment(comment).wf(),
{
    let b = a.comment(comment);
    assert forall|i: int, j: int| 0 <= i < j < b.comments.len() implies (#[trigger] b.comments[i]).0
        < (#[trigger] b.comments[j]).0 by {
        assert(b.comments[i] == a.comments[i]);
        if j < a.comments.len() - 1 {
            assert(b.comments[j] == a.comments[j]);
        } else if j < a.comments.len() {
            assert(b.comments[j].0 == a.comments[j].0);
        } else {
            assert(a.comments[i].0 <= a.comments.last().0);
        }
    }
}

/// Adding to the constant area keeps the tables in order.
pub broadcast proof fn lemma_constant_wf(a: AsmView, value: DSegValue)
    requires
        a.wf(),
    ensures
        #[trigger] a.constant(value).wf(),
{
}

/// Emitting a safepoint keeps the tables in order, and there is no
/// safepoint at the current offset before.
pub broadcast proof fn lemma_safepoint_wf(a: AsmView, polling_page: Address, slots: Seq<i32>)
    requires
        a.wf(),
        a.ops.len() <= MAX_OFFSET,
    ensures
        #[trigger] a.safepoint(polling_page, slots).wf(),
        !a.gcpoints.contains_key(a.ops.len() as i32),
{
    let b = a.safepoint(polling_page, slots);
    assert forall|l: int| 0 <= l < b.labels.len() implies ((#[trigger] b.labels[l]) matches Some(
        offset,
    ) ==> offset <= b.ops.len()) by {
        assert(b.labels[l] == a.labels[l]);
    }
    assert forall|k: i32| b.gcpoints.contains_key(k) implies 0 <= k < b.ops.len() by {
        if k != a.ops.len() as i32 {
            assert(a.gcpoints.contains_key(k));
        }
    }
    if a.gcpoints.contains_key(a.ops.len() as i32) {
        assert(false);
    }
}

/// Emitting the prolog keeps the tables in order.
pub broadcast proof fn lemma_prolog_wf(a: AsmView, stacksize: i32, position: Position)
    requires
        a.wf(),
        a.ops.len() <= MAX_OFFSET,
    ensures
        #[trigger] a.prolog(stacksize, position).wf(),
        a.positions.len() > 0 ==> a.ops.len() as u32 > a.positions.last().0,
{
    let b = a.prolog(stacksize, position);
    assert forall|l: int| 0 <= l < b.labels.len() implies ((#[trigger] b.labels[l]) matches Some(
        offset,
    ) ==> offset <= b.ops.len()) by {
        assert(b.labels[l] == a.labels[l]);
    }
    assert forall|k: i32| b.gcpoints.contains_key(k) implies 0 <= k < b.ops.len() by {
        assert(a.gcpoints.contains_key(k));
    }
    assert forall|i: int, j: int| 0 <= i < j < b.positions.len() implies (
    #[trigger] b.positions[i]).0 < (#[trigger] b.positions[j]).0 by {
        assert(b.positions[i] == a.positions[i]);
        if j < a.positions.len() {
            assert(b.positions[j] == a.positions[j]);
        } else {
            assert(a.positions[i].0 <= a.positions.last().0);
        }
    }
}

/// What keeps the tables of the emitter in order.
pub broadcast group group_masm_wf {
    lemma_emit_wf,
    lemma_label_wf,
    lemma_bind_wf,
    lemma_comment_wf,
    lemma_constant_wf,
    lemma_safepoint_wf,
    lemma_prolog_wf,
}

/// The code emitter.
pub struct BaselineAssembler {
    pub ops: Vec<MachineOp>,
    pub labels: Vec<Option<usize>>,
    pub dseg: DSeg,
    pub gcpoints: GcPoints,
    pub comments: Comments,
    pub positions: PositionTable,
}

impl View for BaselineAssembler {
    type V = AsmView;

    open spec fn view(&self) -> AsmView {
        AsmView {
            ops: self.ops@,
            labels: self.labels@,
            dseg: self.dseg.entries@,
            gcpoints: self.gcpoints@,
            comments: self.comments@,
            positions: self.positions@,
        }
    }
}

/// Code that has been generated and is ready to be placed in memory: the
/// operations, the offset of each label, the constant area, the tables, and
/// what the code is. The tables are in order and refer to operations of the
/// code.
pub struct Assembly {
    ops: Vec<MachineOp>,
    labels: Vec<usize>,
    dseg: DSeg,
    gcpoints: GcPoints,
    comments: Comments,
    positions: PositionTable,
    framesize: i32,
    desc: JitDescriptor,
    throws: bool,
}

/// The abstract content of an [`Assembly`].
pub struct AssemblyView {
    pub ops: Seq<MachineOp>,
    pub labels: Seq<usize>,
    pub dseg: Seq<DSegValue>,
    pub gcpoints: Map<i32, Seq<i32>>,
    pub comments: Seq<(u32, Seq<Seq<char>>)>,
    pub positions: Seq<(u32, Position)>,
    pub framesize: i32,
    pub desc: JitDescriptor,
    pub throws: bool,
}

impl View for Assembly {
    type V = AssemblyView;

    closed spec fn view(&self) -> AssemblyView {
        AssemblyView {
            ops: self.ops@,
            labels: self.labels@,
            dseg: self.dseg.entries@,
            gcpoints: self.gcpoints@,
            comments: self.comments@,
            positions: self.positions@,
            framesize: self.framesize,
            desc: self.desc,
            throws: self.throws,
        }
    }
}

impl AssemblyView {
    /// The tables are in order and refer to operations of the code.
    pub open spec fn wf(self) -> bool {
        &&& rising(self.comments)
        &&& rising(self.positions)
        &&& forall|i: int| 0 <= i < self.comments.len() ==> (#[trigger] self.comments[i]).0
            <= self.ops.len()
        &&& forall|i: int| 0 <= i < self.positions.len() ==> (#[trigger] self.positions[i]).0
            < self.ops.len()
        &&& forall|k: i32| self.gcpoints.contains_key(k) ==> 0 <= k < self.ops.len()
    }

    /// Whether `starts` gives the code a layout in bytes: the offset at
    /// which each operation begins and, last, the length of the code; every
    /// operation takes room, and the code is not too long for its tables.
    pub open spec fn laid_out(self, starts: Seq<u32>) -> bool {
        &&& starts.len() == self.ops.len() + 1
        &&& climbing(starts)
        &&& starts.last() <= i32::MAX
    }

    /// Whether the code can be placed at `ptr` with the layout `starts`:
    /// `ptr` is not null, the layout is one, no comment stands behind the
    /// last operation, and the constant area and the code end inside the
    /// address space.
    pub open spec fn placeable(self, ptr: Address, starts: Seq<u32>) -> bool {
        &&& ptr.0 != 0
        &&& self.laid_out(starts)
        &&& below(self.comments, self.ops.len() as int)
        &&& self.dseg.len() <= DSeg::capacity()
        &&& ptr.0 + PTR_SIZE * self.dseg.len() + starts.last() <= usize::MAX
    }
}

/// The code with the content `masm`, all of whose labels are bound, as the
/// code of `desc` with a frame of `framesize` bytes.
pub open spec fn assembled(
    masm: AsmView,
    framesize: i32,
    desc: JitDescriptor,
    throws: bool,
) -> AssemblyView {
    AssemblyView {
        ops: masm.ops,
        labels: Seq::new(masm.labels.len(), |l: int| masm.labels[l].unwrap()),
        dseg: masm.dseg,
        gcpoints: masm.gcpoints,
        comments: masm.comments,
        positions: masm.positions,
        framesize,
        desc,
        throws,
    }
}

impl BaselineAssembler {
    /// The tables are in order and refer to code that has been emitted.
    pub open spec fn wf(&self) -> bool {
        self@.wf()
    }

    /// An emitter that has emitted nothing.
    pub fn new() -> (masm: BaselineAssembler)
        ensures
            masm.wf(),
            masm@.ops == Seq::<MachineOp>::empty(),
            masm@.labels == Seq::<Option<usize>>::empty(),
            masm@.dseg == Seq::<DSegValue>::empty(),
            masm@.gcpoints == Map::<i32, Seq<i32>>::empty(),
            masm@.comments == Seq::<(u32, Seq<Seq<char>>)>::empty(),
            masm@.positions == Seq::<(u32, Position)>::empty(),
    {
        let positions = PositionTable::new();
        proof {
            assert(positions@ =~= Seq::<(u32, Position)>::empty());
        }
        BaselineAssembler {
            ops: Vec::new(),
            labels: Vec::new(),
            dseg: DSeg::new(),
            gcpoints: GcPoints::new(),
            comments: Comments::new(),
            positions,
        }
    }

    /// The current offset: where the operation that is emitted next will
    /// stand.
    pub fn pos(&self) -> (pos: usize)
        ensures
            pos == self@.ops.len(),
    {
        self.ops.len()
    }

    /// Appends `op` to the code.
    fn emit(&mut self, op: MachineOp)
        requires
            old(self).wf(),
        ensures
            final(self).wf(),
            final(self)@ == old(self)@.emit(op),
    {
        self.ops.push(op);
        proof {
            lemma_emit_wf(old(self)@, op);
        }
    }

    /// Creates a label, which is not bound yet.
    pub fn create_label(&mut self) -> (lbl: Label)
        requires
            old(self).wf(),
        ensures
            final(self).wf(),
            final(self)@ == old(self)@.label(),
            lbl.0 == old(self)@.labels.len(),
    {
        let idx: usize = self.labels.len();
        self.labels.push(None);
        proof {
            lemma_label_wf(old(self)@);
        }
        Label(idx)
    }

    /// Binds the label `lbl`, which is not bound yet, to the current offset.
    pub fn bind_label(&mut self, lbl: Label)
        requires
            old(self).wf(),
            old(self)@.has_label(lbl),
            !old(self)@.bound(lbl),
        ensures
            final(self).wf(),
            final(self)@ == old(self)@.bind(lbl, old(self)@.ops.len() as usize),
    {
        let pos: usize = self.pos();
        self.bind_label_to(lbl, pos);
    }

    /// Binds the label `lbl`, which is not bound yet, to the offset `pos`.
    pub fn bind_label_to(&mut self, lbl: Label, pos: usize)
        requires
            old(self).wf(),
            old(self)@.has_label(lbl),
            !old(self)@.bound(lbl),
            pos <= old(self)@.ops.len(),
        ensures
            final(self).wf(),
            final(self)@ == old(self)@.bind(lbl, pos),
    {
        self.labels[lbl.0] = Some(pos);
        proof {
            lemma_bind_wf(old(self)@, lbl, pos);
        }
    }

    /// Attaches `comment` to the current offset.
    pub fn emit_comment(&mut self, comment: Comment)
        requires
            old(self).wf(),
            old(self)@.ops.len() <= MAX_OFFSET,
        ensures
            final(self).wf(),
            final(self)@ == old(self)@.comment(comment),
    {
        let offset: u32 = self.pos() as u32;
        proof {
            lemma_comment_wf(old(self)@, comment);
        }
        self.comments.insert(offset, comment.to_string());
    }

    /// Adds the address `ptr` to the constant area and gives its
    /// displacement.
    pub fn add_addr(&mut self, ptr: Address) -> (disp: i32)
        requires
            old(self).wf(),
            old(self)@.dseg.len() < DSeg::capacity(),
        ensures
            final(self).wf(),
            final(self)@ == old(self)@.constant(DSegValue::Addr(ptr)),
            disp == old(self)@.next_disp(),
    {
        let disp = self.dseg.add_value(DSegValue::Addr(ptr));
        proof {
            lemma_constant_wf(old(self)@, DSegValue::Addr(ptr));
        }
        disp
    }

    /// Adds `value` to the constant area and gives its displacement.
    pub fn add_value(&mut self, value: DSegValue) -> (disp: i32)
        requires
            old(self).wf(),
            old(self)@.dseg.len() < DSeg::capacity(),
        ensures
            final(self).wf(),
            final(self)@ == old(self)@.constant(value),
            disp == old(self)@.next_disp(),
    {
        let disp = self.dseg.add_value(value);
        proof {
            lemma_constant_wf(old(self)@, value);
        }
        disp
    }

    /// Adds the address of the string constant `idx` to the constant area
    /// and gives its displacement.
    pub fn add_string(&mut self, idx: ConstPoolIdx) -> (disp: i32)
        requires
            old(self).wf(),
            old(self)@.dseg.len() < DSeg::capacity(),
        ensures
            final(self).wf(),
            final(self)@ == old(self)@.constant(DSegValue::Str(idx)),
            disp == old(self)@.next_disp(),
    {
        let disp = self.dseg.add_value(DSegValue::Str(idx));
        proof {
            lemma_constant_wf(old(self)@, DSegValue::Str(idx));
        }
        disp
    }

    /// Emits a breakpoint.
    pub fn debug(&mut self)
        requires
            old(self).wf(),
        ensures
            final(self).wf(),
            final(self)@ == old(self)@.emit(MachineOp::Debug),
    {
        self.emit(MachineOp::Debug);
    }

    /// Emits the prolog of a function that is declared at `position`, and
    /// records that position for the offset of the prolog.
    pub fn prolog_size(&mut self, stacksize: i32, position: Position)
        requires
            old(self).wf(),
            old(self)@.ops.len() <= MAX_OFFSET,
        ensures
            final(self).wf(),
            final(self)@ == old(self)@.prolog(stacksize, position),
    {
        let offset: u32 = self.pos() as u32;
        proof {
            lemma_prolog_wf(old(self)@, stacksize, position);
        }
        self.positions.insert(offset, position);
        self.ops.push(MachineOp::Prolog { stacksize });
    }

    /// Emits the epilog.
    pub fn epilog(&mut self)
        requires
            old(self).wf(),
        ensures
            final(self).wf(),
            final(self)@ == old(self)@.emit(MachineOp::Epilog),
    {
        self.emit(MachineOp::Epilog);
    }

    /// Emits a safepoint at which the frame slots of `gcpoint` hold
    /// references: the poll of `polling_page`, and the entry of the
    /// safepoint table at the offset of the poll.
    pub fn safepoint(&mut self, polling_page: Address, gcpoint: GcPoint)
        requires
            old(self).wf(),
            old(self)@.ops.len() <= MAX_OFFSET,
        ensures
            final(self).wf(),
            final(self)@ == old(self)@.safepoint(polling_page, gcpoint.offsets@),
    {
        let offset: i32 = self.pos() as i32;
        proof {
            lemma_safepoint_wf(old(self)@, polling_page, gcpoint.offsets@);
        }
        self.gcpoints.insert(offset, gcpoint);
        self.ops.push(MachineOp::Safepoint { polling_page });
    }

    /// Emits a load of `dest` from `mem`.
    pub fn load_mem(&mut self, mode: MachineMode, dest: ExprStore, mem: Mem)
        requires
            old(self).wf(),
        ensures
            final(self).wf(),
            final(self)@ == old(self)@.emit(MachineOp::LoadMem { mode, dest, mem }),
    {
        self.emit(MachineOp::LoadMem { mode, dest, mem });
    }

    /// Emits a store of `src` to `mem`.
    pub fn store_mem(&mut self, mode: MachineMode, mem: Mem, src: ExprStore)
        requires
            old(self).wf(),
        ensures
            final(self).wf(),
            final(self)@ == old(self)@.emit(MachineOp::StoreMem { mode, mem, src }),
    {
        self.emit(MachineOp::StoreMem { mode, mem, src });
    }

    /// Emits the integer operation `op`.
    pub fn int_op(&mut self, op: IntOp, mode: MachineMode, dest: Reg, lhs: Reg, rhs: Reg)
        requires
            old(self).wf(),
        ensures
            final(self).wf(),
            final(self)@ == old(self)@.emit(MachineOp::IntBinary { op, mode, dest, lhs, rhs }),
    {
        self.emit(MachineOp::IntBinary { op, mode, dest, lhs, rhs });
    }

    /// Emits an integer addition.
    pub fn int_add(&mut self, mode: MachineMode, dest: Reg, lhs: Reg, rhs: Reg)
        requires
            old(self).wf(),
        ensures
            final(self).wf(),
            final(self)@ == old(self)@.emit(
                MachineOp::IntBinary { op: IntOp::Add, mode, dest, lhs, rhs },
            ),
    {
        self.int_op(IntOp::Add, mode, dest, lhs, rhs);
    }

    /// Emits an integer subtraction.
    pub fn int_sub(&mut self, mode: MachineMode, dest: Reg, lhs: Reg, rhs: Reg)
        requires
            old(self).wf(),
        ensures
            final(self).wf(),
            final(self)@ == old(self)@.emit(
                MachineOp::IntBinary { op: IntOp::Sub, mode, dest, lhs, rhs },
            ),
    {
        self.int_op(IntOp::Sub, mode, dest, lhs, rhs);
    }

    /// Emits an integer multiplication.
    pub fn int_mul(&mut self, mode: MachineMode, dest: Reg, lhs: Reg, rhs: Reg)
        requires
            old(self).wf(),
        ensures
            final(self).wf(),
            final(self)@ == old(self)@.emit(
                MachineOp::IntBinary { op: IntOp::Mul, mode, dest, lhs, rhs },
            ),
    {
        self.int_op(IntOp::Mul, mode, dest, lhs, rhs);
    }

    /// Emits an integer division. The divisor is not zero when the
    /// operation runs: the code before it sees to that.
    pub fn int_div(&mut self, mode: MachineMode, dest: Reg, lhs: Reg, rhs: Reg)
        requires
            old(self).wf(),
        ensures
            final(self).wf(),
            final(self)@ == old(self)@.emit(
                MachineOp::IntBinary { op: IntOp::Div, mode, dest, lhs, rhs },
            ),
    {
        self.int_op(IntOp::Div, mode, dest, lhs, rhs);
    }

    /// Emits an integer remainder. The divisor is not zero when the
    /// operation runs: the code before it sees to that.
    pub fn int_mod(&mut self, mode: MachineMode, dest: Reg, lhs: Reg, rhs: Reg)
        requires
            old(self).wf(),
        ensures
            final(self).wf(),
            final(self)@ == old(self)@.emit(
                MachineOp::IntBinary { op: IntOp::Mod, mode, dest, lhs, rhs },
            ),
    {
        self.int_op(IntOp::Mod, mode, dest, lhs, rhs);
    }

    /// Emits a bitwise and.
    pub fn int_and(&mut self, mode: MachineMode, dest: Reg, lhs: Reg, rhs: Reg)
        requires
            old(self).wf(),
        ensures
            final(self).wf(),
            final(self)@ == old(self)@.emit(
                MachineOp::IntBinary { op: IntOp::And, mode, dest, lhs, rhs },
            ),
    {
        self.int_op(IntOp::And, mode, dest, lhs, rhs);
    }

    /// Emits a bitwise or.
    pub fn int_or(&mut self, mode: MachineMode, dest: Reg, lhs: Reg, rhs: Reg)
        requires
            old(self).wf(),
        ensures
            final(self).wf(),
            final(self)@ == old(self)@.emit(
                MachineOp::IntBinary { op: IntOp::Or, mode, dest, lhs, rhs },
            ),
    {
        self.int_op(IntOp::Or, mode, dest, lhs, rhs);
    }

    /// Emits a bitwise exclusive or.
    pub fn int_xor(&mut self, mode: MachineMode, dest: Reg, lhs: Reg, rhs: Reg)
        requires
            old(self).wf(),
        ensures
            final(self).wf(),
            final(self)@ == old(self)@.emit(
                MachineOp::IntBinary { op: IntOp::Xor, mode, dest, lhs, rhs },
            ),
    {
        self.int_op(IntOp::Xor, mode, dest, lhs, rhs);
    }

    /// Emits a shift to the left.
    pub fn int_shl(&mut self, mode: MachineMode, dest: Reg, lhs: Reg, rhs: Reg)
        requires
            old(self).wf(),
        ensures
            final(self).wf(),
            final(self)@ == old(self)@.emit(
                MachineOp::IntBinary { op: IntOp::Shl, mode, dest, lhs, rhs },
            ),
    {
        self.int_op(IntOp::Shl, mode, dest, lhs, rhs);
    }

    /// Emits a logical shift to the right.
    pub fn int_shr(&mut self, mode: MachineMode, dest: Reg, lhs: Reg, rhs: Reg)
        requires
            old(self).wf(),
        ensures
            final(self).wf(),
            final(self)@ == old(self)@.emit(
                MachineOp::IntBinary { op: IntOp::Shr, mode, dest, lhs, rhs },
            ),
    {
        self.int_op(IntOp::Shr, mode, dest, lhs, rhs);
    }

    /// Emits an arithmetic shift to the right.
    pub fn int_sar(&mut self, mode: MachineMode, dest: Reg, lhs: Reg, rhs: Reg)
        requires
            old(self).wf(),
        ensures
            final(self).wf(),
            final(self)@ == old(self)@.emit(
                MachineOp::IntBinary { op: IntOp::Sar, mode, dest, lhs, rhs },
            ),
    {
        self.int_op(IntOp::Sar, mode, dest, lhs, rhs);
    }

    /// Emits an integer negation.
    pub fn int_neg(&mut self, mode: MachineMode, dest: Reg, src: Reg)
        requires
            old(self).wf(),
        ensures
            final(self).wf(),
            final(self)@ == old(self)@.emit(MachineOp::IntNeg { mode, dest, src }),
    {
        self.emit(MachineOp::IntNeg { mode, dest, src });
    }

    /// Emits a boolean negation.
    pub fn bool_not(&mut self, dest: Reg, src: Reg)
        requires
            old(self).wf(),
        ensures
            final(self).wf(),
            final(self)@ == old(self)@.emit(MachineOp::BoolNot { dest, src }),
    {
        self.emit(MachineOp::BoolNot { dest, src });
    }

    /// Emits the floating-point operation `op`.
    pub fn float_op(&mut self, op: FloatOp, mode: MachineMode, dest: FReg, lhs: FReg, rhs: FReg)
        requires
            old(self).wf(),
        ensures
            final(self).wf(),
            final(self)@ == old(self)@.emit(MachineOp::FloatBinary { op, mode, dest, lhs, rhs }),
    {
        self.emit(MachineOp::FloatBinary { op, mode, dest, lhs, rhs });
    }

    /// Emits a floating-point addition.
    pub fn float_add(&mut self, mode: MachineMode, dest: FReg, lhs: FReg, rhs: FReg)
        requires
            old(self).wf(),
        ensures
            final(self).wf(),
            final(self)@ == old(self)@.emit(
                MachineOp::FloatBinary { op: FloatOp::Add, mode, dest, lhs, rhs },
            ),
    {
        self.float_op(FloatOp::Add, mode, dest, lhs, rhs);
    }

    /// Emits a floating-point subtraction.
    pub fn float_sub(&mut self, mode: MachineMode, dest: FReg, lhs: FReg, rhs: FReg)
        requires
            old(self).wf(),
        ensures
            final(self).wf(),
            final(self)@ == old(self)@.emit(
                MachineOp::FloatBinary { op: FloatOp::Sub, mode, dest, lhs, rhs },
            ),
    {
        self.float_op(FloatOp::Sub, mode, dest, lhs, rhs);
    }

    /// Emits a floating-point multiplication.
    pub fn float_mul(&mut self, mode: MachineMode, dest: FReg, lhs: FReg, rhs: FReg)
        requires
            old(self).wf(),
        ensures
            final(self).wf(),
            final(self)@ == old(self)@.emit(
                MachineOp::FloatBinary { op: FloatOp::Mul, mode, dest, lhs, rhs },
            ),
    {
        self.float_op(FloatOp::Mul, mode, dest, lhs, rhs);
    }

    /// Emits a floating-point division.
    pub fn float_div(&mut self, mode: MachineMode, dest: FReg, lhs: FReg, rhs: FReg)
        requires
            old(self).wf(),
        ensures
            final(self).wf(),
            final(self)@ == old(self)@.emit(
                MachineOp::FloatBinary { op: FloatOp::Div, mode, dest, lhs, rhs },
            ),
    {
        self.float_op(FloatOp::Div, mode, dest, lhs, rhs);
    }

    /// Emits a load of the field at `offset` of the object in `base`.
    pub fn load_field(&mut self, mode: MachineMode, dest: ExprStore, base: Reg, offset: i32)
        requires
            old(self).wf(),
        ensures
            final(self).wf(),
            final(self)@ == old(self)@.emit(MachineOp::LoadField { mode, dest, base, offset }),
    {
        self.emit(MachineOp::LoadField { mode, dest, base, offset });
    }

    /// Emits a store to the field at `offset` of the object in `base`.
    pub fn store_field(&mut self, mode: MachineMode, base: Reg, offset: i32, src: ExprStore)
        requires
            old(self).wf(),
        ensures
            final(self).wf(),
            final(self)@ == old(self)@.emit(MachineOp::StoreField { mode, base, offset, src }),
    {
        self.emit(MachineOp::StoreField { mode, base, offset, src });
    }

    /// Emits a load of the entry of the constant area that begins `disp`
    /// bytes before the code.
    pub fn load_constpool(&mut self, dest: Reg, disp: i32)
        requires
            old(self).wf(),
        ensures
            final(self).wf(),
            final(self)@ == old(self)@.emit(MachineOp::LoadConstpool { dest, disp }),
    {
        self.emit(MachineOp::LoadConstpool { dest, disp });
    }

    /// Emits a load of the null reference.
    pub fn load_nil(&mut self, dest: Reg)
        requires
            old(self).wf(),
        ensures
            final(self).wf(),
            final(self)@ == old(self)@.emit(MachineOp::LoadNil { dest }),
    {
        self.emit(MachineOp::LoadNil { dest });
    }

    /// Emits a load of `true`.
    pub fn load_true(&mut self, dest: Reg)
        requires
            old(self).wf(),
        ensures
            final(self).wf(),
            final(self)@ == old(self)@.emit(MachineOp::LoadTrue { dest }),
    {
        self.emit(MachineOp::LoadTrue { dest });
    }

    /// Emits a load of `false`.
    pub fn load_false(&mut self, dest: Reg)
        requires
            old(self).wf(),
        ensures
            final(self).wf(),
            final(self)@ == old(self)@.emit(MachineOp::LoadFalse { dest }),
    {
        self.emit(MachineOp::LoadFalse { dest });
    }

    /// Emits a load of the integer `value`.
    pub fn load_int_const(&mut self, mode: MachineMode, dest: Reg, value: i64)
        requires
            old(self).wf(),
        ensures
            final(self).wf(),
            final(self)@ == old(self)@.emit(MachineOp::LoadIntConst { mode, dest, value }),
    {
        self.emit(MachineOp::LoadIntConst { mode, dest, value });
    }

    /// Emits a load of the floating-point number with the bits `bits`.
    pub fn load_float_const(&mut self, mode: MachineMode, dest: FReg, bits: u64)
        requires
            old(self).wf(),
        ensures
            final(self).wf(),
            final(self)@ == old(self)@.emit(MachineOp::LoadFloatConst { mode, dest, bits }),
    {
        self.emit(MachineOp::LoadFloatConst { mode, dest, bits });
    }

    /// Emits a comparison of two registers.
    pub fn cmp_reg(&mut self, mode: MachineMode, lhs: Reg, rhs: Reg)
        requires
            old(self).wf(),
        ensures
            final(self).wf(),
            final(self)@ == old(self)@.emit(MachineOp::CmpReg { mode, lhs, rhs }),
    {
        self.emit(MachineOp::CmpReg { mode, lhs, rhs });
    }

    /// Emits the setting of `dest` by the flags.
    pub fn set(&mut self, dest: Reg, cond: CondCode)
        requires
            old(self).wf(),
        ensures
            final(self).wf(),
            final(self)@ == old(self)@.emit(MachineOp::SetIf { dest, cond }),
    {
        self.emit(MachineOp::SetIf { dest, cond });
    }

    /// Emits a comparison of two floating-point registers into `dest`.
    pub fn float_cmp(&mut self, mode: MachineMode, dest: Reg, lhs: FReg, rhs: FReg, cond: CondCode)
        requires
            old(self).wf(),
        ensures
            final(self).wf(),
            final(self)@ == old(self)@.emit(MachineOp::FloatCmp { mode, dest, lhs, rhs, cond }),
    {
        self.emit(MachineOp::FloatCmp { mode, dest, lhs, rhs, cond });
    }

    /// Emits a jump to `lbl` that is taken where `reg` meets `cond`.
    pub fn test_and_jump_if(&mut self, cond: CondCode, reg: Reg, lbl: Label)
        requires
            old(self).wf(),
        ensures
            final(self).wf(),
            final(self)@ == old(self)@.emit(MachineOp::TestAndJumpIf { cond, reg, label: lbl }),
    {
        self.emit(MachineOp::TestAndJumpIf { cond, reg, label: lbl });
    }

    /// Emits a jump to `lbl`.
    pub fn jump(&mut self, lbl: Label)
        requires
            old(self).wf(),
        ensures
            final(self).wf(),
            final(self)@ == old(self)@.emit(MachineOp::Jump { label: lbl }),
    {
        self.emit(MachineOp::Jump { label: lbl });
    }

    /// Emits a fault.
    pub fn trap(&mut self, trap: Trap)
        requires
            old(self).wf(),
        ensures
            final(self).wf(),
            final(self)@ == old(self)@.emit(MachineOp::Trap { trap }),
    {
        self.emit(MachineOp::Trap { trap });
    }

    /// Emits a copy from register to register.
    pub fn mov_reg(&mut self, mode: MachineMode, dest: Reg, src: Reg)
        requires
            old(self).wf(),
        ensures
            final(self).wf(),
            final(self)@ == old(self)@.emit(MachineOp::MovReg { mode, dest, src }),
    {
        self.emit(MachineOp::MovReg { mode, dest, src });
    }

    /// Emits a bitwise negation.
    pub fn int_not(&mut self, mode: MachineMode, dest: Reg, src: Reg)
        requires
            old(self).wf(),
        ensures
            final(self).wf(),
            final(self)@ == old(self)@.emit(MachineOp::IntNot { mode, dest, src }),
    {
        self.emit(MachineOp::IntNot { mode, dest, src });
    }

    /// Emits a push of an argument.
    pub fn push_param(&mut self, reg: Reg)
        requires
            old(self).wf(),
        ensures
            final(self).wf(),
            final(self)@ == old(self)@.emit(MachineOp::PushParam { reg }),
    {
        self.emit(MachineOp::PushParam { reg });
    }

    /// Emits the release of `size` bytes of arguments.
    pub fn free_stack(&mut self, size: i32)
        requires
            old(self).wf(),
        ensures
            final(self).wf(),
            final(self)@ == old(self)@.emit(MachineOp::FreeStack { size }),
    {
        self.emit(MachineOp::FreeStack { size });
    }

    /// Emits a call of the code at the address in `reg`.
    pub fn call(&mut self, reg: Reg)
        requires
            old(self).wf(),
        ensures
            final(self).wf(),
            final(self)@ == old(self)@.emit(MachineOp::Call { reg }),
    {
        self.emit(MachineOp::Call { reg });
    }

    /// Closes the code: every label has its offset, and the code is that
    /// of `desc` with a frame of `stacksize` bytes.
    pub fn jit(self, stacksize: i32, desc: JitDescriptor, throws: bool) -> (code: Assembly)
        requires
            self.wf(),
            self@.all_bound(),
        ensures
            code@ == assembled(self@, stacksize, desc, throws),
            code@.wf(),
    {
        let mut labels: Vec<usize> = Vec::new();
        let mut l: usize = 0;
        while l < self.labels.len()
            invariant
                l <= self.labels@.len(),
                self@.all_bound(),
                labels@.len() == l,
                forall|k: int| 0 <= k < l ==> labels@[k] == self.labels@[k].unwrap(),
            decreases self.labels@.len() - l,
        {
            proof {
                assert(self@.labels[l as int] is Some);
            }
            labels.push(self.labels[l].unwrap());
            l += 1;
        }
        proof {
            assert(labels@ =~= assembled(self@, stacksize, desc, throws).labels);
            lemma_tables_inside(self@);
        }
        Assembly {
            ops: self.ops,
            labels,
            dseg: self.dseg,
            gcpoints: self.gcpoints,
            comments: self.comments,
            positions: self.positions,
            framesize: stacksize,
            desc,
            throws,
        }
    }
}

/// The offsets of tables that are in order all lie inside the code: a
/// source position belongs to an operation, and a comment stands before one
/// or behind the last.
pub proof fn lemma_tables_inside(a: AsmView)
    requires
        a.wf(),
    ensures
        forall|i: int| 0 <= i < a.comments.len() ==> (#[trigger] a.comments[i]).0 <= a.ops.len(),
        forall|i: int| 0 <= i < a.positions.len() ==> (#[trigger] a.positions[i]).0 < a.ops.len(),
{
    assert forall|i: int| 0 <= i < a.comments.len() implies (#[trigger] a.comments[i]).0
        <= a.ops.len() by {
        if i < a.comments.len() - 1 {
            assert(a.comments[i].0 < a.comments[a.comments.len() - 1].0);
        }
    }
    assert forall|i: int| 0 <= i < a.positions.len() implies (#[trigger] a.positions[i]).0
        < a.ops.len() by {
        if i < a.positions.len() - 1 {
            assert(a.positions[i].0 < a.positions[a.positions.len() - 1].0);
        }
    }
}

impl Assembly {
    #[verifier::type_invariant]
    spec fn inv(self) -> bool {
        self@.wf()
    }

    /// The operations.
    pub fn ops(&self) -> (ops: &Vec<MachineOp>)
        ensures
            ops@ == self@.ops,
    {
        &self.ops
    }

    /// The offset of each label: the number of the operation that a jump
    /// to the label leads to.
    pub fn labels(&self) -> (labels: &Vec<usize>)
        ensures
            labels@ == self@.labels,
    {
        &self.labels
    }

    /// The constant area.
    pub fn dseg(&self) -> (dseg: &DSeg)
        ensures
            dseg.entries@ == self@.dseg,
    {
        &self.dseg
    }

    /// The safepoints, by the number of the operation that polls.
    pub fn gcpoints(&self) -> (gcpoints: &GcPoints)
        ensures
            gcpoints@ == self@.gcpoints,
    {
        &self.gcpoints
    }

    /// The comments, by the number of the operation that they stand
    /// before.
    pub fn comments(&self) -> (comments: &Comments)
        ensures
            comments@ == self@.comments,
            comments.wf(),
    {
        proof {
            use_type_invariant(self);
        }
        &self.comments
    }

    /// The source positions, by the number of the operation that they
    /// belong to.
    pub fn positions(&self) -> (positions: &PositionTable)
        ensures
            positions@ == self@.positions,
            positions.wf(),
    {
        proof {
            use_type_invariant(self);
        }
        &self.positions
    }

    /// The size of the stack frame in bytes.
    pub fn framesize(&self) -> (framesize: i32)
        ensures
            framesize == self@.framesize,
    {
        self.framesize
    }

    /// What the code is.
    pub fn desc(&self) -> (desc: JitDescriptor)
        ensures
            desc == self@.desc,
    {
        self.desc
    }

    /// Whether the code can leave with an exception.
    pub fn throws(&self) -> (throws: bool)
        ensures
            throws == self@.throws,
    {
        self.throws
    }

    /// The artifact for the code once it stands in memory.
    ///
    /// `ptr` is the start of the memory that holds first the constant area
    /// and then the machine code. `starts` is the layout of the machine
    /// code: the offset in bytes at which each operation begins and, last,
    /// the length of the code. The tables of the code, which go by the
    /// numbers of operations, leave with offsets in bytes. There is no
    /// artifact where the code cannot be placed so. Every entry of the
    /// tables of the artifact belongs to a place in its code: code with a
    /// comment behind its last operation is not placed.
    pub fn place(self, ptr: Address, starts: &Vec<u32>) -> (r: Option<JitBaselineFct>)
        ensures
            r is Some <==> self@.placeable(ptr, starts@),
            r matches Some(fct) ==> {
                &&& fct.wf()
                &&& fct.code_start == ptr
                &&& fct.fct_start.0 == ptr.0 + PTR_SIZE * self@.dseg.len()
                &&& fct.fct_len == starts@.last()
                &&& fct.code_end.0 == fct.fct_start.0 + fct.fct_len
                &&& fct.framesize == self@.framesize
                &&& fct.desc == self@.desc
                &&& fct.throws == self@.throws
                &&& fct.comments@ == moved(self@.comments, starts@)
                &&& fct.positions@ == moved(self@.positions, starts@)
                &&& forall|k: i32| #[trigger]
                    self@.gcpoints.contains_key(k) ==> fct.gcpoints@.contains_key(
                        starts@[k as int] as i32,
                    ) && fct.gcpoints@[starts@[k as int] as i32] == self@.gcpoints[k]
                &&& forall|b: i32| #[trigger]
                    fct.gcpoints@.contains_key(b) ==> exists|k: i32|
                        self@.gcpoints.contains_key(k) && starts@[k as int] as i32 == b
                &&& forall|b: i32| #[trigger]
                    fct.gcpoints@.contains_key(b) ==> 0 <= b < fct.fct_len
                &&& forall|i: int|
                    0 <= i < fct.comments@.len() ==> (#[trigger] fct.comments@[i]).0 < fct.fct_len
                &&& forall|i: int|
                    0 <= i < fct.positions@.len() ==> (#[trigger] fct.positions@[i]).0
                        < fct.fct_len
                &&& fct.lazy_compilation@.len() == 0
                &&& fct.exception_handlers@.len() == 0
            },
    {
        proof {
            use_type_invariant(&self);
        }
        if ptr.is_null() || starts.len() == 0 || starts.len() - 1 != self.ops.len() || !climbs(
            starts,
        ) {
            return None;
        }
        let len: u32 = starts[starts.len() - 1];
        if len > 0x7fff_ffff || self.dseg.entries.len() > 0x0fff_ffff || !self.comments.before(
            self.ops.len(),
        ) {
            return None;
        }
        let dseg_size: usize = self.dseg.size() as usize;
        if ptr.to_usize() > usize::MAX - dseg_size || ptr.to_usize() + dseg_size > usize::MAX
            - len as usize {
            return None;
        }
        proof {
            assert forall|k: int| 0 <= k < starts@.len() implies starts@[k] <= i32::MAX by {
                if k < starts@.len() - 1 {
                    assert(starts@[k] < starts@[starts@.len() - 1]);
                }
            }
            lemma_climbing_floor(starts@, starts@.len() - 1);
        }
        let ghost v = self@;
        let Assembly { ops, labels, dseg, gcpoints, comments, positions, framesize, desc, throws } =
            self;
        proof {
            assert(v.wf());
            assert(gcpoints@ == v.gcpoints);
            assert(comments@ == v.comments);
            assert(positions@ == v.positions);
            assert(ops@ == v.ops);
            assert(dseg.entries@ == v.dseg);
            assert(crate::compiler::fct::inside(comments@, starts@));
            assert(crate::compiler::fct::inside(positions@, starts@));
        }
        let mut comments = comments;
        let mut positions = positions;
        comments.relocate(starts);
        positions.relocate(starts);
        let gcpoints = gcpoints.relocate(starts, ops.len());
        let handlers: Vec<ExHandler> = Vec::new();
        let lazy = LazyCompilationData::new();
        proof {
            let last = starts@.len() - 1;
            assert forall|b: i32| #[trigger] gcpoints@.contains_key(b) implies 0 <= b < len by {
                let k = choose|k: i32| v.gcpoints.contains_key(k) && starts@[k as int] as i32 == b;
                assert(starts@[k as int] < starts@[last]);
            }
            assert forall|i: int| 0 <= i < comments@.len() implies (#[trigger] comments@[i]).0
                < len by {
                assert(v.comments[i].0 < v.ops.len());
                assert(starts@[v.comments[i].0 as int] < starts@[last]);
            }
            assert forall|i: int| 0 <= i < positions@.len() implies (#[trigger] positions@[i]).0
                < len by {
                assert(v.positions[i].0 < v.ops.len());
                assert(starts@[v.positions[i].0 as int] < starts@[last]);
            }
        }
        let fct = JitBaselineFct::from_buffer(
            ptr,
            dseg_size,
            len as usize,
            lazy,
            gcpoints,
            framesize,
            comments,
            positions,
            desc,
            throws,
            handlers,
        );
        Some(fct)
    }
}

} // verus!
