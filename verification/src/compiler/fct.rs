//! The compiled-function artifact and the tables that go with it: safepoint
//! maps, source positions, comments, sites of lazy compilation and
//! exception handlers. All tables are keyed by an offset into the code.
use std::collections::{HashMap, HashSet};
use vstd::prelude::*;

use crate::gc::Address;
use crate::opt::fct::JitOptFct;
use crate::position::Position;
use crate::ty::TypeList;
use crate::vm::{ClassDefId, FctId};

verus! {

broadcast use vstd::std_specs::hash::group_hash_axioms;

/// Identifies a piece of compiled code in the runtime's table of code.
#[derive(Copy, Clone, Debug, PartialEq, Eq, Structural)]
pub struct JitFctId(pub usize);

impl JitFctId {
    /// The identifier with the index `idx`.
    pub fn from(idx: usize) -> (id: JitFctId)
        ensures
            id.0 == idx,
    {
        JitFctId(idx)
    }

    /// The index of the code in the table.
    pub fn idx(self) -> (idx: usize)
        ensures
            idx == self.0,
    {
        self.0
    }
}

impl From<usize> for JitFctId {
    fn from(data: usize) -> (id: JitFctId) {
        JitFctId(data)
    }
}

impl vstd::std_specs::convert::FromSpecImpl<usize> for JitFctId {
    open spec fn obeys_from_spec() -> bool {
        true
    }

    open spec fn from_spec(data: usize) -> JitFctId {
        JitFctId(data)
    }
}

/// Compiled code, by the compiler that produced it.
pub enum JitFct {
    Base(JitBaselineFct),
    Opt(JitOptFct),
}

impl JitFct {
    /// The function that the code belongs to.
    pub fn fct_id(&self) -> (id: FctId)
        requires
            self matches JitFct::Base(base) ==> base.desc.has_fct_id(),
        ensures
            id == match self {
                JitFct::Base(base) => base.desc.fct_id(),
                JitFct::Opt(opt) => opt.fct_id,
            },
    {
        match self {
            JitFct::Base(base) => base.fct_id(),
            JitFct::Opt(opt) => opt.fct_id(),
        }
    }

    /// The address of the first instruction of the function.
    pub fn fct_ptr(&self) -> (ptr: Address)
        ensures
            ptr == match self {
                JitFct::Base(base) => base.fct_start,
                JitFct::Opt(opt) => opt.fct_start,
            },
    {
        match self {
            JitFct::Base(base) => base.fct_ptr(),
            JitFct::Opt(opt) => opt.fct_ptr(),
        }
    }

    /// The address behind the last instruction of baseline code.
    pub fn fct_end(&self) -> (ptr: Address)
        requires
            self matches JitFct::Base(base) && base.wf(),
        ensures
            self matches JitFct::Base(base) && ptr.0 == base.fct_start.0 + base.fct_len,
    {
        match self {
            JitFct::Base(base) => base.fct_end(),
            JitFct::Opt(_) => Address::null(),
        }
    }

    /// The length of the machine code of baseline code, in bytes.
    pub fn fct_len(&self) -> (len: usize)
        requires
            self is Base,
        ensures
            self matches JitFct::Base(base) && len == base.fct_len,
    {
        match self {
            JitFct::Base(base) => base.fct_len(),
            JitFct::Opt(_) => 0,
        }
    }

    /// The start of the memory that baseline code occupies.
    pub fn ptr_start(&self) -> (ptr: Address)
        requires
            self is Base,
        ensures
            self matches JitFct::Base(base) && ptr == base.code_start,
    {
        match self {
            JitFct::Base(base) => base.ptr_start(),
            JitFct::Opt(_) => Address::null(),
        }
    }

    /// The end of the memory that baseline code occupies.
    pub fn ptr_end(&self) -> (ptr: Address)
        requires
            self is Base,
        ensures
            self matches JitFct::Base(base) && ptr == base.code_end,
    {
        match self {
            JitFct::Base(base) => base.ptr_end(),
            JitFct::Opt(_) => Address::null(),
        }
    }

    /// The baseline code, if that is what this is.
    pub fn to_base(&self) -> (r: Option<&JitBaselineFct>)
        ensures
            match self {
                JitFct::Base(base) => r == Some(base),
                JitFct::Opt(_) => r is None,
            },
    {
        match self {
            JitFct::Base(base) => Some(base),
            JitFct::Opt(_) => None,
        }
    }

    /// The safepoint at `offset` of baseline code, if there is one.
    pub fn gcpoint_for_offset(&self, offset: i32) -> (r: Option<&GcPoint>)
        requires
            self is Base,
        ensures
            self matches JitFct::Base(base) && match r {
                Some(point) => base.gcpoints@.contains_key(offset) && point.offsets@
                    == base.gcpoints@[offset],
                None => !base.gcpoints@.contains_key(offset),
            },
    {
        match self {
            JitFct::Base(base) => base.gcpoint_for_offset(offset),
            JitFct::Opt(_) => None,
        }
    }

    /// The comments at `offset` of baseline code, if there are any.
    pub fn get_comment(&self, offset: u32) -> (r: Option<&[String]>)
        requires
            self matches JitFct::Base(base) && base.wf(),
        ensures
            self matches JitFct::Base(base) && match r {
                Some(lines) => exists|i: int|
                    0 <= i < base.comments@.len() && #[trigger] base.comments@[i] == (
                        offset,
                        lines_text(lines@),
                    ),
                None => forall|i: int|
                    0 <= i < base.comments@.len() ==> (#[trigger] base.comments@[i]).0 != offset,
            },
    {
        match self {
            JitFct::Base(base) => base.get_comment(offset),
            JitFct::Opt(_) => None,
        }
    }
}

/// What a piece of compiled code is: the code of a function, or one of the
/// runtime's stubs.
#[derive(Clone, Copy, Debug, PartialEq, Eq, Structural)]
pub enum JitDescriptor {
    DoraFct(FctId),
    CompileStub,
    ThrowStub,
    TrapStub,
    AllocStub,
    VerifyStub,
    NativeStub(FctId),
    DoraStub,
}

impl JitDescriptor {
    /// Whether the code belongs to a function.
    pub open spec fn has_fct_id(self) -> bool {
        self is DoraFct || self is NativeStub
    }

    /// The function that the code belongs to.
    pub open spec fn fct_id(self) -> FctId
        recommends
            self.has_fct_id(),
    {
        match self {
            JitDescriptor::DoraFct(id) => id,
            JitDescriptor::NativeStub(id) => id,
            _ => FctId(0),
        }
    }
}

/// Code produced by the baseline compiler, with its tables.
///
/// The memory from `ptr_start()` to `ptr_end()` holds a constant area
/// followed at once by the machine code, which starts at `fct_start`.
pub struct JitBaselineFct {
    /// The start of the memory that the artifact occupies.
    pub code_start: Address,
    /// The end of that memory.
    pub code_end: Address,
    pub desc: JitDescriptor,
    pub throws: bool,
    /// The address of the first instruction.
    pub fct_start: Address,
    /// The length of the machine code in bytes.
    pub fct_len: usize,
    pub framesize: i32,
    pub lazy_compilation: LazyCompilationData,
    pub gcpoints: GcPoints,
    pub comments: Comments,
    pub positions: PositionTable,
    pub exception_handlers: Vec<ExHandler>,
}

/// The exception handlers `handlers`, moved from offsets into the code to
/// addresses: each bound of a try range and each catch target is taken
/// from `fct_start` on.
pub open spec fn relocated(handlers: Seq<ExHandler>, fct_start: Address) -> Seq<ExHandler> {
    Seq::new(
        handlers.len(),
        |i: int|
            ExHandler {
                try_start: (fct_start.0 + handlers[i].try_start) as usize,
                try_end: (fct_start.0 + handlers[i].try_end) as usize,
                catch: (fct_start.0 + handlers[i].catch) as usize,
                offset: handlers[i].offset,
                catch_type: handlers[i].catch_type,
            },
    )
}

/// Whether the tables of an artifact speak of places in machine code of
/// `len` bytes: the offset of every entry lies before the end of the code.
pub open spec fn in_code(
    lazy: Seq<(u32, LazyCompilationSite)>,
    gcpoints: Map<i32, Seq<i32>>,
    comments: Seq<(u32, Seq<Seq<char>>)>,
    positions: Seq<(u32, Position)>,
    len: int,
) -> bool {
    &&& forall|i: int| 0 <= i < lazy.len() ==> (#[trigger] lazy[i]).0 < len
    &&& forall|b: i32| #[trigger] gcpoints.contains_key(b) ==> 0 <= b < len
    &&& forall|i: int| 0 <= i < comments.len() ==> (#[trigger] comments[i]).0 < len
    &&& forall|i: int| 0 <= i < positions.len() ==> (#[trigger] positions[i]).0 < len
}

/// Whether every bound in `handlers`, taken from `fct_start` on, is an
/// address that the machine can hold.
pub open spec fn relocatable(handlers: Seq<ExHandler>, fct_start: int) -> bool {
    forall|i: int|
        0 <= i < handlers.len() ==> {
            &&& fct_start + (#[trigger] handlers[i]).try_start <= usize::MAX
            &&& fct_start + handlers[i].try_end <= usize::MAX
            &&& fct_start + handlers[i].catch <= usize::MAX
        }
}

impl JitBaselineFct {
    /// The tables are in order and speak of places in the code, and the
    /// code lies inside the memory of the artifact.
    pub open spec fn wf(&self) -> bool {
        &&& self.comments.wf()
        &&& self.positions.wf()
        &&& self.code_start.0 <= self.fct_start.0
        &&& self.fct_start.0 + self.fct_len == self.code_end.0
        &&& in_code(
            self.lazy_compilation@,
            self.gcpoints@,
            self.comments@,
            self.positions@,
            self.fct_len as int,
        )
    }

    /// The artifact for code that the optimising compiler has placed at
    /// `ptr`: `len` bytes of machine code, no constant area and empty tables.
    pub fn from_optimized_buffer(
        ptr: Address,
        len: usize,
        desc: JitDescriptor,
        throws: bool,
    ) -> (fct:
        JitBaselineFct)
        requires
            ptr.0 != 0,
            ptr.0 + len <= usize::MAX,
        ensures
            fct.wf(),
            fct.code_start == ptr,
            fct.code_end.0 == ptr.0 + len,
            fct.fct_start == ptr,
            fct.fct_len == len,
            fct.framesize == 0,
            fct.desc == desc,
            fct.throws == throws,
            fct.gcpoints@ == Map::<i32, Seq<i32>>::empty(),
            fct.comments@ == Seq::<(u32, Seq<Seq<char>>)>::empty(),
            fct.positions@.len() == 0,
            fct.lazy_compilation@.len() == 0,
            fct.exception_handlers@.len() == 0,
    {
        let fct = JitBaselineFct::from_buffer(
            ptr,
            0,
            len,
            LazyCompilationData::new(),
            GcPoints::new(),
            0,
            Comments::new(),
            PositionTable::new(),
            desc,
            throws,
            Vec::new(),
        );
        fct
    }

    /// The artifact for code that has been placed in memory.
    ///
    /// `ptr` is the start of the memory that was allocated for it: first
    /// the constant area of `dseg_size` bytes, then `len` bytes of machine
    /// code. The tables come with offsets into that code, none of them
    /// behind its end. The exception handlers come with offsets into the
    /// machine code and leave with addresses.
    pub fn from_buffer(
        ptr: Address,
        dseg_size: usize,
        len: usize,
        lazy_compilation: LazyCompilationData,
        gcpoints: GcPoints,
        framesize: i32,
        comments: Comments,
        positions: PositionTable,
        desc: JitDescriptor,
        throws: bool,
        exception_handlers: Vec<ExHandler>,
    ) -> (fct: JitBaselineFct)
        requires
            ptr.0 != 0,
            ptr.0 + dseg_size + len <= usize::MAX,
            comments.wf(),
            positions.wf(),
            in_code(lazy_compilation@, gcpoints@, comments@, positions@, len as int),
            relocatable(exception_handlers@, ptr.0 + dseg_size),
        ensures
            fct.wf(),
            fct.code_start == ptr,
            fct.code_end.0 == ptr.0 + dseg_size + len,
            fct.fct_start.0 == ptr.0 + dseg_size,
            fct.fct_len == len,
            fct.framesize == framesize,
            fct.desc == desc,
            fct.throws == throws,
            fct.lazy_compilation == lazy_compilation,
            fct.gcpoints@ == gcpoints@,
            fct.comments@ == comments@,
            fct.positions@ == positions@,
            fct.exception_handlers@ == relocated(exception_handlers@, fct.fct_start),
    {
        let size: usize = dseg_size + len;
        let fct_start = ptr.offset(dseg_size);
        let mut exception_handlers = exception_handlers;
        let ghost given = exception_handlers@;

        let mut i: usize = 0;
        while i < exception_handlers.len()
            invariant
                i <= given.len(),
                exception_handlers@.len() == given.len(),
                fct_start.0 == ptr.0 + dseg_size,
                relocatable(given, ptr.0 + dseg_size),
                forall|k: int| 0 <= k < i ==> exception_handlers@[k] == relocated(given, fct_start)[k],
                forall|k: int| i <= k < given.len() ==> exception_handlers@[k] == given[k],
            decreases given.len() - i,
        {
            proof {
                assert(exception_handlers@[i as int] == given[i as int]);
                assert(ptr.0 + dseg_size + given[i as int].try_start <= usize::MAX);
            }
            let handler = &exception_handlers[i];
            let moved = ExHandler {
                try_start: fct_start.offset(handler.try_start).to_usize(),
                try_end: fct_start.offset(handler.try_end).to_usize(),
                catch: fct_start.offset(handler.catch).to_usize(),
                offset: handler.offset,
                catch_type: handler.catch_type,
            };
            exception_handlers[i] = moved;
            i += 1;
        }
        proof {
            assert(exception_handlers@ =~= relocated(given, fct_start));
        }

        JitBaselineFct {
            code_start: ptr,
            code_end: ptr.offset(size),
            lazy_compilation,
            gcpoints,
            comments,
            framesize,
            fct_start,
            fct_len: len,
            positions,
            desc,
            throws,
            exception_handlers,
        }
    }

    /// The source position recorded for `offset`, if there is one.
    pub fn position_for_offset(&self, offset: u32) -> (r: Option<Position>)
        requires
            self.wf(),
        ensures
            match r {
                Some(position) => exists|i: int|
                    0 <= i < self.positions@.len() && #[trigger] self.positions@[i] == (
                        offset,
                        position,
                    ),
                None => forall|i: int|
                    0 <= i < self.positions@.len() ==> (#[trigger] self.positions@[i]).0 != offset,
            },
    {
        self.positions.get(offset)
    }

    /// The safepoint at `offset`, if there is one.
    pub fn gcpoint_for_offset(&self, offset: i32) -> (r: Option<&GcPoint>)
        ensures
            match r {
                Some(point) => self.gcpoints@.contains_key(offset) && point.offsets@
                    == self.gcpoints@[offset],
                None => !self.gcpoints@.contains_key(offset),
            },
    {
        self.gcpoints.get(offset)
    }

    /// The start of the memory that the artifact occupies.
    pub fn ptr_start(&self) -> (ptr: Address)
        ensures
            ptr == self.code_start,
    {
        self.code_start
    }

    /// The end of the memory that the artifact occupies.
    pub fn ptr_end(&self) -> (ptr: Address)
        ensures
            ptr == self.code_end,
    {
        self.code_end
    }

    /// The function that the code belongs to.
    pub fn fct_id(&self) -> (id: FctId)
        requires
            self.desc.has_fct_id(),
        ensures
            id == self.desc.fct_id(),
    {
        match self.desc {
            JitDescriptor::NativeStub(fct_id) => fct_id,
            JitDescriptor::DoraFct(fct_id) => fct_id,
            _ => FctId(0),
        }
    }

    /// The address of the first instruction.
    pub fn fct_ptr(&self) -> (ptr: Address)
        ensures
            ptr == self.fct_start,
    {
        self.fct_start
    }

    /// The address behind the last instruction.
    pub fn fct_end(&self) -> (ptr: Address)
        requires
            self.wf(),
        ensures
            ptr.0 == self.fct_start.0 + self.fct_len,
            ptr == self.code_end,
    {
        self.fct_start.offset(self.fct_len())
    }

    /// The length of the machine code in bytes.
    pub fn fct_len(&self) -> (len: usize)
        ensures
            len == self.fct_len,
    {
        self.fct_len
    }

    /// The comments at `offset`, if there are any.
    pub fn get_comment(&self, offset: u32) -> (r: Option<&[String]>)
        requires
            self.wf(),
        ensures
            match r {
                Some(lines) => exists|i: int|
                    0 <= i < self.comments@.len() && #[trigger] self.comments@[i] == (
                        offset,
                        lines_text(lines@),
                    ),
                None => forall|i: int|
                    0 <= i < self.comments@.len() ==> (#[trigger] self.comments@[i]).0 != offset,
            },
    {
        self.comments.get(offset)
    }
}

/// The safepoints of a function: for each code offset at which the
/// collector may stop the function, the frame slots that hold references.
#[derive(Debug)]
pub struct GcPoints {
    points: HashMap<i32, GcPoint>,
}

impl View for GcPoints {
    type V = Map<i32, Seq<i32>>;

    /// The frame slots of each safepoint, by code offset.
    closed spec fn view(&self) -> Map<i32, Seq<i32>> {
        Map::new(|k: i32| self.points@.contains_key(k), |k: i32| self.points@[k].offsets@)
    }
}

impl GcPoints {
    /// No safepoints.
    pub fn new() -> (points: GcPoints)
        ensures
            points@ == Map::<i32, Seq<i32>>::empty(),
    {
        let points = GcPoints { points: HashMap::new() };
        proof {
            assert(points@ =~= Map::<i32, Seq<i32>>::empty());
        }
        points
    }

    /// The safepoint at `offset`, if there is one.
    pub fn get(&self, offset: i32) -> (r: Option<&GcPoint>)
        ensures
            match r {
                Some(point) => self@.contains_key(offset) && point.offsets@ == self@[offset],
                None => !self@.contains_key(offset),
            },
    {
        self.points.get(&offset)
    }

    /// The safepoints with each offset `o` replaced by `starts[o]`, where
    /// every offset is an index below `n` into `starts`, whose numbers
    /// rise.
    pub fn relocate(self, starts: &Vec<u32>, n: usize) -> (moved: GcPoints)
        requires
            n <= starts@.len(),
            n <= i32::MAX,
            climbing(starts@),
            forall|k: int| 0 <= k < starts@.len() ==> starts@[k] <= i32::MAX,
            forall|k: i32| self@.contains_key(k) ==> 0 <= k < n,
        ensures
            forall|k: i32| #[trigger]
                self@.contains_key(k) ==> moved@.contains_key(starts@[k as int] as i32)
                    && moved@[starts@[k as int] as i32] == self@[k],
            forall|b: i32| #[trigger]
                moved@.contains_key(b) ==> exists|k: i32|
                    self@.contains_key(k) && starts@[k as int] as i32 == b,
    {
        let mut from = self;
        let mut to = GcPoints::new();
        let mut op: usize = 0;
        while op < n
            invariant
                op <= n <= starts@.len(),
                n <= i32::MAX,
                climbing(starts@),
                forall|k: int| 0 <= k < starts@.len() ==> starts@[k] <= i32::MAX,
                forall|k: i32| self@.contains_key(k) ==> 0 <= k < n,
                forall|k: i32| #[trigger]
                    from@.contains_key(k) <==> self@.contains_key(k) && k >= op,
                forall|k: i32| from@.contains_key(k) ==> #[trigger] from@[k] == self@[k],
                forall|k: i32|
                    self@.contains_key(k) && k < op ==> to@.contains_key(
                        #[trigger] starts@[k as int] as i32,
                    ) && to@[starts@[k as int] as i32] == self@[k],
                forall|b: i32| #[trigger]
                    to@.contains_key(b) ==> exists|k: i32|
                        self@.contains_key(k) && k < op && starts@[k as int] as i32 == b,
            decreases n - op,
        {
            let key: i32 = op as i32;
            let ghost from_before = from@;
            let ghost to_before = to@;
            match from.points.remove(&key) {
                Some(point) => {
                    let offset: i32 = starts[op] as i32;
                    proof {
                        assert(from_before.contains_key(key));
                        assert(point.offsets@ == from_before[key]);
                        assert(from_before[key] == self@[key]);
                        assert(from@ =~= from_before.remove(key));
                        if to_before.contains_key(offset) {
                            let k = choose|k: i32|
                                self@.contains_key(k) && k < op && starts@[k as int] as i32
                                    == offset;
                            assert(starts@[k as int] < starts@[op as int]);
                        }
                    }
                    to.insert(offset, point);
                    proof {
                        assert forall|k: i32| self@.contains_key(k) && k < op + 1 implies to@.contains_key(
                            #[trigger] starts@[k as int] as i32,
                        ) && to@[starts@[k as int] as i32] == self@[k] by {
                            if k < op {
                                assert(starts@[k as int] < starts@[op as int]);
                                assert(to_before.contains_key(starts@[k as int] as i32));
                                assert(starts@[k as int] as i32 != offset);
                            } else {
                                assert(k == key);
                                assert(to@[offset] == point.offsets@);
                            }
                        }
                        assert forall|b: i32| #[trigger] to@.contains_key(b) implies exists|k: i32|
                            self@.contains_key(k) && k < op + 1 && starts@[k as int] as i32
                                == b by {
                            if b == offset {
                                assert(self@.contains_key(key) && starts@[key as int] as i32 == b);
                            } else {
                                assert(to_before.contains_key(b));
                                let k = choose|k: i32|
                                    self@.contains_key(k) && k < op && starts@[k as int] as i32
                                        == b;
                                assert(self@.contains_key(k) && k < op + 1);
                            }
                        }
                    }
                },
                None => {
                    proof {
                        assert(!from_before.contains_key(key));
                        assert(from@ =~= from_before);
                        assert forall|b: i32| #[trigger] to@.contains_key(b) implies exists|k: i32|
                            self@.contains_key(k) && k < op + 1 && starts@[k as int] as i32
                                == b by {
                            let k = choose|k: i32|
                                self@.contains_key(k) && k < op && starts@[k as int] as i32 == b;
                            assert(self@.contains_key(k) && k < op + 1);
                        }
                    }
                },
            }
            op += 1;
        }
        to
    }

    /// Records the safepoint `gcpoint` at `offset`, where none is recorded
    /// yet.
    pub fn insert(&mut self, offset: i32, gcpoint: GcPoint)
        requires
            !old(self)@.contains_key(offset),
        ensures
            final(self)@ == old(self)@.insert(offset, gcpoint.offsets@),
    {
        self.points.insert(offset, gcpoint);
        proof {
            assert(self@ =~= old(self)@.insert(offset, gcpoint.offsets@));
        }
    }
}

/// A safepoint: the offsets of the frame slots that hold references.
#[derive(Debug)]
pub struct GcPoint {
    pub offsets: Vec<i32>,
}

/// Adds `offset` to the list `offsets` unless it is there: `seen` holds
/// what the list holds, and tells.
fn insert_offset(seen: &mut HashSet<i32>, offsets: &mut Vec<i32>, offset: i32)
    requires
        old(seen)@ == old(offsets)@.to_set(),
        old(offsets)@.no_duplicates(),
    ensures
        final(seen)@ == final(offsets)@.to_set(),
        final(offsets)@.no_duplicates(),
        final(offsets)@.to_set() == old(offsets)@.to_set().insert(offset),
        old(offsets)@.contains(offset) ==> final(offsets)@ == old(offsets)@,
        !old(offsets)@.contains(offset) ==> final(offsets)@ == old(offsets)@.push(offset),
{
    let ghost before = offsets@;
    if seen.insert(offset) {
        offsets.push(offset);
        proof {
            assert(!before.contains(offset));
            lemma_push_to_set(before, offset);
        }
    } else {
        proof {
            assert(before.contains(offset));
            assert(before.to_set().insert(offset) =~= before.to_set());
        }
    }
}

impl GcPoint {
    /// A safepoint at which no frame slot holds a reference.
    pub fn new() -> (point: GcPoint)
        ensures
            point.offsets@ == Seq::<i32>::empty(),
    {
        GcPoint { offsets: Vec::new() }
    }

    /// The safepoint whose frame slots are those of `lhs` and those of
    /// `rhs`, each listed once.
    pub fn merge(lhs: GcPoint, rhs: GcPoint) -> (point: GcPoint)
        ensures
            point.offsets@.no_duplicates(),
            point.offsets@.to_set() == lhs.offsets@.to_set().union(rhs.offsets@.to_set()),
    {
        let mut seen: HashSet<i32> = HashSet::new();
        let mut offsets: Vec<i32> = Vec::new();
        proof {
            assert(offsets@.to_set() =~= seen@);
        }

        let mut i: usize = 0;
        while i < lhs.offsets.len()
            invariant
                i <= lhs.offsets@.len(),
                seen@ == offsets@.to_set(),
                offsets@.no_duplicates(),
                offsets@.to_set() == lhs.offsets@.take(i as int).to_set(),
            decreases lhs.offsets@.len() - i,
        {
            insert_offset(&mut seen, &mut offsets, lhs.offsets[i]);
            proof {
                let s = lhs.offsets@;
                assert(s.take(i + 1) =~= s.take(i as int).push(s[i as int]));
                lemma_push_to_set(s.take(i as int), s[i as int]);
            }
            i += 1;
        }
        proof {
            assert(lhs.offsets@.take(lhs.offsets@.len() as int) =~= lhs.offsets@);
        }

        let mut j: usize = 0;
        while j < rhs.offsets.len()
            invariant
                j <= rhs.offsets@.len(),
                seen@ == offsets@.to_set(),
                offsets@.no_duplicates(),
                offsets@.to_set() == lhs.offsets@.to_set().union(
                    rhs.offsets@.take(j as int).to_set(),
                ),
            decreases rhs.offsets@.len() - j,
        {
            insert_offset(&mut seen, &mut offsets, rhs.offsets[j]);
            proof {
                let s = rhs.offsets@;
                assert(s.take(j + 1) =~= s.take(j as int).push(s[j as int]));
                lemma_push_to_set(s.take(j as int), s[j as int]);
                assert(lhs.offsets@.to_set().union(s.take(j as int).to_set()).insert(s[j as int])
                    =~= lhs.offsets@.to_set().union(s.take(j + 1).to_set()));
            }
            j += 1;
        }
        proof {
            assert(rhs.offsets@.take(rhs.offsets@.len() as int) =~= rhs.offsets@);
        }

        GcPoint::from_offsets(offsets)
    }

    /// The safepoint with the given frame slots.
    pub fn from_offsets(offsets: Vec<i32>) -> (point: GcPoint)
        ensures
            point.offsets == offsets,
    {
        GcPoint { offsets }
    }
}

/// The elements of a sequence with one more at its end are those of the
/// sequence and that one.
pub proof fn lemma_push_to_set(s: Seq<i32>, a: i32)
    ensures
        s.push(a).to_set() == s.to_set().insert(a),
{
    assert forall|x: i32| s.push(a).to_set().contains(x) <==> s.to_set().insert(a).contains(
        x,
    ) by {
        if s.push(a).contains(x) {
            let k = choose|k: int| 0 <= k < s.push(a).len() && s.push(a)[k] == x;
            if k < s.len() {
                assert(s[k] == x);
            }
        }
        if s.contains(x) {
            let k = choose|k: int| 0 <= k < s.len() && s[k] == x;
            assert(s.push(a)[k] == x);
        }
        if x == a {
            assert(s.push(a)[s.len() as int] == x);
        }
    }
    assert(s.push(a).to_set() =~= s.to_set().insert(a));
}

/// Whether the offsets of `entries` rise strictly.
pub open spec fn rising<T>(entries: Seq<(u32, T)>) -> bool {
    forall|i: int, j: int|
        0 <= i < j < entries.len() ==> (#[trigger] entries[i]).0 < (#[trigger] entries[j]).0
}

/// Whether the numbers of `starts` rise strictly.
pub open spec fn climbing(starts: Seq<u32>) -> bool {
    forall|i: int, j: int| 0 <= i < j < starts.len() ==> #[trigger] starts[i] < #[trigger] starts[j]
}

/// Whether the numbers of `starts` rise strictly.
pub fn climbs(starts: &Vec<u32>) -> (b: bool)
    ensures
        b == climbing(starts@),
{
    let mut i: usize = 1;
    while i < starts.len()
        invariant
            1 <= i,
            forall|a: int, b: int| 0 <= a < b < i && b < starts@.len() ==> #[trigger] starts@[a]
                < #[trigger] starts@[b],
        decreases starts@.len() - i,
    {
        if starts[i - 1] >= starts[i] {
            return false;
        }
        proof {
            assert forall|a: int, b: int| 0 <= a < b < i + 1 && b < starts@.len() implies #[trigger] starts@[a]
                < #[trigger] starts@[b] by {
                if b == i && a < i - 1 {
                    assert(starts@[a] < starts@[i - 1]);
                }
            }
        }
        i += 1;
    }
    true
}

/// A number in a row of numbers that rise strictly is not less than its
/// place in the row.
pub proof fn lemma_climbing_floor(starts: Seq<u32>, k: int)
    requires
        climbing(starts),
        0 <= k < starts.len(),
    ensures
        starts[k] >= k,
    decreases k,
{
    if k > 0 {
        lemma_climbing_floor(starts, k - 1);
        assert(starts[k - 1] < starts[k]);
    }
}

/// The entries `entries` with each offset `o` replaced by `starts[o]`.
pub open spec fn moved<T>(entries: Seq<(u32, T)>, starts: Seq<u32>) -> Seq<(u32, T)> {
    Seq::new(entries.len(), |i: int| (starts[entries[i].0 as int], entries[i].1))
}

/// Whether every offset of `entries` lies below `n`.
pub open spec fn below<T>(entries: Seq<(u32, T)>, n: int) -> bool {
    forall|i: int| 0 <= i < entries.len() ==> (#[trigger] entries[i]).0 < n
}

/// Whether every offset of `entries` is an index into `starts`.
pub open spec fn inside<T>(entries: Seq<(u32, T)>, starts: Seq<u32>) -> bool {
    forall|i: int| 0 <= i < entries.len() ==> (#[trigger] entries[i]).0 < starts.len()
}

/// Entries that rise still rise when their offsets are replaced by
/// numbers that rise.
pub proof fn lemma_moved_rises<T>(entries: Seq<(u32, T)>, starts: Seq<u32>)
    requires
        rising(entries),
        inside(entries, starts),
        climbing(starts),
    ensures
        rising(moved(entries, starts)),
{
    let m = moved(entries, starts);
    assert forall|i: int, j: int| 0 <= i < j < m.len() implies (#[trigger] m[i]).0 < (
    #[trigger] m[j]).0 by {
        assert(entries[i].0 < entries[j].0);
        assert(entries[j].0 < starts.len());
    }
}

/// The index of the entry of `entries` with the offset `offset`, found by
/// bisection.
fn search<T>(entries: &Vec<(u32, T)>, offset: u32) -> (r: Option<usize>)
    requires
        rising(entries@),
    ensures
        match r {
            Some(idx) => idx < entries@.len() && entries@[idx as int].0 == offset,
            None => forall|i: int| 0 <= i < entries@.len() ==> (#[trigger] entries@[i]).0 != offset,
        },
{
    let mut lo: usize = 0;
    let mut hi: usize = entries.len();
    while lo < hi
        invariant
            lo <= hi <= entries@.len(),
            rising(entries@),
            forall|i: int| 0 <= i < lo ==> (#[trigger] entries@[i]).0 < offset,
            forall|i: int| hi <= i < entries@.len() ==> (#[trigger] entries@[i]).0 > offset,
        decreases hi - lo,
    {
        let mid: usize = lo + (hi - lo) / 2;
        let key: u32 = entries[mid].0;
        if key == offset {
            return Some(mid);
        } else if key < offset {
            lo = mid + 1;
        } else {
            hi = mid;
        }
    }
    None
}

/// Comments on the code, for a listing: some lines of text for an offset.
pub struct Comments {
    entries: Vec<(u32, Vec<String>)>,
}

/// The texts of the strings of `lines`.
pub open spec fn lines_text(lines: Seq<String>) -> Seq<Seq<char>> {
    Seq::new(lines.len(), |j: int| lines[j]@)
}

/// The comments `comments` with the line `line` added at `offset`: as one
/// more line of the last entry where that has the same offset, as a new
/// entry otherwise.
pub open spec fn with_comment(
    comments: Seq<(u32, Seq<Seq<char>>)>,
    offset: u32,
    line: Seq<char>,
) -> Seq<(u32, Seq<Seq<char>>)> {
    if comments.len() > 0 && comments.last().0 == offset {
        comments.drop_last().push((offset, comments.last().1.push(line)))
    } else {
        comments.push((offset, seq![line]))
    }
}

impl View for Comments {
    type V = Seq<(u32, Seq<Seq<char>>)>;

    /// The entries by rising offset, each with the texts of its lines.
    closed spec fn view(&self) -> Seq<(u32, Seq<Seq<char>>)> {
        Seq::new(
            self.entries@.len(),
            |i: int| (self.entries@[i].0, lines_text(self.entries@[i].1@)),
        )
    }
}

impl Comments {
    /// The offsets rise strictly from entry to entry.
    pub open spec fn wf(&self) -> bool {
        rising(self@)
    }

    /// No comments.
    pub fn new() -> (comments: Comments)
        ensures
            comments@ == Seq::<(u32, Seq<Seq<char>>)>::empty(),
            comments.wf(),
    {
        let comments = Comments { entries: Vec::new() };
        proof {
            assert(comments@ =~= Seq::<(u32, Seq<Seq<char>>)>::empty());
        }
        comments
    }

    /// The comments at `offset`, if there are any.
    pub fn get(&self, offset: u32) -> (r: Option<&[String]>)
        requires
            self.wf(),
        ensures
            match r {
                Some(lines) => exists|i: int|
                    0 <= i < self@.len() && #[trigger] self@[i] == (offset, lines_text(lines@)),
                None => forall|i: int| 0 <= i < self@.len() ==> (#[trigger] self@[i]).0 != offset,
            },
    {
        proof {
            assert forall|i: int, j: int| 0 <= i < j < self.entries@.len() implies (
            #[trigger] self.entries@[i]).0 < (#[trigger] self.entries@[j]).0 by {
                assert(self@[i].0 == self.entries@[i].0);
                assert(self@[j].0 == self.entries@[j].0);
            }
        }
        let result = search(&self.entries, offset);

        match result {
            Some(idx) => {
                let lines = self.entries[idx].1.as_slice();
                proof {
                    assert(self@[idx as int] == (offset, lines_text(lines@)));
                }
                Some(lines)
            },
            None => {
                proof {
                    assert forall|i: int| 0 <= i < self@.len() implies (#[trigger] self@[i]).0
                        != offset by {
                        assert(self@[i].0 == self.entries@[i].0);
                    }
                }
                None
            },
        }
    }

    /// Whether every comment stands before the offset `n`.
    pub fn before(&self, n: usize) -> (b: bool)
        ensures
            b == below(self@, n as int),
    {
        let mut i: usize = 0;
        while i < self.entries.len()
            invariant
                i <= self.entries@.len(),
                forall|k: int| 0 <= k < i ==> (#[trigger] self@[k]).0 < n,
            decreases self.entries@.len() - i,
        {
            proof {
                assert(self@[i as int].0 == self.entries@[i as int].0);
            }
            if self.entries[i].0 as usize >= n {
                return false;
            }
            i += 1;
        }
        true
    }

    /// Whether every offset is an index into `starts`.
    pub fn fits(&self, starts: &Vec<u32>) -> (b: bool)
        ensures
            b == inside(self@, starts@),
    {
        let mut i: usize = 0;
        while i < self.entries.len()
            invariant
                i <= self.entries@.len(),
                forall|k: int| 0 <= k < i ==> (#[trigger] self@[k]).0 < starts@.len(),
            decreases self.entries@.len() - i,
        {
            proof {
                assert(self@[i as int].0 == self.entries@[i as int].0);
            }
            if self.entries[i].0 as usize >= starts.len() {
                return false;
            }
            i += 1;
        }
        true
    }

    /// Replaces each offset `o` by `starts[o]`.
    pub fn relocate(&mut self, starts: &Vec<u32>)
        requires
            old(self).wf(),
            inside(old(self)@, starts@),
            climbing(starts@),
        ensures
            final(self).wf(),
            final(self)@ == moved(old(self)@, starts@),
    {
        let ghost before = self@;
        let mut i: usize = 0;
        while i < self.entries.len()
            invariant
                i <= self.entries@.len(),
                self.entries@.len() == before.len(),
                before == old(self)@,
                inside(before, starts@),
                forall|k: int| 0 <= k < i ==> #[trigger] self@[k] == moved(before, starts@)[k],
                forall|k: int| i <= k < before.len() ==> #[trigger] self@[k] == before[k],
            decreases self.entries@.len() - i,
        {
            let ghost prior = self.entries@;
            proof {
                assert(self@[i as int] == before[i as int]);
                assert(before[i as int].0 < starts@.len());
                assert(self@[i as int].0 == self.entries@[i as int].0);
            }
            let ghost view_prior = self@;
            let offset = self.entries[i].0;
            self.entries[i].0 = starts[offset as usize];
            proof {
                assert(self.entries@ == prior.update(
                    i as int,
                    (starts@[offset as int], prior[i as int].1),
                ));
                assert forall|k: int| 0 <= k < i + 1 implies #[trigger] self@[k] == moved(
                    before,
                    starts@,
                )[k] by {
                    if k < i {
                        assert(self.entries@[k] == prior[k]);
                        assert(self@[k] == view_prior[k]);
                    } else {
                        assert(self.entries@[k].1 == prior[k].1);
                        assert(view_prior[k] == before[k]);
                        assert(self@[k].1 == view_prior[k].1);
                    }
                }
                assert forall|k: int| i + 1 <= k < before.len() implies #[trigger] self@[k]
                    == before[k] by {
                    assert(self.entries@[k] == prior[k]);
                    assert(self@[k] == view_prior[k]);
                }
            }
            i += 1;
        }
        proof {
            assert(self@ =~= moved(before, starts@));
            lemma_moved_rises(before, starts@);
        }
    }

    /// Adds `comment` at `offset`, which is not before the offset of the
    /// last entry: as one more line of that entry where the offsets are the
    /// same, as a new entry otherwise.
    pub fn insert(&mut self, offset: u32, comment: String)
        requires
            old(self).wf(),
            old(self)@.len() > 0 ==> offset >= old(self)@.last().0,
        ensures
            final(self).wf(),
            final(self)@ == with_comment(old(self)@, offset, comment@),
    {
        let n: usize = self.entries.len();
        let ghost before = self@;
        if n > 0 {
            proof {
                assert(before[n - 1].0 == self.entries@[n - 1].0);
            }
            if self.entries[n - 1].0 == offset {
                let ghost last_lines = self.entries@[n - 1].1@;
                let last = self.entries.pop().unwrap();
                let mut lines = last.1;
                lines.push(comment);
                self.entries.push((offset, lines));
                proof {
                    assert(lines_text(lines@) =~= lines_text(last_lines).push(comment@));
                    assert(self@ =~= with_comment(before, offset, comment@));
                    assert forall|i: int, j: int| 0 <= i < j < self@.len() implies (
                    #[trigger] self@[i]).0 < (#[trigger] self@[j]).0 by {
                        assert(self@[i].0 == before[i].0);
                        assert(self@[j].0 == before[j].0);
                    }
                }
                return ;
            }
        }
        let mut lines: Vec<String> = Vec::new();
        lines.push(comment);
        self.entries.push((offset, lines));
        proof {
            assert(lines_text(lines@) =~= seq![comment@]);
            assert(self@ =~= with_comment(before, offset, comment@));
            assert forall|i: int, j: int| 0 <= i < j < self@.len() implies (#[trigger] self@[i]).0
                < (#[trigger] self@[j]).0 by {
                assert(self@[i] == before[i]);
                if j < before.len() {
                    assert(self@[j] == before[j]);
                } else {
                    assert(before[i].0 <= before.last().0);
                }
            }
        }
    }
}

/// The source positions of the code: a position for an offset.
#[derive(Debug)]
pub struct PositionTable {
    entries: Vec<(u32, Position)>,
}

impl View for PositionTable {
    type V = Seq<(u32, Position)>;

    closed spec fn view(&self) -> Seq<(u32, Position)> {
        self.entries@
    }
}

impl PositionTable {
    /// The offsets rise strictly from entry to entry.
    pub open spec fn wf(&self) -> bool {
        rising(self@)
    }

    /// No positions.
    pub fn new() -> (table: PositionTable)
        ensures
            table@.len() == 0,
            table.wf(),
    {
        PositionTable { entries: Vec::new() }
    }

    /// Records `position` for `offset`, which is behind the offset of the
    /// last entry.
    pub fn insert(&mut self, offset: u32, position: Position)
        requires
            old(self).wf(),
            old(self)@.len() > 0 ==> offset > old(self)@.last().0,
        ensures
            final(self).wf(),
            final(self)@ == old(self)@.push((offset, position)),
    {
        self.entries.push((offset, position));
        proof {
            assert forall|i: int, j: int| 0 <= i < j < self@.len() implies (#[trigger] self@[i]).0
                < (#[trigger] self@[j]).0 by {
                assert(self@[i] == old(self)@[i]);
                if j < old(self)@.len() {
                    assert(self@[j] == old(self)@[j]);
                } else {
                    assert(old(self)@[i].0 <= old(self)@.last().0);
                }
            }
        }
    }

    /// Whether every offset is an index into `starts`.
    pub fn fits(&self, starts: &Vec<u32>) -> (b: bool)
        ensures
            b == inside(self@, starts@),
    {
        let mut i: usize = 0;
        while i < self.entries.len()
            invariant
                i <= self.entries@.len(),
                forall|k: int| 0 <= k < i ==> (#[trigger] self@[k]).0 < starts@.len(),
            decreases self.entries@.len() - i,
        {
            if self.entries[i].0 as usize >= starts.len() {
                return false;
            }
            i += 1;
        }
        true
    }

    /// Replaces each offset `o` by `starts[o]`.
    pub fn relocate(&mut self, starts: &Vec<u32>)
        requires
            old(self).wf(),
            inside(old(self)@, starts@),
            climbing(starts@),
        ensures
            final(self).wf(),
            final(self)@ == moved(old(self)@, starts@),
    {
        let ghost before = self@;
        let mut i: usize = 0;
        while i < self.entries.len()
            invariant
                i <= self.entries@.len(),
                self.entries@.len() == before.len(),
                before == old(self)@,
                inside(before, starts@),
                forall|k: int| 0 <= k < i ==> #[trigger] self@[k] == moved(before, starts@)[k],
                forall|k: int| i <= k < before.len() ==> #[trigger] self@[k] == before[k],
            decreases self.entries@.len() - i,
        {
            proof {
                assert(self@[i as int] == before[i as int]);
                assert(before[i as int].0 < starts@.len());
            }
            let entry = self.entries[i];
            self.entries[i] = (starts[entry.0 as usize], entry.1);
            i += 1;
        }
        proof {
            assert(self@ =~= moved(before, starts@));
            lemma_moved_rises(before, starts@);
        }
    }

    /// The position recorded for `offset`, if there is one.
    pub fn get(&self, offset: u32) -> (r: Option<Position>)
        requires
            self.wf(),
        ensures
            match r {
                Some(position) => exists|i: int|
                    0 <= i < self@.len() && #[trigger] self@[i] == (offset, position),
                None => forall|i: int| 0 <= i < self@.len() ==> (#[trigger] self@[i]).0 != offset,
            },
    {
        let result = search(&self.entries, offset);

        match result {
            Some(idx) => Some(self.entries[idx].1),
            None => None,
        }
    }
}

/// An exception handler: the range of code that it guards, where it
/// continues, where the exception is stored, and what it catches.
#[derive(Debug)]
pub struct ExHandler {
    pub try_start: usize,
    pub try_end: usize,
    pub catch: usize,
    pub offset: Option<i32>,
    pub catch_type: CatchType,
}

/// What an exception handler catches: anything, or the instances of a class.
#[derive(Copy, Clone, Debug, PartialEq, Eq, Structural)]
pub enum CatchType {
    Any,
    Class(ClassDefId),
}

/// The sites at which a call goes to a function that is compiled on its
/// first call.
#[derive(Debug)]
pub struct LazyCompilationData {
    entries: Vec<(u32, LazyCompilationSite)>,
}

impl View for LazyCompilationData {
    type V = Seq<(u32, LazyCompilationSite)>;

    closed spec fn view(&self) -> Seq<(u32, LazyCompilationSite)> {
        self.entries@
    }
}

impl LazyCompilationData {
    /// The offsets rise strictly from entry to entry.
    pub open spec fn wf(&self) -> bool {
        rising(self@)
    }

    /// No sites.
    pub fn new() -> (data: LazyCompilationData)
        ensures
            data@.len() == 0,
            data.wf(),
    {
        LazyCompilationData { entries: Vec::new() }
    }

    /// Records the site `info` at `offset`, which is behind the offset of
    /// the last entry.
    pub fn insert(&mut self, offset: u32, info: LazyCompilationSite)
        requires
            old(self).wf(),
            old(self)@.len() > 0 ==> offset > old(self)@.last().0,
        ensures
            final(self).wf(),
            final(self)@ == old(self)@.push((offset, info)),
    {
        self.entries.push((offset, info));
        proof {
            assert forall|i: int, j: int| 0 <= i < j < self@.len() implies (#[trigger] self@[i]).0
                < (#[trigger] self@[j]).0 by {
                assert(self@[i] == old(self)@[i]);
                if j < old(self)@.len() {
                    assert(self@[j] == old(self)@[j]);
                } else {
                    assert(old(self)@[i].0 <= old(self)@.last().0);
                }
            }
        }
    }

    /// The site recorded at `offset`, if there is one.
    pub fn get(&self, offset: u32) -> (r: Option<&LazyCompilationSite>)
        requires
            self.wf(),
        ensures
            match r {
                Some(site) => exists|i: int|
                    0 <= i < self@.len() && #[trigger] self@[i] == (offset, *site),
                None => forall|i: int| 0 <= i < self@.len() ==> (#[trigger] self@[i]).0 != offset,
            },
    {
        let result = search(&self.entries, offset);

        match result {
            Some(idx) => Some(&self.entries[idx].1),
            None => None,
        }
    }
}

/// A site of lazy compilation: a direct call of a function, with the
/// displacement of its entry in the constant area, or a call through the
/// virtual table, with the index of the method; both with the types that
/// stand for the type parameters of the class and of the function.
#[derive(Clone, Debug)]
pub enum LazyCompilationSite {
    Compile(FctId, i32, TypeList, TypeList),
    VirtCompile(u32, TypeList, TypeList),
}

} // verus!
