use dora::compiler::fct::{
    climbs, CatchType, Comments, ExHandler, GcPoint, GcPoints, JitBaselineFct, JitDescriptor, JitFct,
    JitFctId, LazyCompilationData, LazyCompilationSite, PositionTable,
};
use dora::gc::Address;
use dora::opt::fct::JitOptFct;
use dora::position::Position;
use dora::ty::{BytecodeType, TypeList};
use dora::vm::{ClassDefId, FctId};

#[test]
fn test_jit_fct_id() {
    let id = JitFctId::from(17);
    assert_eq!(17, id.idx());
    assert_eq!(JitFctId(17), id);
}

#[test]
fn test_address() {
    let a = Address::from(0x1000);
    assert_eq!(0x1010, a.offset(0x10).to_usize());
    assert!(Address::null().is_null());
    assert!(!a.is_null());
    assert!(a.is_non_null());
}

#[test]
fn test_gcpoints_insert_and_get() {
    let mut points = GcPoints::new();
    assert!(points.get(0).is_none());
    points.insert(12, GcPoint::from_offsets(vec![-8, -16]));
    points.insert(40, GcPoint::new());
    assert_eq!(vec![-8, -16], points.get(12).unwrap().offsets);
    assert!(points.get(40).unwrap().offsets.is_empty());
    assert!(points.get(13).is_none());
    assert!(points.get(-12).is_none());
}

#[test]
fn test_gcpoint_merge_has_each_offset_once() {
    let lhs = GcPoint::from_offsets(vec![-8, -16, -8]);
    let rhs = GcPoint::from_offsets(vec![-24, -16, -32, -24]);
    let merged = GcPoint::merge(lhs, rhs);
    let mut offsets = merged.offsets.clone();
    offsets.sort();
    assert_eq!(vec![-32, -24, -16, -8], offsets);

    let merged = GcPoint::merge(GcPoint::new(), GcPoint::new());
    assert!(merged.offsets.is_empty());

    let merged = GcPoint::merge(GcPoint::from_offsets(vec![1]), GcPoint::new());
    assert_eq!(vec![1], merged.offsets);
}

#[test]
fn test_comments_of_one_offset_are_kept_together() {
    let mut comments = Comments::new();
    assert!(comments.get(0).is_none());
    comments.insert(0, "prolog".to_string());
    comments.insert(0, "prolog end".to_string());
    comments.insert(7, "load".to_string());
    comments.insert(30, "epilog".to_string());
    assert_eq!(
        vec!["prolog".to_string(), "prolog end".to_string()].as_slice(),
        comments.get(0).unwrap()
    );
    assert_eq!(vec!["load".to_string()].as_slice(), comments.get(7).unwrap());
    assert_eq!(vec!["epilog".to_string()].as_slice(), comments.get(30).unwrap());
    assert!(comments.get(1).is_none());
    assert!(comments.get(29).is_none());
    assert!(comments.get(31).is_none());
}

#[test]
fn test_position_table_is_searched_by_offset() {
    let mut table = PositionTable::new();
    assert!(table.get(0).is_none());
    for k in 0..100u32 {
        table.insert(3 * k + 1, Position::new(k + 1, 2 * k + 1));
    }
    for k in 0..100u32 {
        assert_eq!(Some(Position::new(k + 1, 2 * k + 1)), table.get(3 * k + 1));
        assert_eq!(None, table.get(3 * k));
        assert_eq!(None, table.get(3 * k + 2));
    }
    assert_eq!(None, table.get(u32::MAX));
}

#[test]
fn test_lazy_compilation_data() {
    let mut data = LazyCompilationData::new();
    assert!(data.get(5).is_none());
    data.insert(
        5,
        LazyCompilationSite::Compile(FctId(3), 16, TypeList::empty(), TypeList::empty()),
    );
    data.insert(
        9,
        LazyCompilationSite::VirtCompile(
            2,
            TypeList::with(vec![BytecodeType::Int]),
            TypeList::empty(),
        ),
    );
    match data.get(5) {
        Some(LazyCompilationSite::Compile(fct_id, disp, cls, fct)) => {
            assert_eq!(FctId(3), *fct_id);
            assert_eq!(16, *disp);
            assert_eq!(0, cls.len());
            assert_eq!(0, fct.len());
        }
        _ => panic!("direct call site expected"),
    }
    match data.get(9) {
        Some(LazyCompilationSite::VirtCompile(idx, cls, _)) => {
            assert_eq!(2, *idx);
            assert_eq!(1, cls.len());
        }
        _ => panic!("virtual call site expected"),
    }
    assert!(data.get(6).is_none());
    assert!(data.get(10).is_none());
}

fn handler(try_start: usize, try_end: usize, catch: usize) -> ExHandler {
    ExHandler {
        try_start,
        try_end,
        catch,
        offset: Some(-8),
        catch_type: CatchType::Class(ClassDefId(4)),
    }
}

fn baseline() -> JitBaselineFct {
    let mut gcpoints = GcPoints::new();
    gcpoints.insert(20, GcPoint::from_offsets(vec![-8]));
    let mut comments = Comments::new();
    comments.insert(0, "prolog".to_string());
    let mut positions = PositionTable::new();
    positions.insert(4, Position::new(3, 9));
    JitBaselineFct::from_buffer(
        Address(0x4000),
        0x20,
        0x100,
        LazyCompilationData::new(),
        gcpoints,
        48,
        comments,
        positions,
        JitDescriptor::DoraFct(FctId(7)),
        true,
        vec![handler(0x10, 0x30, 0x80), handler(0, 0x100, 0xf0)],
    )
}

#[test]
fn test_from_buffer_places_code_behind_constant_area() {
    let fct = baseline();
    assert_eq!(Address(0x4000), fct.ptr_start());
    assert_eq!(Address(0x4120), fct.ptr_end());
    assert_eq!(Address(0x4020), fct.fct_ptr());
    assert_eq!(Address(0x4120), fct.fct_end());
    assert_eq!(0x100, fct.fct_len());
    assert_eq!(48, fct.framesize);
    assert!(fct.throws);
    assert_eq!(FctId(7), fct.fct_id());
}

#[test]
fn test_from_buffer_relocates_exception_handlers() {
    let fct = baseline();
    assert_eq!(2, fct.exception_handlers.len());
    assert_eq!(0x4030, fct.exception_handlers[0].try_start);
    assert_eq!(0x4050, fct.exception_handlers[0].try_end);
    assert_eq!(0x40a0, fct.exception_handlers[0].catch);
    assert_eq!(Some(-8), fct.exception_handlers[0].offset);
    assert_eq!(CatchType::Class(ClassDefId(4)), fct.exception_handlers[0].catch_type);
    assert_eq!(0x4020, fct.exception_handlers[1].try_start);
    assert_eq!(0x4120, fct.exception_handlers[1].try_end);
    assert_eq!(0x4110, fct.exception_handlers[1].catch);
}

#[test]
fn test_baseline_tables_are_found_by_offset() {
    let fct = baseline();
    assert_eq!(vec![-8], fct.gcpoint_for_offset(20).unwrap().offsets);
    assert!(fct.gcpoint_for_offset(21).is_none());
    assert_eq!(Some(Position::new(3, 9)), fct.position_for_offset(4));
    assert_eq!(None, fct.position_for_offset(5));
    assert_eq!(vec!["prolog".to_string()].as_slice(), fct.get_comment(0).unwrap());
    assert!(fct.get_comment(1).is_none());
}

#[test]
fn test_from_optimized_buffer_has_no_constant_area() {
    let fct = JitBaselineFct::from_optimized_buffer(
        Address(0x9000),
        0x40,
        JitDescriptor::NativeStub(FctId(2)),
        false,
    );
    assert_eq!(Address(0x9000), fct.ptr_start());
    assert_eq!(Address(0x9000), fct.fct_ptr());
    assert_eq!(Address(0x9040), fct.ptr_end());
    assert_eq!(0x40, fct.fct_len());
    assert_eq!(0, fct.framesize);
    assert_eq!(FctId(2), fct.fct_id());
    assert!(fct.exception_handlers.is_empty());
    assert!(fct.gcpoint_for_offset(0).is_none());
    assert!(fct.get_comment(0).is_none());
    assert!(fct.position_for_offset(0).is_none());
}

#[test]
fn test_jit_fct_forwards_to_its_code() {
    let base = JitFct::Base(baseline());
    assert_eq!(FctId(7), base.fct_id());
    assert_eq!(Address(0x4020), base.fct_ptr());
    assert_eq!(Address(0x4120), base.fct_end());
    assert_eq!(0x100, base.fct_len());
    assert_eq!(Address(0x4000), base.ptr_start());
    assert_eq!(Address(0x4120), base.ptr_end());
    assert!(base.to_base().is_some());
    assert_eq!(vec![-8], base.gcpoint_for_offset(20).unwrap().offsets);
    assert!(base.get_comment(0).is_some());

    let opt = JitFct::Opt(JitOptFct { fct_id: FctId(9), fct_start: Address(0x7000) });
    assert_eq!(FctId(9), opt.fct_id());
    assert_eq!(Address(0x7000), opt.fct_ptr());
    assert!(opt.to_base().is_none());
}

#[test]
fn test_jit_opt_fct() {
    let opt = JitOptFct { fct_id: FctId(5), fct_start: Address(0x100) };
    assert_eq!(FctId(5), opt.fct_id());
    assert_eq!(Address(0x100), opt.fct_ptr());
}

#[test]
fn test_jit_fct_id_from_index() {
    let id: JitFctId = 23usize.into();
    assert_eq!(23, id.idx());
    assert_eq!(JitFctId(5), <JitFctId as From<usize>>::from(5));
}

#[test]
fn test_tables_are_relocated() {
    let starts: Vec<u32> = vec![0, 3, 4, 9, 10];
    let mut comments = Comments::new();
    comments.insert(1, "a".to_string());
    comments.insert(1, "b".to_string());
    comments.insert(4, "c".to_string());
    assert!(comments.fits(&starts));
    assert!(!comments.fits(&starts[..4].to_vec()));
    comments.relocate(&starts);
    assert_eq!(vec!["a".to_string(), "b".to_string()].as_slice(), comments.get(3).unwrap());
    assert_eq!(vec!["c".to_string()].as_slice(), comments.get(10).unwrap());
    assert!(comments.get(1).is_none());
    assert!(comments.get(4).is_none());

    let mut positions = PositionTable::new();
    positions.insert(0, Position::new(1, 1));
    positions.insert(3, Position::new(2, 1));
    assert!(positions.fits(&starts));
    assert!(!positions.fits(&starts[..3].to_vec()));
    positions.relocate(&starts);
    assert_eq!(Some(Position::new(1, 1)), positions.get(0));
    assert_eq!(Some(Position::new(2, 1)), positions.get(9));
    assert_eq!(None, positions.get(3));

    let mut points = GcPoints::new();
    points.insert(2, GcPoint::from_offsets(vec![-8]));
    points.insert(3, GcPoint::from_offsets(vec![-16]));
    let points = points.relocate(&starts, 4);
    assert_eq!(vec![-8], points.get(4).unwrap().offsets);
    assert_eq!(vec![-16], points.get(9).unwrap().offsets);
    assert!(points.get(2).is_none());
    assert!(points.get(3).is_none());
}

#[test]
fn test_climbs() {
    assert!(climbs(&Vec::new()));
    assert!(climbs(&vec![7]));
    assert!(climbs(&vec![0, 1, 5, 6]));
    assert!(!climbs(&vec![0, 1, 1, 6]));
    assert!(!climbs(&vec![0, 2, 1]));
    assert!(!climbs(&vec![3, 2]));
}
