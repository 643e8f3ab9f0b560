//! The baseline compiler for register bytecode.
use vstd::prelude::*;

use crate::bytecode::dumper::{dump, trace_text};
use crate::bytecode::BytecodeFunction;
use crate::cannon::codegen::CannonCodeGen;
use crate::cannon::model::{generated, CodegenError, MAX_PARAMS};
use crate::masm::AssemblyView;
use crate::compiler::codegen::{debug_wanted, fct_pattern_match, pattern_matches};
use crate::masm::{Assembly, BaselineAssembler};
use crate::ty::TypeList;
use crate::vm::{Fct, VM};

pub mod codegen;
pub mod defect;
pub mod laws;
pub mod machine;
pub mod model;

verus! {

/// What the compilation of a function yields: the trace of its bytecode
/// where the settings ask for one, and its code.
pub struct Compilation {
    pub trace: Option<String>,
    pub code: Assembly,
}

/// Whether the settings ask for a trace of the bytecode of `fct`.
pub open spec fn trace_wanted(vm: &VM, fct: &Fct) -> bool {
    match vm.args.flag_emit_bytecode {
        Some(names) => pattern_matches(names@, fct.name@),
        None => false,
    }
}

/// Compiles the function `fct`, whose bytecode is `bytecode` and has no
/// defect: [`first_defect`](crate::cannon::defect::first_defect) finds
/// none in it.
pub fn compile(
    vm: &VM,
    fct: &Fct,
    bytecode: &BytecodeFunction,
    cls_type_params: &TypeList,
    fct_type_params: &TypeList,
) -> (r: Compilation)
    requires
        bytecode.wf(),
        fct.params@.len() <= MAX_PARAMS,
        generated(debug_wanted(vm, fct), vm, fct, bytecode) is Ok,
    ensures
        trace_wanted(vm, fct) ==> (r.trace matches Some(trace) && trace@ == trace_text(bytecode)),
        !trace_wanted(vm, fct) ==> r.trace is None,
        generated(debug_wanted(vm, fct), vm, fct, bytecode) == Ok::<AssemblyView, CodegenError>(
            r.code@,
        ),
{
    let trace = if should_emit_bytecode(vm, fct) {
        Some(dump(bytecode))
    } else {
        None
    };

    let code = CannonCodeGen::new(
        vm,
        fct,
        BaselineAssembler::new(),
        bytecode,
        cls_type_params,
        fct_type_params,
    ).generate();
    Compilation { trace, code }
}

/// Whether the settings ask for a trace of the bytecode of `fct`.
pub fn should_emit_bytecode(vm: &VM, fct: &Fct) -> (b: bool)
    ensures
        b == trace_wanted(vm, fct),
{
    match &vm.args.flag_emit_bytecode {
        Some(dbg_names) => fct_pattern_match(fct, dbg_names.as_str()),
        None => false,
    }
}

} // verus!
