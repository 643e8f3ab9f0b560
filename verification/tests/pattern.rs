use dora::compiler::codegen::{fct_pattern_match, pattern_match, should_emit_debug};
use dora::cannon::should_emit_bytecode;
use dora::gc::Address;
use dora::position::Position;
use dora::vm::{Args, Fct, FctId, VM};

fn vm(bytecode: Option<&str>, debug: Option<&str>) -> VM {
    VM {
        args: Args {
            flag_emit_bytecode: bytecode.map(|s| s.to_string()),
            flag_emit_debug: debug.map(|s| s.to_string()),
        },
        polling_page: Address(0x1000),
        class_defs: Vec::new(),
        globals: Vec::new(),
    }
}

fn fct(name: &str) -> Fct {
    Fct {
        id: FctId(1),
        name: name.to_string(),
        params: Vec::new(),
        throws: false,
        pos: Position::new(1, 1),
    }
}

#[test]
fn test_pattern_all_matches_every_name() {
    assert!(pattern_match("all", "main"));
    assert!(pattern_match("all", ""));
    assert!(pattern_match("all", "all"));
}

#[test]
fn test_pattern_lists_names() {
    assert!(pattern_match("main", "main"));
    assert!(pattern_match("foo,main,bar", "main"));
    assert!(pattern_match("foo,bar,main", "main"));
    assert!(pattern_match("main,foo", "main"));
    assert!(!pattern_match("foo,bar", "main"));
    assert!(!pattern_match("mainly", "main"));
    assert!(!pattern_match("mai", "main"));
    assert!(!pattern_match("", "main"));
    assert!(!pattern_match("all,x", "main"));
}

#[test]
fn test_pattern_empty_parts() {
    assert!(pattern_match("", ""));
    assert!(pattern_match("a,", ""));
    assert!(pattern_match(",a", ""));
    assert!(pattern_match("a,,b", ""));
    assert!(!pattern_match("a,b", ""));
}

#[test]
fn test_pattern_of_function() {
    assert!(fct_pattern_match(&fct("A::run"), "B::run,A::run"));
    assert!(!fct_pattern_match(&fct("A::run"), "run"));
}

#[test]
fn test_should_emit_flags() {
    let f = fct("main");
    assert!(!should_emit_bytecode(&vm(None, None), &f));
    assert!(!should_emit_debug(&vm(None, None), &f));
    assert!(should_emit_bytecode(&vm(Some("main"), None), &f));
    assert!(!should_emit_debug(&vm(Some("main"), None), &f));
    assert!(should_emit_debug(&vm(None, Some("all")), &f));
    assert!(!should_emit_bytecode(&vm(Some("other"), Some("all")), &f));
}
