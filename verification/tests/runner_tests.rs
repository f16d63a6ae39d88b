use blockless::runner::{call_next, CallProgress, CallStage};
use blockless::mcall::McallRegistry;
use blockless::config::{BlocklessConfigVersion, BlocklessModule, ModuleType};
use blockless::mcall::{error_json, error_response, mcall_key, parse_mcall, process_register_req, McallParseError};
use blockless::runner::{
    call_outcome, entry_candidates, error_process, export_role, find_last_entry, link_order,
    load_plan, module_source_path, run_entry, trap_code_2_exit_code, CodeHint, ExportRole,
    FailureAction, LoadPlan, McallError, Precompiled, RunFailure, TrapKind,
};

fn module(t: ModuleType, name: &str) -> BlocklessModule {
    BlocklessModule { module_type: t, name: name.to_string(), file: format!("{name}.wasm"), md5: String::new() }
}

#[test]
fn test_exit_code() {
    let rs = error_process(RunFailure::Trap(TrapKind::OutOfFuel));
    assert_eq!(rs, FailureAction::Code(1));
}

#[test]
fn failures_map_to_actions() {
    assert_eq!(error_process(RunFailure::Exit(3)), FailureAction::ExitProcess(3));
    assert_eq!(error_process(RunFailure::Trap(TrapKind::AlwaysTrapAdapter)), FailureAction::Code(13));
    assert_eq!(error_process(RunFailure::Trap(TrapKind::Other)), FailureAction::Code(-1));
    assert_eq!(error_process(RunFailure::Other), FailureAction::Code(-1));
    assert_eq!(trap_code_2_exit_code(TrapKind::UnreachableCodeReached), Some(11));
}

#[test]
fn mcall_codes_and_messages() {
    let codes: Vec<u32> = vec![
        McallError::NoError.into(),
        McallError::MemoryNotFound.into(),
        McallError::AllocError.into(),
        McallError::DeallocError.into(),
        McallError::MCallError.into(),
        McallError::Fail.into(),
        McallError::MCallMemoryNotFound.into(),
    ];
    assert_eq!(codes, vec![0, 1, 2, 3, 4, 5, 6]);
    assert_eq!(McallError::Fail.message(), "Call faill");
    assert_eq!(McallError::NoError.message(), "No Error");
}

#[test]
fn libraries_link_before_entries_in_order() {
    let ms = vec![
        module(ModuleType::Entry, "main"),
        module(ModuleType::Module, "a"),
        module(ModuleType::Entry, "main2"),
        module(ModuleType::Module, "b"),
    ];
    let o = link_order(&ms);
    let names: Vec<&str> = o.iter().map(|m| m.name.as_str()).collect();
    assert_eq!(names, vec!["a", "b", "main", "main2"]);
    assert_eq!(find_last_entry(&o), Some(3));
    assert_eq!(find_last_entry(&link_order(&vec![module(ModuleType::Module, "a")])), None);
}

#[test]
fn entry_names_by_version() {
    assert_eq!(run_entry(BlocklessConfigVersion::Version0, "main"), "_start");
    assert_eq!(run_entry(BlocklessConfigVersion::Version1, ""), "_start");
    assert_eq!(run_entry(BlocklessConfigVersion::Version1, "main"), "main");
    assert_eq!(entry_candidates(BlocklessConfigVersion::Version0, "_start"), vec!["_start", "", "_start"]);
    assert_eq!(entry_candidates(BlocklessConfigVersion::Version1, "run"), vec!["run"]);
}

#[test]
fn exports_and_steps() {
    assert_eq!(export_role("memory"), ExportRole::Memory);
    assert_eq!(export_role("_initialize"), ExportRole::Initialize);
    assert_eq!(export_role("alloc"), ExportRole::Alloc);
    assert_eq!(export_role("dealloc"), ExportRole::Dealloc);
    assert_eq!(export_role("add"), ExportRole::Callable);
    assert_eq!(call_outcome(true, true, true, true, true), McallError::NoError);
    assert_eq!(call_outcome(false, true, true, true, true), McallError::AllocError);
    assert_eq!(call_outcome(true, true, false, false, true), McallError::MCallError);
    assert_eq!(call_outcome(true, true, true, true, false), McallError::DeallocError);
    assert_eq!(module_source_path("-"), "/dev/stdin");
    assert_eq!(module_source_path("a.wasm"), "a.wasm");
    assert_eq!(load_plan(Some(Precompiled::Component), None), LoadPlan::DeserializeComponent);
    assert_eq!(load_plan(None, Some(CodeHint::Component)), LoadPlan::CompileComponent);
    assert_eq!(load_plan(None, None), LoadPlan::CompileModule);
}

#[test]
fn mcall_requests() {
    let (name, params) = parse_mcall(r#"{"mcall": "lib::add", "params": [1, 2]}"#).unwrap();
    assert_eq!(name, "lib::add");
    assert_eq!(params, "[1,2]");
    let (_, params) = parse_mcall(r#"{"mcall": "lib::add"}"#).unwrap();
    assert_eq!(params, "null");
    assert!(matches!(parse_mcall(r#"{"params": 1}"#), Err(McallParseError::NoMcall)));
    let e = parse_mcall("{").unwrap_err();
    assert!(matches!(e, McallParseError::Json(_)));
    assert_eq!(McallParseError::NoMcall.message(), "mcall node not found");
    let req = process_register_req("lib", r#"{"methods": ["add", "sub", 3]}"#).unwrap();
    assert_eq!(req.module, "lib");
    assert_eq!(req.methods, vec!["add", "sub", "3"]);
    assert!(process_register_req("lib", "[").is_err());
    assert_eq!(mcall_key("lib", "add"), "lib::add");
}

#[test]
fn error_answers() {
    assert_eq!(error_json("no mcall register."), r#"{"code":-1,"message":"no mcall register."}"#);
    assert_eq!(error_response("x", 5), b"{\"cod".to_vec());
    assert_eq!(error_response("x", 100), br#"{"code":-1,"message":"x"}"#.to_vec());
}

#[test]
fn call_protocol_steps() {
    let start = CallProgress { stage: CallStage::AllocParams, called: false, freed_params: false };
    let run = |oks: &[bool]| {
        let mut p = start;
        for ok in oks {
            p = call_next(p, *ok);
        }
        p.stage
    };
    assert_eq!(run(&[false]), CallStage::Done(McallError::AllocError));
    assert_eq!(run(&[true, false]), CallStage::FreeParamsAfterFailure);
    assert_eq!(run(&[true, false, true]), CallStage::Done(McallError::AllocError));
    assert_eq!(run(&[true, true, true, true, true]), CallStage::Done(McallError::NoError));
    assert_eq!(run(&[true, true, false, true, true]), CallStage::Done(McallError::MCallError));
    assert_eq!(run(&[true, true, true, true, false]), CallStage::Done(McallError::DeallocError));
    assert_eq!(run(&[true, true, true, true, true, false]), CallStage::Done(McallError::NoError));
}

#[test]
fn mcall_registry_records() {
    let mut r: McallRegistry<u32, &str> = McallRegistry::new();
    r.set_owner(4096, "lib".to_string());
    assert_eq!(r.owner(4096), Some("lib".to_string()));
    assert_eq!(r.owner(1), None);
    r.add_module("lib".to_string(), 7);
    assert_eq!(r.module("lib"), Some(&7));
    assert_eq!(r.module("other"), None);
    r.register("lib", "add", "first");
    r.register("lib", "sub", "second");
    r.register("lib", "add", "third");
    assert_eq!(r.caller("lib::add"), Some(&"third"));
    assert_eq!(r.caller("lib::sub"), Some(&"second"));
    assert_eq!(r.caller("lib::mul"), None);
}
