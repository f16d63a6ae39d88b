use blockless::config::{BlocklessConfig, BlocklessModule, ModuleType, StoreLimited, Stdout};
use blockless::engine::{assign_listen_fds, OutputPlan, StoreLimitsPlan};
use blockless::options::{OptLevel, OptimizeOpts};

#[test]
fn store_limits_take_table_count_over_elements() {
    let mut c = BlocklessConfig::new("a.wasm");
    c.store_limited = StoreLimited {
        max_memory_size: Some(10),
        max_table_elements: Some(5),
        max_instances: None,
        max_tables: Some(7),
        max_memories: Some(2),
        trap_on_grow_failure: Some(true),
    };
    assert_eq!(
        c.store_limits(),
        StoreLimitsPlan { memory_size: Some(10), instances: None, table_elements: Some(7), memories: Some(2), trap_on_grow_failure: Some(true) }
    );
    c.store_limited.max_tables = None;
    assert_eq!(c.store_limits().table_elements, Some(5));
}

#[test]
fn output_goes_to_file_only_under_root() {
    let mut c = BlocklessConfig::new("a.wasm");
    c.stdout(Stdout::FileName("out.log".to_string()));
    let p = c.preview1_set_stdio();
    assert!(matches!(p.stdout, OutputPlan::Inherit));
    assert!(matches!(p.stderr, OutputPlan::Inherit));
    assert!(!p.inherit_stdin);
    c.set_fs_root_path(Some("/root".to_string()));
    let p = c.preview1_set_stdio();
    assert!(matches!(p.stdout, OutputPlan::File(ref f) if f == "/root/out.log"));
    c.stdout(Stdout::Null);
    assert!(matches!(c.preview1_set_stdio().stdout, OutputPlan::Null));
}

#[test]
fn guest_args_start_with_module_name() {
    let mut c = BlocklessConfig::new("/apps/a.wasm");
    c.set_stdin_args(vec!["x".to_string(), "y".to_string()]);
    assert_eq!(c.guest_args(), Some(vec!["a.wasm".to_string(), "x".to_string(), "y".to_string()]));
    let mut c = BlocklessConfig::new("/");
    c.set_stdin_args(vec![]);
    assert_eq!(c.guest_args(), None);
}

#[test]
fn listener_descriptors() {
    let l = vec![("a".to_string(), None), ("b".to_string(), Some(9)), ("c".to_string(), None)];
    assert_eq!(assign_listen_fds(5, &l).unwrap(), vec![5, 9, 6]);
    let l = vec![("a".to_string(), Some(4))];
    assert_eq!(assign_listen_fds(5, &l), Err(4));
    assert_eq!(assign_listen_fds(3, &vec![]).unwrap(), Vec::<u32>::new());
}

#[test]
fn engine_settings() {
    let mut c = BlocklessConfig::new("a.wasm");
    let e = c.preview1_engine_config();
    assert!(e.pooling.is_none());
    assert!(e.async_support);
    assert!(!e.consume_fuel);
    assert!(e.cranelift_opt_level.is_none());
    c.limited_fuel(Some(100));
    c.set_feature_thread(true);
    let mut o = OptimizeOpts::default();
    o.opt_level = Some(OptLevel::Speed);
    o.pooling_total_memories = Some(3);
    c.opts = o;
    let e = c.preview1_engine_config();
    assert!(e.consume_fuel);
    assert!(e.wasm_threads);
    assert_eq!(e.cranelift_opt_level, Some(OptLevel::Speed));
    assert_eq!(e.pooling.unwrap().total_memories, Some(3));
}

#[test]
fn core_dumps_only_for_traps_with_a_path() {
    let mut c = BlocklessConfig::new("a.wasm");
    assert!(c.core_dump_target(true).is_none());
    c.coredump = Some("/tmp/core".to_string());
    c.add_module(BlocklessModule { module_type: ModuleType::Entry, name: String::new(), file: "m.wasm".into(), md5: String::new() });
    assert!(c.core_dump_target(false).is_none());
    assert_eq!(c.core_dump_target(true), Some(("/tmp/core".to_string(), "m.wasm".to_string())));
}

#[test]
fn runtime_log_stays_in_root() {
    let mut c = BlocklessConfig::new("a.wasm");
    c.set_fs_root_path(Some("/root".to_string()));
    let log_at = |c: &mut BlocklessConfig, l: &str| {
        c.set_runtime_logger(Some(l.to_string()));
        c.runtime_logger_path()
    };
    assert_eq!(log_at(&mut c, "runtime.log"), Some("/root/runtime.log".to_string()));
    assert_eq!(log_at(&mut c, "logs/runtime.log"), Some("/root/logs/runtime.log".to_string()));
    assert_eq!(log_at(&mut c, "/etc/x.log"), Some("/root/x.log".to_string()));
    assert_eq!(log_at(&mut c, "../x.log"), Some("/root/x.log".to_string()));
    assert_eq!(log_at(&mut c, "a/../../x.log"), Some("/root/x.log".to_string()));
    assert_eq!(log_at(&mut c, ".."), Some("/root/".to_string()));
    assert_eq!(log_at(&mut c, "/"), Some("/root/".to_string()));
    c.set_fs_root_path(None);
    assert_eq!(log_at(&mut c, "runtime.log"), None);
}

#[test]
fn output_files_stay_in_root() {
    let mut c = BlocklessConfig::new("a.wasm");
    c.set_fs_root_path(Some("/root".to_string()));
    c.stdout(Stdout::FileName("/etc/out.log".to_string()));
    assert!(matches!(c.preview1_set_stdio().stdout, OutputPlan::File(ref f) if f == "/root/out.log"));
    c.stdout(Stdout::FileName("..".to_string()));
    assert!(matches!(c.preview1_set_stdio().stdout, OutputPlan::File(ref f) if f == "/root/"));
    c.set_fs_root_path(None);
    assert!(matches!(c.preview1_set_stdio().stdout, OutputPlan::Inherit));
}
