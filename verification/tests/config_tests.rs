use blockless::options::{BlsOptions, OptimizeOpts};
use blockless::cli_config::CliConfig;
use blockless::config::{
    BlocklessConfig, BlocklessConfigVersion, LoggerLevel, ModuleType, Stderr, Stdin, Stdout,
};
use blockless::permission::Permission;
use blockless::v86config::V86config;
use std::path::PathBuf;

#[test]
fn test_config() {
    let mut config = BlocklessConfig::new("test");
    assert!(matches!(config.version(), BlocklessConfigVersion::Version0));
    let permisions = vec![
        Permission {
            url: "/test1".to_string(),
            schema: "http".to_string(),
        },
        Permission {
            url: "/test2".to_string(),
            schema: "http".to_string(),
        },
    ];
    config.set_permisions(permisions);
    let grps = config.group_permisions_get("http");
    if let Some(grps) = grps {
        assert_eq!(grps.len(), 2);
    } else {
        unreachable!("should not reach.");
    }
    let root = Some("/root".into());
    config.set_fs_root_path(root);
    let test = Some("test.log".into());
    config.set_runtime_logger(test);
    let result = PathBuf::new().join("/root").join("test.log");
    assert_eq!(PathBuf::from(config.runtime_logger_path().unwrap()), result);

    assert_eq!(config.entry_ref(), "test");
    config.set_entry("_start".into());
    assert_eq!(config.entry_ref(), "_start");
}

#[test]
fn test_version_convert() {
    let _version0: BlocklessConfigVersion = 0.into();
    let matched = matches!(BlocklessConfigVersion::Version0, _version0);
    assert!(matched);

    let _version1: BlocklessConfigVersion = 1.into();
    let matched = matches!(BlocklessConfigVersion::Version1, _version1);
    assert!(matched);
}

#[test]
fn test_logger_level_convert() {
    let ty = "debug".into();
    assert!(matches!(ty, LoggerLevel::DEBUG));

    let ty = "info".into();
    assert!(matches!(ty, LoggerLevel::INFO));

    let ty = "error".into();
    assert!(matches!(ty, LoggerLevel::ERROR));

    let ty = "warn".into();
    assert!(matches!(ty, LoggerLevel::WARN));

    let ty = "trace".into();
    assert!(matches!(ty, LoggerLevel::TRACE));
}

#[test]
fn test_defaut_logger_file() {
    let filen = CliConfig::defaut_logger_file("test.wasm");
    let filen = filen.unwrap();
    assert_eq!(filen, "test".to_string());

    let filen = CliConfig::defaut_logger_file("test");
    let filen = filen.unwrap();
    assert_eq!(filen, "runtime".to_string());
}

#[test]
fn test_new_with_wasm() {
    let cliconf = CliConfig::new_with_wasm("test.wasm");
    let current = Some(".");
    let root_path = cliconf.0.fs_root_path_ref();
    assert_eq!(root_path, current);
    let config_logger_ref = cliconf.0.runtime_logger_path();
    let logger_ref: Option<String> = Some("./test.log".into());
    assert_eq!(logger_ref, config_logger_ref);

    let logger_level = cliconf.0.get_runtime_logger_level();
    assert!(matches!(logger_level, LoggerLevel::WARN));
}

#[test]
fn test_load_config() {
    let data = r#"{
        "version": 1,
        "fs_root_path": "$ENV_ROOT_PATH", 
        "drivers_root_path": "$ENV_ROOT_PATH/drivers", 
        "runtime_logger": "runtime.log", 
        "limited_fuel": 200000000,
        "limited_memory": 30,
        "debug_info": false,
        "entry": "release",
        "modules": [
            {
                "file": "$ROOT/lib.wasm",
                "name": "lib",
                "type": "module",
                "md5": "d41d8cd98f00b204e9800998ecf8427e"
            },
            {
                "file": "$ROOT/release.wasm",
                "name": "release",
                "type": "entry",
                "md5": "d41d8cd98f00b204e9800998ecf8427e"
            }
        ],
        "permissions": [
            "http://httpbin.org/anything",
            "file://a.go"
        ]
    }"#
    .to_string();

    let config = CliConfig::from_data(data, None, Some("target".to_string())).unwrap();
    assert!(matches!(config.0.version(), BlocklessConfigVersion::Version1));
    assert_eq!(config.0.modules_ref().len(), 2);
    assert_eq!(config.0.fs_root_path_ref(), Some("target"));
    assert_eq!(config.0.drivers_root_path_ref(), Some("target/drivers"));
    let modules = config.0.modules_ref();
    assert_eq!(modules[0].file, "target//lib.wasm");
    assert!(matches!(modules[0].module_type, ModuleType::Module));
    assert!(matches!(modules[1].module_type, ModuleType::Entry));
    assert_eq!(config.0.permisions_ref().len(), 2);
    assert_eq!(config.0.permisions_ref()[0].schema, "http:");
    assert_eq!(config.0.permisions_ref()[1].schema, "file:");
}

#[test]
fn test_from_json() {
    let data = r#"{
        "fs_root_path": "/", 
        "drivers_root_path": "/drivers", 
        "runtime_logger": "runtime.log", 
        "limited_fuel": 200000000,
        "limited_memory": 30,
        "debug_info": false,
        "entry": "lib.wasm",
        "permissions": [
            "http://httpbin.org/anything",
            "file://a.go"
        ]
    }"#
    .to_string();
    let config = CliConfig::from_json_string(data).unwrap();
    assert!(matches!(config.0.version(), BlocklessConfigVersion::Version0));
    assert_eq!(config.0.get_limited_memory(), Some(30));
    assert_eq!(config.0.get_limited_fuel(), Some(200000000));
}

#[test]
fn test_stdin_from_json() {
    let bls_config = CliConfig::from_json_string(
        r#"{
            "fs_root_path": "/", 
            "drivers_root_path": "/drivers", 
            "runtime_logger": "runtime.log", 
            "limited_fuel": 200000000,
            "limited_memory": 30,
            "debug_info": false,
            "entry": "lib.wasm",
            "permissions": []
        }"#
        .to_string(),
    )
    .unwrap()
    .0;
    assert_eq!(bls_config.fix_stdin_ref(), None);

    let bls_config = CliConfig::from_json_string(
        r#"{
            "stdin": "test",
            "fs_root_path": "/", 
            "drivers_root_path": "/drivers", 
            "runtime_logger": "runtime.log", 
            "limited_fuel": 200000000,
            "limited_memory": 30,
            "debug_info": false,
            "entry": "lib.wasm",
            "permissions": []
        }"#
        .to_string(),
    )
    .unwrap()
    .0;
    assert_eq!(bls_config.fix_stdin_ref(), Some("test"));
}

#[test]
fn config_reads_streams_and_levels() {
    let c = CliConfig::from_json_string(
        r#"{"entry": "a.wasm", "stdout": "null", "stderr": "err.log", "stdin": "inherit",
            "runtime_logger_level": "debug", "run_time": 5, "drivers": [
            {"schema": "s3", "path": "/lib/s3.so"}, {"schema": "x"}, 3]}"#
            .to_string(),
    )
    .unwrap()
    .0;
    assert!(matches!(c.stdout_ref(), Stdout::Null));
    assert!(matches!(c.stderr_ref(), Stderr::FileName(f) if f == "err.log"));
    assert!(matches!(c.stdio.stdin, Stdin::Inherit));
    assert!(matches!(c.get_runtime_logger_level(), LoggerLevel::DEBUG));
    assert_eq!(c.run_time(), Some(5));
    assert_eq!(c.drivers_ref().len(), 1);
    assert_eq!(c.drivers_ref()[0].schema(), "s3");
    assert_eq!(c.drivers_ref()[0].path(), "/lib/s3.so");
}

#[test]
fn config_refuses_bad_text_and_options() {
    assert!(CliConfig::from_json_string("{".to_string()).is_err());
    let r = CliConfig::from_json_string(r#"{"entry": "a", "optimize": {"opt_level": "s"}}"#.to_string());
    assert!(r.is_err());
    let r = CliConfig::from_json_string(r#"{"entry": "a", "optimize": {}}"#.to_string());
    assert!(r.is_ok());
    assert!(CliConfig::checked_from_data(r#"{"fs_root_path": "/"}"#.to_string(), None, None).is_none());
    assert!(CliConfig::checked_from_data(r#"{"entry": "a", "version": 3}"#.to_string(), None, None).is_none());
    assert!(CliConfig::checked_from_data(r#"{"entry": "a"}"#.to_string(), None, None).is_some());
}

#[test]
fn test_v86_config() {
    let data = r#"{
        "fs_root_path": "$ENV_ROOT_PATH", 
        "dynamic_lib_path": "$ROOT/test.so"
    }
    "#;
    let cfg = V86config::from_data(data.into(), Some("1".into()), Some("/temp/v86".into()));
    let cfg = cfg.unwrap();
    assert_eq!(&cfg.dynamic_lib_path, "/temp/v86/1/test.so");
}

#[test]
fn test_v86_config2() {
    let data = r#"{
        "fs_root_path": "$ENV_ROOT_PATH", 
        "dynamic_lib_path": "$ROOT/test.so"
    }
    "#;
    let cfg = V86config::from_data(data.into(), None, Some("/temp/v86".into()));
    let cfg = cfg.unwrap();
    assert_eq!(&cfg.dynamic_lib_path, "/temp/v86//test.so");
}

#[test]
fn permissions_grouped_by_schema() {
    let mut config = BlocklessConfig::new("test");
    let perm = |schema: &str, url: &str| Permission { schema: schema.to_string(), url: url.to_string() };
    config.set_permisions(vec![
        perm("http", "http://a"),
        perm("file", "file://x"),
        perm("http", "http://b"),
    ]);
    let http: Vec<&str> = config.group_permisions_get("http").unwrap().iter().map(|p| p.url.as_str()).collect();
    assert_eq!(http, vec!["http://a", "http://b"]);
    let file: Vec<&str> = config.group_permisions_get("file").unwrap().iter().map(|p| p.url.as_str()).collect();
    assert_eq!(file, vec!["file://x"]);
    assert!(config.group_permisions_get("ftp").is_none());
    assert!(config.resource_permission("HTTP://A/path"));
    assert!(!config.resource_permission("ftp://a"));
}

#[test]
fn option_descriptions() {
    let d = OptimizeOpts::options();
    assert_eq!(d.len(), 39);
    assert_eq!(d[0].opt_name, "opt_level");
    assert_eq!(d[0].opt_docs, " Optimization level of generated code (0-2, s; default: 2)\n");
    assert_eq!(d[38].opt_name, "dynamic_memory_reserved_for_growth");
}

#[test]
fn v86_file_and_data_agree() {
    let data = r#"{"fs_root_path": "$ROOT", "dynamic_lib_path": "$ENV_ROOT_PATH/v86.so"}"#;
    let a = V86config::from_file(data.into(), Some("c1".into()), Some("/v".into())).unwrap();
    let b = V86config::from_data(data.into(), Some("c1".into()), Some("/v".into())).unwrap();
    assert_eq!(a.fs_root_path, b.fs_root_path);
    assert_eq!(a.dynamic_lib_path, b.dynamic_lib_path);
    assert_eq!(a.dynamic_lib_path, "/v/v86.so");
    assert!(V86config::from_file("{".into(), None, None).is_err());
    assert!(V86config::from_data("{".into(), None, None).is_err());
}
