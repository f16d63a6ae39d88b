use blockless::checksum::{check_module_sum, file_md5, hex_string};
use blockless::cli::{config_source, extension, parse_envs, parse_module, parse_permission, CliCommandOpts, ConfigSource};
use blockless::cli_config::CliConfig;
use blockless::config::{BlocklessConfigVersion, BlocklessModule, ModuleType, Stdout};
use blockless::text::trim;
use blockless::wasm_config::BlocklessConfig as WasmConfig;

fn opts(input: &str) -> CliCommandOpts {
    CliCommandOpts {
        input: input.to_string(),
        debug_info: false,
        fs_root_path: None,
        runtime_logger: None,
        limited_memory: None,
        run_time: None,
        entry: None,
        limited_fuel: None,
        envs: vec![],
        permissions: vec![],
        modules: vec![],
        args: vec![],
    }
}

#[test]
fn cli_values() {
    assert_eq!(parse_envs("a=1").unwrap(), ("a".to_string(), "1".to_string()));
    assert_eq!(parse_envs("a=1=2").unwrap(), ("a".to_string(), "1=2".to_string()));
    assert_eq!(parse_envs("a").unwrap_err(), "must be of the form `key=value`");
    let m = parse_module("lib=/x/lib.wasm").unwrap();
    assert_eq!(m.name, "lib");
    assert_eq!(m.file, "/x/lib.wasm");
    assert!(matches!(m.module_type, ModuleType::Module));
    let p = parse_permission("http://www.google.com").unwrap();
    assert_eq!(p.schema, "http");
    assert_eq!(p.url, "http://www.google.com");
    assert!(parse_permission("not a url").is_err());
}

#[test]
fn options_apply_to_config() {
    let mut conf = CliConfig::new_with_wasm("test.wasm");
    let mut o = opts("test.wasm");
    o.debug_info = true;
    o.limited_fuel = Some(9);
    o.args = vec!["--x".to_string()];
    o.envs = vec![("a".to_string(), "1".to_string())];
    o.into_config(&mut conf);
    assert!(conf.0.get_debug_info());
    assert_eq!(conf.0.entry_ref(), "_start");
    assert_eq!(conf.0.fs_root_path_ref(), None);
    assert_eq!(conf.0.get_limited_fuel(), Some(9));
    assert_eq!(conf.0.stdin_args_ref(), &vec!["--x".to_string()]);
    assert_eq!(conf.0.envs_ref().len(), 1);
    assert!(matches!(conf.0.version(), BlocklessConfigVersion::Version0));

    let mut conf = CliConfig::new_with_wasm("main.wasm");
    let mut o = opts("main.wasm");
    o.entry = Some("run".to_string());
    o.modules = vec![parse_module("lib=lib.wasm").unwrap()];
    o.into_config(&mut conf);
    assert_eq!(conf.0.entry_ref(), "run");
    let ms = conf.0.modules_ref();
    assert_eq!(ms.len(), 2);
    assert!(matches!(ms[1].module_type, ModuleType::Entry));
    assert_eq!(ms[1].file, "main.wasm");
    assert!(matches!(conf.0.version(), BlocklessConfigVersion::Version1));
    assert_eq!(o_input(), "x");
}

fn o_input() -> String {
    opts("x").input_ref().to_string()
}

#[test]
fn config_sources_by_extension() {
    assert_eq!(config_source("app.CAR"), ConfigSource::Car);
    assert_eq!(config_source("/a/app.wasm"), ConfigSource::Wasm);
    assert_eq!(config_source("app.Wat"), ConfigSource::Wasm);
    assert_eq!(config_source("app.wasi"), ConfigSource::Wasm);
    assert_eq!(config_source("config.json"), ConfigSource::ConfigFile);
    assert_eq!(config_source(".wasm"), ConfigSource::ConfigFile);
    assert_eq!(config_source("noext"), ConfigSource::ConfigFile);
    assert_eq!(extension("a/b.tar.gz"), Some("gz".to_string()));
    assert_eq!(extension("a/.b"), None);
    assert_eq!(extension("a."), Some(String::new()));
}

#[test]
fn checksums() {
    assert_eq!(file_md5(b""), "d41d8cd98f00b204e9800998ecf8427e");
    assert_eq!(file_md5(b"abc"), "900150983cd24fb0d6963f7d28e17f72");
    assert_eq!(hex_string(&[0, 15, 16, 255]), "000f10ff");
    let m = BlocklessModule {
        module_type: ModuleType::Module,
        name: "m".into(),
        file: "m.wasm".into(),
        md5: "d41d8cd98f00b204e9800998ecf8427e".into(),
    };
    assert!(check_module_sum(&m, b""));
    assert!(!check_module_sum(&m, b"x"));
}

#[test]
fn single_file_config() {
    let mut c = WasmConfig::new("a.wasm");
    assert_eq!(c.wasm_file_ref(), "a.wasm");
    assert_eq!(c.root_path_ref(), None);
    assert!(matches!(c.stdout_ref(), Stdout::Inherit));
    c.root_path("/r");
    c.stdout(Stdout::FileName("o".into()));
    assert_eq!(c.root_path_ref(), Some("/r"));
    assert!(matches!(c.stdout_ref(), Stdout::FileName(f) if f == "o"));
}

#[test]
fn trims_white_space() {
    assert_eq!(trim("  a b\n\t"), "a b");
    assert_eq!(trim(" \u{3000} "), "");
    assert_eq!(trim("x"), "x");
}

#[test]
fn command_line_input_is_the_linked_entry() {
    let mut conf = CliConfig::new_with_wasm("main.wasm");
    let mut o = opts("main.wasm");
    o.modules = vec![parse_module("a=a.wasm").unwrap(), parse_module("b=b.wasm").unwrap()];
    o.into_config(&mut conf);
    let order = blockless::runner::link_order(&conf.0.modules);
    let files: Vec<&str> = order.iter().map(|m| m.file.as_str()).collect();
    assert_eq!(files, vec!["a.wasm", "b.wasm", "main.wasm"]);
    assert_eq!(blockless::runner::find_last_entry(&order), Some(2));
}

#[test]
fn main_test_load_cli_wasm_config() {
    assert_eq!(config_source("test.wasm"), ConfigSource::Wasm);
    let wasm_conf = CliConfig::new_with_wasm("test.wasm");
    let entry_ref = wasm_conf.0.entry_ref();
    assert_eq!(entry_ref, "test.wasm");
    let root_path_ref = wasm_conf.0.fs_root_path_ref();
    assert_eq!(root_path_ref, Some("."));
}

#[test]
fn test_cli_command() {
    let mut cli = opts("test");
    cli.args = vec!["--test=10".to_string()];
    assert_eq!(cli.input_ref(), "test");
    let mut conf = CliConfig::new_with_wasm("test.wasm");
    cli.into_config(&mut conf);
    assert_eq!(conf.0.stdin_args_ref().len(), 1);
    assert_eq!(conf.0.stdin_args_ref()[0], "--test=10");
}

#[test]
fn test_cli_command_env() {
    let mut cli = opts("test");
    cli.envs = vec![parse_envs("a=1").unwrap(), parse_envs("b=2").unwrap()];
    assert_eq!(cli.input_ref(), "test");
    let mut conf = CliConfig::new_with_wasm("test.wasm");
    cli.into_config(&mut conf);
    let envs = conf.0.envs_ref();
    assert_eq!(envs.len(), 2);
    assert_eq!(envs[0], ("a".to_string(), "1".to_string()));
    assert_eq!(envs[1], ("b".to_string(), "2".to_string()));
}

#[test]
fn test_cli_command_permisson() {
    let mut cli = opts("test");
    cli.permissions = vec![parse_permission("http://www.google.com").unwrap()];
    let mut conf = CliConfig::new_with_wasm("test.wasm");
    cli.into_config(&mut conf);
    let perms = conf.0.permisions_ref();
    assert_eq!(perms.len(), 1);
    assert_eq!(perms[0].schema, "http");
    assert_eq!(perms[0].url, "http://www.google.com");
}

#[test]
fn test_cli_command_input() {
    let cli = opts("test.wasm");
    assert_eq!(cli.input_ref(), "test.wasm");
    assert_eq!(config_source(cli.input_ref()), ConfigSource::Wasm);
}

#[test]
fn test_cli_command_runtime_log() {
    let mut cli = opts("test.wasm");
    cli.runtime_logger = Some("runtime.log".to_string());
    let mut conf = CliConfig::new_with_wasm("test.wasm");
    cli.into_config(&mut conf);
    assert_eq!(conf.0.runtime_logger.as_deref(), Some("runtime.log"));
}

#[test]
fn test_cli_command_fs_root_path() {
    let mut cli = opts("test.wasm");
    cli.fs_root_path = Some("/".to_string());
    let mut conf = CliConfig::new_with_wasm("test.wasm");
    cli.into_config(&mut conf);
    assert_eq!(conf.0.fs_root_path_ref(), Some("/"));
}
