use vstd::prelude::*;
use crate::cli_config::CliConfig;
use crate::config::{
    BlocklessConfig, BlocklessConfigVersion, BlocklessModule, ENTRY, ModuleType, group_by_schema,
    groups_view,
};
use crate::drivers::http_raw::{parse_url, url_parts_of};
use crate::exit_code::CliExitCode;
use crate::path::{file_name, path_file_name};
use crate::permission::Permission;
use crate::text::{chars_of, str_eq, string_from, string_of, to_ascii_lowercase, lower_chars};

verus! {

/// The text before and after the first `sep`, if there is one.
pub open spec fn split_first(s: Seq<char>, sep: char) -> Option<(Seq<char>, Seq<char>)>
    decreases s.len(),
{
    if s.len() == 0 {
        None
    } else if s[0] == sep {
        Some((seq![], s.subrange(1, s.len() as int)))
    } else {
        match split_first(s.subrange(1, s.len() as int), sep) {
            Some((a, b)) => Some((seq![s[0]] + a, b)),
            None => None,
        }
    }
}

proof fn lemma_split_first_at(s: Seq<char>, sep: char, k: int)
    requires
        0 <= k <= s.len(),
        forall|j: int| 0 <= j < k ==> s[j] != sep,
    ensures
        k < s.len() && s[k] == sep ==> split_first(s, sep) == Some((s.subrange(0, k), s.subrange(k + 1, s.len() as int))),
        k == s.len() ==> split_first(s, sep) is None,
    decreases k,
{
    if k > 0 {
        let t = s.subrange(1, s.len() as int);
        assert forall|j: int| 0 <= j < k - 1 implies t[j] != sep by {
            assert(t[j] == s[j + 1]);
        }
        lemma_split_first_at(t, sep, k - 1);
        if k < s.len() && s[k] == sep {
            assert(t[k - 1] == s[k]);
            assert(seq![s[0]] + t.subrange(0, k - 1) =~= s.subrange(0, k));
            assert(t.subrange(k, t.len() as int) =~= s.subrange(k + 1, s.len() as int));
        }
    } else if s.len() > 0 && s[0] == sep {
        assert(s.subrange(0, 0) =~= Seq::<char>::empty());
    }
}

/// Splits a text at its first `sep`.
fn split_once_at(s: &str, sep: char) -> (r: Option<(String, String)>)
    ensures
        match split_first(s@, sep) {
            Some((a, b)) => r matches Some(p) && p.0@ == a && p.1@ == b,
            None => r is None,
        },
{
    let v = chars_of(s);
    let mut k: usize = 0;
    while k < v.len()
        invariant
            v@ == s@,
            k <= v@.len(),
            forall|j: int| 0 <= j < k ==> v@[j] != sep,
        decreases v@.len() - k,
    {
        if v[k] == sep {
            proof {
                lemma_split_first_at(v@, sep, k as int);
            }
            let mut a: Vec<char> = Vec::new();
            let mut i: usize = 0;
            while i < k
                invariant
                    i <= k,
                    k < v@.len(),
                    a@ == v@.subrange(0, i as int),
                decreases k - i,
            {
                a.push(v[i]);
                i = i + 1;
                assert(a@ =~= v@.subrange(0, i as int));
            }
            let mut b: Vec<char> = Vec::new();
            let mut j: usize = k + 1;
            while j < v.len()
                invariant
                    k + 1 <= j <= v@.len(),
                    b@ == v@.subrange(k + 1, j as int),
                decreases v@.len() - j,
            {
                b.push(v[j]);
                j = j + 1;
                assert(b@ =~= v@.subrange(k + 1, j as int));
            }
            return Some((string_of(&a), string_of(&b)));
        }
        k = k + 1;
    }
    proof {
        lemma_split_first_at(v@, sep, k as int);
    }
    None
}

/// Reads an environment variable given as `key=value`, split at the first
/// `=`.
pub fn parse_envs(envs: &str) -> (r: Result<(String, String), String>)
    ensures
        match split_first(envs@, '=') {
            Some((k, v)) => r matches Ok(p) && p.0@ == k && p.1@ == v,
            None => r matches Err(m) && m@ == "must be of the form `key=value`"@,
        },
{
    match split_once_at(envs, '=') {
        Some(p) => Ok(p),
        None => Err(string_from("must be of the form `key=value`")),
    }
}

/// Reads a library module given as `name=file`, split at the first `=`.
pub fn parse_module(module: &str) -> (r: Result<BlocklessModule, String>)
    requires
        split_first(module@, '=') is Some,
    ensures
        r matches Ok(m) && m.module_type == ModuleType::Module && (m.name@, m.file@) == split_first(module@, '=')->0
            && m.md5@.len() == 0,
{
    let (name, file) = match split_once_at(module, '=') {
        Some(p) => p,
        None => (String::new(), String::new()),
    };
    Ok(BlocklessModule { module_type: ModuleType::Module, name, file, md5: String::new() })
}

/// Reads a permission given as a URL: its schema is the URL's scheme; the
/// message of the URL parser when it does not read.
pub fn parse_permission(permsion: &str) -> (r: Result<Permission, String>)
    ensures
        match url_parts_of(permsion@) {
            Ok(p) => r matches Ok(x) && x.schema@ == p.0 && x.url@ == permsion@,
            Err(e) => r matches Err(m) && m@ == e,
        },
{
    let url = match parse_url(permsion) {
        Ok(u) => u,
        Err(e) => return Err(e),
    };
    Ok(Permission { schema: url.scheme, url: string_from(permsion) })
}

/// The options of the command line.
pub struct CliCommandOpts {
    pub input: String,
    pub debug_info: bool,
    pub fs_root_path: Option<String>,
    pub runtime_logger: Option<String>,
    pub limited_memory: Option<u64>,
    pub run_time: Option<u64>,
    pub entry: Option<String>,
    pub limited_fuel: Option<u64>,
    pub envs: Vec<(String, String)>,
    pub permissions: Vec<Permission>,
    pub modules: Vec<BlocklessModule>,
    pub args: Vec<String>,
}

impl CliCommandOpts {
    /// The input file: a wasm file, a configuration or a car file.
    pub fn input_ref(&self) -> (r: &str)
        ensures
            r@ == self.input@,
    {
        self.input.as_str()
    }

    /// Applies the options to a configuration: the debug flag, the entry
    /// (`_start` unless given), the root directory, the runtime log, the
    /// limits, the arguments, the permissions and the environment; with
    /// library modules, the modules followed by the input as entry module,
    /// read as a multi-module configuration.
    pub fn into_config(self, conf: &mut CliConfig)
        ensures
            final(conf).0.debug_info == self.debug_info,
            final(conf).0.entry@ == match self.entry {
                Some(e) => e@,
                None => ENTRY@,
            },
            final(conf).0.fs_root_path == self.fs_root_path,
            final(conf).0.runtime_logger == self.runtime_logger,
            final(conf).0.store_limited.max_memories == match self.limited_memory {
                Some(x) => Some(x as usize),
                None => None,
            },
            final(conf).0.limited_fuel == self.limited_fuel,
            final(conf).0.run_time == self.run_time,
            final(conf).0.stdin_args == self.args,
            final(conf).0.permisions == self.permissions,
            groups_view(final(conf).0.group_permisions@) == group_by_schema(self.permissions@),
            final(conf).0.envs == self.envs,
            self.modules@.len() > 0 ==> {
                &&& final(conf).0.modules@.len() == self.modules@.len() + 1
                &&& final(conf).0.modules@.subrange(0, self.modules@.len() as int) == self.modules@
                &&& final(conf).0.modules@.last().module_type == ModuleType::Entry
                &&& final(conf).0.modules@.last().name@.len() == 0
                &&& final(conf).0.modules@.last().file == self.input
                &&& final(conf).0.modules@.last().md5@.len() == 0
                &&& final(conf).0.version == BlocklessConfigVersion::Version1
            },
            self.modules@.len() == 0 ==> final(conf).0.modules == old(conf).0.modules
                && final(conf).0.version == old(conf).0.version,
            final(conf).0.stdio == old(conf).0.stdio,
            final(conf).0.opts == old(conf).0.opts,
            final(conf).0.drivers == old(conf).0.drivers,
            final(conf).0.drivers_root_path == old(conf).0.drivers_root_path,
            final(conf).0.runtime_logger_level == old(conf).0.runtime_logger_level,
    {
        conf.0.set_debug_info(self.debug_info);
        let entry = match self.entry {
            Some(e) => e,
            None => string_from(ENTRY),
        };
        conf.0.set_entry(entry);
        conf.0.set_fs_root_path(self.fs_root_path);
        conf.0.set_runtime_logger(self.runtime_logger);
        conf.0.limited_memory(self.limited_memory);
        conf.0.limited_fuel(self.limited_fuel);
        conf.0.set_run_time(self.run_time);
        conf.0.set_stdin_args(self.args);
        conf.0.set_permisions(self.permissions);
        conf.0.set_envs(self.envs);
        let mut modules = self.modules;
        if modules.len() > 0 {
            let ghost given = modules@;
            modules.push(BlocklessModule {
                module_type: ModuleType::Entry,
                name: String::new(),
                file: self.input,
                md5: String::new(),
            });
            assert(modules@.subrange(0, given.len() as int) =~= given);
            conf.0.set_modules(modules);
            conf.0.set_version(BlocklessConfigVersion::Version1);
        }
    }
}

/// Where the configuration of a run comes from.
#[derive(Clone, Copy, Debug, PartialEq, Eq, Structural)]
pub enum ConfigSource {
    /// A car archive holding the configuration and the files.
    Car,
    /// A wasm file run on its own.
    Wasm,
    /// A configuration file.
    ConfigFile,
}

/// The position of the last `.` of a name, if it has one.
pub open spec fn last_dot(n: Seq<char>) -> Option<int>
    decreases n.len(),
{
    if n.len() == 0 {
        None
    } else if n.last() == '.' {
        Some(n.len() - 1)
    } else {
        last_dot(n.drop_last())
    }
}

/// The extension of a path: what follows the last `.` of its file name,
/// unless that `.` begins the name.
pub open spec fn extension_of(path: Seq<char>) -> Option<Seq<char>> {
    match file_name(path) {
        None => None,
        Some(n) => match last_dot(n) {
            None => None,
            Some(k) => if k == 0 {
                None
            } else {
                Some(n.subrange(k + 1, n.len() as int))
            },
        },
    }
}

/// Where a configuration comes from, by the input's extension in any
/// ASCII case: `car`, then `wasm`, `wasi` or `wat`, otherwise a
/// configuration file.
pub open spec fn config_source_of(path: Seq<char>) -> ConfigSource {
    match extension_of(path) {
        Some(e) => if lower_chars(e) == "car"@ {
            ConfigSource::Car
        } else if lower_chars(e) == "wasm"@ || lower_chars(e) == "wasi"@ || lower_chars(e) == "wat"@ {
            ConfigSource::Wasm
        } else {
            ConfigSource::ConfigFile
        },
        None => ConfigSource::ConfigFile,
    }
}

/// The extension of a path.
pub fn extension(path: &str) -> (r: Option<String>)
    ensures
        match extension_of(path@) {
            Some(e) => r matches Some(x) && x@ == e,
            None => r is None,
        },
{
    let name = match path_file_name(path) {
        Some(n) => n,
        None => return None,
    };
    let v = chars_of(name.as_str());
    let mut k: usize = v.len();
    assert(v@.subrange(0, k as int) =~= v@);
    while k > 0
        invariant
            v@ == name@,
            k <= v@.len(),
            last_dot(v@) == last_dot(v@.subrange(0, k as int)),
        ensures
            k <= v@.len(),
            last_dot(v@) == last_dot(v@.subrange(0, k as int)),
            k > 0 ==> v@[k - 1] == '.',
        decreases k,
    {
        let ghost sub = v@.subrange(0, k as int);
        assert(sub.last() == v@[k - 1]);
        if v[k - 1] == '.' {
            break;
        }
        assert(sub.drop_last() =~= v@.subrange(0, k - 1));
        k = k - 1;
    }
    if k > 0 {
        let ghost sub = v@.subrange(0, k as int);
        assert(sub.last() == v@[k - 1]);
        assert(last_dot(sub) == Some(k - 1));
    }
    if k <= 1 {
        if k == 0 {
            assert(v@.subrange(0, 0) =~= Seq::<char>::empty());
        }
        return None;
    }
    let mut e: Vec<char> = Vec::new();
    let mut j: usize = k;
    while j < v.len()
        invariant
            k <= j <= v@.len(),
            e@ == v@.subrange(k as int, j as int),
        decreases v@.len() - j,
    {
        e.push(v[j]);
        j = j + 1;
        assert(e@ =~= v@.subrange(k as int, j as int));
    }
    Some(string_of(&e))
}

/// Where the configuration of a run comes from.
pub fn config_source(file_path: &str) -> (r: ConfigSource)
    ensures
        r == config_source_of(file_path@),
{
    match extension(file_path) {
        Some(ext) => {
            let e = to_ascii_lowercase(ext.as_str());
            if str_eq(e.as_str(), "car") {
                ConfigSource::Car
            } else if str_eq(e.as_str(), "wasm") || str_eq(e.as_str(), "wasi") || str_eq(e.as_str(), "wat") {
                ConfigSource::Wasm
            } else {
                ConfigSource::ConfigFile
            }
        },
        None => ConfigSource::ConfigFile,
    }
}

} // verus!
