use vstd::prelude::*;
use vstd::utf8::encode_utf8;
use crate::config::{
    BlocklessConfig, BlocklessConfigVersion, BlocklessModule, DriverConfig, LoggerLevel,
    ModuleType, Stderr, Stdin, Stdio, Stdout, StoreLimited, group_by_schema, groups_view,
    logger_level_from_str, spec_logger_level, spec_module_type,
};
use crate::json::{
    Json, JsonView, as_bool, as_text, as_u64, as_usize, bool_of, field, json_dump, json_parse, json_text,
    members, members_of, opt_val, parsed_json, text_of, u64_of, usize_of,
};
use crate::options::{OptimizeOpts, OptionError, configured};
use crate::multiaddr::{MultiAddr, all_tokens, path_values};
use crate::path::{file_name, join, path_file_name, path_join};
use crate::permission::Permission;
use crate::text::{ascii_chars, chars_of, replace_all, replace_str, str_eq, string_from, string_of};

verus! {

/// The text of an optional string.
pub open spec fn opt_view(o: Option<String>) -> Option<Seq<char>> {
    match o {
        Some(s) => Some(s@),
        None => None,
    }
}

/// A variable of a configuration text and the text it stands for.
pub struct EnvVar {
    pub name: String,
    pub value: String,
}

/// The variables of a configuration text: none without a root directory
/// for environments; otherwise `$ROOT`, the environment of `cid` under that
/// directory, then `$ENV_ROOT_PATH`, the directory itself.
pub open spec fn env_vars_of(env_root: Option<Seq<char>>, cid: Option<Seq<char>>) -> Seq<(Seq<char>, Seq<char>)> {
    match env_root {
        None => seq![],
        Some(root) => {
            let sub = match cid {
                Some(c) => c,
                None => seq![],
            };
            seq![("$ROOT"@, join(root, sub)), ("$ENV_ROOT_PATH"@, root)]
        },
    }
}

/// The text with each variable replaced in turn by its value.
pub open spec fn replaced(s: Seq<char>, vars: Seq<(Seq<char>, Seq<char>)>) -> Seq<char>
    decreases vars.len(),
{
    if vars.len() == 0 {
        s
    } else {
        replaced(replace_all(s, vars[0].0, vars[0].1), vars.subrange(1, vars.len() as int))
    }
}

/// The variables of a configuration text, given the root directory for
/// environments (`ENV_ROOT_PATH`, if set) and the environment's id.
pub fn env_variables(env_root: Option<&str>, cid: Option<String>) -> (r: Vec<EnvVar>)
    ensures
        r@.map_values(|v: EnvVar| (v.name@, v.value@)) == env_vars_of(
            match env_root {
                Some(e) => Some(e@),
                None => None,
            },
            opt_view(cid),
        ),
{
    let mut vars: Vec<EnvVar> = Vec::new();
    match env_root {
        Some(root) => {
            let sub = match cid {
                Some(c) => c,
                None => String::new(),
            };
            let path = path_join(root, sub.as_str());
            vars.push(EnvVar { name: string_from("$ROOT"), value: path });
            vars.push(EnvVar { name: string_from("$ENV_ROOT_PATH"), value: string_from(root) });
            proof {
                let ghost e = env_vars_of(Some(root@), opt_view(cid));
                assert(vars@.map_values(|v: EnvVar| (v.name@, v.value@)) =~= e);
            }
        },
        None => {
            assert(vars@.map_values(|v: EnvVar| (v.name@, v.value@)) =~= Seq::<(Seq<char>, Seq<char>)>::empty());
        },
    }
    vars
}

/// Replaces the variables of a configuration text by their values: `$ROOT`
/// first, then `$ENV_ROOT_PATH`.
pub fn replace_vars(json_str: String, cid: Option<String>, env_root: Option<String>) -> (r: String)
    ensures
        r@ == replaced(json_str@, env_vars_of(opt_view(env_root), opt_view(cid))),
{
    let root_ref: Option<&str> = match &env_root {
        Some(e) => Some(e.as_str()),
        None => None,
    };
    let vars = env_variables(root_ref, cid);
    let ghost all = vars@.map_values(|v: EnvVar| (v.name@, v.value@));
    proof {
        reveal_strlit("$ROOT");
        reveal_strlit("$ENV_ROOT_PATH");
    }
    let mut raw_json = json_str;
    let mut i: usize = 0;
    assert(all.subrange(0, all.len() as int) =~= all);
    while i < vars.len()
        invariant
            i <= vars@.len(),
            all == vars@.map_values(|v: EnvVar| (v.name@, v.value@)),
            forall|k: int| 0 <= k < all.len() ==> (#[trigger] all[k]).0.len() > 0,
            replaced(json_str@, all) == replaced(raw_json@, all.subrange(i as int, all.len() as int)),
        decreases vars@.len() - i,
    {
        let ghost rest = all.subrange(i as int, all.len() as int);
        assert(rest.subrange(1, rest.len() as int) =~= all.subrange(i + 1, all.len() as int));
        assert(rest[0] == all[i as int]);
        assert(all[i as int].0.len() > 0);
        raw_json = replace_str(raw_json.as_str(), vars[i].name.as_str(), vars[i].value.as_str());
        i = i + 1;
    }
    assert(all.subrange(i as int, all.len() as int) =~= Seq::<(Seq<char>, Seq<char>)>::empty());
    raw_json
}

/// The part of a name before its first `.`, if it has one.
pub open spec fn before_dot(s: Seq<char>) -> Option<Seq<char>>
    decreases s.len(),
{
    if s.len() == 0 {
        None
    } else if s[0] == '.' {
        Some(seq![])
    } else {
        match before_dot(s.subrange(1, s.len() as int)) {
            Some(p) => Some(seq![s[0]] + p),
            None => None,
        }
    }
}

/// The name of the runtime log of a wasm file: the file name up to its first
/// `.`, or `runtime` when it has none.
pub open spec fn logger_stem(s: Seq<char>) -> Seq<char> {
    match before_dot(s) {
        Some(p) => p,
        None => "runtime"@,
    }
}

proof fn lemma_before_dot_at(s: Seq<char>, k: int)
    requires
        0 <= k <= s.len(),
        forall|j: int| 0 <= j < k ==> s[j] != '.',
    ensures
        k < s.len() && s[k] == '.' ==> before_dot(s) == Some(s.subrange(0, k)),
        k == s.len() ==> before_dot(s) is None,
    decreases k,
{
    if k > 0 {
        let t = s.subrange(1, s.len() as int);
        assert forall|j: int| 0 <= j < k - 1 implies t[j] != '.' by {
            assert(t[j] == s[j + 1]);
        }
        lemma_before_dot_at(t, k - 1);
        if k < s.len() && s[k] == '.' {
            assert(t[k - 1] == s[k]);
            assert(seq![s[0]] + t.subrange(0, k - 1) =~= s.subrange(0, k));
        }
    } else if s.len() > 0 {
        assert(s.subrange(0, 0) =~= Seq::<char>::empty());
    }
}

/// A configuration that runs one wasm file.
pub struct CliConfig(pub BlocklessConfig);

impl CliConfig {
    /// The name of the runtime log of a wasm file name.
    pub fn defaut_logger_file(filen: &str) -> (r: Option<String>)
        ensures
            r matches Some(x) && x@ == logger_stem(filen@),
    {
        let v = chars_of(filen);
        let mut k: usize = 0;
        while k < v.len()
            invariant
                v@ == filen@,
                k <= v.len(),
                forall|j: int| 0 <= j < k ==> v@[j] != '.',
            decreases v.len() - k,
        {
            if v[k] == '.' {
                proof {
                    lemma_before_dot_at(v@, k as int);
                }
                let mut p: Vec<char> = Vec::new();
                let mut j: usize = 0;
                while j < k
                    invariant
                        j <= k,
                        k < v.len(),
                        p@ == v@.subrange(0, j as int),
                    decreases k - j,
                {
                    p.push(v[j]);
                    j = j + 1;
                    assert(p@ =~= v@.subrange(0, j as int));
                }
                return Some(string_of(&p));
            }
            k = k + 1;
        }
        proof {
            lemma_before_dot_at(v@, k as int);
        }
        Some(string_from("runtime"))
    }

    /// A configuration that runs the given wasm file as its entry, with the
    /// current directory as root and a runtime log named after the file.
    pub fn new_with_wasm(wasm_file: &str) -> (r: CliConfig)
        requires
            file_name(wasm_file@) is Some,
        ensures
            r.0.entry@ == wasm_file@,
            r.0.fresh_rest(),
            opt_view(r.0.fs_root_path) == Some("."@),
            r.0.runtime_logger_level == LoggerLevel::WARN,
            opt_view(r.0.runtime_logger) == Some(logger_stem(file_name(wasm_file@)->0) + ".log"@),
            r.0.run_time is None,
            !r.0.debug_info,
            r.0.drivers@.len() == 0,
            r.0.modules@.len() == 0,
            r.0.limited_fuel is None,
            r.0.permisions@.len() == 0,
            r.0.version == crate::config::BlocklessConfigVersion::Version0,
    {
        let name = path_file_name(wasm_file);
        let file_name = match name {
            Some(n) => n,
            None => String::new(),
        };
        let log_file = Self::defaut_logger_file(file_name.as_str());
        let mut bconf = BlocklessConfig::new(wasm_file);
        bconf.set_fs_root_path(Some(string_from(".")));
        bconf.set_runtime_logger_level(LoggerLevel::WARN);
        match log_file {
            Some(log_file) => {
                let mut v = chars_of(log_file.as_str());
                let ext = chars_of(".log");
                let ghost before = v@;
                let mut i: usize = 0;
                while i < ext.len()
                    invariant
                        i <= ext.len(),
                        v@ == before + ext@.subrange(0, i as int),
                    decreases ext.len() - i,
                {
                    v.push(ext[i]);
                    i = i + 1;
                    assert(v@ =~= before + ext@.subrange(0, i as int));
                }
                assert(ext@.subrange(0, ext.len() as int) =~= ext@);
                bconf.set_runtime_logger(Some(string_of(&v)));
            },
            None => {},
        }
        CliConfig(bconf)
    }
}

/// The permission an entry of the `permissions` list gives, as its schema and
/// url: a text that reads as an address, whose schema is its first segment.
pub open spec fn permission_of(v: JsonView) -> Option<(Seq<char>, Seq<char>)> {
    match v {
        JsonView::Str(s) => {
            let b = encode_utf8(s);
            if all_tokens(b) && path_values(b).len() > 0 {
                Some((ascii_chars(path_values(b)[0]), s))
            } else {
                None
            }
        },
        _ => None,
    }
}

/// The permissions a list of entries gives, in order, skipping the entries
/// that give none.
pub open spec fn permissions_of(items: Seq<JsonView>) -> Seq<(Seq<char>, Seq<char>)>
    decreases items.len(),
{
    if items.len() == 0 {
        seq![]
    } else {
        let prev = permissions_of(items.drop_last());
        match permission_of(items.last()) {
            Some(p) => prev.push(p),
            None => prev,
        }
    }
}

/// The schemas and urls of a list of permissions.
pub open spec fn permission_views(p: Seq<Permission>) -> Seq<(Seq<char>, Seq<char>)> {
    p.map_values(|x: Permission| (x.schema@, x.url@))
}

/// The driver an entry of the `drivers` list names, as its schema and path:
/// an object with both as text.
pub open spec fn driver_of(v: JsonView) -> Option<(Seq<char>, Seq<char>)> {
    match (as_text(field(v, "schema"@)), as_text(field(v, "path"@))) {
        (Some(s), Some(p)) => Some((s, p)),
        _ => None,
    }
}

/// The drivers a list of entries names, in order, skipping the others.
pub open spec fn drivers_of(items: Seq<JsonView>) -> Seq<(Seq<char>, Seq<char>)>
    decreases items.len(),
{
    if items.len() == 0 {
        seq![]
    } else {
        let prev = drivers_of(items.drop_last());
        match driver_of(items.last()) {
            Some(d) => prev.push(d),
            None => prev,
        }
    }
}

/// The schemas and paths of a list of drivers.
pub open spec fn driver_views(d: Seq<DriverConfig>) -> Seq<(Seq<char>, Seq<char>)> {
    d.map_values(|x: DriverConfig| (x.schema@, x.path@))
}

/// A text member, or the empty text.
pub open spec fn text_or_empty(o: Option<Seq<char>>) -> Seq<char> {
    match o {
        Some(t) => t,
        None => seq![],
    }
}

/// The module an entry of the `modules` list describes, as its role, name,
/// file and checksum; a missing text is empty, a missing role a library.
pub open spec fn module_of(v: JsonView) -> (ModuleType, Seq<char>, Seq<char>, Seq<char>) {
    (
        match as_text(field(v, "type"@)) {
            Some(t) => spec_module_type(t),
            None => ModuleType::Module,
        },
        text_or_empty(as_text(field(v, "name"@))),
        text_or_empty(as_text(field(v, "file"@))),
        text_or_empty(as_text(field(v, "md5"@))),
    )
}

/// The role, name, file and checksum of a list of modules.
pub open spec fn module_views(m: Seq<BlocklessModule>) -> Seq<(ModuleType, Seq<char>, Seq<char>, Seq<char>)> {
    m.map_values(|x: BlocklessModule| (x.module_type, x.name@, x.file@, x.md5@))
}

/// The text of a member of an object, if it is text.
fn text_member(v: &Json, key: &str) -> (r: Option<String>)
    ensures
        opt_view(r) == as_text(field(v@, key@)),
{
    text_of(v.get(key))
}

impl CliConfig {
    /// The permissions of the `permissions` list; none when it is not a list.
    pub fn permissions(permission_json: Option<&Json>) -> (r: Vec<Permission>)
        ensures
            permission_views(r@) == permissions_of(members(opt_val(permission_json))),
    {
        let items = members_of(permission_json);
        let ghost all = members(opt_val(permission_json));
        let mut out: Vec<Permission> = Vec::new();
        let mut i: usize = 0;
        while i < items.len()
            invariant
                items@.len() == all.len(),
                forall|k: int| 0 <= k < all.len() ==> (#[trigger] items@[k])@ == all[k],
                i <= items@.len(),
                permission_views(out@) == permissions_of(all.subrange(0, i as int)),
            decreases items@.len() - i,
        {
            let ghost pre = all.subrange(0, i as int);
            let ghost cur = all.subrange(0, i + 1);
            assert(cur.drop_last() =~= pre);
            assert(cur.last() == all[i as int]);
            assert(items@[i as int]@ == all[i as int]);
            let ghost before = out@;
            match &items[i] {
                Json::Str(s) => {
                    let bs = s.as_str().as_bytes();
                    match MultiAddr::parse(bs) {
                        Ok(addr) => {
                            proof {
                                assert(addr.values().len() == addr.paths@.len());
                            }
                            match addr.schema() {
                                Ok(schema) => {
                                    proof {
                                        assert(addr.values()[0] == addr.paths@[0].value@);
                                    }
                                    out.push(Permission { schema: schema, url: s.clone() });
                                    assert(permission_views(out@) =~= permission_views(before).push(
                                        permission_of(all[i as int])->0,
                                    ));
                                },
                                Err(_) => {},
                            }
                        },
                        Err(_) => {},
                    }
                },
                _ => {},
            }
            i = i + 1;
        }
        assert(all.subrange(0, i as int) =~= all);
        out
    }

    /// The drivers of the `drivers` list; none when it is not a list.
    pub fn drivers(driver_json: Option<&Json>) -> (r: Vec<DriverConfig>)
        ensures
            driver_views(r@) == drivers_of(members(opt_val(driver_json))),
    {
        let items = members_of(driver_json);
        let ghost all = members(opt_val(driver_json));
        let mut out: Vec<DriverConfig> = Vec::new();
        let mut i: usize = 0;
        while i < items.len()
            invariant
                items@.len() == all.len(),
                forall|k: int| 0 <= k < all.len() ==> (#[trigger] items@[k])@ == all[k],
                i <= items@.len(),
                driver_views(out@) == drivers_of(all.subrange(0, i as int)),
            decreases items@.len() - i,
        {
            let ghost pre = all.subrange(0, i as int);
            let ghost cur = all.subrange(0, i + 1);
            assert(cur.drop_last() =~= pre);
            assert(cur.last() == all[i as int]);
            assert(items@[i as int]@ == all[i as int]);
            let ghost before = out@;
            let schema = text_member(&items[i], "schema");
            let path = text_member(&items[i], "path");
            match (schema, path) {
                (Some(s), Some(p)) => {
                    out.push(DriverConfig::new(s, p));
                    assert(driver_views(out@) =~= driver_views(before).push(driver_of(all[i as int])->0));
                },
                _ => {},
            }
            i = i + 1;
        }
        assert(all.subrange(0, i as int) =~= all);
        out
    }

    /// The modules of the `modules` list; none when it is not a list.
    pub fn modules(modules: Option<&Json>) -> (r: Vec<BlocklessModule>)
        ensures
            module_views(r@) == members(opt_val(modules)).map_values(|v: JsonView| module_of(v)),
    {
        let items = members_of(modules);
        let ghost all = members(opt_val(modules));
        let mut out: Vec<BlocklessModule> = Vec::new();
        let mut i: usize = 0;
        while i < items.len()
            invariant
                items@.len() == all.len(),
                forall|k: int| 0 <= k < all.len() ==> (#[trigger] items@[k])@ == all[k],
                i <= items@.len(),
                module_views(out@) == all.subrange(0, i as int).map_values(|v: JsonView| module_of(v)),
            decreases items@.len() - i,
        {
            let c = &items[i];
            let name = match text_member(c, "name") {
                Some(t) => t,
                None => String::new(),
            };
            let file = match text_member(c, "file") {
                Some(t) => t,
                None => String::new(),
            };
            let md5 = match text_member(c, "md5") {
                Some(t) => t,
                None => String::new(),
            };
            let module_type = match text_member(c, "type") {
                Some(t) => ModuleType::parse_from_str(t.as_str()),
                None => ModuleType::Module,
            };
            let ghost before = out@;
            let m = BlocklessModule { module_type, name, file, md5 };
            assert(c@ == all[i as int]);
            assert((m.module_type, m.name@, m.file@, m.md5@) == module_of(all[i as int]));
            out.push(m);
            assert(module_views(out@) =~= module_views(before).push(module_of(all[i as int])));
            assert(all.subrange(0, i + 1) =~= all.subrange(0, i as int).push(all[i as int]));
            assert(all.subrange(0, i + 1).map_values(|v: JsonView| module_of(v)) =~= all.subrange(0, i as int).map_values(|v: JsonView| module_of(v)).push(module_of(all[i as int])));
            i = i + 1;
        }
        assert(all.subrange(0, i as int) =~= all);
        out
    }
}

/// Why a configuration text could not be read.
#[derive(Clone, Copy, Debug, PartialEq, Eq, Structural)]
pub enum ConfigError {
    /// The text is not JSON.
    Json,
    /// An entry of `optimize` was refused.
    Optimize(OptionError),
}

/// The name and value pairs that the entries of an `optimize` object hand to
/// the tuning options: each name, with the JSON text of the name as value.
pub open spec fn option_items_of(v: JsonView) -> Seq<(Seq<char>, Seq<char>)> {
    match v {
        JsonView::Object(e) => e.map_values(|x: (Seq<char>, JsonView)| (x.0, json_text(JsonView::Str(x.0)))),
        _ => seq![],
    }
}

/// The tuning options an `optimize` object sets, or the first refusal.
pub open spec fn optimized(v: JsonView) -> Result<OptimizeOpts, OptionError> {
    let c = configured(OptimizeOpts::unset(), option_items_of(v));
    match c.1 {
        Ok(_) => Ok(c.0),
        Err(e) => Err(e),
    }
}

/// The tuning options of a configuration document: those of its `optimize`
/// member when that is an object, none otherwise.
pub open spec fn document_opts(doc: JsonView) -> Result<OptimizeOpts, OptionError> {
    match field(doc, "optimize"@) {
        Some(o) => if o is Object {
            optimized(o)
        } else {
            Ok(OptimizeOpts::unset())
        },
        None => Ok(OptimizeOpts::unset()),
    }
}

/// Whether a configuration document can be read: it names its entry as
/// text, and its version, if any, is 0 or 1.
pub open spec fn readable_config(doc: JsonView) -> bool {
    &&& as_text(field(doc, "entry"@)) is Some
    &&& (as_usize(field(doc, "version"@)) matches Some(v) ==> v <= 1)
}

/// The standard input a configuration names: `inherit`, or a fixed text;
/// the runtime's own input when it names none.
pub open spec fn stdin_named(o: Option<Seq<char>>, s: Stdin) -> bool {
    match o {
        Some(t) => if t == "inherit"@ {
            s is Inherit
        } else {
            s matches Stdin::Fixed(x) && x@ == t
        },
        None => s is Inherit,
    }
}

/// The standard output a configuration names: `inherit`, `null` or a file
/// name; the runtime's own output when it names none.
pub open spec fn stdout_named(o: Option<Seq<char>>, s: Stdout) -> bool {
    match o {
        Some(t) => if t == "inherit"@ {
            s is Inherit
        } else if t == "null"@ {
            s is Null
        } else {
            s matches Stdout::FileName(x) && x@ == t
        },
        None => s is Inherit,
    }
}

/// The standard error a configuration names, as for the output.
pub open spec fn stderr_named(o: Option<Seq<char>>, s: Stderr) -> bool {
    match o {
        Some(t) => if t == "inherit"@ {
            s is Inherit
        } else if t == "null"@ {
            s is Null
        } else {
            s matches Stderr::FileName(x) && x@ == t
        },
        None => s is Inherit,
    }
}

/// Whether `c` is the configuration that the document `doc` describes.
pub open spec fn describes(c: BlocklessConfig, doc: JsonView) -> bool {
    &&& Some(c.entry@) == as_text(field(doc, "entry"@))
    &&& c.fresh_rest()
    &&& opt_view(c.fs_root_path) == as_text(field(doc, "fs_root_path"@))
    &&& opt_view(c.drivers_root_path) == as_text(field(doc, "drivers_root_path"@))
    &&& opt_view(c.runtime_logger) == as_text(field(doc, "runtime_logger"@))
    &&& opt_view(c.extensions_path) == as_text(field(doc, "extensions_path"@))
    &&& c.limited_fuel == as_u64(field(doc, "limited_fuel"@))
    &&& c.run_time == as_u64(field(doc, "run_time"@))
    &&& c.store_limited == (StoreLimited {
        max_memories: match as_u64(field(doc, "limited_memory"@)) {
            Some(m) => Some(m as usize),
            None => None,
        },
        ..StoreLimited::default_spec()
    })
    &&& c.runtime_logger_level == match as_text(field(doc, "runtime_logger_level"@)) {
        Some(t) => spec_logger_level(t),
        None => LoggerLevel::WARN,
    }
    &&& c.debug_info == match as_bool(field(doc, "debug_info"@)) {
        Some(b) => b,
        None => false,
    }
    &&& c.version == match as_usize(field(doc, "version"@)) {
        Some(v) => if v == 0 {
            BlocklessConfigVersion::Version0
        } else {
            BlocklessConfigVersion::Version1
        },
        None => BlocklessConfigVersion::Version0,
    }
    &&& driver_views(c.drivers@) == drivers_of(members(field(doc, "drivers"@)))
    &&& module_views(c.modules@) == members(field(doc, "modules"@)).map_values(|v: JsonView| module_of(v))
    &&& permission_views(c.permisions@) == permissions_of(members(field(doc, "permissions"@)))
    &&& groups_view(c.group_permisions@) == group_by_schema(c.permisions@)
    &&& stdin_named(as_text(field(doc, "stdin"@)), c.stdio.stdin)
    &&& stdout_named(as_text(field(doc, "stdout"@)), c.stdio.stdout)
    &&& stderr_named(as_text(field(doc, "stderr"@)), c.stdio.stderr)
    &&& document_opts(doc) == Ok::<OptimizeOpts, OptionError>(c.opts)
}

/// What reading a configuration text gives: an error when it is not JSON or
/// its tuning options are refused, else a configuration it describes.
pub open spec fn read_outcome(text: Seq<char>, r: Result<CliConfig, ConfigError>) -> bool {
    match parsed_json(text) {
        Err(_) => r matches Err(e) && e == ConfigError::Json,
        Ok(doc) => match document_opts(doc) {
            Err(e) => r matches Err(x) && x == ConfigError::Optimize(e),
            Ok(_) => r matches Ok(c) && describes(c.0, doc),
        },
    }
}

/// The standard input a configuration names.
fn stdin_from(o: Option<String>) -> (r: Stdin)
    ensures
        stdin_named(opt_view(o), r),
{
    match o {
        Some(s) => if str_eq(s.as_str(), "inherit") {
            Stdin::Inherit
        } else {
            Stdin::Fixed(s)
        },
        None => Stdin::Inherit,
    }
}

/// The standard output a configuration names.
fn stdout_from(o: Option<String>) -> (r: Stdout)
    ensures
        stdout_named(opt_view(o), r),
{
    match o {
        Some(s) => if str_eq(s.as_str(), "inherit") {
            Stdout::Inherit
        } else if str_eq(s.as_str(), "null") {
            Stdout::Null
        } else {
            Stdout::FileName(s)
        },
        None => Stdout::Inherit,
    }
}

/// The standard error a configuration names.
fn stderr_from(o: Option<String>) -> (r: Stderr)
    ensures
        stderr_named(opt_view(o), r),
{
    match o {
        Some(s) => if str_eq(s.as_str(), "inherit") {
            Stderr::Inherit
        } else if str_eq(s.as_str(), "null") {
            Stderr::Null
        } else {
            Stderr::FileName(s)
        },
        None => Stderr::Inherit,
    }
}

/// Whether a configuration document can be read.
pub fn is_readable_config(doc: &Json) -> (r: bool)
    ensures
        r == readable_config(doc@),
{
    let has_entry = text_member(doc, "entry").is_some();
    let version_ok = match usize_of(doc.get("version")) {
        Some(v) => v <= 1,
        None => true,
    };
    has_entry && version_ok
}

impl CliConfig {
    /// The tuning options an `optimize` object sets.
    pub fn optimize_options(opt_json: &Json) -> (r: Result<OptimizeOpts, OptionError>)
        ensures
            r == optimized(opt_json@),
    {
        let mut items: Vec<(String, String)> = Vec::new();
        match opt_json {
            Json::Object(entries) => {
                proof {
                    crate::json::lemma_entries_view(entries@);
                }
                let ghost ev = crate::json::entries_view(entries@);
                let ghost want = ev.map_values(|x: (Seq<char>, JsonView)| (x.0, json_text(JsonView::Str(x.0))));
                let mut i: usize = 0;
                while i < entries.len()
                    invariant
                        i <= entries@.len(),
                        opt_json@ == JsonView::Object(ev),
                        ev.len() == entries@.len(),
                        forall|j: int| 0 <= j < entries@.len() ==> #[trigger] ev[j] == (entries@[j].0@, crate::json::json_view(entries@[j].1)),
                        want == ev.map_values(|x: (Seq<char>, JsonView)| (x.0, json_text(JsonView::Str(x.0)))),
                        crate::options::pair_views(items@) == want.subrange(0, i as int),
                    decreases entries@.len() - i,
                {
                    let key = entries[i].0.clone();
                    let quoted = Json::Str(entries[i].0.clone());
                    let text = json_dump(&quoted);
                    let ghost before = items@;
                    assert(ev[i as int].0 == key@);
                    assert(quoted@ == JsonView::Str(key@));
                    items.push((key, text));
                    assert(want[i as int] == (key@, json_text(JsonView::Str(key@))));
                    assert(crate::options::pair_views(items@) =~= crate::options::pair_views(before).push(want[i as int]));
                    assert(want.subrange(0, i + 1) =~= want.subrange(0, i as int).push(want[i as int]));
                    i = i + 1;
                }
                assert(want.subrange(0, i as int) =~= want);
            },
            _ => {
                assert(crate::options::pair_views(items@) =~= Seq::<(Seq<char>, Seq<char>)>::empty());
            },
        }
        let mut opts = OptimizeOpts::default();
        match opts.config(items) {
            Ok(()) => Ok(opts),
            Err(e) => Err(e),
        }
    }

    /// Reads a configuration from its JSON text.
    pub fn from_json_string(json_string: String) -> (r: Result<CliConfig, ConfigError>)
        requires
            parsed_json(json_string@) matches Ok(doc) ==> readable_config(doc),
        ensures
            read_outcome(json_string@, r),
    {
        let doc = match json_parse(json_string.as_str()) {
            Ok(d) => d,
            Err(_) => return Err(ConfigError::Json),
        };
        let fs_root_path = text_member(&doc, "fs_root_path");
        let drivers_root_path = text_member(&doc, "drivers_root_path");
        let limited_fuel = u64_of(doc.get("limited_fuel"));
        let runtime_logger = text_member(&doc, "runtime_logger");
        let runtime_logger_level = match text_member(&doc, "runtime_logger_level") {
            Some(t) => Some(logger_level_from_str(t.as_str())),
            None => None,
        };
        let limited_memory = u64_of(doc.get("limited_memory"));
        let extensions_path = text_member(&doc, "extensions_path");
        let stdin = text_member(&doc, "stdin");
        let stdout = text_member(&doc, "stdout");
        let stderr = text_member(&doc, "stderr");
        let debug_info = bool_of(doc.get("debug_info"));
        let run_time = u64_of(doc.get("run_time"));
        let drvs = Self::drivers(doc.get("drivers"));
        let modules = Self::modules(doc.get("modules"));
        let perms = Self::permissions(doc.get("permissions"));
        let entry = match text_member(&doc, "entry") {
            Some(e) => e,
            None => String::new(),
        };
        let version = usize_of(doc.get("version"));
        let mut bc = BlocklessConfig::new(entry.as_str());
        match doc.get("optimize") {
            Some(o) => if o.is_object() {
                match Self::optimize_options(o) {
                    Ok(opts) => {
                        bc.opts = opts;
                    },
                    Err(e) => {
                        return Err(ConfigError::Optimize(e));
                    },
                }
            },
            None => {},
        }
        bc.set_modules(modules);
        bc.extensions_path(extensions_path);
        bc.set_fs_root_path(fs_root_path);
        bc.drivers(drvs);
        match debug_info {
            Some(b) => bc.set_debug_info(b),
            None => {},
        }
        match runtime_logger_level {
            Some(l) => bc.set_runtime_logger_level(l),
            None => {},
        }
        bc.set_permisions(perms);
        bc.set_runtime_logger(runtime_logger);
        bc.set_drivers_root_path(drivers_root_path);
        bc.limited_fuel(limited_fuel);
        bc.limited_memory(limited_memory);
        bc.set_run_time(run_time);
        match version {
            Some(v) => match BlocklessConfigVersion::from_usize(v) {
                Some(x) => bc.set_version(x),
                None => {},
            },
            None => {},
        }
        bc.stdio = Stdio { stdin: stdin_from(stdin), stdout: stdout_from(stdout), stderr: stderr_from(stderr) };
        Ok(CliConfig(bc))
    }

    /// Reads a configuration from its JSON text after replacing its
    /// variables, given the environment's id and the root directory for
    /// environments.
    pub fn from_data(data: String, root_suffix: Option<String>, env_root: Option<String>) -> (r: Result<CliConfig, ConfigError>)
        requires
            parsed_json(replaced(data@, env_vars_of(opt_view(env_root), opt_view(root_suffix)))) matches Ok(doc)
                ==> readable_config(doc),
        ensures
            read_outcome(replaced(data@, env_vars_of(opt_view(env_root), opt_view(root_suffix))), r),
    {
        let data = replace_vars(data, root_suffix, env_root);
        Self::from_json_string(data)
    }

    /// Reads a configuration as `from_data` does when its document can be
    /// read; `None` when the text is JSON without a text entry or with an
    /// unknown version.
    pub fn checked_from_data(data: String, root_suffix: Option<String>, env_root: Option<String>) -> (r: Option<Result<CliConfig, ConfigError>>)
        ensures
            match parsed_json(replaced(data@, env_vars_of(opt_view(env_root), opt_view(root_suffix)))) {
                Ok(doc) => if readable_config(doc) {
                    r matches Some(x) && read_outcome(
                        replaced(data@, env_vars_of(opt_view(env_root), opt_view(root_suffix))),
                        x,
                    )
                } else {
                    r is None
                },
                Err(_) => r matches Some(x) && x matches Err(e) && e == ConfigError::Json,
            },
    {
        let text = replace_vars(data.clone(), root_suffix.clone(), env_root.clone());
        match json_parse(text.as_str()) {
            Ok(doc) => if !is_readable_config(&doc) {
                return None;
            },
            Err(_) => {},
        }
        Some(Self::from_data(data, root_suffix, env_root))
    }
}

} // verus!
