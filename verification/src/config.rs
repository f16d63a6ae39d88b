use vstd::prelude::*;
use crate::options::{OptimizeOpts};
use crate::permission::{Permission, grants};
use crate::path::{file_name, join, path_file_name, path_join, confined_name, confine_name, stays_inside, law_confined_name_stays_inside, law_join_inside_starts_with_base};
use crate::text::is_prefix;
use crate::text::{str_eq, chars_of, chars_eq};

verus! {

/// The entry function a module configuration falls back to.
pub const ENTRY: &'static str = "_start";

/// How much the runtime logs.
#[derive(Clone, Copy, Debug, PartialEq, Eq, Structural)]
pub enum LoggerLevel {
    INFO,
    WARN,
    DEBUG,
    ERROR,
    TRACE,
}

/// The level a level name selects: `debug`, `info`, `warn`, `trace`, `error`
/// in lower or upper case; any other name selects `INFO`.
pub open spec fn spec_logger_level(s: Seq<char>) -> LoggerLevel {
    if s == "debug"@ || s == "DEBUG"@ {
        LoggerLevel::DEBUG
    } else if s == "info"@ || s == "INFO"@ {
        LoggerLevel::INFO
    } else if s == "warn"@ || s == "WARN"@ {
        LoggerLevel::WARN
    } else if s == "trace"@ || s == "TRACE"@ {
        LoggerLevel::TRACE
    } else if s == "error"@ || s == "ERROR"@ {
        LoggerLevel::ERROR
    } else {
        LoggerLevel::INFO
    }
}

/// The level a level name selects.
pub fn logger_level_from_str(value: &str) -> (r: LoggerLevel)
    ensures
        r == spec_logger_level(value@),
{
    if str_eq(value, "debug") || str_eq(value, "DEBUG") {
        LoggerLevel::DEBUG
    } else if str_eq(value, "info") || str_eq(value, "INFO") {
        LoggerLevel::INFO
    } else if str_eq(value, "warn") || str_eq(value, "WARN") {
        LoggerLevel::WARN
    } else if str_eq(value, "trace") || str_eq(value, "TRACE") {
        LoggerLevel::TRACE
    } else if str_eq(value, "error") || str_eq(value, "ERROR") {
        LoggerLevel::ERROR
    } else {
        LoggerLevel::INFO
    }
}

impl<'a> From<&'a str> for LoggerLevel {
    fn from(value: &'a str) -> (r: LoggerLevel) {
        logger_level_from_str(value)
    }
}

impl<'a> vstd::std_specs::convert::FromSpecImpl<&'a str> for LoggerLevel {
    open spec fn obeys_from_spec() -> bool {
        true
    }

    open spec fn from_spec(v: &'a str) -> LoggerLevel {
        spec_logger_level(v@)
    }
}

/// Where the guest's standard input comes from.
#[derive(Debug)]
pub enum Stdin {
    Inherit,
    Fixed(String),
}

impl Clone for Stdin {
    fn clone(&self) -> (r: Self)
        ensures
            r == *self,
    {
        match self {
            Stdin::Inherit => Stdin::Inherit,
            Stdin::Fixed(s) => Stdin::Fixed(s.clone()),
        }
    }
}

/// Where the guest's standard output goes.
#[derive(Debug)]
pub enum Stdout {
    /// No output.
    Null,
    /// The runtime's own output.
    Inherit,
    /// A file of this name under the root directory.
    FileName(String),
}

impl Clone for Stdout {
    fn clone(&self) -> (r: Self)
        ensures
            r == *self,
    {
        match self {
            Stdout::Null => Stdout::Null,
            Stdout::Inherit => Stdout::Inherit,
            Stdout::FileName(s) => Stdout::FileName(s.clone()),
        }
    }
}

/// Where the guest's standard error goes.
#[derive(Debug)]
pub enum Stderr {
    /// No output.
    Null,
    /// The runtime's own error output.
    Inherit,
    /// A file of this name under the root directory.
    FileName(String),
}

impl Clone for Stderr {
    fn clone(&self) -> (r: Self)
        ensures
            r == *self,
    {
        match self {
            Stderr::Null => Stderr::Null,
            Stderr::Inherit => Stderr::Inherit,
            Stderr::FileName(s) => Stderr::FileName(s.clone()),
        }
    }
}

/// A driver library to load for a schema.
pub struct DriverConfig {
    pub schema: String,
    pub path: String,
}

impl Clone for DriverConfig {
    fn clone(&self) -> (r: Self)
        ensures
            r == *self,
    {
        DriverConfig { schema: self.schema.clone(), path: self.path.clone() }
    }
}

impl DriverConfig {
    pub fn new(schema: String, path: String) -> (r: DriverConfig)
        ensures
            r.schema == schema,
            r.path == path,
    {
        DriverConfig { schema, path }
    }

    pub fn schema(&self) -> (r: &str)
        ensures
            r@ == self.schema@,
    {
        self.schema.as_str()
    }

    pub fn path(&self) -> (r: &str)
        ensures
            r@ == self.path@,
    {
        self.path.as_str()
    }
}

/// The role of a module in a multi-module application.
#[derive(Copy, Clone, Debug, PartialEq, Eq, Structural)]
pub enum ModuleType {
    Module,
    Entry,
}

/// The role a type name selects: `entry` or `ENTRY` select the entry module,
/// anything else a library module.
pub open spec fn spec_module_type(s: Seq<char>) -> ModuleType {
    if s == "entry"@ || s == "ENTRY"@ {
        ModuleType::Entry
    } else {
        ModuleType::Module
    }
}

/// The rank of a role in load order: library modules before the entry.
pub open spec fn module_rank(t: ModuleType) -> int {
    match t {
        ModuleType::Module => 0,
        ModuleType::Entry => 1,
    }
}

impl ModuleType {
    pub fn parse_from_str(s: &str) -> (r: Self)
        ensures
            r == spec_module_type(s@),
    {
        if str_eq(s, "entry") || str_eq(s, "ENTRY") {
            ModuleType::Entry
        } else {
            ModuleType::Module
        }
    }

    /// Whether `self` loads strictly before `other`.
    pub fn loads_before(&self, other: &Self) -> (r: bool)
        ensures
            r == (module_rank(*self) < module_rank(*other)),
    {
        match (self, other) {
            (ModuleType::Module, ModuleType::Entry) => true,
            _ => false,
        }
    }
}

/// A module of a multi-module application.
#[derive(Debug)]
pub struct BlocklessModule {
    pub module_type: ModuleType,
    pub name: String,
    pub file: String,
    pub md5: String,
}

impl Clone for BlocklessModule {
    fn clone(&self) -> (r: Self)
        ensures
            r == *self,
    {
        BlocklessModule {
            module_type: self.module_type,
            name: self.name.clone(),
            file: self.file.clone(),
            md5: self.md5.clone(),
        }
    }
}

/// The format of a configuration.
#[derive(Clone, Copy, Debug, PartialEq, Eq, Structural)]
pub enum BlocklessConfigVersion {
    /// A single wasm file is run.
    Version0,
    /// A set of modules with one entry module is run.
    Version1,
}

impl BlocklessConfigVersion {
    /// The format of a version number; only 0 and 1 are known.
    pub fn from_usize(value: usize) -> (r: Option<BlocklessConfigVersion>)
        ensures
            value == 0 ==> r == Some(BlocklessConfigVersion::Version0),
            value == 1 ==> r == Some(BlocklessConfigVersion::Version1),
            value > 1 ==> r is None,
    {
        if value == 0 {
            Some(BlocklessConfigVersion::Version0)
        } else if value == 1 {
            Some(BlocklessConfigVersion::Version1)
        } else {
            None
        }
    }
}

/// The format of a version number: 0 is `Version0`, 1 and above `Version1`.
pub open spec fn spec_version(value: usize) -> BlocklessConfigVersion {
    if value == 0 {
        BlocklessConfigVersion::Version0
    } else {
        BlocklessConfigVersion::Version1
    }
}

impl From<usize> for BlocklessConfigVersion {
    fn from(value: usize) -> (r: BlocklessConfigVersion) {
        if value == 0 {
            BlocklessConfigVersion::Version0
        } else {
            BlocklessConfigVersion::Version1
        }
    }
}

impl vstd::std_specs::convert::FromSpecImpl<usize> for BlocklessConfigVersion {
    open spec fn obeys_from_spec() -> bool {
        true
    }

    open spec fn from_spec(v: usize) -> BlocklessConfigVersion {
        spec_version(v)
    }
}

/// Limits on the resources of a store.
#[derive(Clone, Copy, Debug, PartialEq, Eq, Structural)]
pub struct StoreLimited {
    pub max_memory_size: Option<usize>,
    pub max_table_elements: Option<u32>,
    pub max_instances: Option<usize>,
    pub max_tables: Option<u32>,
    pub max_memories: Option<usize>,
    pub trap_on_grow_failure: Option<bool>,
}

impl Default for StoreLimited {
    fn default() -> (r: Self)
        ensures
            r.max_memory_size is None,
            r.max_table_elements is None,
            r.max_instances is None,
            r.max_tables is None,
            r.max_memories is None,
            r.trap_on_grow_failure is None,
    {
        StoreLimited {
            max_memory_size: None,
            max_table_elements: None,
            max_instances: None,
            max_tables: None,
            max_memories: None,
            trap_on_grow_failure: None,
        }
    }
}

/// The standard streams of the guest.
pub struct Stdio {
    pub stdin: Stdin,
    pub stdout: Stdout,
    pub stderr: Stderr,
}

impl Clone for Stdio {
    fn clone(&self) -> (r: Self)
        ensures
            r == *self,
    {
        Stdio { stdin: self.stdin.clone(), stdout: self.stdout.clone(), stderr: self.stderr.clone() }
    }
}

impl Default for Stdio {
    fn default() -> (r: Self)
        ensures
            r.stdin matches Stdin::Fixed(s) && s@.len() == 0,
            r.stdout is Inherit,
            r.stderr is Inherit,
    {
        Stdio { stdin: Stdin::Fixed(String::new()), stdout: Stdout::Inherit, stderr: Stderr::Inherit }
    }
}

/// A neural network graph made available to the guest.
#[derive(Debug)]
pub struct BlsNnGraph {
    pub format: String,
    pub dir: String,
}

impl Clone for BlsNnGraph {
    fn clone(&self) -> (r: Self)
        ensures
            r == *self,
    {
        BlsNnGraph { format: self.format.clone(), dir: self.dir.clone() }
    }
}

} // verus!

verus! {

/// The position of the first group of schema `s`, if any.
pub open spec fn find_group(g: Seq<(Seq<char>, Seq<Permission>)>, s: Seq<char>) -> Option<int>
    decreases g.len(),
{
    if g.len() == 0 {
        None
    } else if g[0].0 == s {
        Some(0)
    } else {
        match find_group(g.subrange(1, g.len() as int), s) {
            Some(k) => Some(k + 1),
            None => None,
        }
    }
}

/// The permissions grouped by schema: one group per schema, in the order the
/// schemas first appear, each holding that schema's permissions in order.
pub open spec fn group_by_schema(perms: Seq<Permission>) -> Seq<(Seq<char>, Seq<Permission>)>
    decreases perms.len(),
{
    if perms.len() == 0 {
        seq![]
    } else {
        let g = group_by_schema(perms.drop_last());
        let p = perms.last();
        match find_group(g, p.schema@) {
            Some(k) => g.update(k, (g[k].0, g[k].1.push(p))),
            None => g.push((p.schema@, seq![p])),
        }
    }
}

/// The grouped permissions as text and sequences.
pub open spec fn groups_view(g: Seq<(String, Vec<Permission>)>) -> Seq<(Seq<char>, Seq<Permission>)> {
    g.map_values(|e: (String, Vec<Permission>)| (e.0@, e.1@))
}

proof fn lemma_find_group_at(g: Seq<(Seq<char>, Seq<Permission>)>, s: Seq<char>, k: int)
    requires
        0 <= k <= g.len(),
        forall|j: int| 0 <= j < k ==> g[j].0 != s,
    ensures
        k < g.len() && g[k].0 == s ==> find_group(g, s) == Some(k),
        k == g.len() ==> find_group(g, s) is None,
    decreases k,
{
    if k > 0 {
        let t = g.subrange(1, g.len() as int);
        assert forall|j: int| 0 <= j < k - 1 implies t[j].0 != s by {
            assert(t[j] == g[j + 1]);
        }
        lemma_find_group_at(t, s, k - 1);
    } else if g.len() > 0 {
    }
}

/// The position of the group of schema `schema`, if any.
fn find_group_exec(g: &Vec<(String, Vec<Permission>)>, schema: &str) -> (r: Option<usize>)
    ensures
        match r {
            Some(k) => find_group(groups_view(g@), schema@) == Some(k as int) && k < g@.len(),
            None => find_group(groups_view(g@), schema@) is None,
        },
{
    let ghost gv = groups_view(g@);
    let mut k: usize = 0;
    while k < g.len()
        invariant
            k <= g.len(),
            gv == groups_view(g@),
            forall|j: int| 0 <= j < k ==> gv[j].0 != schema@,
        decreases g.len() - k,
    {
        if str_eq(g[k].0.as_str(), schema) {
            proof {
                lemma_find_group_at(gv, schema@, k as int);
            }
            return Some(k);
        }
        k = k + 1;
    }
    proof {
        lemma_find_group_at(gv, schema@, k as int);
    }
    None
}

/// Groups permissions by schema.
pub fn group_permissions(perms: &Vec<Permission>) -> (r: Vec<(String, Vec<Permission>)>)
    ensures
        groups_view(r@) == group_by_schema(perms@),
{
    let mut g: Vec<(String, Vec<Permission>)> = Vec::new();
    let mut i: usize = 0;
    while i < perms.len()
        invariant
            i <= perms.len(),
            groups_view(g@) == group_by_schema(perms@.subrange(0, i as int)),
        decreases perms.len() - i,
    {
        let ghost pre = perms@.subrange(0, i as int);
        let ghost cur = perms@.subrange(0, i + 1);
        assert(cur.drop_last() =~= pre);
        let p = perms[i].clone();
        let ghost before = groups_view(g@);
        match find_group_exec(&g, p.schema.as_str()) {
            Some(k) => {
                let (name, mut members) = g.remove(k);
                members.push(p);
                g.insert(k, (name, members));
                assert(groups_view(g@) =~= before.update(k as int, (before[k as int].0, before[k as int].1.push(perms@[i as int]))));
            },
            None => {
                let name = p.schema.clone();
                let mut members: Vec<Permission> = Vec::new();
                members.push(p);
                g.push((name, members));
                assert(groups_view(g@) =~= before.push((perms@[i as int].schema@, seq![perms@[i as int]])));
            },
        }
        i = i + 1;
    }
    assert(perms@.subrange(0, perms.len() as int) =~= perms@);
    g
}

proof fn lemma_find_group_found(g: Seq<(Seq<char>, Seq<Permission>)>, s: Seq<char>)
    ensures
        match find_group(g, s) {
            Some(k) => 0 <= k < g.len() && g[k].0 == s && forall|j: int| 0 <= j < k ==> g[j].0 != s,
            None => forall|j: int| 0 <= j < g.len() ==> g[j].0 != s,
        },
    decreases g.len(),
{
    if g.len() > 0 && g[0].0 != s {
        let t = g.subrange(1, g.len() as int);
        lemma_find_group_found(t, s);
        match find_group(t, s) {
            Some(k) => {
                assert forall|j: int| 0 <= j < k + 1 implies g[j].0 != s by {
                    if j > 0 {
                        assert(g[j] == t[j - 1]);
                    }
                }
            },
            None => {
                assert forall|j: int| 0 <= j < g.len() implies g[j].0 != s by {
                    if j > 0 {
                        assert(g[j] == t[j - 1]);
                    }
                }
            },
        }
    }
}

/// Whether a permission is of schema `s`.
pub open spec fn schema_is(s: Seq<char>) -> spec_fn(Permission) -> bool {
    |p: Permission| p.schema@ == s
}

/// The permissions of one schema, in the order given.
pub open spec fn of_schema(perms: Seq<Permission>, s: Seq<char>) -> Seq<Permission> {
    perms.filter(schema_is(s))
}

proof fn lemma_groups_nonempty(perms: Seq<Permission>)
    ensures
        forall|k: int| 0 <= k < group_by_schema(perms).len() ==> (#[trigger] group_by_schema(perms)[k]).1.len() > 0,
    decreases perms.len(),
{
    if perms.len() > 0 {
        let pre = perms.drop_last();
        let p = perms.last();
        lemma_groups_nonempty(pre);
        let g = group_by_schema(pre);
        lemma_find_group_found(g, p.schema@);
        match find_group(g, p.schema@) {
            Some(k) => {
                let g2 = g.update(k, (g[k].0, g[k].1.push(p)));
                assert(group_by_schema(perms) == g2);
                assert forall|i: int| 0 <= i < g2.len() implies (#[trigger] g2[i]).1.len() > 0 by {
                    if i != k {
                        assert(g2[i] == g[i]);
                    }
                }
            },
            None => {
                let g2 = g.push((p.schema@, seq![p]));
                assert(group_by_schema(perms) == g2);
                assert forall|i: int| 0 <= i < g2.len() implies (#[trigger] g2[i]).1.len() > 0 by {
                    if i < g.len() {
                        assert(g2[i] == g[i]);
                    }
                }
            },
        }
    }
}

/// Grouping permissions by schema loses and invents none: the group of a
/// schema holds exactly the permissions of that schema, in the order they
/// were given, and a schema has a group exactly when some permission has
/// it.
pub proof fn law_group_holds_schema(perms: Seq<Permission>, s: Seq<char>)
    ensures
        match find_group(group_by_schema(perms), s) {
            Some(k) => group_by_schema(perms)[k].1 == of_schema(perms, s),
            None => of_schema(perms, s).len() == 0,
        },
        find_group(group_by_schema(perms), s) is None <==> of_schema(perms, s).len() == 0,
{
    lemma_group_members(perms, s);
    lemma_groups_nonempty(perms);
    lemma_find_group_found(group_by_schema(perms), s);
    if let Some(k) = find_group(group_by_schema(perms), s) {
        assert(group_by_schema(perms)[k].1.len() > 0);
    }
}

proof fn lemma_group_members(perms: Seq<Permission>, s: Seq<char>)
    ensures
        match find_group(group_by_schema(perms), s) {
            Some(k) => group_by_schema(perms)[k].1 == of_schema(perms, s),
            None => of_schema(perms, s).len() == 0,
        },
    decreases perms.len(),
{
    let pred = schema_is(s);
    if perms.len() == 0 {
        reveal(Seq::filter);
    } else {
        let pre = perms.drop_last();
        let p = perms.last();
        lemma_group_members(pre, s);
        assert(pre.push(p) =~= perms);
        pre.lemma_filter_push(p, pred);
        let g = group_by_schema(pre);
        let t = p.schema@;
        lemma_find_group_found(g, s);
        lemma_find_group_found(g, t);
        match find_group(g, t) {
            Some(k) => {
                let g2 = g.update(k, (g[k].0, g[k].1.push(p)));
                assert(group_by_schema(perms) == g2);
                match find_group(g, s) {
                    Some(j) => {
                        assert forall|i: int| 0 <= i < j implies g2[i].0 != s by {
                            assert(g2[i].0 == g[i].0);
                        }
                        lemma_find_group_at(g2, s, j);
                    },
                    None => {
                        assert forall|i: int| 0 <= i < g2.len() implies g2[i].0 != s by {
                            assert(g2[i].0 == g[i].0);
                        }
                        lemma_find_group_at(g2, s, g2.len() as int);
                    },
                }
            },
            None => {
                let g2 = g.push((t, seq![p]));
                assert(group_by_schema(perms) == g2);
                if s == t {
                    assert forall|i: int| 0 <= i < g.len() implies g2[i].0 != s by {
                        assert(g2[i] == g[i]);
                    }
                    lemma_find_group_at(g2, s, g.len() as int);
                    assert(of_schema(pre, s) =~= Seq::<Permission>::empty());
                    assert(of_schema(perms, s) =~= seq![p]);
                } else {
                    match find_group(g, s) {
                        Some(j) => {
                            assert forall|i: int| 0 <= i < j implies g2[i].0 != s by {
                                assert(g2[i] == g[i]);
                            }
                            assert(g2[j] == g[j]);
                            lemma_find_group_at(g2, s, j);
                        },
                        None => {
                            assert forall|i: int| 0 <= i < g2.len() implies g2[i].0 != s by {
                                if i < g.len() {
                                    assert(g2[i] == g[i]);
                                }
                            }
                            lemma_find_group_at(g2, s, g2.len() as int);
                        },
                    }
                }
            },
        }
    }
}

} // verus!

verus! {

/// The position of the first entry module, if any.
pub open spec fn first_entry(m: Seq<BlocklessModule>) -> Option<int>
    decreases m.len(),
{
    if m.len() == 0 {
        None
    } else if m[0].module_type == ModuleType::Entry {
        Some(0)
    } else {
        match first_entry(m.subrange(1, m.len() as int)) {
            Some(k) => Some(k + 1),
            None => None,
        }
    }
}

proof fn lemma_first_entry_at(m: Seq<BlocklessModule>, k: int)
    requires
        0 <= k <= m.len(),
        forall|j: int| 0 <= j < k ==> m[j].module_type != ModuleType::Entry,
    ensures
        k < m.len() && m[k].module_type == ModuleType::Entry ==> first_entry(m) == Some(k),
        k == m.len() ==> first_entry(m) is None,
    decreases k,
{
    if k > 0 {
        let t = m.subrange(1, m.len() as int);
        assert forall|j: int| 0 <= j < k - 1 implies t[j].module_type != ModuleType::Entry by {
            assert(t[j] == m[j + 1]);
        }
        lemma_first_entry_at(t, k - 1);
    }
}

/// The position of the first entry module, if any.
pub fn find_entry_module(m: &Vec<BlocklessModule>) -> (r: Option<usize>)
    ensures
        match r {
            Some(k) => first_entry(m@) == Some(k as int) && k < m@.len(),
            None => first_entry(m@) is None,
        },
{
    let mut k: usize = 0;
    while k < m.len()
        invariant
            k <= m.len(),
            forall|j: int| 0 <= j < k ==> m@[j].module_type != ModuleType::Entry,
        decreases m.len() - k,
    {
        if m[k].module_type == ModuleType::Entry {
            proof {
                lemma_first_entry_at(m@, k as int);
            }
            return Some(k);
        }
        k = k + 1;
    }
    proof {
        lemma_first_entry_at(m@, k as int);
    }
    None
}

/// Everything the runtime needs to run an application.
pub struct BlocklessConfig {
    pub entry: String,
    pub nn: bool,
    pub stdio: Stdio,
    pub debug_info: bool,
    pub is_carfile: bool,
    pub opts: OptimizeOpts,
    pub feature_thread: bool,
    pub run_time: Option<u64>,
    pub nn_graph: Vec<BlsNnGraph>,
    pub stdin_args: Vec<String>,
    pub coredump: Option<String>,
    pub limited_fuel: Option<u64>,
    pub limited_time: Option<u64>,
    pub drivers: Vec<DriverConfig>,
    pub unknown_imports_trap: bool,
    pub store_limited: StoreLimited,
    pub envs: Vec<(String, String)>,
    /// Addresses (as text) to listen on, with the guest descriptor to use.
    pub tcp_listens: Vec<(String, Option<u32>)>,
    pub permisions: Vec<Permission>,
    pub dirs: Vec<(String, String)>,
    pub fs_root_path: Option<String>,
    pub modules: Vec<BlocklessModule>,
    pub runtime_logger: Option<String>,
    pub extensions_path: Option<String>,
    pub version: BlocklessConfigVersion,
    pub drivers_root_path: Option<String>,
    pub runtime_logger_level: LoggerLevel,
    pub cli_exit_with_code: bool,
    pub network_error_code: bool,
    /// The permissions grouped by schema, in the order schemas first appear.
    pub group_permisions: Vec<(String, Vec<Permission>)>,
}

/// The file name of the module to run, if it has one: the entry file for a
/// single-file configuration, the file of the first entry module otherwise.
pub open spec fn spec_entry_module(c: BlocklessConfig) -> Option<Seq<char>> {
    match c.version {
        BlocklessConfigVersion::Version0 => file_name(c.entry@),
        BlocklessConfigVersion::Version1 => match first_entry(c.modules@) {
            Some(k) => file_name(c.modules@[k].file@),
            None => None,
        },
    }
}

/// The path of the runtime log, when both the root directory and the log
/// name are set: the log name inside the root directory, a name that would
/// leave the root being replaced by its file name (by the root itself when
/// it has none, which then opens as no file).
pub open spec fn spec_runtime_logger_path(c: BlocklessConfig) -> Option<Seq<char>> {
    match (c.fs_root_path, c.runtime_logger) {
        (Some(root), Some(log)) => Some(join(root@, confined_name(log@))),
        _ => None,
    }
}

proof fn lemma_first_entry_spec(m: Seq<BlocklessModule>)
    ensures
        match first_entry(m) {
            Some(k) => 0 <= k < m.len() && m[k].module_type == ModuleType::Entry
                && forall|j: int| 0 <= j < k ==> m[j].module_type != ModuleType::Entry,
            None => forall|j: int| 0 <= j < m.len() ==> m[j].module_type != ModuleType::Entry,
        },
    decreases m.len(),
{
    if m.len() > 0 && m[0].module_type != ModuleType::Entry {
        let t = m.subrange(1, m.len() as int);
        lemma_first_entry_spec(t);
        match first_entry(t) {
            Some(k) => {
                assert forall|j: int| 0 <= j < k + 1 implies m[j].module_type != ModuleType::Entry by {
                    if j > 0 {
                        assert(m[j] == t[j - 1]);
                    }
                }
                assert(m[k + 1] == t[k]);
            },
            None => {
                assert forall|j: int| 0 <= j < m.len() implies m[j].module_type != ModuleType::Entry by {
                    if j > 0 {
                        assert(m[j] == t[j - 1]);
                    }
                }
            },
        }
    }
}

/// The module a multi-module application is started with is its first entry
/// module: the name its guest is given is the file name of a module of type
/// entry with no entry module before it, and when the application has an
/// entry module that is the name given. A single-file application is
/// started with the file name of its entry file.
pub proof fn law_entry_module_is_first_entry(c: BlocklessConfig)
    ensures
        c.version == BlocklessConfigVersion::Version0 ==> spec_entry_module(c) == file_name(c.entry@),
        c.version == BlocklessConfigVersion::Version1 ==> (spec_entry_module(c) matches Some(n) ==> exists|k: int|
            0 <= k < c.modules@.len() && c.modules@[k].module_type == ModuleType::Entry
                && (forall|j: int| 0 <= j < k ==> c.modules@[j].module_type != ModuleType::Entry)
                && file_name(#[trigger] c.modules@[k].file@) == Some(n)),
        c.version == BlocklessConfigVersion::Version1 ==> forall|k: int|
            0 <= k < c.modules@.len() && c.modules@[k].module_type == ModuleType::Entry
                && (forall|j: int| 0 <= j < k ==> c.modules@[j].module_type != ModuleType::Entry)
                ==> spec_entry_module(c) == file_name(#[trigger] c.modules@[k].file@),
        c.version == BlocklessConfigVersion::Version1 && (forall|j: int| 0 <= j < c.modules@.len()
            ==> c.modules@[j].module_type != ModuleType::Entry) ==> spec_entry_module(c) is None,
{
    lemma_first_entry_spec(c.modules@);
    if let Some(k) = first_entry(c.modules@) {
        assert forall|k2: int|
            0 <= k2 < c.modules@.len() && c.modules@[k2].module_type == ModuleType::Entry
                && (forall|j: int| 0 <= j < k2 ==> c.modules@[j].module_type != ModuleType::Entry)
                implies k2 == k by {
            if k2 < k {
                assert(c.modules@[k2].module_type != ModuleType::Entry);
            } else if k < k2 {
                assert(c.modules@[k].module_type != ModuleType::Entry);
            }
        }
    }
}

/// The runtime log is in the root directory: it has a path exactly when
/// both the root and the log name are set (the log goes to standard output
/// otherwise), and that path is the root followed by a relative name with no
/// `..` component.
pub proof fn law_runtime_log_in_root(c: BlocklessConfig)
    ensures
        spec_runtime_logger_path(c) matches Some(p) ==> c.fs_root_path matches Some(root) && is_prefix(root@, p)
            && exists|q: Seq<char>| stays_inside(q) && p == join(root@, q),
        spec_runtime_logger_path(c) is None <==> (c.fs_root_path is None || c.runtime_logger is None),
{
    if let (Some(root), Some(log)) = (c.fs_root_path, c.runtime_logger) {
        law_confined_name_stays_inside(log@);
        law_join_inside_starts_with_base(root@, confined_name(log@));
    }
}

/// Whether some permission of `perms` grants access to `url`.
pub open spec fn permitted(perms: Seq<Permission>, url: Seq<char>) -> bool {
    exists|i: int| 0 <= i < perms.len() && grants(#[trigger] perms[i].url@, url)
}

/// A copy of a list of text pairs.
pub fn clone_pairs(v: &Vec<(String, String)>) -> (r: Vec<(String, String)>)
    ensures
        r@ == v@,
{
    let mut r: Vec<(String, String)> = Vec::new();
    let mut i: usize = 0;
    while i < v.len()
        invariant
            i <= v.len(),
            r@ == v@.subrange(0, i as int),
        decreases v.len() - i,
    {
        r.push((v[i].0.clone(), v[i].1.clone()));
        i = i + 1;
        assert(r@ =~= v@.subrange(0, i as int));
    }
    assert(v@.subrange(0, v.len() as int) =~= v@);
    r
}

fn clone_listens(v: &Vec<(String, Option<u32>)>) -> (r: Vec<(String, Option<u32>)>)
    ensures
        r@ == v@,
{
    let mut r: Vec<(String, Option<u32>)> = Vec::new();
    let mut i: usize = 0;
    while i < v.len()
        invariant
            i <= v.len(),
            r@ == v@.subrange(0, i as int),
        decreases v.len() - i,
    {
        r.push((v[i].0.clone(), v[i].1));
        i = i + 1;
        assert(r@ =~= v@.subrange(0, i as int));
    }
    assert(v@.subrange(0, v.len() as int) =~= v@);
    r
}

fn clone_groups(v: &Vec<(String, Vec<Permission>)>) -> (r: Vec<(String, Vec<Permission>)>)
    ensures
        groups_view(r@) == groups_view(v@),
{
    let mut r: Vec<(String, Vec<Permission>)> = Vec::new();
    let mut i: usize = 0;
    while i < v.len()
        invariant
            i <= v.len(),
            groups_view(r@) == groups_view(v@.subrange(0, i as int)),
        decreases v.len() - i,
    {
        let members = v[i].1.clone();
        assert(members@ =~= v@[i as int].1@);
        let ghost before = r@;
        r.push((v[i].0.clone(), members));
        proof {
            assert(groups_view(before).len() == before.len());
            assert(before.len() == i);
            assert(r@ == before.push(r@[i as int]));
            let a = groups_view(r@);
            let b = groups_view(v@.subrange(0, i + 1));
            assert forall|j: int| 0 <= j < i + 1 implies a[j] == b[j] by {
                if j < i {
                    assert(groups_view(before)[j] == groups_view(v@.subrange(0, i as int))[j]);
                    assert(r@[j] == before[j]);
                    assert(v@.subrange(0, i + 1)[j] == v@.subrange(0, i as int)[j]);
                }
            }
            assert(a =~= b);
        }
        i = i + 1;
    }
    assert(v@.subrange(0, v.len() as int) =~= v@);
    r
}

impl BlocklessConfig {
    /// Whether two configurations hold the same settings.
    pub open spec fn same_as(self, o: BlocklessConfig) -> bool {
        &&& self.entry == o.entry
        &&& self.nn == o.nn
        &&& self.stdio == o.stdio
        &&& self.debug_info == o.debug_info
        &&& self.is_carfile == o.is_carfile
        &&& self.opts == o.opts
        &&& self.feature_thread == o.feature_thread
        &&& self.run_time == o.run_time
        &&& self.nn_graph@ == o.nn_graph@
        &&& self.stdin_args@ == o.stdin_args@
        &&& self.coredump == o.coredump
        &&& self.limited_fuel == o.limited_fuel
        &&& self.limited_time == o.limited_time
        &&& self.drivers@ == o.drivers@
        &&& self.unknown_imports_trap == o.unknown_imports_trap
        &&& self.store_limited == o.store_limited
        &&& self.envs@ == o.envs@
        &&& self.tcp_listens@ == o.tcp_listens@
        &&& self.permisions@ == o.permisions@
        &&& self.dirs@ == o.dirs@
        &&& self.fs_root_path == o.fs_root_path
        &&& self.modules@ == o.modules@
        &&& self.runtime_logger == o.runtime_logger
        &&& self.extensions_path == o.extensions_path
        &&& self.version == o.version
        &&& self.drivers_root_path == o.drivers_root_path
        &&& self.runtime_logger_level == o.runtime_logger_level
        &&& self.cli_exit_with_code == o.cli_exit_with_code
        &&& self.network_error_code == o.network_error_code
        &&& groups_view(self.group_permisions@) == groups_view(o.group_permisions@)
    }
}

impl Clone for BlocklessConfig {
    fn clone(&self) -> (r: Self)
        ensures
            r.same_as(*self),
    {
        BlocklessConfig {
            entry: self.entry.clone(),
            nn: self.nn,
            stdio: self.stdio.clone(),
            debug_info: self.debug_info,
            is_carfile: self.is_carfile,
            opts: self.opts,
            feature_thread: self.feature_thread,
            run_time: self.run_time,
            nn_graph: self.nn_graph.clone(),
            stdin_args: self.stdin_args.clone(),
            coredump: self.coredump.clone(),
            limited_fuel: self.limited_fuel,
            limited_time: self.limited_time,
            drivers: self.drivers.clone(),
            unknown_imports_trap: self.unknown_imports_trap,
            store_limited: self.store_limited,
            envs: clone_pairs(&self.envs),
            tcp_listens: clone_listens(&self.tcp_listens),
            permisions: self.permisions.clone(),
            dirs: clone_pairs(&self.dirs),
            fs_root_path: self.fs_root_path.clone(),
            modules: self.modules.clone(),
            runtime_logger: self.runtime_logger.clone(),
            extensions_path: self.extensions_path.clone(),
            version: self.version,
            drivers_root_path: self.drivers_root_path.clone(),
            runtime_logger_level: self.runtime_logger_level,
            cli_exit_with_code: self.cli_exit_with_code,
            network_error_code: self.network_error_code,
            group_permisions: clone_groups(&self.group_permisions),
        }
    }
}

} // verus!

verus! {

impl BlocklessConfig {
    /// Whether the settings that only the command line or the embedding
    /// program changes are as a new configuration has them: no threads, no
    /// time limit, no environment, directories, arguments, listeners or
    /// graphs, not from a car file, and the plain exit and trap behaviour.
    pub open spec fn fresh_rest(self) -> bool {
        &&& !self.nn
        &&& self.coredump is None
        &&& self.envs@.len() == 0
        &&& self.dirs@.len() == 0
        &&& !self.is_carfile
        &&& !self.feature_thread
        &&& self.limited_time is None
        &&& self.tcp_listens@.len() == 0
        &&& self.stdin_args@.len() == 0
        &&& !self.cli_exit_with_code
        &&& !self.network_error_code
        &&& !self.unknown_imports_trap
        &&& self.nn_graph@.len() == 0
    }

    pub fn new(entry: &str) -> (r: BlocklessConfig)
        ensures
            r.entry@ == entry@,
            r.fresh_rest(),
            r.run_time is None,
            !r.debug_info,
            r.fs_root_path is None,
            r.drivers@.len() == 0,
            r.modules@.len() == 0,
            r.stdio.stdin matches Stdin::Fixed(s) && s@.len() == 0,
            r.stdio.stdout is Inherit,
            r.stdio.stderr is Inherit,
            r.runtime_logger is None,
            r.limited_fuel is None,
            r.store_limited == StoreLimited::default_spec(),
            r.extensions_path is None,
            r.drivers_root_path is None,
            r.permisions@.len() == 0,
            r.group_permisions@.len() == 0,
            r.opts.is_unset(),
            r.runtime_logger_level == LoggerLevel::WARN,
            r.version == BlocklessConfigVersion::Version0,
    {
        BlocklessConfig {
            nn: false,
            run_time: None,
            coredump: None,
            envs: Vec::new(),
            debug_info: false,
            dirs: Vec::new(),
            is_carfile: false,
            fs_root_path: None,
            drivers: Vec::new(),
            modules: Vec::new(),
            stdio: Stdio::default(),
            runtime_logger: None,
            feature_thread: false,
            limited_fuel: None,
            limited_time: None,
            tcp_listens: Vec::new(),
            stdin_args: Vec::new(),
            cli_exit_with_code: false,
            network_error_code: false,
            store_limited: StoreLimited::default(),
            extensions_path: None,
            drivers_root_path: None,
            unknown_imports_trap: false,
            nn_graph: Vec::new(),
            entry: crate::text::string_from(entry),
            permisions: Vec::new(),
            group_permisions: Vec::new(),
            opts: OptimizeOpts::default(),
            runtime_logger_level: LoggerLevel::WARN,
            version: BlocklessConfigVersion::Version0,
        }
    }

    pub fn version(&self) -> (r: BlocklessConfigVersion)
        ensures
            r == self.version,
    {
        self.version
    }

    pub fn feature_thread(&self) -> (r: bool)
        ensures
            r == self.feature_thread,
    {
        self.feature_thread
    }

    pub fn set_feature_thread(&mut self, t: bool)
        ensures
            *final(self) == (BlocklessConfig { feature_thread: t, ..*old(self) }),
    {
        self.feature_thread = t;
    }

    pub fn envs_ref(&self) -> (r: &Vec<(String, String)>)
        ensures
            r == &self.envs,
    {
        &self.envs
    }

    pub fn stdin_args_ref(&self) -> (r: &Vec<String>)
        ensures
            r == &self.stdin_args,
    {
        &self.stdin_args
    }

    pub fn set_envs(&mut self, envs: Vec<(String, String)>)
        ensures
            *final(self) == (BlocklessConfig { envs: envs, ..*old(self) }),
    {
        self.envs = envs;
    }

    pub fn set_stdin_args(&mut self, args: Vec<String>)
        ensures
            *final(self) == (BlocklessConfig { stdin_args: args, ..*old(self) }),
    {
        self.stdin_args = args;
    }

    pub fn set_map_dirs(&mut self, dirs: Vec<(String, String)>)
        ensures
            *final(self) == (BlocklessConfig { dirs: dirs, ..*old(self) }),
    {
        self.dirs = dirs;
    }

    pub fn set_entry(&mut self, entry: String)
        ensures
            *final(self) == (BlocklessConfig { entry: entry, ..*old(self) }),
    {
        self.entry = entry;
    }

    /// The file name of the module to run.
    pub fn entry_module(&self) -> (r: Option<String>)
        ensures
            match r {
                Some(s) => spec_entry_module(*self) == Some(s@),
                None => spec_entry_module(*self) is None,
            },
    {
        match self.version {
            BlocklessConfigVersion::Version0 => path_file_name(self.entry.as_str()),
            BlocklessConfigVersion::Version1 => match find_entry_module(&self.modules) {
                Some(k) => path_file_name(self.modules[k].file.as_str()),
                None => None,
            },
        }
    }

    pub fn set_version(&mut self, version: BlocklessConfigVersion)
        ensures
            *final(self) == (BlocklessConfig { version: version, ..*old(self) }),
    {
        self.version = version;
    }

    pub fn run_time(&self) -> (r: Option<u64>)
        ensures
            r == self.run_time,
    {
        self.run_time
    }

    pub fn set_run_time(&mut self, run_time: Option<u64>)
        ensures
            *final(self) == (BlocklessConfig { run_time: run_time, ..*old(self) }),
    {
        self.run_time = run_time;
    }

    pub fn get_debug_info(&self) -> (r: bool)
        ensures
            r == self.debug_info,
    {
        self.debug_info
    }

    pub fn set_debug_info(&mut self, b: bool)
        ensures
            *final(self) == (BlocklessConfig { debug_info: b, ..*old(self) }),
    {
        self.debug_info = b;
    }

    pub fn entry_ref(&self) -> (r: &str)
        ensures
            r@ == self.entry@,
    {
        self.entry.as_str()
    }

    pub fn get_runtime_logger_level(&self) -> (r: LoggerLevel)
        ensures
            r == self.runtime_logger_level,
    {
        self.runtime_logger_level
    }

    pub fn set_runtime_logger_level(&mut self, level: LoggerLevel)
        ensures
            *final(self) == (BlocklessConfig { runtime_logger_level: level, ..*old(self) }),
    {
        self.runtime_logger_level = level;
    }

    pub fn set_fs_root_path(&mut self, r: Option<String>)
        ensures
            *final(self) == (BlocklessConfig { fs_root_path: r, ..*old(self) }),
    {
        self.fs_root_path = r;
    }

    pub fn permisions_ref(&self) -> (r: &Vec<Permission>)
        ensures
            r == &self.permisions,
    {
        &self.permisions
    }

    pub fn set_runtime_logger(&mut self, l: Option<String>)
        ensures
            *final(self) == (BlocklessConfig { runtime_logger: l, ..*old(self) }),
    {
        self.runtime_logger = l;
    }

    /// Sets the permissions, and their grouping by schema.
    pub fn set_permisions(&mut self, perms: Vec<Permission>)
        ensures
            final(self).permisions == perms,
            groups_view(final(self).group_permisions@) == group_by_schema(perms@),
            *final(self) == (BlocklessConfig {
                permisions: final(self).permisions,
                group_permisions: final(self).group_permisions,
                ..*old(self)
            }),
    {
        let g = group_permissions(&perms);
        self.permisions = perms;
        self.group_permisions = g;
    }

    /// The permissions of the given schema, if any.
    pub fn group_permisions_get(&self, schema: &str) -> (r: Option<&Vec<Permission>>)
        ensures
            match find_group(groups_view(self.group_permisions@), schema@) {
                Some(k) => r matches Some(v) && v@ == groups_view(self.group_permisions@)[k].1,
                None => r is None,
            },
    {
        match find_group_exec(&self.group_permisions, schema) {
            Some(k) => Some(&self.group_permisions[k].1),
            None => None,
        }
    }

    pub fn fs_root_path_ref(&self) -> (r: Option<&str>)
        ensures
            match self.fs_root_path {
                Some(s) => r matches Some(x) && x@ == s@,
                None => r is None,
            },
    {
        match &self.fs_root_path {
            Some(s) => Some(s.as_str()),
            None => None,
        }
    }

    pub fn drivers_root_path_ref(&self) -> (r: Option<&str>)
        ensures
            match self.drivers_root_path {
                Some(s) => r matches Some(x) && x@ == s@,
                None => r is None,
            },
    {
        match &self.drivers_root_path {
            Some(s) => Some(s.as_str()),
            None => None,
        }
    }

    pub fn set_drivers_root_path(&mut self, r: Option<String>)
        ensures
            *final(self) == (BlocklessConfig { drivers_root_path: r, ..*old(self) }),
    {
        self.drivers_root_path = r;
    }

    pub fn set_is_carfile(&mut self, is_carfile: bool)
        ensures
            *final(self) == (BlocklessConfig { is_carfile: is_carfile, ..*old(self) }),
    {
        self.is_carfile = is_carfile;
    }

    pub fn get_is_carfile(&self) -> (r: bool)
        ensures
            r == self.is_carfile,
    {
        self.is_carfile
    }

    pub fn add_driver(&mut self, d_conf: DriverConfig)
        ensures
            final(self).drivers@ == old(self).drivers@.push(d_conf),
            *final(self) == (BlocklessConfig { drivers: final(self).drivers, ..*old(self) }),
    {
        self.drivers.push(d_conf);
    }

    pub fn drivers_ref(&self) -> (r: &[DriverConfig])
        ensures
            r@ == self.drivers@,
    {
        self.drivers.as_slice()
    }

    /// Sets where the guest's standard output goes; a file only takes effect
    /// under a root directory.
    pub fn stdout(&mut self, stdout: Stdout)
        ensures
            *final(self) == (BlocklessConfig {
                stdio: Stdio { stdout: stdout, ..old(self).stdio },
                ..*old(self)
            }),
    {
        self.stdio.stdout = stdout;
    }

    /// The path of the runtime log: the log file name under the root
    /// directory, when both are set.
    pub fn runtime_logger_path(&self) -> (r: Option<String>)
        ensures
            match r {
                Some(p) => spec_runtime_logger_path(*self) == Some(p@),
                None => spec_runtime_logger_path(*self) is None,
            },
    {
        match (&self.fs_root_path, &self.runtime_logger) {
            (Some(root), Some(log)) => {
                let q = confine_name(log.as_str());
                Some(path_join(root.as_str(), q.as_str()))
            },
            _ => None,
        }
    }

    pub fn modules_ref(&self) -> (r: Vec<&BlocklessModule>)
        ensures
            r@.len() == self.modules@.len(),
            forall|i: int| 0 <= i < r@.len() ==> *r@[i] == self.modules@[i],
    {
        let mut r: Vec<&BlocklessModule> = Vec::new();
        let mut i: usize = 0;
        while i < self.modules.len()
            invariant
                i <= self.modules@.len(),
                r@.len() == i,
                forall|j: int| 0 <= j < i ==> *r@[j] == self.modules@[j],
            decreases self.modules@.len() - i,
        {
            r.push(&self.modules[i]);
            i = i + 1;
        }
        r
    }

    pub fn add_module(&mut self, module: BlocklessModule)
        ensures
            final(self).modules@ == old(self).modules@.push(module),
            *final(self) == (BlocklessConfig { modules: final(self).modules, ..*old(self) }),
    {
        self.modules.push(module);
    }

    /// Makes `_start` the entry function and returns it.
    pub fn reset_modules_model_entry(&mut self) -> (r: String)
        ensures
            final(self).entry@ == ENTRY@,
            r@ == ENTRY@,
            *final(self) == (BlocklessConfig { entry: final(self).entry, ..*old(self) }),
    {
        self.entry = crate::text::string_from(ENTRY);
        self.entry.clone()
    }

    pub fn set_modules(&mut self, modules: Vec<BlocklessModule>)
        ensures
            *final(self) == (BlocklessConfig { modules: modules, ..*old(self) }),
    {
        self.modules = modules;
    }

    /// Makes the guest read `stdin` as its standard input.
    pub fn fixed_stdin(&mut self, stdin: String)
        ensures
            *final(self) == (BlocklessConfig {
                stdio: Stdio { stdin: Stdin::Fixed(stdin), ..old(self).stdio },
                ..*old(self)
            }),
    {
        self.stdio.stdin = Stdin::Fixed(stdin);
    }

    pub fn extensions_path(&mut self, extensions_path: Option<String>)
        ensures
            *final(self) == (BlocklessConfig { extensions_path: extensions_path, ..*old(self) }),
    {
        self.extensions_path = extensions_path;
    }

    pub fn drivers(&mut self, drvs: Vec<DriverConfig>)
        ensures
            *final(self) == (BlocklessConfig { drivers: drvs, ..*old(self) }),
    {
        self.drivers = drvs;
    }

    pub fn is_fixed_stdin(&self) -> (r: bool)
        ensures
            r == (self.stdio.stdin is Fixed),
    {
        match self.stdio.stdin {
            Stdin::Fixed(_) => true,
            _ => false,
        }
    }

    pub fn stdout_ref(&self) -> (r: &Stdout)
        ensures
            *r == self.stdio.stdout,
    {
        &self.stdio.stdout
    }

    pub fn stderr_ref(&self) -> (r: &Stderr)
        ensures
            *r == self.stdio.stderr,
    {
        &self.stdio.stderr
    }

    pub fn fix_stdin_ref(&self) -> (r: Option<&str>)
        ensures
            match self.stdio.stdin {
                Stdin::Fixed(s) => r matches Some(x) && x@ == s@,
                Stdin::Inherit => r is None,
            },
    {
        match &self.stdio.stdin {
            Stdin::Fixed(s) => Some(s.as_str()),
            _ => None,
        }
    }

    pub fn limited_time(&mut self, time: Option<u64>)
        ensures
            *final(self) == (BlocklessConfig { limited_time: time, ..*old(self) }),
    {
        self.limited_time = time;
    }

    pub fn get_limited_time(&self) -> (r: Option<u64>)
        ensures
            r == self.limited_time,
    {
        self.limited_time
    }

    pub fn limited_fuel(&mut self, fuel: Option<u64>)
        ensures
            *final(self) == (BlocklessConfig { limited_fuel: fuel, ..*old(self) }),
    {
        self.limited_fuel = fuel;
    }

    pub fn get_limited_fuel(&self) -> (r: Option<u64>)
        ensures
            r == self.limited_fuel,
    {
        self.limited_fuel
    }

    /// Sets the limit on the number of memories.
    pub fn limited_memory(&mut self, m: Option<u64>)
        ensures
            *final(self) == (BlocklessConfig {
                store_limited: StoreLimited {
                    max_memories: match m {
                        Some(x) => Some(x as usize),
                        None => None,
                    },
                    ..old(self).store_limited
                },
                ..*old(self)
            }),
    {
        self.store_limited.max_memories = match m {
            Some(x) => Some(x as usize),
            None => None,
        };
    }

    /// The limit on the number of memories.
    pub fn get_limited_memory(&self) -> (r: Option<u64>)
        ensures
            r == match self.store_limited.max_memories {
                Some(x) => Some(x as u64),
                None => None,
            },
    {
        match self.store_limited.max_memories {
            Some(x) => Some(x as u64),
            None => None,
        }
    }

    /// Whether some permission grants access to `url`.
    pub fn resource_permission(&self, url: &str) -> (r: bool)
        ensures
            r == permitted(self.permisions@, url@),
    {
        let mut i: usize = 0;
        while i < self.permisions.len()
            invariant
                i <= self.permisions@.len(),
                forall|j: int| 0 <= j < i ==> !grants(#[trigger] self.permisions@[j].url@, url@),
            decreases self.permisions@.len() - i,
        {
            if self.permisions[i].is_permision(url) {
                return true;
            }
            i = i + 1;
        }
        false
    }

    pub fn store_limited(&self) -> (r: &StoreLimited)
        ensures
            *r == self.store_limited,
    {
        &self.store_limited
    }
}

impl StoreLimited {
    /// No limit set.
    pub open spec fn default_spec() -> StoreLimited {
        StoreLimited {
            max_memory_size: None,
            max_table_elements: None,
            max_instances: None,
            max_tables: None,
            max_memories: None,
            trap_on_grow_failure: None,
        }
    }
}

} // verus!
