use vstd::prelude::*;
use crate::config::{BlocklessConfig, StoreLimited, Stdin, Stdout, Stderr, spec_entry_module};
use crate::options::{OptLevel, OptimizeOpts};
use crate::path::{join, path_join, confined_name, confine_name, stays_inside, law_confined_name_stays_inside, law_join_inside_starts_with_base};
use crate::text::is_prefix;

verus! {

/// The limits a store is built with.
#[derive(Clone, Copy, Debug, PartialEq, Eq, Structural)]
pub struct StoreLimitsPlan {
    pub memory_size: Option<usize>,
    pub instances: Option<usize>,
    pub table_elements: Option<usize>,
    pub memories: Option<usize>,
    pub trap_on_grow_failure: Option<bool>,
}

/// The limits a store is built with: each configured limit in turn, where
/// the table count, when set, takes the place of the table element limit.
pub open spec fn store_limits_of(s: StoreLimited) -> StoreLimitsPlan {
    StoreLimitsPlan {
        memory_size: s.max_memory_size,
        instances: s.max_instances,
        table_elements: match s.max_tables {
            Some(t) => Some(t as usize),
            None => match s.max_table_elements {
                Some(e) => Some(e as usize),
                None => None,
            },
        },
        memories: s.max_memories,
        trap_on_grow_failure: s.trap_on_grow_failure,
    }
}

/// Where a guest output stream goes.
#[derive(Debug)]
pub enum OutputPlan {
    /// The runtime's own stream.
    Inherit,
    /// Nowhere.
    Null,
    /// The file at this path, opened to append; the runtime's own stream
    /// when it cannot be opened.
    File(String),
}

/// Where a configured output stream goes: a named file in the root
/// directory, placed under a name that stays inside it; the runtime's
/// stream without a root directory.
pub open spec fn output_plan_of(name: Option<Seq<char>>, inherit: bool, root: Option<Seq<char>>, p: OutputPlan) -> bool {
    match name {
        Some(f) => match root {
            Some(r) => p matches OutputPlan::File(x) && x@ == join(r, confined_name(f)),
            None => p is Inherit,
        },
        None => if inherit {
            p is Inherit
        } else {
            p is Null
        },
    }
}

/// A guest output stream goes to a file only inside the root directory: the
/// file's path is the root followed by a relative name with no `..`
/// component.
pub proof fn law_output_file_in_root(name: Option<Seq<char>>, inherit: bool, root: Option<Seq<char>>, p: OutputPlan)
    requires
        output_plan_of(name, inherit, root, p),
    ensures
        p matches OutputPlan::File(x) ==> root matches Some(r) && is_prefix(r, x@)
            && exists|q: Seq<char>| stays_inside(q) && x@ == join(r, q),
{
    if let (Some(f), Some(r)) = (name, root) {
        law_confined_name_stays_inside(f);
        law_join_inside_starts_with_base(r, confined_name(f));
    }
}

/// The file an output stream names, if it names one.
pub open spec fn stdout_file(s: Stdout) -> Option<Seq<char>> {
    match s {
        Stdout::FileName(f) => Some(f@),
        _ => None,
    }
}

/// The file an error stream names, if it names one.
pub open spec fn stderr_file(s: Stderr) -> Option<Seq<char>> {
    match s {
        Stderr::FileName(f) => Some(f@),
        _ => None,
    }
}

/// The text of an optional string.
pub open spec fn opt_text(o: Option<String>) -> Option<Seq<char>> {
    match o {
        Some(s) => Some(s@),
        None => None,
    }
}

/// Where a guest output stream goes, given the root directory.
fn plan_output(file: Option<&String>, inherit: bool, root: Option<&String>) -> (r: OutputPlan)
    ensures
        output_plan_of(
            match file {
                Some(f) => Some(f@),
                None => None,
            },
            inherit,
            match root {
                Some(x) => Some(x@),
                None => None,
            },
            r,
        ),
{
    match file {
        Some(f) => match root {
            Some(r) => {
                let q = confine_name(f.as_str());
                OutputPlan::File(path_join(r.as_str(), q.as_str()))
            },
            None => OutputPlan::Inherit,
        },
        None => if inherit {
            OutputPlan::Inherit
        } else {
            OutputPlan::Null
        },
    }
}

/// The streams the guest is given: its output, its error output, and
/// whether it reads the runtime's input.
pub struct StdioPlan {
    pub stdout: OutputPlan,
    pub stderr: OutputPlan,
    pub inherit_stdin: bool,
}

/// Settings of the pooling allocator.
#[derive(Clone, Copy, Debug, PartialEq, Eq, Structural)]
pub struct PoolingPlan {
    pub linear_memory_keep_resident: Option<usize>,
    pub table_keep_resident: Option<usize>,
    pub total_core_instances: Option<u32>,
    pub total_component_instances: Option<u32>,
    pub total_memories: Option<u32>,
    pub total_tables: Option<u32>,
    pub table_elements: Option<usize>,
    pub max_core_instance_size: Option<usize>,
    pub max_memory_size: Option<usize>,
}

/// Settings of the engine that compiles and runs the guest.
#[derive(Clone, Copy, Debug, PartialEq, Eq, Structural)]
pub struct EnginePlan {
    pub static_memory_maximum_size: Option<u64>,
    pub static_memory_forced: Option<bool>,
    pub static_memory_guard_size: Option<u64>,
    pub dynamic_memory_guard_size: Option<u64>,
    pub dynamic_memory_reserved_for_growth: Option<u64>,
    pub guard_before_linear_memory: Option<bool>,
    pub table_lazy_init: Option<bool>,
    pub cranelift_opt_level: Option<OptLevel>,
    /// The pooling allocator, used when any tuning option is set.
    pub pooling: Option<PoolingPlan>,
    pub debug_info: bool,
    pub consume_fuel: bool,
    pub async_support: bool,
    pub wasm_threads: bool,
}

/// The pooling settings the tuning options give.
pub open spec fn pooling_of(o: OptimizeOpts) -> PoolingPlan {
    PoolingPlan {
        linear_memory_keep_resident: o.pooling_memory_keep_resident,
        table_keep_resident: o.pooling_table_keep_resident,
        total_core_instances: o.pooling_total_core_instances,
        total_component_instances: o.pooling_total_component_instances,
        total_memories: o.pooling_total_memories,
        total_tables: o.pooling_total_tables,
        table_elements: o.pooling_table_elements,
        max_core_instance_size: o.pooling_max_core_instance_size,
        max_memory_size: o.pooling_max_memory_size,
    }
}

/// The engine settings a configuration gives: the memory options as set;
/// with any tuning option set, the optimisation level and the pooling
/// allocator; debug information as configured; fuel metering with a fuel
/// limit; asynchronous calls always; threads when enabled.
pub open spec fn engine_plan_of(c: BlocklessConfig) -> EnginePlan {
    EnginePlan {
        static_memory_maximum_size: c.opts.static_memory_maximum_size,
        static_memory_forced: c.opts.static_memory_forced,
        static_memory_guard_size: c.opts.static_memory_guard_size,
        dynamic_memory_guard_size: c.opts.dynamic_memory_guard_size,
        dynamic_memory_reserved_for_growth: c.opts.dynamic_memory_reserved_for_growth,
        guard_before_linear_memory: c.opts.guard_before_linear_memory,
        table_lazy_init: c.opts.table_lazy_init,
        cranelift_opt_level: if c.opts.is_unset() {
            None
        } else {
            c.opts.opt_level
        },
        pooling: if c.opts.is_unset() {
            None
        } else {
            Some(pooling_of(c.opts))
        },
        debug_info: c.debug_info,
        consume_fuel: c.limited_fuel is Some,
        async_support: true,
        wasm_threads: c.feature_thread,
    }
}

/// The engine is built as configured: with debug information exactly when
/// the configuration asks for it, metering fuel exactly when a fuel limit is
/// set, with threads exactly when the thread feature is on, with each memory
/// setting as configured, and with the pooling allocator and an optimization
/// level only when some tuning option is set.
pub proof fn law_engine_plan_follows_config(c: BlocklessConfig)
    ensures
        engine_plan_of(c).debug_info == c.debug_info,
        engine_plan_of(c).consume_fuel == (c.limited_fuel is Some),
        engine_plan_of(c).wasm_threads == c.feature_thread,
        engine_plan_of(c).static_memory_maximum_size == c.opts.static_memory_maximum_size,
        engine_plan_of(c).static_memory_forced == c.opts.static_memory_forced,
        engine_plan_of(c).static_memory_guard_size == c.opts.static_memory_guard_size,
        engine_plan_of(c).dynamic_memory_guard_size == c.opts.dynamic_memory_guard_size,
        engine_plan_of(c).dynamic_memory_reserved_for_growth == c.opts.dynamic_memory_reserved_for_growth,
        engine_plan_of(c).guard_before_linear_memory == c.opts.guard_before_linear_memory,
        engine_plan_of(c).table_lazy_init == c.opts.table_lazy_init,
        engine_plan_of(c).pooling is Some <==> !c.opts.is_unset(),
        c.opts.is_unset() ==> engine_plan_of(c).cranelift_opt_level is None,
        !c.opts.is_unset() ==> engine_plan_of(c).cranelift_opt_level == c.opts.opt_level,
{
}

/// The descriptors the listeners get, from the first free one `start`: a
/// listener that names its descriptor gets it, unless it is below `start`,
/// which is refused with that descriptor; the others take the next free one
/// in turn.
pub open spec fn listen_fds_of(start: int, fds: Seq<Option<u32>>) -> Result<Seq<int>, u32>
    decreases fds.len(),
{
    if fds.len() == 0 {
        Ok(seq![])
    } else {
        match fds[0] {
            Some(fd) => if fd < start {
                Err(fd)
            } else {
                match listen_fds_of(start, fds.subrange(1, fds.len() as int)) {
                    Ok(rest) => Ok(seq![fd as int] + rest),
                    Err(e) => Err(e),
                }
            },
            None => match listen_fds_of(start + 1, fds.subrange(1, fds.len() as int)) {
                Ok(rest) => Ok(seq![start] + rest),
                Err(e) => Err(e),
            },
        }
    }
}

/// The first descriptor free for listeners: after the standard streams,
/// the mapped directories and the root directory.
pub open spec fn first_listen_fd(dirs: nat, has_root: bool) -> int {
    3 + dirs + if has_root {
        1int
    } else {
        0int
    }
}

/// The descriptors the listeners get from the first free one `start`.
pub fn assign_listen_fds(start: u32, listens: &Vec<(String, Option<u32>)>) -> (r: Result<Vec<u32>, u32>)
    requires
        start as int + listens@.len() <= u32::MAX,
    ensures
        match listen_fds_of(start as int, listens@.map_values(|l: (String, Option<u32>)| l.1)) {
            Ok(s) => r matches Ok(v) && v@.map_values(|x: u32| x as int) == s,
            Err(e) => r == Err::<Vec<u32>, u32>(e),
        },
{
    let ghost fds = listens@.map_values(|l: (String, Option<u32>)| l.1);
    let mut out: Vec<u32> = Vec::new();
    let mut next: u32 = start;
    let mut i: usize = 0;
    assert(fds.subrange(0, fds.len() as int) =~= fds);
    while i < listens.len()
        invariant
            i <= listens@.len(),
            fds == listens@.map_values(|l: (String, Option<u32>)| l.1),
            start <= next,
            next as int <= start as int + i,
            start as int + listens@.len() <= u32::MAX,
            match listen_fds_of(start as int, fds) {
                Ok(s) => match listen_fds_of(next as int, fds.subrange(i as int, fds.len() as int)) {
                    Ok(t) => s == out@.map_values(|x: u32| x as int) + t,
                    Err(_) => false,
                },
                Err(e) => listen_fds_of(next as int, fds.subrange(i as int, fds.len() as int)) == Err::<Seq<int>, u32>(e),
            },
        decreases listens@.len() - i,
    {
        let ghost rest = fds.subrange(i as int, fds.len() as int);
        assert(rest.subrange(1, rest.len() as int) =~= fds.subrange(i + 1, fds.len() as int));
        assert(rest[0] == listens@[i as int].1);
        let ghost before = out@;
        match listens[i].1 {
            Some(fd) => {
                if fd < next {
                    return Err(fd);
                }
                out.push(fd);
                proof {
                    assert(out@.map_values(|x: u32| x as int) =~= before.map_values(|x: u32| x as int).push(fd as int));
                    match listen_fds_of(next as int, fds.subrange(i + 1, fds.len() as int)) {
                        Ok(t) => {
                            assert(seq![fd as int] + t =~= seq![fd as int] + t);
                            assert(before.map_values(|x: u32| x as int) + (seq![fd as int] + t) =~= before.map_values(|x: u32| x as int).push(fd as int) + t);
                        },
                        Err(_) => {},
                    }
                }
            },
            None => {
                out.push(next);
                proof {
                    assert(out@.map_values(|x: u32| x as int) =~= before.map_values(|x: u32| x as int).push(next as int));
                    match listen_fds_of(next + 1, fds.subrange(i + 1, fds.len() as int)) {
                        Ok(t) => {
                            assert(before.map_values(|x: u32| x as int) + (seq![next as int] + t) =~= before.map_values(|x: u32| x as int).push(next as int) + t);
                        },
                        Err(_) => {},
                    }
                }
                next = next + 1;
            },
        }
        i = i + 1;
    }
    proof {
        assert(fds.subrange(i as int, fds.len() as int) =~= Seq::<Option<u32>>::empty());
        assert(out@.map_values(|x: u32| x as int) + Seq::<int>::empty() =~= out@.map_values(|x: u32| x as int));
    }
    Ok(out)
}

impl BlocklessConfig {
    /// The limits the store is built with.
    pub fn store_limits(&self) -> (r: StoreLimitsPlan)
        ensures
            r == store_limits_of(self.store_limited),
    {
        let s = &self.store_limited;
        let mut table_elements: Option<usize> = None;
        if let Some(m) = s.max_table_elements {
            table_elements = Some(m as usize);
        }
        if let Some(m) = s.max_tables {
            table_elements = Some(m as usize);
        }
        StoreLimitsPlan {
            memory_size: s.max_memory_size,
            instances: s.max_instances,
            table_elements,
            memories: s.max_memories,
            trap_on_grow_failure: s.trap_on_grow_failure,
        }
    }

    /// The streams the guest is given.
    pub fn preview1_set_stdio(&self) -> (r: StdioPlan)
        ensures
            output_plan_of(stdout_file(self.stdio.stdout), self.stdio.stdout is Inherit, opt_text(self.fs_root_path), r.stdout),
            output_plan_of(stderr_file(self.stdio.stderr), self.stdio.stderr is Inherit, opt_text(self.fs_root_path), r.stderr),
            r.inherit_stdin == (self.stdio.stdin is Inherit),
    {
        let root = match &self.fs_root_path {
            Some(r) => Some(r),
            None => None,
        };
        let stdout = match &self.stdio.stdout {
            Stdout::FileName(f) => plan_output(Some(f), false, root),
            Stdout::Inherit => plan_output(None, true, root),
            Stdout::Null => plan_output(None, false, root),
        };
        let stderr = match &self.stdio.stderr {
            Stderr::FileName(f) => plan_output(Some(f), false, root),
            Stderr::Inherit => plan_output(None, true, root),
            Stderr::Null => plan_output(None, false, root),
        };
        let inherit_stdin = match self.stdio.stdin {
            Stdin::Inherit => true,
            _ => false,
        };
        StdioPlan { stdout, stderr, inherit_stdin }
    }

    /// The arguments the guest is started with: the name of its module
    /// file, then the configured arguments; `None` when there is no module
    /// file name.
    pub fn guest_args(&self) -> (r: Option<Vec<String>>)
        ensures
            match spec_entry_module(*self) {
                Some(m) => r matches Some(v) && v@.map_values(|s: String| s@) == seq![m] + self.stdin_args@.map_values(|s: String| s@),
                None => r is None,
            },
    {
        let entry_module = match self.entry_module() {
            Some(m) => m,
            None => return None,
        };
        let ghost m = entry_module@;
        let mut args: Vec<String> = Vec::new();
        args.push(entry_module);
        assert(args@.map_values(|s: String| s@) =~= seq![m] + self.stdin_args@.subrange(0, 0).map_values(|s: String| s@));
        let mut i: usize = 0;
        while i < self.stdin_args.len()
            invariant
                i <= self.stdin_args@.len(),
                args@.map_values(|s: String| s@) == seq![m] + self.stdin_args@.subrange(0, i as int).map_values(|s: String| s@),
            decreases self.stdin_args@.len() - i,
        {
            let ghost before = args@;
            let a = self.stdin_args[i].clone();
            args.push(a);
            assert(args@.map_values(|s: String| s@) =~= before.map_values(|s: String| s@).push(self.stdin_args@[i as int]@));
            assert(self.stdin_args@.subrange(0, i + 1).map_values(|s: String| s@) =~= self.stdin_args@.subrange(0, i as int).map_values(|s: String| s@).push(self.stdin_args@[i as int]@));
            i = i + 1;
        }
        assert(self.stdin_args@.subrange(0, i as int) =~= self.stdin_args@);
        Some(args)
    }

    /// The engine settings the configuration gives.
    pub fn preview1_engine_config(&self) -> (r: EnginePlan)
        ensures
            r == engine_plan_of(*self),
            r.debug_info == self.debug_info,
            r.consume_fuel == (self.limited_fuel is Some),
            r.wasm_threads == self.feature_thread,
            r.pooling is Some <==> !self.opts.is_unset(),
    {
        let tuned = !self.opts.is_empty();
        let pooling = if tuned {
            Some(PoolingPlan {
                linear_memory_keep_resident: self.opts.pooling_memory_keep_resident,
                table_keep_resident: self.opts.pooling_table_keep_resident,
                total_core_instances: self.opts.pooling_total_core_instances,
                total_component_instances: self.opts.pooling_total_component_instances,
                total_memories: self.opts.pooling_total_memories,
                total_tables: self.opts.pooling_total_tables,
                table_elements: self.opts.pooling_table_elements,
                max_core_instance_size: self.opts.pooling_max_core_instance_size,
                max_memory_size: self.opts.pooling_max_memory_size,
            })
        } else {
            None
        };
        EnginePlan {
            static_memory_maximum_size: self.opts.static_memory_maximum_size,
            static_memory_forced: self.opts.static_memory_forced,
            static_memory_guard_size: self.opts.static_memory_guard_size,
            dynamic_memory_guard_size: self.opts.dynamic_memory_guard_size,
            dynamic_memory_reserved_for_growth: self.opts.dynamic_memory_reserved_for_growth,
            guard_before_linear_memory: self.opts.guard_before_linear_memory,
            table_lazy_init: self.opts.table_lazy_init,
            cranelift_opt_level: if tuned {
                self.opts.opt_level
            } else {
                None
            },
            pooling,
            debug_info: self.get_debug_info(),
            consume_fuel: self.get_limited_fuel().is_some(),
            async_support: true,
            wasm_threads: self.feature_thread(),
        }
    }

    /// Where a core dump of a trap is written, with the name of the module
    /// it is of: only when a core dump path is configured and the run
    /// trapped; the module is the first configured one.
    pub fn core_dump_target(&self, is_trap: bool) -> (r: Option<(String, String)>)
        requires
            self.coredump is Some && is_trap ==> self.modules@.len() > 0,
        ensures
            match self.coredump {
                Some(p) => if is_trap {
                    r matches Some(t) && t.0@ == p@ && t.1@ == self.modules@[0].file@
                } else {
                    r is None
                },
                None => r is None,
            },
    {
        let path = match &self.coredump {
            Some(p) => p,
            None => return None,
        };
        if !is_trap {
            return None;
        }
        Some((path.clone(), self.modules[0].file.clone()))
    }
}

} // verus!
