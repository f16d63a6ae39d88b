use vstd::prelude::*;
use crate::text::{chars_of, str_eq, is_prefix};

verus! {

/// Errors of reading a tuning option.
#[derive(Debug, Clone, Copy, PartialEq, Eq, Structural)]
pub enum OptionError {
    /// The value is not a number in range (decimal, or hexadecimal after `0x`).
    InvalidNumber,
    /// The value is not one of `n`, `s`, `ss`.
    UnknownOptLevel,
    /// The value is not one of `y`, `yes`, `true`, `n`, `no`, `false`.
    UnknownBool,
    /// The value is not one of `backtracking`, `single-pass`.
    UnknownRegalloc,
    /// There is no option of the given name.
    UnknownOption,
}

/// The description of an error.
pub open spec fn option_error_text(e: OptionError) -> Seq<char> {
    match e {
        OptionError::InvalidNumber => "invalid number"@,
        OptionError::UnknownOptLevel => "unknown optimization level, level must be n:None, s:Speed, ss:SpeedAndSize"@,
        OptionError::UnknownBool => "unknown boolean flag, only yes,no,<nothing> accepted"@,
        OptionError::UnknownRegalloc => "unknown regalloc algorithm, only backtracking,single-pass accepted"@,
        OptionError::UnknownOption => "there is no optimize argument"@,
    }
}

impl OptionError {
    /// A description of the error.
    pub fn message(&self) -> (r: &'static str)
        ensures
            r@ == option_error_text(*self),
    {
        match self {
            OptionError::InvalidNumber => "invalid number",
            OptionError::UnknownOptLevel => "unknown optimization level, level must be n:None, s:Speed, ss:SpeedAndSize",
            OptionError::UnknownBool => "unknown boolean flag, only yes,no,<nothing> accepted",
            OptionError::UnknownRegalloc => "unknown regalloc algorithm, only backtracking,single-pass accepted",
            OptionError::UnknownOption => "there is no optimize argument",
        }
    }
}

/// The value of a digit character in the given radix, if it is one.
pub open spec fn digit_value(c: char, radix: nat) -> Option<nat> {
    let v: int = if '0' <= c && c <= '9' {
        c as int - '0' as int
    } else if 'a' <= c && c <= 'z' {
        c as int - 'a' as int + 10
    } else if 'A' <= c && c <= 'Z' {
        c as int - 'A' as int + 10
    } else {
        radix as int
    };
    if v < radix {
        Some(v as nat)
    } else {
        None
    }
}

/// The number that a string of digits denotes, if every character is a digit.
pub open spec fn digits_value(s: Seq<char>, radix: nat) -> Option<nat>
    decreases s.len(),
{
    if s.len() == 0 {
        Some(0)
    } else {
        match (digits_value(s.drop_last(), radix), digit_value(s.last(), radix)) {
            (Some(a), Some(d)) => Some(a * radix + d),
            _ => None,
        }
    }
}

/// The unsigned number that `s` denotes: digits in the radix, optionally after
/// one `+`, at least one digit, and no more than `max`.
pub open spec fn parse_unsigned(s: Seq<char>, radix: nat, max: nat) -> Option<nat> {
    let digits = if s.len() > 0 && s[0] == '+' {
        s.subrange(1, s.len() as int)
    } else {
        s
    };
    if digits.len() == 0 {
        None
    } else {
        match digits_value(digits, radix) {
            Some(v) => if v <= max {
                Some(v)
            } else {
                None
            },
            None => None,
        }
    }
}

/// The number an option value denotes: hexadecimal after a `0x` prefix,
/// decimal otherwise.
pub open spec fn option_number(s: Seq<char>, max: nat) -> Option<nat> {
    if is_prefix(seq!['0', 'x'], s) {
        parse_unsigned(s.subrange(2, s.len() as int), 16, max)
    } else {
        parse_unsigned(s, 10, max)
    }
}

fn digit_exec(c: char, radix: u64) -> (r: Option<u64>)
    requires
        2 <= radix <= 36,
    ensures
        match r {
            Some(d) => digit_value(c, radix as nat) == Some(d as nat),
            None => digit_value(c, radix as nat) is None,
        },
{
    let v: u64 = if '0' <= c && c <= '9' {
        (c as u64) - ('0' as u64)
    } else if 'a' <= c && c <= 'z' {
        (c as u64) - ('a' as u64) + 10
    } else if 'A' <= c && c <= 'Z' {
        (c as u64) - ('A' as u64) + 10
    } else {
        radix
    };
    if v < radix {
        Some(v)
    } else {
        None
    }
}

/// Reads an unsigned number in the given radix, at most `max`.
pub fn parse_unsigned_exec(s: &Vec<char>, radix: u64, max: u64) -> (r: Option<u64>)
    requires
        2 <= radix <= 36,
    ensures
        match r {
            Some(v) => parse_unsigned(s@, radix as nat, max as nat) == Some(v as nat),
            None => parse_unsigned(s@, radix as nat, max as nat) is None,
        },
{
    let start: usize = if s.len() > 0 && s[0] == '+' {
        1
    } else {
        0
    };
    let ghost digits = if s@.len() > 0 && s@[0] == '+' {
        s@.subrange(1, s@.len() as int)
    } else {
        s@
    };
    assert(digits =~= s@.subrange(start as int, s@.len() as int));
    if start >= s.len() {
        return None;
    }
    let mut invalid = false;
    let mut over = false;
    let mut acc: u64 = 0;
    let mut i: usize = start;
    assert(digits.subrange(0, 0) =~= Seq::<char>::empty());
    while i < s.len()
        invariant
            start <= i <= s.len(),
            2 <= radix <= 36,
            digits == s@.subrange(start as int, s@.len() as int),
            invalid <==> digits_value(digits.subrange(0, i - start), radix as nat) is None,
            !invalid ==> (over <==> digits_value(digits.subrange(0, i - start), radix as nat).unwrap()
                > max),
            !invalid && !over ==> digits_value(digits.subrange(0, i - start), radix as nat).unwrap()
                == acc,
        decreases s.len() - i,
    {
        let ghost pre = digits.subrange(0, i - start);
        let ghost cur = digits.subrange(0, i + 1 - start);
        assert(cur.drop_last() =~= pre);
        assert(cur.last() == s@[i as int]);
        let d = digit_exec(s[i], radix);
        match d {
            None => {
                invalid = true;
            },
            Some(dv) => {
                if !invalid {
                    let ghost pv = digits_value(pre, radix as nat).unwrap();
                    if over {
                        assert(pv * radix + dv > max) by (nonlinear_arith)
                            requires
                                pv > max,
                                radix >= 2,
                                dv >= 0,
                        ;
                    } else if dv > max || acc > (max - dv) / radix {
                        proof {
                            if dv <= max {
                                let q: int = (max as int - dv as int) / (radix as int);
                                let (a, r, d, m): (int, int, int, int) = (acc as int, radix as int, dv as int, max as int);
                                assert(a * r + d > m) by (nonlinear_arith)
                                    requires
                                        a > q,
                                        q == (m - d) / r,
                                        r >= 2,
                                        d <= m,
                                ;
                            } else {
                                assert(acc * radix + dv > max) by (nonlinear_arith)
                                    requires
                                        dv > max,
                                        radix >= 2,
                                        acc >= 0,
                                ;
                            }
                        }
                        over = true;
                    } else {
                        proof {
                            let q: int = (max as int - dv as int) / (radix as int);
                            let (a, r, d, m): (int, int, int, int) = (acc as int, radix as int, dv as int, max as int);
                            assert(a * r + d <= m) by (nonlinear_arith)
                                requires
                                    a <= q,
                                    q == (m - d) / r,
                                    r >= 2,
                                    d <= m,
                            ;
                        }
                        acc = acc * radix + dv;
                    }
                }
            },
        }
        i = i + 1;
    }
    assert(digits.subrange(0, s.len() - start) =~= digits);
    if invalid || over {
        None
    } else {
        Some(acc)
    }
}

/// Reads an option value as a number no more than `max`.
pub fn option_number_exec(s: &str, max: u64) -> (r: Option<u64>)
    ensures
        match r {
            Some(v) => option_number(s@, max as nat) == Some(v as nat),
            None => option_number(s@, max as nat) is None,
        },
{
    let v = chars_of(s);
    let mut prefix: Vec<char> = Vec::new();
    prefix.push('0');
    prefix.push('x');
    assert(prefix@ =~= seq!['0', 'x']);
    if crate::text::chars_start_with(&v, &prefix) {
        let mut rest: Vec<char> = Vec::new();
        let mut i: usize = 2;
        while i < v.len()
            invariant
                2 <= i <= v.len(),
                rest@ == v@.subrange(2, i as int),
            decreases v.len() - i,
        {
            rest.push(v[i]);
            i = i + 1;
            assert(rest@ =~= v@.subrange(2, i as int));
        }
        parse_unsigned_exec(&rest, 16, max)
    } else {
        parse_unsigned_exec(&v, 10, max)
    }
}

} // verus!

verus! {

/// Optimization level of generated code.
#[derive(Debug, Clone, Copy, PartialEq, Eq, Structural)]
pub enum OptLevel {
    /// No optimization (`n`).
    NoOpt,
    /// Optimize for speed (`s`).
    Speed,
    /// Optimize for speed and size (`ss`).
    SpeedAndSize,
}

/// Register allocator algorithm.
#[derive(Debug, Clone, Copy, PartialEq, Eq, Structural)]
pub enum RegallocAlgorithm {
    Backtracking,
    SinglePass,
}

pub open spec fn spec_parse_opt_level(v: Seq<char>) -> Result<OptLevel, OptionError> {
    if v == "n"@ {
        Ok(OptLevel::NoOpt)
    } else if v == "s"@ {
        Ok(OptLevel::Speed)
    } else if v == "ss"@ {
        Ok(OptLevel::SpeedAndSize)
    } else {
        Err(OptionError::UnknownOptLevel)
    }
}

pub open spec fn spec_parse_bool(v: Seq<char>) -> Result<bool, OptionError> {
    if v == "y"@ || v == "yes"@ || v == "true"@ {
        Ok(true)
    } else if v == "n"@ || v == "no"@ || v == "false"@ {
        Ok(false)
    } else {
        Err(OptionError::UnknownBool)
    }
}

pub open spec fn spec_parse_regalloc(v: Seq<char>) -> Result<RegallocAlgorithm, OptionError> {
    if v == "backtracking"@ {
        Ok(RegallocAlgorithm::Backtracking)
    } else if v == "single-pass"@ {
        Ok(RegallocAlgorithm::SinglePass)
    } else {
        Err(OptionError::UnknownRegalloc)
    }
}

pub open spec fn spec_parse_number(v: Seq<char>, max: nat) -> Result<nat, OptionError> {
    match option_number(v, max) {
        Some(n) => Ok(n),
        None => Err(OptionError::InvalidNumber),
    }
}

/// Reads the value of a tuning option from its text.
pub trait OptionParser<T>: Sized {
    /// What reading `v` gives.
    spec fn parsed(v: T) -> Result<Self, OptionError>;

    fn parse(v: &T) -> (r: Result<Self, OptionError>)
        ensures
            r == Self::parsed(*v),
    ;
}

impl OptionParser<String> for u32 {
    open spec fn parsed(v: String) -> Result<u32, OptionError> {
        match spec_parse_number(v@, u32::MAX as nat) {
            Ok(n) => Ok(n as u32),
            Err(e) => Err(e),
        }
    }

    fn parse(v: &String) -> (r: Result<u32, OptionError>) {
        match option_number_exec(v.as_str(), u32::MAX as u64) {
            Some(n) => Ok(n as u32),
            None => Err(OptionError::InvalidNumber),
        }
    }
}

impl OptionParser<String> for usize {
    open spec fn parsed(v: String) -> Result<usize, OptionError> {
        match spec_parse_number(v@, usize::MAX as nat) {
            Ok(n) => Ok(n as usize),
            Err(e) => Err(e),
        }
    }

    fn parse(v: &String) -> (r: Result<usize, OptionError>) {
        match option_number_exec(v.as_str(), usize::MAX as u64) {
            Some(n) => Ok(n as usize),
            None => Err(OptionError::InvalidNumber),
        }
    }
}

impl OptionParser<String> for u64 {
    open spec fn parsed(v: String) -> Result<u64, OptionError> {
        match spec_parse_number(v@, u64::MAX as nat) {
            Ok(n) => Ok(n as u64),
            Err(e) => Err(e),
        }
    }

    fn parse(v: &String) -> (r: Result<u64, OptionError>) {
        match option_number_exec(v.as_str(), u64::MAX) {
            Some(n) => Ok(n),
            None => Err(OptionError::InvalidNumber),
        }
    }
}

impl OptionParser<String> for OptLevel {
    open spec fn parsed(v: String) -> Result<OptLevel, OptionError> {
        spec_parse_opt_level(v@)
    }

    fn parse(v: &String) -> (r: Result<OptLevel, OptionError>) {
        let s = v.as_str();
        if str_eq(s, "n") {
            Ok(OptLevel::NoOpt)
        } else if str_eq(s, "s") {
            Ok(OptLevel::Speed)
        } else if str_eq(s, "ss") {
            Ok(OptLevel::SpeedAndSize)
        } else {
            Err(OptionError::UnknownOptLevel)
        }
    }
}

impl OptionParser<String> for bool {
    open spec fn parsed(v: String) -> Result<bool, OptionError> {
        spec_parse_bool(v@)
    }

    fn parse(v: &String) -> (r: Result<bool, OptionError>) {
        let s = v.as_str();
        if str_eq(s, "y") || str_eq(s, "yes") || str_eq(s, "true") {
            Ok(true)
        } else if str_eq(s, "n") || str_eq(s, "no") || str_eq(s, "false") {
            Ok(false)
        } else {
            Err(OptionError::UnknownBool)
        }
    }
}

impl OptionParser<String> for RegallocAlgorithm {
    open spec fn parsed(v: String) -> Result<RegallocAlgorithm, OptionError> {
        spec_parse_regalloc(v@)
    }

    fn parse(v: &String) -> (r: Result<RegallocAlgorithm, OptionError>) {
        let s = v.as_str();
        if str_eq(s, "backtracking") {
            Ok(RegallocAlgorithm::Backtracking)
        } else if str_eq(s, "single-pass") {
            Ok(RegallocAlgorithm::SinglePass)
        } else {
            Err(OptionError::UnknownRegalloc)
        }
    }
}

/// The name and documentation of a tuning option.
pub struct OptionDesc {
    pub opt_name: &'static str,
    pub opt_docs: &'static str,
}

/// A set of named tuning options.
pub trait BlsOptions {
    /// The name and documentation of every option, in order.
    spec fn option_descs() -> Seq<(Seq<char>, Seq<char>)>;

    /// The name and documentation of every option, in order.
    fn options() -> (r: Vec<OptionDesc>)
        ensures
            r@.map_values(|d: OptionDesc| (d.opt_name@, d.opt_docs@)) == Self::option_descs(),
    ;
}

/// Tuning options of the code generator and the instance allocator; an
/// option left unset keeps the engine default.
#[derive(Debug, Clone, Copy, PartialEq, Eq, Structural)]
pub struct OptimizeOpts {
    /// Optimization level of generated code (0-2, s; default: 2)
    pub opt_level: Option<OptLevel>,
    /// Register allocator algorithm choice.
    pub regalloc_algorithm: Option<RegallocAlgorithm>,
    /// Do not allow Wasm linear memories to move in the host process's
    /// address space.
    pub memory_may_move: Option<bool>,
    /// Initial virtual memory allocation size for memories.
    pub memory_reservation: Option<u64>,
    /// Bytes to reserve at the end of linear memory for growth into.
    pub memory_reservation_for_growth: Option<u64>,
    /// Size, in bytes, of guard pages for linear memories.
    pub memory_guard_size: Option<u64>,
    /// Indicates whether an unmapped region of memory is placed before all
    /// linear memories.
    pub guard_before_linear_memory: Option<bool>,
    /// Whether to initialize tables lazily, so that instantiation is
    /// fast but indirect calls are a little slower. If no, tables are
    /// initialized eagerly from any active element segments that apply to
    /// them during instantiation. (default: yes)
    pub table_lazy_init: Option<bool>,
    /// Enable the pooling allocator, in place of the on-demand allocator.
    pub pooling_allocator: Option<bool>,
    /// The number of decommits to do per batch. A batch size of 1
    /// effectively disables decommit batching. (default: 1)
    pub pooling_decommit_batch_size: Option<usize>,
    /// How many bytes to keep resident between instantiations for the
    /// pooling allocator in linear memories.
    pub pooling_memory_keep_resident: Option<usize>,
    /// How many bytes to keep resident between instantiations for the
    /// pooling allocator in tables.
    pub pooling_table_keep_resident: Option<usize>,
    /// Enable memory protection keys for the pooling allocator; this can
    /// optimize the size of memory slots.
    pub pooling_memory_protection_keys: Option<bool>,
    /// Sets an upper limit on how many memory protection keys (MPK) Wasmtime
    /// will use. (default: 16)
    pub pooling_max_memory_protection_keys: Option<usize>,
    /// Configure attempting to initialize linear memory via a
    /// copy-on-write mapping (default: yes)
    pub memory_init_cow: Option<bool>,
    /// The maximum number of WebAssembly instances which can be created
    /// with the pooling allocator.
    pub pooling_total_core_instances: Option<u32>,
    /// The maximum number of WebAssembly components which can be created
    /// with the pooling allocator.
    pub pooling_total_component_instances: Option<u32>,
    /// The maximum number of WebAssembly memories which can be created with
    /// the pooling allocator.
    pub pooling_total_memories: Option<u32>,
    /// The maximum number of WebAssembly tables which can be created with
    /// the pooling allocator.
    pub pooling_total_tables: Option<u32>,
    /// The maximum number of WebAssembly stacks which can be created with
    /// the pooling allocator.
    pub pooling_total_stacks: Option<u32>,
    /// The maximum runtime size of each linear memory in the pooling
    /// allocator, in bytes.
    pub pooling_max_memory_size: Option<usize>,
    /// The maximum table elements for any table defined in a module when
    /// using the pooling allocator.
    pub pooling_table_elements: Option<usize>,
    /// The maximum size, in bytes, allocated for a core instance's metadata
    /// when using the pooling allocator.
    pub pooling_max_core_instance_size: Option<usize>,
    /// Configures the maximum number of "unused warm slots" to retain in the
    /// pooling allocator. (default: 100)
    pub pooling_max_unused_warm_slots: Option<u32>,
    /// Configures whether or not stacks used for async futures are reset to
    /// zero after usage. (default: false)
    pub pooling_async_stack_zeroing: Option<bool>,
    /// How much memory, in bytes, to keep resident for async stacks allocated
    /// with the pooling allocator. (default: 0)
    pub pooling_async_stack_keep_resident: Option<usize>,
    /// The maximum size, in bytes, allocated for a component instance's
    /// `VMComponentContext` metadata. (default: 1MiB)
    pub pooling_max_component_instance_size: Option<usize>,
    /// The maximum number of core instances a single component may contain
    /// (default is unlimited).
    pub pooling_max_core_instances_per_component: Option<u32>,
    /// The maximum number of Wasm linear memories that a single component may
    /// transitively contain (default is unlimited).
    pub pooling_max_memories_per_component: Option<u32>,
    /// The maximum number of tables that a single component may transitively
    /// contain (default is unlimited).
    pub pooling_max_tables_per_component: Option<u32>,
    /// The maximum number of defined tables for a core module. (default: 1)
    pub pooling_max_tables_per_module: Option<u32>,
    /// The maximum number of defined linear memories for a module. (default: 1)
    pub pooling_max_memories_per_module: Option<u32>,
    /// The maximum number of concurrent GC heaps supported. (default: 1000)
    pub pooling_total_gc_heaps: Option<u32>,
    /// Enable or disable the use of host signal handlers for traps.
    pub signals_based_traps: Option<bool>,
    /// DEPRECATED: Use `-Cmemory-guard-size=N` instead.
    pub dynamic_memory_guard_size: Option<u64>,
    /// DEPRECATED: Use `-Cmemory-guard-size=N` instead.
    pub static_memory_guard_size: Option<u64>,
    /// DEPRECATED: Use `-Cmemory-may-move` instead.
    pub static_memory_forced: Option<bool>,
    /// DEPRECATED: Use `-Cmemory-reservation=N` instead.
    pub static_memory_maximum_size: Option<u64>,
    /// DEPRECATED: Use `-Cmemory-reservation-for-growth=N` instead.
    pub dynamic_memory_reserved_for_growth: Option<u64>,
}

impl Default for OptimizeOpts {
    fn default() -> (r: Self)
        ensures
            r.is_unset(),
            r == OptimizeOpts::unset(),
    {
        OptimizeOpts {
            opt_level: None,
            regalloc_algorithm: None,
            memory_may_move: None,
            memory_reservation: None,
            memory_reservation_for_growth: None,
            memory_guard_size: None,
            guard_before_linear_memory: None,
            table_lazy_init: None,
            pooling_allocator: None,
            pooling_decommit_batch_size: None,
            pooling_memory_keep_resident: None,
            pooling_table_keep_resident: None,
            pooling_memory_protection_keys: None,
            pooling_max_memory_protection_keys: None,
            memory_init_cow: None,
            pooling_total_core_instances: None,
            pooling_total_component_instances: None,
            pooling_total_memories: None,
            pooling_total_tables: None,
            pooling_total_stacks: None,
            pooling_max_memory_size: None,
            pooling_table_elements: None,
            pooling_max_core_instance_size: None,
            pooling_max_unused_warm_slots: None,
            pooling_async_stack_zeroing: None,
            pooling_async_stack_keep_resident: None,
            pooling_max_component_instance_size: None,
            pooling_max_core_instances_per_component: None,
            pooling_max_memories_per_component: None,
            pooling_max_tables_per_component: None,
            pooling_max_tables_per_module: None,
            pooling_max_memories_per_module: None,
            pooling_total_gc_heaps: None,
            signals_based_traps: None,
            dynamic_memory_guard_size: None,
            static_memory_guard_size: None,
            static_memory_forced: None,
            static_memory_maximum_size: None,
            dynamic_memory_reserved_for_growth: None,
        }
    }
}

impl OptimizeOpts {
    /// The options with none set.
    pub open spec fn unset() -> OptimizeOpts {
        OptimizeOpts {
            opt_level: None,
            regalloc_algorithm: None,
            memory_may_move: None,
            memory_reservation: None,
            memory_reservation_for_growth: None,
            memory_guard_size: None,
            guard_before_linear_memory: None,
            table_lazy_init: None,
            pooling_allocator: None,
            pooling_decommit_batch_size: None,
            pooling_memory_keep_resident: None,
            pooling_table_keep_resident: None,
            pooling_memory_protection_keys: None,
            pooling_max_memory_protection_keys: None,
            memory_init_cow: None,
            pooling_total_core_instances: None,
            pooling_total_component_instances: None,
            pooling_total_memories: None,
            pooling_total_tables: None,
            pooling_total_stacks: None,
            pooling_max_memory_size: None,
            pooling_table_elements: None,
            pooling_max_core_instance_size: None,
            pooling_max_unused_warm_slots: None,
            pooling_async_stack_zeroing: None,
            pooling_async_stack_keep_resident: None,
            pooling_max_component_instance_size: None,
            pooling_max_core_instances_per_component: None,
            pooling_max_memories_per_component: None,
            pooling_max_tables_per_component: None,
            pooling_max_tables_per_module: None,
            pooling_max_memories_per_module: None,
            pooling_total_gc_heaps: None,
            signals_based_traps: None,
            dynamic_memory_guard_size: None,
            static_memory_guard_size: None,
            static_memory_forced: None,
            static_memory_maximum_size: None,
            dynamic_memory_reserved_for_growth: None,
        }
    }

    /// Whether no option is set.
    pub open spec fn is_unset(&self) -> bool {
        self.opt_level is None
        && self.regalloc_algorithm is None
        && self.memory_may_move is None
        && self.memory_reservation is None
        && self.memory_reservation_for_growth is None
        && self.memory_guard_size is None
        && self.guard_before_linear_memory is None
        && self.table_lazy_init is None
        && self.pooling_allocator is None
        && self.pooling_decommit_batch_size is None
        && self.pooling_memory_keep_resident is None
        && self.pooling_table_keep_resident is None
        && self.pooling_memory_protection_keys is None
        && self.pooling_max_memory_protection_keys is None
        && self.memory_init_cow is None
        && self.pooling_total_core_instances is None
        && self.pooling_total_component_instances is None
        && self.pooling_total_memories is None
        && self.pooling_total_tables is None
        && self.pooling_total_stacks is None
        && self.pooling_max_memory_size is None
        && self.pooling_table_elements is None
        && self.pooling_max_core_instance_size is None
        && self.pooling_max_unused_warm_slots is None
        && self.pooling_async_stack_zeroing is None
        && self.pooling_async_stack_keep_resident is None
        && self.pooling_max_component_instance_size is None
        && self.pooling_max_core_instances_per_component is None
        && self.pooling_max_memories_per_component is None
        && self.pooling_max_tables_per_component is None
        && self.pooling_max_tables_per_module is None
        && self.pooling_max_memories_per_module is None
        && self.pooling_total_gc_heaps is None
        && self.signals_based_traps is None
        && self.dynamic_memory_guard_size is None
        && self.static_memory_guard_size is None
        && self.static_memory_forced is None
        && self.static_memory_maximum_size is None
        && self.dynamic_memory_reserved_for_growth is None
    }

    /// The options after setting the option `name` to what `value` reads as.
    pub open spec fn with_option(self, name: Seq<char>, value: Seq<char>) -> Result<OptimizeOpts, OptionError> {
        if name == "opt_level"@ {
            match spec_parse_opt_level(value) {
                Ok(v) => Ok(OptimizeOpts { opt_level: Some(v), ..self }),
                Err(e) => Err(e),
            }
        } else if name == "regalloc_algorithm"@ {
            match spec_parse_regalloc(value) {
                Ok(v) => Ok(OptimizeOpts { regalloc_algorithm: Some(v), ..self }),
                Err(e) => Err(e),
            }
        } else if name == "memory_may_move"@ {
            match spec_parse_bool(value) {
                Ok(v) => Ok(OptimizeOpts { memory_may_move: Some(v), ..self }),
                Err(e) => Err(e),
            }
        } else if name == "memory_reservation"@ {
            match match spec_parse_number(value, u64::MAX as nat) { Ok(n) => Ok(n as u64), Err(e) => Err(e) } {
                Ok(v) => Ok(OptimizeOpts { memory_reservation: Some(v), ..self }),
                Err(e) => Err(e),
            }
        } else if name == "memory_reservation_for_growth"@ {
            match match spec_parse_number(value, u64::MAX as nat) { Ok(n) => Ok(n as u64), Err(e) => Err(e) } {
                Ok(v) => Ok(OptimizeOpts { memory_reservation_for_growth: Some(v), ..self }),
                Err(e) => Err(e),
            }
        } else if name == "memory_guard_size"@ {
            match match spec_parse_number(value, u64::MAX as nat) { Ok(n) => Ok(n as u64), Err(e) => Err(e) } {
                Ok(v) => Ok(OptimizeOpts { memory_guard_size: Some(v), ..self }),
                Err(e) => Err(e),
            }
        } else if name == "guard_before_linear_memory"@ {
            match spec_parse_bool(value) {
                Ok(v) => Ok(OptimizeOpts { guard_before_linear_memory: Some(v), ..self }),
                Err(e) => Err(e),
            }
        } else if name == "table_lazy_init"@ {
            match spec_parse_bool(value) {
                Ok(v) => Ok(OptimizeOpts { table_lazy_init: Some(v), ..self }),
                Err(e) => Err(e),
            }
        } else if name == "pooling_allocator"@ {
            match spec_parse_bool(value) {
                Ok(v) => Ok(OptimizeOpts { pooling_allocator: Some(v), ..self }),
                Err(e) => Err(e),
            }
        } else if name == "pooling_decommit_batch_size"@ {
            match match spec_parse_number(value, usize::MAX as nat) { Ok(n) => Ok(n as usize), Err(e) => Err(e) } {
                Ok(v) => Ok(OptimizeOpts { pooling_decommit_batch_size: Some(v), ..self }),
                Err(e) => Err(e),
            }
        } else if name == "pooling_memory_keep_resident"@ {
            match match spec_parse_number(value, usize::MAX as nat) { Ok(n) => Ok(n as usize), Err(e) => Err(e) } {
                Ok(v) => Ok(OptimizeOpts { pooling_memory_keep_resident: Some(v), ..self }),
                Err(e) => Err(e),
            }
        } else if name == "pooling_table_keep_resident"@ {
            match match spec_parse_number(value, usize::MAX as nat) { Ok(n) => Ok(n as usize), Err(e) => Err(e) } {
                Ok(v) => Ok(OptimizeOpts { pooling_table_keep_resident: Some(v), ..self }),
                Err(e) => Err(e),
            }
        } else if name == "pooling_memory_protection_keys"@ {
            match spec_parse_bool(value) {
                Ok(v) => Ok(OptimizeOpts { pooling_memory_protection_keys: Some(v), ..self }),
                Err(e) => Err(e),
            }
        } else if name == "pooling_max_memory_protection_keys"@ {
            match match spec_parse_number(value, usize::MAX as nat) { Ok(n) => Ok(n as usize), Err(e) => Err(e) } {
                Ok(v) => Ok(OptimizeOpts { pooling_max_memory_protection_keys: Some(v), ..self }),
                Err(e) => Err(e),
            }
        } else if name == "memory_init_cow"@ {
            match spec_parse_bool(value) {
                Ok(v) => Ok(OptimizeOpts { memory_init_cow: Some(v), ..self }),
                Err(e) => Err(e),
            }
        } else if name == "pooling_total_core_instances"@ {
            match match spec_parse_number(value, u32::MAX as nat) { Ok(n) => Ok(n as u32), Err(e) => Err(e) } {
                Ok(v) => Ok(OptimizeOpts { pooling_total_core_instances: Some(v), ..self }),
                Err(e) => Err(e),
            }
        } else if name == "pooling_total_component_instances"@ {
            match match spec_parse_number(value, u32::MAX as nat) { Ok(n) => Ok(n as u32), Err(e) => Err(e) } {
                Ok(v) => Ok(OptimizeOpts { pooling_total_component_instances: Some(v), ..self }),
                Err(e) => Err(e),
            }
        } else if name == "pooling_total_memories"@ {
            match match spec_parse_number(value, u32::MAX as nat) { Ok(n) => Ok(n as u32), Err(e) => Err(e) } {
                Ok(v) => Ok(OptimizeOpts { pooling_total_memories: Some(v), ..self }),
                Err(e) => Err(e),
            }
        } else if name == "pooling_total_tables"@ {
            match match spec_parse_number(value, u32::MAX as nat) { Ok(n) => Ok(n as u32), Err(e) => Err(e) } {
                Ok(v) => Ok(OptimizeOpts { pooling_total_tables: Some(v), ..self }),
                Err(e) => Err(e),
            }
        } else if name == "pooling_total_stacks"@ {
            match match spec_parse_number(value, u32::MAX as nat) { Ok(n) => Ok(n as u32), Err(e) => Err(e) } {
                Ok(v) => Ok(OptimizeOpts { pooling_total_stacks: Some(v), ..self }),
                Err(e) => Err(e),
            }
        } else if name == "pooling_max_memory_size"@ {
            match match spec_parse_number(value, usize::MAX as nat) { Ok(n) => Ok(n as usize), Err(e) => Err(e) } {
                Ok(v) => Ok(OptimizeOpts { pooling_max_memory_size: Some(v), ..self }),
                Err(e) => Err(e),
            }
        } else if name == "pooling_table_elements"@ {
            match match spec_parse_number(value, usize::MAX as nat) { Ok(n) => Ok(n as usize), Err(e) => Err(e) } {
                Ok(v) => Ok(OptimizeOpts { pooling_table_elements: Some(v), ..self }),
                Err(e) => Err(e),
            }
        } else if name == "pooling_max_core_instance_size"@ {
            match match spec_parse_number(value, usize::MAX as nat) { Ok(n) => Ok(n as usize), Err(e) => Err(e) } {
                Ok(v) => Ok(OptimizeOpts { pooling_max_core_instance_size: Some(v), ..self }),
                Err(e) => Err(e),
            }
        } else if name == "pooling_max_unused_warm_slots"@ {
            match match spec_parse_number(value, u32::MAX as nat) { Ok(n) => Ok(n as u32), Err(e) => Err(e) } {
                Ok(v) => Ok(OptimizeOpts { pooling_max_unused_warm_slots: Some(v), ..self }),
                Err(e) => Err(e),
            }
        } else if name == "pooling_async_stack_zeroing"@ {
            match spec_parse_bool(value) {
                Ok(v) => Ok(OptimizeOpts { pooling_async_stack_zeroing: Some(v), ..self }),
                Err(e) => Err(e),
            }
        } else if name == "pooling_async_stack_keep_resident"@ {
            match match spec_parse_number(value, usize::MAX as nat) { Ok(n) => Ok(n as usize), Err(e) => Err(e) } {
                Ok(v) => Ok(OptimizeOpts { pooling_async_stack_keep_resident: Some(v), ..self }),
                Err(e) => Err(e),
            }
        } else if name == "pooling_max_component_instance_size"@ {
            match match spec_parse_number(value, usize::MAX as nat) { Ok(n) => Ok(n as usize), Err(e) => Err(e) } {
                Ok(v) => Ok(OptimizeOpts { pooling_max_component_instance_size: Some(v), ..self }),
                Err(e) => Err(e),
            }
        } else if name == "pooling_max_core_instances_per_component"@ {
            match match spec_parse_number(value, u32::MAX as nat) { Ok(n) => Ok(n as u32), Err(e) => Err(e) } {
                Ok(v) => Ok(OptimizeOpts { pooling_max_core_instances_per_component: Some(v), ..self }),
                Err(e) => Err(e),
            }
        } else if name == "pooling_max_memories_per_component"@ {
            match match spec_parse_number(value, u32::MAX as nat) { Ok(n) => Ok(n as u32), Err(e) => Err(e) } {
                Ok(v) => Ok(OptimizeOpts { pooling_max_memories_per_component: Some(v), ..self }),
                Err(e) => Err(e),
            }
        } else if name == "pooling_max_tables_per_component"@ {
            match match spec_parse_number(value, u32::MAX as nat) { Ok(n) => Ok(n as u32), Err(e) => Err(e) } {
                Ok(v) => Ok(OptimizeOpts { pooling_max_tables_per_component: Some(v), ..self }),
                Err(e) => Err(e),
            }
        } else if name == "pooling_max_tables_per_module"@ {
            match match spec_parse_number(value, u32::MAX as nat) { Ok(n) => Ok(n as u32), Err(e) => Err(e) } {
                Ok(v) => Ok(OptimizeOpts { pooling_max_tables_per_module: Some(v), ..self }),
                Err(e) => Err(e),
            }
        } else if name == "pooling_max_memories_per_module"@ {
            match match spec_parse_number(value, u32::MAX as nat) { Ok(n) => Ok(n as u32), Err(e) => Err(e) } {
                Ok(v) => Ok(OptimizeOpts { pooling_max_memories_per_module: Some(v), ..self }),
                Err(e) => Err(e),
            }
        } else if name == "pooling_total_gc_heaps"@ {
            match match spec_parse_number(value, u32::MAX as nat) { Ok(n) => Ok(n as u32), Err(e) => Err(e) } {
                Ok(v) => Ok(OptimizeOpts { pooling_total_gc_heaps: Some(v), ..self }),
                Err(e) => Err(e),
            }
        } else if name == "signals_based_traps"@ {
            match spec_parse_bool(value) {
                Ok(v) => Ok(OptimizeOpts { signals_based_traps: Some(v), ..self }),
                Err(e) => Err(e),
            }
        } else if name == "dynamic_memory_guard_size"@ {
            match match spec_parse_number(value, u64::MAX as nat) { Ok(n) => Ok(n as u64), Err(e) => Err(e) } {
                Ok(v) => Ok(OptimizeOpts { dynamic_memory_guard_size: Some(v), ..self }),
                Err(e) => Err(e),
            }
        } else if name == "static_memory_guard_size"@ {
            match match spec_parse_number(value, u64::MAX as nat) { Ok(n) => Ok(n as u64), Err(e) => Err(e) } {
                Ok(v) => Ok(OptimizeOpts { static_memory_guard_size: Some(v), ..self }),
                Err(e) => Err(e),
            }
        } else if name == "static_memory_forced"@ {
            match spec_parse_bool(value) {
                Ok(v) => Ok(OptimizeOpts { static_memory_forced: Some(v), ..self }),
                Err(e) => Err(e),
            }
        } else if name == "static_memory_maximum_size"@ {
            match match spec_parse_number(value, u64::MAX as nat) { Ok(n) => Ok(n as u64), Err(e) => Err(e) } {
                Ok(v) => Ok(OptimizeOpts { static_memory_maximum_size: Some(v), ..self }),
                Err(e) => Err(e),
            }
        } else if name == "dynamic_memory_reserved_for_growth"@ {
            match match spec_parse_number(value, u64::MAX as nat) { Ok(n) => Ok(n as u64), Err(e) => Err(e) } {
                Ok(v) => Ok(OptimizeOpts { dynamic_memory_reserved_for_growth: Some(v), ..self }),
                Err(e) => Err(e),
            }
        } else {
            Err(OptionError::UnknownOption)
        }
    }

    /// Sets the option `name` to what `value` reads as.
    pub fn set_option(&mut self, name: &str, value: &String) -> (r: Result<(), OptionError>)
        ensures
            match old(self).with_option(name@, value@) {
                Ok(o) => r is Ok && *final(self) == o,
                Err(e) => r == Err::<(), OptionError>(e) && *final(self) == *old(self),
            },
    {
        if str_eq(name, "opt_level") {
            let v = <OptLevel as OptionParser<String>>::parse(value)?;
            self.opt_level = Some(v);
            Ok(())
        } else if str_eq(name, "regalloc_algorithm") {
            let v = <RegallocAlgorithm as OptionParser<String>>::parse(value)?;
            self.regalloc_algorithm = Some(v);
            Ok(())
        } else if str_eq(name, "memory_may_move") {
            let v = <bool as OptionParser<String>>::parse(value)?;
            self.memory_may_move = Some(v);
            Ok(())
        } else if str_eq(name, "memory_reservation") {
            let v = <u64 as OptionParser<String>>::parse(value)?;
            self.memory_reservation = Some(v);
            Ok(())
        } else if str_eq(name, "memory_reservation_for_growth") {
            let v = <u64 as OptionParser<String>>::parse(value)?;
            self.memory_reservation_for_growth = Some(v);
            Ok(())
        } else if str_eq(name, "memory_guard_size") {
            let v = <u64 as OptionParser<String>>::parse(value)?;
            self.memory_guard_size = Some(v);
            Ok(())
        } else if str_eq(name, "guard_before_linear_memory") {
            let v = <bool as OptionParser<String>>::parse(value)?;
            self.guard_before_linear_memory = Some(v);
            Ok(())
        } else if str_eq(name, "table_lazy_init") {
            let v = <bool as OptionParser<String>>::parse(value)?;
            self.table_lazy_init = Some(v);
            Ok(())
        } else if str_eq(name, "pooling_allocator") {
            let v = <bool as OptionParser<String>>::parse(value)?;
            self.pooling_allocator = Some(v);
            Ok(())
        } else if str_eq(name, "pooling_decommit_batch_size") {
            let v = <usize as OptionParser<String>>::parse(value)?;
            self.pooling_decommit_batch_size = Some(v);
            Ok(())
        } else if str_eq(name, "pooling_memory_keep_resident") {
            let v = <usize as OptionParser<String>>::parse(value)?;
            self.pooling_memory_keep_resident = Some(v);
            Ok(())
        } else if str_eq(name, "pooling_table_keep_resident") {
            let v = <usize as OptionParser<String>>::parse(value)?;
            self.pooling_table_keep_resident = Some(v);
            Ok(())
        } else if str_eq(name, "pooling_memory_protection_keys") {
            let v = <bool as OptionParser<String>>::parse(value)?;
            self.pooling_memory_protection_keys = Some(v);
            Ok(())
        } else if str_eq(name, "pooling_max_memory_protection_keys") {
            let v = <usize as OptionParser<String>>::parse(value)?;
            self.pooling_max_memory_protection_keys = Some(v);
            Ok(())
        } else if str_eq(name, "memory_init_cow") {
            let v = <bool as OptionParser<String>>::parse(value)?;
            self.memory_init_cow = Some(v);
            Ok(())
        } else if str_eq(name, "pooling_total_core_instances") {
            let v = <u32 as OptionParser<String>>::parse(value)?;
            self.pooling_total_core_instances = Some(v);
            Ok(())
        } else if str_eq(name, "pooling_total_component_instances") {
            let v = <u32 as OptionParser<String>>::parse(value)?;
            self.pooling_total_component_instances = Some(v);
            Ok(())
        } else if str_eq(name, "pooling_total_memories") {
            let v = <u32 as OptionParser<String>>::parse(value)?;
            self.pooling_total_memories = Some(v);
            Ok(())
        } else if str_eq(name, "pooling_total_tables") {
            let v = <u32 as OptionParser<String>>::parse(value)?;
            self.pooling_total_tables = Some(v);
            Ok(())
        } else if str_eq(name, "pooling_total_stacks") {
            let v = <u32 as OptionParser<String>>::parse(value)?;
            self.pooling_total_stacks = Some(v);
            Ok(())
        } else if str_eq(name, "pooling_max_memory_size") {
            let v = <usize as OptionParser<String>>::parse(value)?;
            self.pooling_max_memory_size = Some(v);
            Ok(())
        } else if str_eq(name, "pooling_table_elements") {
            let v = <usize as OptionParser<String>>::parse(value)?;
            self.pooling_table_elements = Some(v);
            Ok(())
        } else if str_eq(name, "pooling_max_core_instance_size") {
            let v = <usize as OptionParser<String>>::parse(value)?;
            self.pooling_max_core_instance_size = Some(v);
            Ok(())
        } else if str_eq(name, "pooling_max_unused_warm_slots") {
            let v = <u32 as OptionParser<String>>::parse(value)?;
            self.pooling_max_unused_warm_slots = Some(v);
            Ok(())
        } else if str_eq(name, "pooling_async_stack_zeroing") {
            let v = <bool as OptionParser<String>>::parse(value)?;
            self.pooling_async_stack_zeroing = Some(v);
            Ok(())
        } else if str_eq(name, "pooling_async_stack_keep_resident") {
            let v = <usize as OptionParser<String>>::parse(value)?;
            self.pooling_async_stack_keep_resident = Some(v);
            Ok(())
        } else if str_eq(name, "pooling_max_component_instance_size") {
            let v = <usize as OptionParser<String>>::parse(value)?;
            self.pooling_max_component_instance_size = Some(v);
            Ok(())
        } else if str_eq(name, "pooling_max_core_instances_per_component") {
            let v = <u32 as OptionParser<String>>::parse(value)?;
            self.pooling_max_core_instances_per_component = Some(v);
            Ok(())
        } else if str_eq(name, "pooling_max_memories_per_component") {
            let v = <u32 as OptionParser<String>>::parse(value)?;
            self.pooling_max_memories_per_component = Some(v);
            Ok(())
        } else if str_eq(name, "pooling_max_tables_per_component") {
            let v = <u32 as OptionParser<String>>::parse(value)?;
            self.pooling_max_tables_per_component = Some(v);
            Ok(())
        } else if str_eq(name, "pooling_max_tables_per_module") {
            let v = <u32 as OptionParser<String>>::parse(value)?;
            self.pooling_max_tables_per_module = Some(v);
            Ok(())
        } else if str_eq(name, "pooling_max_memories_per_module") {
            let v = <u32 as OptionParser<String>>::parse(value)?;
            self.pooling_max_memories_per_module = Some(v);
            Ok(())
        } else if str_eq(name, "pooling_total_gc_heaps") {
            let v = <u32 as OptionParser<String>>::parse(value)?;
            self.pooling_total_gc_heaps = Some(v);
            Ok(())
        } else if str_eq(name, "signals_based_traps") {
            let v = <bool as OptionParser<String>>::parse(value)?;
            self.signals_based_traps = Some(v);
            Ok(())
        } else if str_eq(name, "dynamic_memory_guard_size") {
            let v = <u64 as OptionParser<String>>::parse(value)?;
            self.dynamic_memory_guard_size = Some(v);
            Ok(())
        } else if str_eq(name, "static_memory_guard_size") {
            let v = <u64 as OptionParser<String>>::parse(value)?;
            self.static_memory_guard_size = Some(v);
            Ok(())
        } else if str_eq(name, "static_memory_forced") {
            let v = <bool as OptionParser<String>>::parse(value)?;
            self.static_memory_forced = Some(v);
            Ok(())
        } else if str_eq(name, "static_memory_maximum_size") {
            let v = <u64 as OptionParser<String>>::parse(value)?;
            self.static_memory_maximum_size = Some(v);
            Ok(())
        } else if str_eq(name, "dynamic_memory_reserved_for_growth") {
            let v = <u64 as OptionParser<String>>::parse(value)?;
            self.dynamic_memory_reserved_for_growth = Some(v);
            Ok(())
        } else {
            Err(OptionError::UnknownOption)
        }
    }

    /// Whether no option is set.
    pub fn is_empty(&self) -> (r: bool)
        ensures
            r == self.is_unset(),
    {
        self.opt_level.is_none()
        && self.regalloc_algorithm.is_none()
        && self.memory_may_move.is_none()
        && self.memory_reservation.is_none()
        && self.memory_reservation_for_growth.is_none()
        && self.memory_guard_size.is_none()
        && self.guard_before_linear_memory.is_none()
        && self.table_lazy_init.is_none()
        && self.pooling_allocator.is_none()
        && self.pooling_decommit_batch_size.is_none()
        && self.pooling_memory_keep_resident.is_none()
        && self.pooling_table_keep_resident.is_none()
        && self.pooling_memory_protection_keys.is_none()
        && self.pooling_max_memory_protection_keys.is_none()
        && self.memory_init_cow.is_none()
        && self.pooling_total_core_instances.is_none()
        && self.pooling_total_component_instances.is_none()
        && self.pooling_total_memories.is_none()
        && self.pooling_total_tables.is_none()
        && self.pooling_total_stacks.is_none()
        && self.pooling_max_memory_size.is_none()
        && self.pooling_table_elements.is_none()
        && self.pooling_max_core_instance_size.is_none()
        && self.pooling_max_unused_warm_slots.is_none()
        && self.pooling_async_stack_zeroing.is_none()
        && self.pooling_async_stack_keep_resident.is_none()
        && self.pooling_max_component_instance_size.is_none()
        && self.pooling_max_core_instances_per_component.is_none()
        && self.pooling_max_memories_per_component.is_none()
        && self.pooling_max_tables_per_component.is_none()
        && self.pooling_max_tables_per_module.is_none()
        && self.pooling_max_memories_per_module.is_none()
        && self.pooling_total_gc_heaps.is_none()
        && self.signals_based_traps.is_none()
        && self.dynamic_memory_guard_size.is_none()
        && self.static_memory_guard_size.is_none()
        && self.static_memory_forced.is_none()
        && self.static_memory_maximum_size.is_none()
        && self.dynamic_memory_reserved_for_growth.is_none()
    }

    /// Sets the named options in order; stops at the first that fails, keeping
    /// the ones set before it.
    pub fn config(&mut self, items: Vec<(String, String)>) -> (r: Result<(), OptionError>)
        ensures
            configured(*old(self), pair_views(items@)) == (*final(self), r),
    {
        let mut i: usize = 0;
        let ghost pv = pair_views(items@);
        assert(pv.subrange(0, pv.len() as int) =~= pv);
        while i < items.len()
            invariant
                i <= items.len(),
                pv == pair_views(items@),
                configured(*old(self), pv) == configured(*self, pv.subrange(i as int, pv.len() as int)),
            decreases items.len() - i,
        {
            let ghost rest = pv.subrange(i as int, pv.len() as int);
            assert(rest.subrange(1, rest.len() as int) =~= pv.subrange(i + 1, pv.len() as int));
            assert(rest[0] == (items@[i as int].0@, items@[i as int].1@));
            let r = self.set_option(items[i].0.as_str(), &items[i].1);
            if r.is_err() {
                return r;
            }
            i = i + 1;
        }
        assert(pv.subrange(i as int, pv.len() as int) =~= Seq::<(Seq<char>, Seq<char>)>::empty());
        Ok(())
    }
}

/// The texts of a list of name and value pairs.
pub open spec fn pair_views(items: Seq<(String, String)>) -> Seq<(Seq<char>, Seq<char>)> {
    items.map_values(|x: (String, String)| (x.0@, x.1@))
}

/// The options after setting the named ones in order, and whether all were
/// accepted (the first error otherwise).
pub open spec fn configured(o: OptimizeOpts, items: Seq<(Seq<char>, Seq<char>)>) -> (OptimizeOpts, Result<(), OptionError>)
    decreases items.len(),
{
    if items.len() == 0 {
        (o, Ok(()))
    } else {
        match o.with_option(items[0].0, items[0].1) {
            Ok(o2) => configured(o2, items.subrange(1, items.len() as int)),
            Err(e) => (o, Err(e)),
        }
    }
}

impl BlsOptions for OptimizeOpts {
    /// The options of the code generator and the instance allocator, each
    /// with its documentation, in the order of the fields.
    open spec fn option_descs() -> Seq<(Seq<char>, Seq<char>)> {
        seq![
            ("opt_level"@, " Optimization level of generated code (0-2, s; default: 2)\n"@),
            ("regalloc_algorithm"@, " Register allocator algorithm choice.\n"@),
            ("memory_may_move"@, " Do not allow Wasm linear memories to move in the host process's\n address space.\n"@),
            ("memory_reservation"@, " Initial virtual memory allocation size for memories.\n"@),
            ("memory_reservation_for_growth"@, " Bytes to reserve at the end of linear memory for growth into.\n"@),
            ("memory_guard_size"@, " Size, in bytes, of guard pages for linear memories.\n"@),
            ("guard_before_linear_memory"@, " Indicates whether an unmapped region of memory is placed before all\n linear memories.\n"@),
            ("table_lazy_init"@, " Whether to initialize tables lazily, so that instantiation is\n fast but indirect calls are a little slower. If no, tables are\n initialized eagerly from any active element segments that apply to\n them during instantiation. (default: yes)\n"@),
            ("pooling_allocator"@, " Enable the pooling allocator, in place of the on-demand allocator.\n"@),
            ("pooling_decommit_batch_size"@, " The number of decommits to do per batch. A batch size of 1\n effectively disables decommit batching. (default: 1)\n"@),
            ("pooling_memory_keep_resident"@, " How many bytes to keep resident between instantiations for the\n pooling allocator in linear memories.\n"@),
            ("pooling_table_keep_resident"@, " How many bytes to keep resident between instantiations for the\n pooling allocator in tables.\n"@),
            ("pooling_memory_protection_keys"@, " Enable memory protection keys for the pooling allocator; this can\n optimize the size of memory slots.\n"@),
            ("pooling_max_memory_protection_keys"@, " Sets an upper limit on how many memory protection keys (MPK) Wasmtime\n will use. (default: 16)\n"@),
            ("memory_init_cow"@, " Configure attempting to initialize linear memory via a\n copy-on-write mapping (default: yes)\n"@),
            ("pooling_total_core_instances"@, " The maximum number of WebAssembly instances which can be created\n with the pooling allocator.\n"@),
            ("pooling_total_component_instances"@, " The maximum number of WebAssembly components which can be created\n with the pooling allocator.\n"@),
            ("pooling_total_memories"@, " The maximum number of WebAssembly memories which can be created with\n the pooling allocator.\n"@),
            ("pooling_total_tables"@, " The maximum number of WebAssembly tables which can be created with\n the pooling allocator.\n"@),
            ("pooling_total_stacks"@, " The maximum number of WebAssembly stacks which can be created with\n the pooling allocator.\n"@),
            ("pooling_max_memory_size"@, " The maximum runtime size of each linear memory in the pooling\n allocator, in bytes.\n"@),
            ("pooling_table_elements"@, " The maximum table elements for any table defined in a module when\n using the pooling allocator.\n"@),
            ("pooling_max_core_instance_size"@, " The maximum size, in bytes, allocated for a core instance's metadata\n when using the pooling allocator.\n"@),
            ("pooling_max_unused_warm_slots"@, " Configures the maximum number of \"unused warm slots\" to retain in the\n pooling allocator. (default: 100)\n"@),
            ("pooling_async_stack_zeroing"@, " Configures whether or not stacks used for async futures are reset to\n zero after usage. (default: false)\n"@),
            ("pooling_async_stack_keep_resident"@, " How much memory, in bytes, to keep resident for async stacks allocated\n with the pooling allocator. (default: 0)\n"@),
            ("pooling_max_component_instance_size"@, " The maximum size, in bytes, allocated for a component instance's\n `VMComponentContext` metadata. (default: 1MiB)\n"@),
            ("pooling_max_core_instances_per_component"@, " The maximum number of core instances a single component may contain\n (default is unlimited).\n"@),
            ("pooling_max_memories_per_component"@, " The maximum number of Wasm linear memories that a single component may\n transitively contain (default is unlimited).\n"@),
            ("pooling_max_tables_per_component"@, " The maximum number of tables that a single component may transitively\n contain (default is unlimited).\n"@),
            ("pooling_max_tables_per_module"@, " The maximum number of defined tables for a core module. (default: 1)\n"@),
            ("pooling_max_memories_per_module"@, " The maximum number of defined linear memories for a module. (default: 1)\n"@),
            ("pooling_total_gc_heaps"@, " The maximum number of concurrent GC heaps supported. (default: 1000)\n"@),
            ("signals_based_traps"@, " Enable or disable the use of host signal handlers for traps.\n"@),
            ("dynamic_memory_guard_size"@, " DEPRECATED: Use `-Cmemory-guard-size=N` instead.\n"@),
            ("static_memory_guard_size"@, " DEPRECATED: Use `-Cmemory-guard-size=N` instead.\n"@),
            ("static_memory_forced"@, " DEPRECATED: Use `-Cmemory-may-move` instead.\n"@),
            ("static_memory_maximum_size"@, " DEPRECATED: Use `-Cmemory-reservation=N` instead.\n"@),
            ("dynamic_memory_reserved_for_growth"@, " DEPRECATED: Use `-Cmemory-reservation-for-growth=N` instead.\n"@),
        ]
    }

    fn options() -> (r: Vec<OptionDesc>) {
        let mut v: Vec<OptionDesc> = Vec::new();
        v.push(OptionDesc { opt_name: "opt_level", opt_docs: " Optimization level of generated code (0-2, s; default: 2)\n" });
        v.push(OptionDesc { opt_name: "regalloc_algorithm", opt_docs: " Register allocator algorithm choice.\n" });
        v.push(OptionDesc { opt_name: "memory_may_move", opt_docs: " Do not allow Wasm linear memories to move in the host process's\n address space.\n" });
        v.push(OptionDesc { opt_name: "memory_reservation", opt_docs: " Initial virtual memory allocation size for memories.\n" });
        v.push(OptionDesc { opt_name: "memory_reservation_for_growth", opt_docs: " Bytes to reserve at the end of linear memory for growth into.\n" });
        v.push(OptionDesc { opt_name: "memory_guard_size", opt_docs: " Size, in bytes, of guard pages for linear memories.\n" });
        v.push(OptionDesc { opt_name: "guard_before_linear_memory", opt_docs: " Indicates whether an unmapped region of memory is placed before all\n linear memories.\n" });
        v.push(OptionDesc { opt_name: "table_lazy_init", opt_docs: " Whether to initialize tables lazily, so that instantiation is\n fast but indirect calls are a little slower. If no, tables are\n initialized eagerly from any active element segments that apply to\n them during instantiation. (default: yes)\n" });
        v.push(OptionDesc { opt_name: "pooling_allocator", opt_docs: " Enable the pooling allocator, in place of the on-demand allocator.\n" });
        v.push(OptionDesc { opt_name: "pooling_decommit_batch_size", opt_docs: " The number of decommits to do per batch. A batch size of 1\n effectively disables decommit batching. (default: 1)\n" });
        v.push(OptionDesc { opt_name: "pooling_memory_keep_resident", opt_docs: " How many bytes to keep resident between instantiations for the\n pooling allocator in linear memories.\n" });
        v.push(OptionDesc { opt_name: "pooling_table_keep_resident", opt_docs: " How many bytes to keep resident between instantiations for the\n pooling allocator in tables.\n" });
        v.push(OptionDesc { opt_name: "pooling_memory_protection_keys", opt_docs: " Enable memory protection keys for the pooling allocator; this can\n optimize the size of memory slots.\n" });
        v.push(OptionDesc { opt_name: "pooling_max_memory_protection_keys", opt_docs: " Sets an upper limit on how many memory protection keys (MPK) Wasmtime\n will use. (default: 16)\n" });
        v.push(OptionDesc { opt_name: "memory_init_cow", opt_docs: " Configure attempting to initialize linear memory via a\n copy-on-write mapping (default: yes)\n" });
        v.push(OptionDesc { opt_name: "pooling_total_core_instances", opt_docs: " The maximum number of WebAssembly instances which can be created\n with the pooling allocator.\n" });
        v.push(OptionDesc { opt_name: "pooling_total_component_instances", opt_docs: " The maximum number of WebAssembly components which can be created\n with the pooling allocator.\n" });
        v.push(OptionDesc { opt_name: "pooling_total_memories", opt_docs: " The maximum number of WebAssembly memories which can be created with\n the pooling allocator.\n" });
        v.push(OptionDesc { opt_name: "pooling_total_tables", opt_docs: " The maximum number of WebAssembly tables which can be created with\n the pooling allocator.\n" });
        v.push(OptionDesc { opt_name: "pooling_total_stacks", opt_docs: " The maximum number of WebAssembly stacks which can be created with\n the pooling allocator.\n" });
        v.push(OptionDesc { opt_name: "pooling_max_memory_size", opt_docs: " The maximum runtime size of each linear memory in the pooling\n allocator, in bytes.\n" });
        v.push(OptionDesc { opt_name: "pooling_table_elements", opt_docs: " The maximum table elements for any table defined in a module when\n using the pooling allocator.\n" });
        v.push(OptionDesc { opt_name: "pooling_max_core_instance_size", opt_docs: " The maximum size, in bytes, allocated for a core instance's metadata\n when using the pooling allocator.\n" });
        v.push(OptionDesc { opt_name: "pooling_max_unused_warm_slots", opt_docs: " Configures the maximum number of \"unused warm slots\" to retain in the\n pooling allocator. (default: 100)\n" });
        v.push(OptionDesc { opt_name: "pooling_async_stack_zeroing", opt_docs: " Configures whether or not stacks used for async futures are reset to\n zero after usage. (default: false)\n" });
        v.push(OptionDesc { opt_name: "pooling_async_stack_keep_resident", opt_docs: " How much memory, in bytes, to keep resident for async stacks allocated\n with the pooling allocator. (default: 0)\n" });
        v.push(OptionDesc { opt_name: "pooling_max_component_instance_size", opt_docs: " The maximum size, in bytes, allocated for a component instance's\n `VMComponentContext` metadata. (default: 1MiB)\n" });
        v.push(OptionDesc { opt_name: "pooling_max_core_instances_per_component", opt_docs: " The maximum number of core instances a single component may contain\n (default is unlimited).\n" });
        v.push(OptionDesc { opt_name: "pooling_max_memories_per_component", opt_docs: " The maximum number of Wasm linear memories that a single component may\n transitively contain (default is unlimited).\n" });
        v.push(OptionDesc { opt_name: "pooling_max_tables_per_component", opt_docs: " The maximum number of tables that a single component may transitively\n contain (default is unlimited).\n" });
        v.push(OptionDesc { opt_name: "pooling_max_tables_per_module", opt_docs: " The maximum number of defined tables for a core module. (default: 1)\n" });
        v.push(OptionDesc { opt_name: "pooling_max_memories_per_module", opt_docs: " The maximum number of defined linear memories for a module. (default: 1)\n" });
        v.push(OptionDesc { opt_name: "pooling_total_gc_heaps", opt_docs: " The maximum number of concurrent GC heaps supported. (default: 1000)\n" });
        v.push(OptionDesc { opt_name: "signals_based_traps", opt_docs: " Enable or disable the use of host signal handlers for traps.\n" });
        v.push(OptionDesc { opt_name: "dynamic_memory_guard_size", opt_docs: " DEPRECATED: Use `-Cmemory-guard-size=N` instead.\n" });
        v.push(OptionDesc { opt_name: "static_memory_guard_size", opt_docs: " DEPRECATED: Use `-Cmemory-guard-size=N` instead.\n" });
        v.push(OptionDesc { opt_name: "static_memory_forced", opt_docs: " DEPRECATED: Use `-Cmemory-may-move` instead.\n" });
        v.push(OptionDesc { opt_name: "static_memory_maximum_size", opt_docs: " DEPRECATED: Use `-Cmemory-reservation=N` instead.\n" });
        v.push(OptionDesc { opt_name: "dynamic_memory_reserved_for_growth", opt_docs: " DEPRECATED: Use `-Cmemory-reservation-for-growth=N` instead.\n" });
        assert(v@.map_values(|d: OptionDesc| (d.opt_name@, d.opt_docs@)) =~= Self::option_descs());
        v
    }
}

} // verus!
