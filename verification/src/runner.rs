use vstd::prelude::*;
use crate::config::{BlocklessConfigVersion, BlocklessModule, ENTRY, ModuleType, module_rank};
use crate::exit_code::{CliExitCode, known_exit_code};
use crate::text::{str_eq, string_from};

verus! {

/// How a run ended: the fuel left, if fuel was metered, and the exit code.
pub struct ExitStatus {
    pub fuel: Option<u64>,
    pub code: i32,
}

/// The result codes of a call between modules.
#[derive(Clone, Copy, Debug, PartialEq, Eq, Structural)]
pub enum McallError {
    /// The call succeeded.
    NoError,
    MemoryNotFound,
    AllocError,
    DeallocError,
    MCallMemoryNotFound,
    MCallError,
    Fail,
}

/// The number a result code is handed to the guest as.
pub open spec fn mcall_code(e: McallError) -> u32 {
    match e {
        McallError::NoError => 0,
        McallError::MemoryNotFound => 1,
        McallError::AllocError => 2,
        McallError::DeallocError => 3,
        McallError::MCallError => 4,
        McallError::Fail => 5,
        McallError::MCallMemoryNotFound => 6,
    }
}

/// The message of a result code.
pub open spec fn mcall_message(e: McallError) -> Seq<char> {
    match e {
        McallError::NoError => "No Error"@,
        McallError::MemoryNotFound => "Memory not export"@,
        McallError::AllocError => "Alloc error"@,
        McallError::DeallocError => "Dealloc error"@,
        McallError::MCallError => "MCall error"@,
        McallError::Fail => "Call faill"@,
        McallError::MCallMemoryNotFound => "mcall memory not found"@,
    }
}

impl McallError {
    /// The number the result code is handed to the guest as.
    pub fn code(&self) -> (r: u32)
        ensures
            r == mcall_code(*self),
    {
        match self {
            McallError::NoError => 0,
            McallError::MemoryNotFound => 1,
            McallError::AllocError => 2,
            McallError::DeallocError => 3,
            McallError::MCallError => 4,
            McallError::Fail => 5,
            McallError::MCallMemoryNotFound => 6,
        }
    }

    /// The message of the result code.
    pub fn message(&self) -> (r: &'static str)
        ensures
            r@ == mcall_message(*self),
    {
        match self {
            McallError::NoError => "No Error",
            McallError::MemoryNotFound => "Memory not export",
            McallError::AllocError => "Alloc error",
            McallError::DeallocError => "Dealloc error",
            McallError::MCallError => "MCall error",
            McallError::Fail => "Call faill",
            McallError::MCallMemoryNotFound => "mcall memory not found",
        }
    }
}

impl From<McallError> for u32 {
    fn from(value: McallError) -> (r: u32) {
        value.code()
    }
}

impl vstd::std_specs::convert::FromSpecImpl<McallError> for u32 {
    open spec fn obeys_from_spec() -> bool {
        true
    }

    open spec fn from_spec(value: McallError) -> u32 {
        mcall_code(value)
    }
}

/// Distinct result codes are handed to the guest as distinct numbers, and
/// only success as 0.
pub proof fn law_mcall_codes_distinct(a: McallError, b: McallError)
    ensures
        mcall_code(a) == mcall_code(b) <==> a == b,
        mcall_code(a) == 0 <==> a == McallError::NoError,
{
}

/// The traps a guest can stop on.
#[derive(Clone, Copy, Debug, PartialEq, Eq, Structural)]
pub enum TrapKind {
    OutOfFuel,
    StackOverflow,
    MemoryOutOfBounds,
    HeapMisaligned,
    TableOutOfBounds,
    IndirectCallToNull,
    BadSignature,
    IntegerOverflow,
    IntegerDivisionByZero,
    BadConversionToInteger,
    UnreachableCodeReached,
    Interrupt,
    AlwaysTrapAdapter,
    /// Any other trap.
    Other,
}

/// The exit code a trap is reported with, for the traps that have one.
pub open spec fn trap_exit_code(t: TrapKind) -> Option<i32> {
    match t {
        TrapKind::OutOfFuel => Some(1),
        TrapKind::StackOverflow => Some(2),
        TrapKind::MemoryOutOfBounds => Some(3),
        TrapKind::HeapMisaligned => Some(4),
        TrapKind::TableOutOfBounds => Some(5),
        TrapKind::IndirectCallToNull => Some(6),
        TrapKind::BadSignature => Some(7),
        TrapKind::IntegerOverflow => Some(8),
        TrapKind::IntegerDivisionByZero => Some(9),
        TrapKind::BadConversionToInteger => Some(10),
        TrapKind::UnreachableCodeReached => Some(11),
        TrapKind::Interrupt => Some(12),
        TrapKind::AlwaysTrapAdapter => Some(13),
        TrapKind::Other => None,
    }
}

/// The exit code a trap is reported with, for the traps that have one.
pub fn trap_code_2_exit_code(t: TrapKind) -> (r: Option<i32>)
    ensures
        r == trap_exit_code(t),
{
    match t {
        TrapKind::OutOfFuel => Some(1),
        TrapKind::StackOverflow => Some(2),
        TrapKind::MemoryOutOfBounds => Some(3),
        TrapKind::HeapMisaligned => Some(4),
        TrapKind::TableOutOfBounds => Some(5),
        TrapKind::IndirectCallToNull => Some(6),
        TrapKind::BadSignature => Some(7),
        TrapKind::IntegerOverflow => Some(8),
        TrapKind::IntegerDivisionByZero => Some(9),
        TrapKind::BadConversionToInteger => Some(10),
        TrapKind::UnreachableCodeReached => Some(11),
        TrapKind::Interrupt => Some(12),
        TrapKind::AlwaysTrapAdapter => Some(13),
        TrapKind::Other => None,
    }
}

/// The outcome of the command line that names the same failure as a trap.
pub open spec fn trap_outcome(t: TrapKind) -> Option<CliExitCode> {
    match t {
        TrapKind::OutOfFuel => Some(CliExitCode::FlueUsedOut),
        TrapKind::StackOverflow => Some(CliExitCode::CallStackExhausted),
        TrapKind::MemoryOutOfBounds => Some(CliExitCode::OutOfBoundsMemoryAccess),
        TrapKind::HeapMisaligned => Some(CliExitCode::MisalignedMemoryAccess),
        TrapKind::TableOutOfBounds => Some(CliExitCode::UndefinedElement),
        TrapKind::IndirectCallToNull => Some(CliExitCode::UninitializedElement),
        TrapKind::BadSignature => Some(CliExitCode::IndirectCallTypeMismatch),
        TrapKind::IntegerOverflow => Some(CliExitCode::IntegerOverflow),
        TrapKind::IntegerDivisionByZero => Some(CliExitCode::IntegerDivideByZero),
        TrapKind::BadConversionToInteger => Some(CliExitCode::InvalidConversionToInteger),
        TrapKind::UnreachableCodeReached => Some(CliExitCode::UnreachableInstructionExecuted),
        TrapKind::Interrupt => Some(CliExitCode::Interrupt),
        TrapKind::AlwaysTrapAdapter => Some(CliExitCode::DegenerateComponentAdapterCalled),
        TrapKind::Other => None,
    }
}

/// The exit code a trap is reported with is the one the command line reads
/// as the outcome of the same name.
pub proof fn law_trap_codes_name_outcomes(t: TrapKind)
    ensures
        trap_exit_code(t) matches Some(n) ==> known_exit_code(n as int) == trap_outcome(t),
        trap_exit_code(t) is None <==> trap_outcome(t) is None,
{
}

/// Why running the guest failed.
#[derive(Clone, Copy, Debug, PartialEq, Eq, Structural)]
pub enum RunFailure {
    /// The guest asked to exit with this code.
    Exit(i32),
    /// The guest trapped.
    Trap(TrapKind),
    /// Anything else.
    Other,
}

/// What the runtime does about a failed run.
#[derive(Clone, Copy, Debug, PartialEq, Eq, Structural)]
pub enum FailureAction {
    /// End the process with this code at once.
    ExitProcess(i32),
    /// Report this exit code.
    Code(i32),
}

/// What the runtime does about a failed run: a requested exit ends the
/// process with its code; a trap is reported with its code, any other
/// failure with -1.
pub open spec fn failure_action(f: RunFailure) -> FailureAction {
    match f {
        RunFailure::Exit(c) => FailureAction::ExitProcess(c),
        RunFailure::Trap(t) => match trap_exit_code(t) {
            Some(c) => FailureAction::Code(c),
            None => FailureAction::Code(-1i32),
        },
        RunFailure::Other => FailureAction::Code(-1i32),
    }
}

/// What the runtime does about a failed run.
pub fn error_process(failure: RunFailure) -> (r: FailureAction)
    ensures
        r == failure_action(failure),
{
    match failure {
        RunFailure::Exit(c) => FailureAction::ExitProcess(c),
        RunFailure::Trap(t) => match trap_code_2_exit_code(t) {
            Some(c) => FailureAction::Code(c),
            None => FailureAction::Code(-1),
        },
        RunFailure::Other => FailureAction::Code(-1),
    }
}

/// Whether a module is a library module.
pub open spec fn is_library() -> spec_fn(BlocklessModule) -> bool {
    |x: BlocklessModule| x.module_type == ModuleType::Module
}

/// Whether a module is an entry module.
pub open spec fn is_entry() -> spec_fn(BlocklessModule) -> bool {
    |x: BlocklessModule| x.module_type == ModuleType::Entry
}

/// The modules in the order they are linked: the library modules, then the
/// entry modules, each group in its configured order.
pub open spec fn in_link_order(m: Seq<BlocklessModule>) -> Seq<BlocklessModule> {
    m.filter(is_library()) + m.filter(
        is_entry(),
    )
}

/// The modules in the order they are linked.
pub fn link_order(modules: &Vec<BlocklessModule>) -> (r: Vec<BlocklessModule>)
    ensures
        r@ == in_link_order(modules@),
{
    let ghost libs = modules@.filter(is_library());
    let ghost ents = modules@.filter(is_entry());
    let mut out: Vec<BlocklessModule> = Vec::new();
    let mut i: usize = 0;
    while i < modules.len()
        invariant
            i <= modules@.len(),
            out@ == modules@.subrange(0, i as int).filter(
    is_library()),
        decreases modules@.len() - i,
    {
        let ghost cur = modules@.subrange(0, i + 1);
        proof {
            reveal(Seq::filter);
        }
        assert(cur.drop_last() =~= modules@.subrange(0, i as int));
        if modules[i].module_type == ModuleType::Module {
            out.push(modules[i].clone());
        }
        i = i + 1;
    }
    assert(modules@.subrange(0, i as int) =~= modules@);
    let ghost first = out@;
    let mut j: usize = 0;
    while j < modules.len()
        invariant
            j <= modules@.len(),
            first == libs,
            libs == modules@.filter(is_library()),
            out@ == first + modules@.subrange(0, j as int).filter(
                is_entry(),
            ),
        decreases modules@.len() - j,
    {
        let ghost cur = modules@.subrange(0, j + 1);
        proof {
            reveal(Seq::filter);
        }
        assert(cur.drop_last() =~= modules@.subrange(0, j as int));
        if modules[j].module_type == ModuleType::Entry {
            out.push(modules[j].clone());
            assert(out@ =~= first + cur.filter(is_entry()));
        }
        j = j + 1;
    }
    assert(modules@.subrange(0, j as int) =~= modules@);
    out
}

/// In link order every library module comes before every entry module.
pub proof fn law_link_order_sorted(m: Seq<BlocklessModule>)
    ensures
        forall|i: int, j: int|
            0 <= i < j < in_link_order(m).len() ==> module_rank(in_link_order(m)[i].module_type)
                <= module_rank(in_link_order(m)[j].module_type),
{
    let libs = m.filter(is_library());
    let ents = m.filter(is_entry());
    let o = in_link_order(m);
    broadcast use vstd::seq_lib::group_filter_ensures;

    assert forall|k: int| 0 <= k < libs.len() implies #[trigger] libs[k].module_type == ModuleType::Module by {
        assert((is_library())(libs[k]));
    }
    assert forall|k: int| 0 <= k < ents.len() implies #[trigger] ents[k].module_type == ModuleType::Entry by {
        assert((is_entry())(ents[k]));
    }
    assert forall|i: int, j: int| 0 <= i < j < o.len() implies module_rank(o[i].module_type) <= module_rank(
        o[j].module_type,
    ) by {
        if i < libs.len() {
            assert(o[i] == libs[i]);
        } else {
            assert(o[i] == ents[i - libs.len()]);
            assert(o[j] == ents[j - libs.len()]);
        }
    }
}

/// Link order holds each configured module exactly as often as the
/// configuration does.
pub proof fn law_link_order_permutation(m: Seq<BlocklessModule>)
    ensures
        in_link_order(m).to_multiset() == m.to_multiset(),
    decreases m.len(),
{
    broadcast use vstd::seq_lib::group_to_multiset_ensures;

    reveal(Seq::filter);
    let pl = is_library();
    let pe = is_entry();
    if m.len() == 0 {
        assert(m.filter(pl) =~= m);
        assert(m.filter(pe) =~= m);
        assert(in_link_order(m) =~= m);
    } else {
        let t = m.drop_last();
        let x = m.last();
        law_link_order_permutation(t);
        vstd::seq_lib::lemma_multiset_commutative(t.filter(pl), t.filter(pe));
        vstd::seq_lib::lemma_multiset_commutative(m.filter(pl), m.filter(pe));
        assert(m =~= t.push(x));
        if x.module_type == ModuleType::Module {
            assert(m.filter(pl) == t.filter(pl).push(x));
            assert(m.filter(pe) == t.filter(pe));
        } else {
            assert(m.filter(pl) == t.filter(pl));
            assert(m.filter(pe) == t.filter(pe).push(x));
        }
    }
}

/// The position of the entry module that linking runs: the last entry in
/// link order.
pub open spec fn last_entry(o: Seq<BlocklessModule>) -> Option<int>
    decreases o.len(),
{
    if o.len() == 0 {
        None
    } else if o.last().module_type == ModuleType::Entry {
        Some(o.len() - 1)
    } else {
        last_entry(o.drop_last())
    }
}

/// The position of the entry module that linking runs, if there is one.
pub fn find_last_entry(o: &Vec<BlocklessModule>) -> (r: Option<usize>)
    ensures
        match last_entry(o@) {
            Some(k) => r == Some(k as usize),
            None => r is None,
        },
{
    let mut k: usize = o.len();
    assert(o@.subrange(0, k as int) =~= o@);
    while k > 0
        invariant
            k <= o@.len(),
            last_entry(o@) == last_entry(o@.subrange(0, k as int)),
        decreases k,
    {
        let ghost sub = o@.subrange(0, k as int);
        assert(sub.last() == o@[k - 1]);
        if o[k - 1].module_type == ModuleType::Entry {
            return Some(k - 1);
        }
        assert(sub.drop_last() =~= o@.subrange(0, k - 1));
        k = k - 1;
    }
    None
}

proof fn lemma_all_libraries_kept(m: Seq<BlocklessModule>)
    requires
        forall|i: int| 0 <= i < m.len() ==> #[trigger] m[i].module_type == ModuleType::Module,
    ensures
        m.filter(is_library()) == m,
        m.filter(is_entry()).len() == 0,
    decreases m.len(),
{
    reveal(Seq::filter);
    if m.len() > 0 {
        let t = m.drop_last();
        assert forall|i: int| 0 <= i < t.len() implies #[trigger] t[i].module_type == ModuleType::Module by {
            assert(t[i] == m[i]);
        }
        lemma_all_libraries_kept(t);
        assert(m.last().module_type == ModuleType::Module);
        assert(t.push(m.last()) =~= m);
    }
}

/// Library modules followed by one entry module, as the command line gives
/// them, are linked in that order, and the entry module is the one run.
pub proof fn law_entry_after_libraries_runs(mods: Seq<BlocklessModule>, entry: BlocklessModule)
    requires
        forall|i: int| 0 <= i < mods.len() ==> #[trigger] mods[i].module_type == ModuleType::Module,
        entry.module_type == ModuleType::Entry,
    ensures
        in_link_order(mods.push(entry)) == mods.push(entry),
        last_entry(in_link_order(mods.push(entry))) == Some(mods.len() as int),
{
    let m = mods.push(entry);
    lemma_all_libraries_kept(mods);
    assert(m.drop_last() =~= mods);
    assert(m.filter(is_library()) == mods) by {
        reveal(Seq::filter);
    }
    assert(m.filter(is_entry()) =~= seq![entry]) by {
        reveal(Seq::filter);
        assert(mods.filter(is_entry()) =~= Seq::<BlocklessModule>::empty());
    }
    assert(in_link_order(m) =~= m);
}

/// The name of the function that starts the guest: `_start` for a single
/// wasm file; otherwise the configured entry, or `_start` when it is empty.
pub open spec fn run_entry_name(v: BlocklessConfigVersion, entry: Seq<char>) -> Seq<char> {
    match v {
        BlocklessConfigVersion::Version0 => ENTRY@,
        BlocklessConfigVersion::Version1 => if entry.len() == 0 {
            ENTRY@
        } else {
            entry
        },
    }
}

/// The name of the function that starts the guest.
pub fn run_entry(version: BlocklessConfigVersion, entry: &str) -> (r: String)
    ensures
        r@ == run_entry_name(version, entry@),
{
    match version {
        BlocklessConfigVersion::Version0 => string_from(ENTRY),
        BlocklessConfigVersion::Version1 => if entry.unicode_len() == 0 {
            string_from(ENTRY)
        } else {
            string_from(entry)
        },
    }
}

/// The exported functions tried, in order, to start the guest: for a single
/// wasm file the entry, the unnamed export, then `_start`; otherwise only
/// the entry.
pub open spec fn entry_candidates_of(v: BlocklessConfigVersion, entry: Seq<char>) -> Seq<Seq<char>> {
    match v {
        BlocklessConfigVersion::Version0 => seq![entry, seq![], ENTRY@],
        BlocklessConfigVersion::Version1 => seq![entry],
    }
}

/// The exported functions tried, in order, to start the guest.
pub fn entry_candidates(version: BlocklessConfigVersion, entry: &str) -> (r: Vec<String>)
    ensures
        r@.map_values(|s: String| s@) == entry_candidates_of(version, entry@),
{
    let mut v: Vec<String> = Vec::new();
    v.push(string_from(entry));
    match version {
        BlocklessConfigVersion::Version0 => {
            v.push(String::new());
            v.push(string_from(ENTRY));
        },
        BlocklessConfigVersion::Version1 => {},
    }
    assert(v@.map_values(|s: String| s@) =~= entry_candidates_of(version, entry@));
    v
}

/// What a module export is used for when a library module is linked.
#[derive(Clone, Copy, Debug, PartialEq, Eq, Structural)]
pub enum ExportRole {
    /// The linear memory.
    Memory,
    /// The function run once after instantiation.
    Initialize,
    /// The function that allocates guest memory.
    Alloc,
    /// The function that frees guest memory.
    Dealloc,
    /// A function other modules may call.
    Callable,
}

/// What an export of the given name is used for.
pub open spec fn export_role_of(name: Seq<char>) -> ExportRole {
    if name == "memory"@ {
        ExportRole::Memory
    } else if name == "_initialize"@ {
        ExportRole::Initialize
    } else if name == "alloc"@ {
        ExportRole::Alloc
    } else if name == "dealloc"@ {
        ExportRole::Dealloc
    } else {
        ExportRole::Callable
    }
}

/// What an export of the given name is used for.
pub fn export_role(name: &str) -> (r: ExportRole)
    ensures
        r == export_role_of(name@),
{
    if str_eq(name, "memory") {
        ExportRole::Memory
    } else if str_eq(name, "_initialize") {
        ExportRole::Initialize
    } else if str_eq(name, "alloc") {
        ExportRole::Alloc
    } else if str_eq(name, "dealloc") {
        ExportRole::Dealloc
    } else {
        ExportRole::Callable
    }
}

/// The result code of a call into another module, from how its steps went:
/// allocating the parameters and the result, the call itself, and freeing
/// the two buffers. A failed allocation ends the call; a failed call is
/// reported before a failed free.
pub open spec fn call_result(
    alloc_params: bool,
    alloc_result: bool,
    called: bool,
    freed_params: bool,
    freed_result: bool,
) -> McallError {
    if !alloc_params || !alloc_result {
        McallError::AllocError
    } else if !called {
        McallError::MCallError
    } else if !freed_params || !freed_result {
        McallError::DeallocError
    } else {
        McallError::NoError
    }
}

/// The result code of a call into another module, from how its steps went.
pub fn call_outcome(
    alloc_params: bool,
    alloc_result: bool,
    called: bool,
    freed_params: bool,
    freed_result: bool,
) -> (r: McallError)
    ensures
        r == call_result(alloc_params, alloc_result, called, freed_params, freed_result),
{
    if !alloc_params || !alloc_result {
        return McallError::AllocError;
    }
    let mut result = McallError::NoError;
    if !called {
        result = McallError::MCallError;
    }
    if !freed_params {
        if let McallError::NoError = result {
            result = McallError::DeallocError;
        }
    }
    if !freed_result {
        if let McallError::NoError = result {
            result = McallError::DeallocError;
        }
    }
    result
}

/// The steps of a call into another module.
#[derive(Clone, Copy, Debug, PartialEq, Eq, Structural)]
pub enum CallStage {
    /// Allocate the parameter buffer in the callee.
    AllocParams,
    /// Allocate the result buffer in the callee.
    AllocResult,
    /// Free the parameter buffer after the result buffer could not be had.
    FreeParamsAfterFailure,
    /// Write the parameters and call; on success copy the result back.
    Call,
    /// Free the parameter buffer.
    FreeParams,
    /// Free the result buffer.
    FreeResult,
    /// The call is over, with this result code.
    Done(McallError),
}

/// Where a call into another module stands: the step to take next, whether
/// the call itself succeeded, and whether the parameter buffer was freed.
#[derive(Clone, Copy, Debug, PartialEq, Eq, Structural)]
pub struct CallProgress {
    pub stage: CallStage,
    pub called: bool,
    pub freed_params: bool,
}

/// A call that has taken no step.
pub open spec fn call_start() -> CallProgress {
    CallProgress { stage: CallStage::AllocParams, called: false, freed_params: false }
}

/// Where a call stands after its current step went as `ok` says: a failed
/// allocation of the parameters ends it; a failed allocation of the result
/// frees the parameters first; after the call both buffers are freed, and
/// the result code is then `call_result` of how the steps went.
pub open spec fn call_next_of(p: CallProgress, ok: bool) -> CallProgress {
    match p.stage {
        CallStage::AllocParams => if ok {
            CallProgress { stage: CallStage::AllocResult, ..p }
        } else {
            CallProgress { stage: CallStage::Done(McallError::AllocError), ..p }
        },
        CallStage::AllocResult => if ok {
            CallProgress { stage: CallStage::Call, ..p }
        } else {
            CallProgress { stage: CallStage::FreeParamsAfterFailure, ..p }
        },
        CallStage::FreeParamsAfterFailure => CallProgress { stage: CallStage::Done(McallError::AllocError), ..p },
        CallStage::Call => CallProgress { stage: CallStage::FreeParams, called: ok, ..p },
        CallStage::FreeParams => CallProgress { stage: CallStage::FreeResult, freed_params: ok, ..p },
        CallStage::FreeResult => CallProgress {
            stage: CallStage::Done(call_result(true, true, p.called, p.freed_params, ok)),
            ..p
        },
        CallStage::Done(_) => p,
    }
}

/// The next step of a call, after its current step went as `ok` says.
pub fn call_next(p: CallProgress, ok: bool) -> (r: CallProgress)
    ensures
        r == call_next_of(p, ok),
{
    match p.stage {
        CallStage::AllocParams => if ok {
            CallProgress { stage: CallStage::AllocResult, ..p }
        } else {
            CallProgress { stage: CallStage::Done(McallError::AllocError), ..p }
        },
        CallStage::AllocResult => if ok {
            CallProgress { stage: CallStage::Call, ..p }
        } else {
            CallProgress { stage: CallStage::FreeParamsAfterFailure, ..p }
        },
        CallStage::FreeParamsAfterFailure => CallProgress { stage: CallStage::Done(McallError::AllocError), ..p },
        CallStage::Call => CallProgress { stage: CallStage::FreeParams, called: ok, ..p },
        CallStage::FreeParams => CallProgress { stage: CallStage::FreeResult, freed_params: ok, ..p },
        CallStage::FreeResult => CallProgress {
            stage: CallStage::Done(call_outcome(true, true, p.called, p.freed_params, ok)),
            ..p
        },
        CallStage::Done(_) => p,
    }
}

/// A call ends within five steps, with the result code that `call_result`
/// gives for how its steps went: a failed allocation of the parameters after
/// one step, a failed allocation of the result after three (the parameters
/// freed in between), otherwise after the call and both frees.
pub proof fn law_call_steps(a: bool, b: bool, c: bool, d: bool, e: bool)
    ensures
        !a ==> call_next_of(call_start(), a).stage == CallStage::Done(call_result(a, b, c, d, e)),
        a && !b ==> call_next_of(call_next_of(call_next_of(call_start(), a), b), c).stage
            == CallStage::Done(call_result(a, b, c, d, e)),
        a && b ==> call_next_of(call_next_of(call_next_of(call_next_of(call_next_of(call_start(), a), b), c), d), e).stage
            == CallStage::Done(call_result(a, b, c, d, e)),
{
}

/// The path a module is read from: standard input for `-`.
pub open spec fn module_source(path: Seq<char>) -> Seq<char> {
    if path == "-"@ {
        "/dev/stdin"@
    } else {
        path
    }
}

/// The path a module is read from.
pub fn module_source_path(path: &str) -> (r: String)
    ensures
        r@ == module_source(path@),
{
    if str_eq(path, "-") {
        string_from("/dev/stdin")
    } else {
        string_from(path)
    }
}

/// What a module file holds, as the engine recognises it.
#[derive(Clone, Copy, Debug, PartialEq, Eq, Structural)]
pub enum Precompiled {
    Module,
    Component,
}

/// What the engine takes wasm code to be.
#[derive(Clone, Copy, Debug, PartialEq, Eq, Structural)]
pub enum CodeHint {
    Module,
    Component,
}

/// How a module file is turned into something to run.
#[derive(Clone, Copy, Debug, PartialEq, Eq, Structural)]
pub enum LoadPlan {
    DeserializeModule,
    DeserializeComponent,
    CompileModule,
    CompileComponent,
}

/// How a module file is turned into something to run: precompiled code is
/// deserialized, other code compiled as what it looks like, a module when
/// that is not known.
pub open spec fn load_plan_of(pre: Option<Precompiled>, hint: Option<CodeHint>) -> LoadPlan {
    match pre {
        Some(Precompiled::Module) => LoadPlan::DeserializeModule,
        Some(Precompiled::Component) => LoadPlan::DeserializeComponent,
        None => match hint {
            Some(CodeHint::Component) => LoadPlan::CompileComponent,
            _ => LoadPlan::CompileModule,
        },
    }
}

/// How a module file is turned into something to run.
pub fn load_plan(pre: Option<Precompiled>, hint: Option<CodeHint>) -> (r: LoadPlan)
    ensures
        r == load_plan_of(pre, hint),
{
    match pre {
        Some(Precompiled::Module) => LoadPlan::DeserializeModule,
        Some(Precompiled::Component) => LoadPlan::DeserializeComponent,
        None => match hint {
            Some(CodeHint::Component) => LoadPlan::CompileComponent,
            _ => LoadPlan::CompileModule,
        },
    }
}

} // verus!
