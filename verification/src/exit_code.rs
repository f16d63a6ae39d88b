use vstd::prelude::*;
use crate::text::char_from_ascii;

verus! {

/// The decimal digits of a natural number.
pub open spec fn nat_digits(n: nat) -> Seq<char>
    decreases n,
{
    if n < 10 {
        seq![(n + 48) as char]
    } else {
        nat_digits(n / 10).push(((n % 10) + 48) as char)
    }
}

/// The decimal text of an integer, with a leading `-` when it is negative.
pub open spec fn int_text(n: int) -> Seq<char> {
    if n < 0 {
        seq!['-'] + nat_digits((-n) as nat)
    } else {
        nat_digits(n as nat)
    }
}

/// Appends the decimal digits of `n`.
pub fn push_digits(out: &mut Vec<char>, n: u64)
    ensures
        final(out)@ == old(out)@ + nat_digits(n as nat),
    decreases n,
{
    if n >= 10 {
        push_digits(out, n / 10);
    }
    let d: u64 = n % 10;
    let c = char_from_ascii((d + 48) as u32);
    out.push(c);
}

/// The decimal text of an `i32`.
pub fn i32_text(n: i32) -> (r: Vec<char>)
    ensures
        r@ == int_text(n as int),
{
    let mut out: Vec<char> = Vec::new();
    if n < 0 {
        out.push('-');
        let m: i64 = -(n as i64);
        push_digits(&mut out, m as u64);
    } else {
        push_digits(&mut out, n as u64);
    }
    out
}

/// The text `a` followed by the characters `b`.
pub fn concat_text(a: &str, b: &Vec<char>) -> (r: String)
    ensures
        r@ == a@ + b@,
{
    let mut v = crate::text::chars_of(a);
    let ghost before = v@;
    let mut i: usize = 0;
    while i < b.len()
        invariant
            i <= b.len(),
            v@ == before + b@.subrange(0, i as int),
        decreases b.len() - i,
    {
        v.push(b[i]);
        i = i + 1;
        assert(v@ =~= before + b@.subrange(0, i as int));
    }
    assert(b@.subrange(0, b.len() as int) =~= b@);
    crate::text::string_of(&v)
}

/// How the command line runtime ends.
#[derive(Debug)]
pub enum CliExitCode {
    Success,
    FlueUsedOut,
    CallStackExhausted,
    OutOfBoundsMemoryAccess,
    MisalignedMemoryAccess,
    UndefinedElement,
    UninitializedElement,
    IndirectCallTypeMismatch,
    IntegerOverflow,
    IntegerDivideByZero,
    InvalidConversionToInteger,
    UnreachableInstructionExecuted,
    Interrupt,
    DegenerateComponentAdapterCalled,
    AppTimeout,
    ConfigureError,
    UnknownError(String),
}

/// The process exit code of an outcome; 255 for an unknown error.
pub open spec fn exit_code_u8(c: CliExitCode) -> u8 {
    match c {
        CliExitCode::Success => 0,
        CliExitCode::FlueUsedOut => 1,
        CliExitCode::CallStackExhausted => 2,
        CliExitCode::OutOfBoundsMemoryAccess => 3,
        CliExitCode::MisalignedMemoryAccess => 4,
        CliExitCode::UndefinedElement => 5,
        CliExitCode::UninitializedElement => 6,
        CliExitCode::IndirectCallTypeMismatch => 7,
        CliExitCode::IntegerOverflow => 8,
        CliExitCode::IntegerDivideByZero => 9,
        CliExitCode::InvalidConversionToInteger => 10,
        CliExitCode::UnreachableInstructionExecuted => 11,
        CliExitCode::Interrupt => 12,
        CliExitCode::DegenerateComponentAdapterCalled => 13,
        CliExitCode::AppTimeout => 15,
        CliExitCode::ConfigureError => 128,
        CliExitCode::UnknownError(_) => 255,
    }
}

/// The outcome an exit code names, for the codes that name one.
pub open spec fn known_exit_code(n: int) -> Option<CliExitCode> {
    if n == 0 {
        Some(CliExitCode::Success)
    } else if n == 1 {
        Some(CliExitCode::FlueUsedOut)
    } else if n == 2 {
        Some(CliExitCode::CallStackExhausted)
    } else if n == 3 {
        Some(CliExitCode::OutOfBoundsMemoryAccess)
    } else if n == 4 {
        Some(CliExitCode::MisalignedMemoryAccess)
    } else if n == 5 {
        Some(CliExitCode::UndefinedElement)
    } else if n == 6 {
        Some(CliExitCode::UninitializedElement)
    } else if n == 7 {
        Some(CliExitCode::IndirectCallTypeMismatch)
    } else if n == 8 {
        Some(CliExitCode::IntegerOverflow)
    } else if n == 9 {
        Some(CliExitCode::IntegerDivideByZero)
    } else if n == 10 {
        Some(CliExitCode::InvalidConversionToInteger)
    } else if n == 11 {
        Some(CliExitCode::UnreachableInstructionExecuted)
    } else if n == 12 {
        Some(CliExitCode::Interrupt)
    } else if n == 13 {
        Some(CliExitCode::DegenerateComponentAdapterCalled)
    } else if n == 15 {
        Some(CliExitCode::AppTimeout)
    } else if n == 128 {
        Some(CliExitCode::ConfigureError)
    } else {
        None
    }
}

/// The outcome and its text: the exit code and, for an unknown error, its
/// message (empty otherwise).
pub open spec fn exit_view(c: CliExitCode) -> (u8, Seq<char>) {
    match c {
        CliExitCode::UnknownError(s) => (255, s@),
        _ => (exit_code_u8(c), seq![]),
    }
}

/// What an exit code reads as: the outcome it names, or an unknown error
/// whose message is `exit code: ` and the number.
pub open spec fn exit_of_code(n: int) -> (u8, Seq<char>) {
    match known_exit_code(n) {
        Some(c) => exit_view(c),
        None => (255, "exit code: "@ + int_text(n)),
    }
}

impl CliExitCode {
    /// The process exit code.
    pub fn code(&self) -> (r: u8)
        ensures
            r == exit_code_u8(*self),
    {
        match self {
            CliExitCode::Success => 0,
            CliExitCode::FlueUsedOut => 1,
            CliExitCode::CallStackExhausted => 2,
            CliExitCode::OutOfBoundsMemoryAccess => 3,
            CliExitCode::MisalignedMemoryAccess => 4,
            CliExitCode::UndefinedElement => 5,
            CliExitCode::UninitializedElement => 6,
            CliExitCode::IndirectCallTypeMismatch => 7,
            CliExitCode::IntegerOverflow => 8,
            CliExitCode::IntegerDivideByZero => 9,
            CliExitCode::InvalidConversionToInteger => 10,
            CliExitCode::UnreachableInstructionExecuted => 11,
            CliExitCode::Interrupt => 12,
            CliExitCode::DegenerateComponentAdapterCalled => 13,
            CliExitCode::AppTimeout => 15,
            CliExitCode::ConfigureError => 128,
            CliExitCode::UnknownError(_) => 255,
        }
    }

    /// The outcome an `i32` exit code reads as.
    pub fn from_code(exitcode: i32) -> (r: CliExitCode)
        ensures
            exit_view(r) == exit_of_code(exitcode as int),
    {
        if exitcode == 0 {
            CliExitCode::Success
        } else if exitcode == 1 {
            CliExitCode::FlueUsedOut
        } else if exitcode == 2 {
            CliExitCode::CallStackExhausted
        } else if exitcode == 3 {
            CliExitCode::OutOfBoundsMemoryAccess
        } else if exitcode == 4 {
            CliExitCode::MisalignedMemoryAccess
        } else if exitcode == 5 {
            CliExitCode::UndefinedElement
        } else if exitcode == 6 {
            CliExitCode::UninitializedElement
        } else if exitcode == 7 {
            CliExitCode::IndirectCallTypeMismatch
        } else if exitcode == 8 {
            CliExitCode::IntegerOverflow
        } else if exitcode == 9 {
            CliExitCode::IntegerDivideByZero
        } else if exitcode == 10 {
            CliExitCode::InvalidConversionToInteger
        } else if exitcode == 11 {
            CliExitCode::UnreachableInstructionExecuted
        } else if exitcode == 12 {
            CliExitCode::Interrupt
        } else if exitcode == 13 {
            CliExitCode::DegenerateComponentAdapterCalled
        } else if exitcode == 15 {
            CliExitCode::AppTimeout
        } else if exitcode == 128 {
            CliExitCode::ConfigureError
        } else {
            let digits = i32_text(exitcode);
            CliExitCode::UnknownError(concat_text("exit code: ", &digits))
        }
    }

    /// The message that describes the outcome.
    pub fn message(&self) -> (r: String)
        ensures
            r@ == exit_message(*self),
    {
        match self {
            CliExitCode::Success => crate::text::string_from("Success"),
            CliExitCode::FlueUsedOut => crate::text::string_from("The flue used out"),
            CliExitCode::CallStackExhausted => crate::text::string_from("Call stack exhausted"),
            CliExitCode::OutOfBoundsMemoryAccess => crate::text::string_from("Out of bounds memory access"),
            CliExitCode::MisalignedMemoryAccess => crate::text::string_from("Misaligned memory access"),
            CliExitCode::UndefinedElement => crate::text::string_from("Undefined element: out of bounds table access"),
            CliExitCode::UninitializedElement => crate::text::string_from("Uninitialized element"),
            CliExitCode::IndirectCallTypeMismatch => crate::text::string_from("Indirect call type mismatch"),
            CliExitCode::IntegerOverflow => crate::text::string_from("Integer overflow"),
            CliExitCode::IntegerDivideByZero => crate::text::string_from("Integer divide by zero"),
            CliExitCode::InvalidConversionToInteger => crate::text::string_from("Invalid conversion to integer"),
            CliExitCode::UnreachableInstructionExecuted => crate::text::string_from("wasm 'unreachable' instruction executed"),
            CliExitCode::Interrupt => crate::text::string_from("Interrupt"),
            CliExitCode::DegenerateComponentAdapterCalled => crate::text::string_from("Degenerate component adapter called"),
            CliExitCode::AppTimeout => crate::text::string_from("The app timeout"),
            CliExitCode::ConfigureError => crate::text::string_from("The configure error"),
            CliExitCode::UnknownError(err_str) => {
                let v = crate::text::chars_of(err_str.as_str());
                concat_text("Unknown error: ", &v)
            },
        }
    }
}

/// The message that describes an outcome.
pub open spec fn exit_message(c: CliExitCode) -> Seq<char> {
    match c {
        CliExitCode::Success => "Success"@,
        CliExitCode::FlueUsedOut => "The flue used out"@,
        CliExitCode::CallStackExhausted => "Call stack exhausted"@,
        CliExitCode::OutOfBoundsMemoryAccess => "Out of bounds memory access"@,
        CliExitCode::MisalignedMemoryAccess => "Misaligned memory access"@,
        CliExitCode::UndefinedElement => "Undefined element: out of bounds table access"@,
        CliExitCode::UninitializedElement => "Uninitialized element"@,
        CliExitCode::IndirectCallTypeMismatch => "Indirect call type mismatch"@,
        CliExitCode::IntegerOverflow => "Integer overflow"@,
        CliExitCode::IntegerDivideByZero => "Integer divide by zero"@,
        CliExitCode::InvalidConversionToInteger => "Invalid conversion to integer"@,
        CliExitCode::UnreachableInstructionExecuted => "wasm 'unreachable' instruction executed"@,
        CliExitCode::Interrupt => "Interrupt"@,
        CliExitCode::DegenerateComponentAdapterCalled => "Degenerate component adapter called"@,
        CliExitCode::AppTimeout => "The app timeout"@,
        CliExitCode::ConfigureError => "The configure error"@,
        CliExitCode::UnknownError(s) => "Unknown error: "@ + s@,
    }
}

impl PartialEq for CliExitCode {
    fn eq(&self, other: &Self) -> (r: bool) {
        match (self, other) {
            (CliExitCode::UnknownError(a), CliExitCode::UnknownError(b)) => a.eq(b),
            (CliExitCode::UnknownError(_), _) => false,
            (_, CliExitCode::UnknownError(_)) => false,
            _ => self.code() == other.code(),
        }
    }
}

impl vstd::std_specs::cmp::PartialEqSpecImpl for CliExitCode {
    open spec fn obeys_eq_spec() -> bool {
        true
    }

    open spec fn eq_spec(&self, other: &Self) -> bool {
        exit_view(*self) == exit_view(*other)
    }
}

impl From<i32> for CliExitCode {
    fn from(exitcode: i32) -> (r: CliExitCode)
        ensures
            exit_view(r) == exit_of_code(exitcode as int),
    {
        CliExitCode::from_code(exitcode)
    }
}

impl vstd::std_specs::convert::FromSpecImpl<i32> for CliExitCode {
    /// An unknown error holds a message text, which no spec value of the
    /// type pins down; what a conversion gives is stated through
    /// `exit_view` by the conversion itself.
    open spec fn obeys_from_spec() -> bool {
        false
    }

    open spec fn from_spec(v: i32) -> CliExitCode {
        choose|c: CliExitCode| exit_view(c) == exit_of_code(v as int)
    }
}

impl From<u8> for CliExitCode {
    fn from(exitcode: u8) -> (r: CliExitCode)
        ensures
            exit_view(r) == exit_of_code(exitcode as int),
    {
        CliExitCode::from_code(exitcode as i32)
    }
}

impl vstd::std_specs::convert::FromSpecImpl<u8> for CliExitCode {
    /// As for `i32`: what a conversion gives is stated through `exit_view`.
    open spec fn obeys_from_spec() -> bool {
        false
    }

    open spec fn from_spec(v: u8) -> CliExitCode {
        choose|c: CliExitCode| exit_view(c) == exit_of_code(v as int)
    }
}

impl From<CliExitCode> for u8 {
    fn from(c: CliExitCode) -> (r: u8) {
        c.code()
    }
}

impl vstd::std_specs::convert::FromSpecImpl<CliExitCode> for u8 {
    open spec fn obeys_from_spec() -> bool {
        true
    }

    open spec fn from_spec(c: CliExitCode) -> u8 {
        exit_code_u8(c)
    }
}

impl From<CliExitCode> for i32 {
    fn from(c: CliExitCode) -> (r: i32) {
        c.code() as i32
    }
}

impl vstd::std_specs::convert::FromSpecImpl<CliExitCode> for i32 {
    open spec fn obeys_from_spec() -> bool {
        true
    }

    open spec fn from_spec(c: CliExitCode) -> i32 {
        exit_code_u8(c) as i32
    }
}

/// Every outcome other than an unknown error is what its exit code reads as.
pub proof fn law_exit_code_round_trip(c: CliExitCode)
    requires
        !(c is UnknownError),
    ensures
        exit_of_code(exit_code_u8(c) as int) == exit_view(c),
        known_exit_code(exit_code_u8(c) as int) == Some(c),
{
}

/// Every exit code reads as an outcome with that exit code, unless it names
/// none, when it reads as an unknown error, exit code 255.
pub proof fn law_code_round_trip(n: int)
    ensures
        known_exit_code(n) matches Some(c) ==> exit_code_u8(c) == n,
        known_exit_code(n) is None ==> exit_of_code(n).0 == 255,
{
}

} // verus!
