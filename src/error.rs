//! The error vocabulary shared by every component, with stable numeric codes.

use vstd::prelude::*;

verus! {

/// Every way an operation of the timer engine can fail.
#[derive(Debug, Clone)]
pub enum TimerError {
    InvalidDelay(i32),
    TimerNotFound(i32),
    InvalidCallback(String),
    ParameterParseError(String),
    SystemShutdown,
    TaskSpawnError(String),
    CallbackExecutionError(String),
    IdOverflow,
    ResourceExhaustion(String),
    ParameterValidation(String),
    Internal(String),
}

pub type TimerResult<T> = Result<T, TimerError>;

/// The fixed negative code of each error kind.
pub open spec fn error_code(e: TimerError) -> int {
    match e {
        TimerError::InvalidDelay(_) => -1,
        TimerError::TimerNotFound(_) => -2,
        TimerError::InvalidCallback(_) => -3,
        TimerError::ParameterParseError(_) => -4,
        TimerError::SystemShutdown => -5,
        TimerError::TaskSpawnError(_) => -6,
        TimerError::CallbackExecutionError(_) => -7,
        TimerError::IdOverflow => -8,
        TimerError::ResourceExhaustion(_) => -10,
        TimerError::ParameterValidation(_) => -11,
        TimerError::Internal(_) => -99,
    }
}

/// Only a missing timer and a failed callback run are recoverable.
pub open spec fn recoverable(e: TimerError) -> bool {
    e is TimerNotFound || e is CallbackExecutionError
}

pub open spec fn digit_char(d: nat) -> char {
    if d == 0 {
        '0'
    } else if d == 1 {
        '1'
    } else if d == 2 {
        '2'
    } else if d == 3 {
        '3'
    } else if d == 4 {
        '4'
    } else if d == 5 {
        '5'
    } else if d == 6 {
        '6'
    } else if d == 7 {
        '7'
    } else if d == 8 {
        '8'
    } else {
        '9'
    }
}

/// The decimal digits of `n`, most significant first, without leading zeros.
pub open spec fn decimal_digits(n: nat) -> Seq<char>
    decreases n,
{
    if n < 10 {
        seq![digit_char(n)]
    } else {
        decimal_digits(n / 10) + seq![digit_char(n % 10)]
    }
}

/// The decimal text of an integer, with a leading '-' when it is negative.
pub open spec fn decimal(i: int) -> Seq<char> {
    if i < 0 {
        seq!['-'] + decimal_digits((-i) as nat)
    } else {
        decimal_digits(i as nat)
    }
}

/// The text shown to a user for each error.
pub open spec fn user_message(e: TimerError) -> Seq<char> {
    match e {
        TimerError::InvalidDelay(d) => "Invalid delay: "@ + decimal(d as int)
            + "ms (must be positive and <= 2147483647)"@,
        TimerError::TimerNotFound(id) => "Timer with ID "@ + decimal(id as int) + " not found"@,
        TimerError::InvalidCallback(s) => "Invalid callback name: '"@ + s@
            + "' (must be valid identifier, max 64 chars)"@,
        TimerError::ParameterParseError(s) => "Failed to parse callback parameters: "@ + s@,
        TimerError::SystemShutdown => "Timer system is shutting down"@,
        TimerError::TaskSpawnError(s) => "Failed to spawn timer task: "@ + s@,
        TimerError::CallbackExecutionError(s) => "Callback execution failed: "@ + s@,
        TimerError::IdOverflow => "Timer ID overflow (too many timers created)"@,
        TimerError::ResourceExhaustion(s) => "Resource exhaustion: "@ + s@,
        TimerError::ParameterValidation(s) => "Parameter validation failed: "@ + s@,
        TimerError::Internal(s) => "Internal error: "@ + s@,
    }
}

/// Relies on `i32`'s `Display` impl (reached through `ToString::to_string`),
/// which writes the number in decimal, with a '-' in front of a negative one.
#[verifier::external_body]
fn int_text(n: i32) -> (r: String)
    ensures
        r@ == decimal(n as int),
{
    n.to_string()
}

/// `head` followed by `tail`.
pub(crate) fn joined(head: &str, tail: &str) -> (r: String)
    ensures
        r@ == head@ + tail@,
{
    let mut s = String::from_str(head);
    s.append(tail);
    s
}

/// `head`, then `middle`, then `tail`.
pub(crate) fn joined3(head: &str, middle: &str, tail: &str) -> (r: String)
    ensures
        r@ == head@ + middle@ + tail@,
{
    let mut s = String::from_str(head);
    s.append(middle);
    s.append(tail);
    s
}

impl TimerError {
    pub fn to_error_code(&self) -> (r: i32)
        ensures
            r == error_code(*self),
            r < 0,
    {
        match self {
            TimerError::InvalidDelay(_) => -1,
            TimerError::TimerNotFound(_) => -2,
            TimerError::InvalidCallback(_) => -3,
            TimerError::ParameterParseError(_) => -4,
            TimerError::SystemShutdown => -5,
            TimerError::TaskSpawnError(_) => -6,
            TimerError::CallbackExecutionError(_) => -7,
            TimerError::IdOverflow => -8,
            TimerError::ResourceExhaustion(_) => -10,
            TimerError::ParameterValidation(_) => -11,
            TimerError::Internal(_) => -99,
        }
    }

    pub fn to_user_message(&self) -> (r: String)
        ensures
            r@ == user_message(*self),
    {
        match self {
            TimerError::InvalidDelay(d) => joined3(
                "Invalid delay: ",
                int_text(*d).as_str(),
                "ms (must be positive and <= 2147483647)",
            ),
            TimerError::TimerNotFound(id) => joined3(
                "Timer with ID ",
                int_text(*id).as_str(),
                " not found",
            ),
            TimerError::InvalidCallback(s) => joined3(
                "Invalid callback name: '",
                s.as_str(),
                "' (must be valid identifier, max 64 chars)",
            ),
            TimerError::ParameterParseError(s) => joined(
                "Failed to parse callback parameters: ",
                s.as_str(),
            ),
            TimerError::SystemShutdown => String::from_str("Timer system is shutting down"),
            TimerError::TaskSpawnError(s) => joined("Failed to spawn timer task: ", s.as_str()),
            TimerError::CallbackExecutionError(s) => joined(
                "Callback execution failed: ",
                s.as_str(),
            ),
            TimerError::IdOverflow => String::from_str(
                "Timer ID overflow (too many timers created)",
            ),
            TimerError::ResourceExhaustion(s) => joined("Resource exhaustion: ", s.as_str()),
            TimerError::ParameterValidation(s) => joined(
                "Parameter validation failed: ",
                s.as_str(),
            ),
            TimerError::Internal(s) => joined("Internal error: ", s.as_str()),
        }
    }

    pub fn is_recoverable(&self) -> (r: bool)
        ensures
            r == recoverable(*self),
    {
        match self {
            TimerError::InvalidDelay(_)
            | TimerError::InvalidCallback(_)
            | TimerError::ParameterParseError(_)
            | TimerError::ParameterValidation(_) => false,
            TimerError::TimerNotFound(_) | TimerError::CallbackExecutionError(_) => true,
            TimerError::SystemShutdown
            | TimerError::TaskSpawnError(_)
            | TimerError::IdOverflow
            | TimerError::ResourceExhaustion(_)
            | TimerError::Internal(_) => false,
        }
    }
}

} // verus!
