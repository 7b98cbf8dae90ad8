//! Callback names, typed call parameters and their validation, and the
//! dispatcher that hands a validated call to the script-runtime bridge.

use vstd::prelude::*;
use vstd::utf8::encode_utf8;

use crate::amx_manager::AmxManager;
use crate::error::{joined3, TimerError, TimerResult};

verus! {

pub const MAX_CALLBACK_PARAMS: usize = 16;

pub const MAX_STRING_PARAM_LENGTH: usize = 1024;

pub const MAX_CALLBACK_NAME_LENGTH: usize = 64;

/// A callback run that takes longer than this many milliseconds is reported as slow.
pub const SLOW_CALLBACK_MS: u64 = 10;

/// One typed argument of a callback call. A float is held as its IEEE-754
/// single-precision bit pattern, which is also the cell the host receives.
#[derive(Debug, Clone)]
pub enum CallbackParam {
    Integer(i32),
    Float(u32),
    String(String),
}

/// The parameters of one call, in logical order.
#[derive(Debug, Clone)]
pub struct CallbackData {
    pub params: Vec<CallbackParam>,
}

/// Whether a char has Unicode's `Alphabetic` property.
pub uninterp spec fn alphabetic(c: char) -> bool;

/// Whether a char is alphabetic or has a numeric general category.
pub uninterp spec fn alphanumeric(c: char) -> bool;

/// Whether a char has Unicode's `White_Space` property.
pub uninterp spec fn whitespace(c: char) -> bool;

/// Relies on `char::is_alphabetic`, which depends on the char alone.
#[verifier::external_body]
fn char_is_alphabetic(c: char) -> (r: bool)
    ensures
        r == alphabetic(c),
{
    c.is_alphabetic()
}

/// Relies on `char::is_alphanumeric`, which depends on the char alone.
#[verifier::external_body]
fn char_is_alphanumeric(c: char) -> (r: bool)
    ensures
        r == alphanumeric(c),
{
    c.is_alphanumeric()
}

/// Relies on `char::is_whitespace`, which depends on the char alone; `str::trim`
/// removes exactly the chars for which it holds.
#[verifier::external_body]
fn char_is_whitespace(c: char) -> (r: bool)
    ensures
        r == whitespace(c),
{
    c.is_whitespace()
}

/// Relies on `usize`'s `Display` impl, through `ToString::to_string`. Only used
/// for the wording of error messages, so nothing is claimed of the text.
#[verifier::external_body]
fn count_text(n: usize) -> (r: String) {
    n.to_string()
}

/// A char that may stand anywhere in a callback name.
pub open spec fn name_char(c: char) -> bool {
    alphanumeric(c) || c == '_'
}

/// The identifier grammar of callback names: 1 to 64 chars, no surrounding
/// whitespace, a letter or '_' first, then letters, digits or '_'.
pub open spec fn valid_callback_name(s: Seq<char>) -> bool {
    &&& 0 < s.len() <= MAX_CALLBACK_NAME_LENGTH
    &&& !whitespace(s[0])
    &&& !whitespace(s.last())
    &&& (alphabetic(s[0]) || s[0] == '_')
    &&& forall|i: int| 0 <= i < s.len() ==> #[trigger] name_char(s[i])
}

/// The number of bytes of the UTF-8 encoding of `s`.
pub open spec fn byte_len(s: Seq<char>) -> nat {
    encode_utf8(s).len()
}

/// Each char takes one to four bytes in UTF-8.
pub(crate) proof fn lemma_byte_len_bounds(s: Seq<char>)
    ensures
        s.len() <= byte_len(s) <= 4 * s.len(),
    decreases s.len(),
{
    if s.len() > 0 {
        lemma_byte_len_bounds(s.drop_first());
    }
}

/// The exponent field of a finite float is not all ones.
pub open spec fn float_bits_finite(bits: u32) -> bool {
    (bits >> 23u32) & 0xffu32 != 0xffu32
}

pub open spec fn param_valid(p: CallbackParam) -> bool {
    match p {
        CallbackParam::Integer(_) => true,
        CallbackParam::Float(bits) => float_bits_finite(bits),
        CallbackParam::String(s) => byte_len(s@) <= MAX_STRING_PARAM_LENGTH,
    }
}

pub open spec fn params_valid(ps: Seq<CallbackParam>) -> bool {
    &&& ps.len() <= MAX_CALLBACK_PARAMS
    &&& forall|i: int| 0 <= i < ps.len() ==> #[trigger] param_valid(ps[i])
}

pub open spec fn data_valid(d: Option<CallbackData>) -> bool {
    match d {
        Some(d) => params_valid(d.params@),
        None => true,
    }
}

/// Whether every char of `s` is whitespace, so that trimming leaves nothing.
pub open spec fn blank(s: Seq<char>) -> bool {
    forall|i: int| 0 <= i < s.len() ==> #[trigger] whitespace(s[i])
}

pub fn is_valid_callback_name(name: &str) -> (r: bool)
    ensures
        r == valid_callback_name(name@),
{
    let n = name.unicode_len();
    if n == 0 || n > MAX_CALLBACK_NAME_LENGTH {
        return false;
    }
    let first = name.get_char(0);
    let last = name.get_char(n - 1);
    if char_is_whitespace(first) || char_is_whitespace(last) {
        return false;
    }
    if !char_is_alphabetic(first) && first != '_' {
        return false;
    }
    let mut i: usize = 0;
    while i < n
        invariant
            n == name@.len(),
            i <= n,
            forall|j: int| 0 <= j < i ==> #[trigger] name_char(name@[j]),
        decreases n - i,
    {
        let c = name.get_char(i);
        if !char_is_alphanumeric(c) && c != '_' {
            assert(!name_char(name@[i as int]));
            return false;
        }
        i = i + 1;
    }
    true
}

/// Whether trimming `name` of surrounding whitespace leaves nothing.
pub fn is_blank(name: &str) -> (r: bool)
    ensures
        r == blank(name@),
{
    let n = name.unicode_len();
    let mut i: usize = 0;
    while i < n
        invariant
            n == name@.len(),
            i <= n,
            forall|j: int| 0 <= j < i ==> #[trigger] whitespace(name@[j]),
        decreases n - i,
    {
        if !char_is_whitespace(name.get_char(i)) {
            return false;
        }
        i = i + 1;
    }
    true
}

fn validation_error(message: &str) -> (r: TimerError)
    ensures
        r is ParameterValidation,
{
    TimerError::ParameterValidation(String::from_str(message))
}

impl CallbackParam {
    pub fn validate(&self) -> (r: TimerResult<()>)
        ensures
            r is Ok <==> param_valid(*self),
            r is Err ==> r->Err_0 is ParameterValidation,
    {
        match self {
            CallbackParam::String(s) => {
                let text = s.as_str();
                proof {
                    lemma_byte_len_bounds(text@);
                }
                if text.unicode_len() > MAX_STRING_PARAM_LENGTH
                    || text.len() > MAX_STRING_PARAM_LENGTH {
                    return Err(
                        TimerError::ParameterValidation(
                            joined3(
                                "String parameter too long: ",
                                count_text(text.len()).as_str(),
                                " > 1024 chars",
                            ),
                        ),
                    );
                }
            },
            CallbackParam::Float(bits) => {
                if (*bits >> 23u32) & 0xffu32 == 0xffu32 {
                    return Err(
                        validation_error("Float parameter must be finite (not NaN or infinite)"),
                    );
                }
            },
            CallbackParam::Integer(_) => {},
        }
        Ok(())
    }
}

impl CallbackData {
    pub fn new() -> (r: Self)
        ensures
            r.params@.len() == 0,
    {
        CallbackData { params: Vec::with_capacity(4) }
    }

    pub fn with_capacity(capacity: usize) -> (r: Self)
        ensures
            r.params@.len() == 0,
    {
        if capacity <= 4 {
            Self::new()
        } else {
            let c = if capacity < MAX_CALLBACK_PARAMS {
                capacity
            } else {
                MAX_CALLBACK_PARAMS
            };
            CallbackData { params: Vec::with_capacity(c) }
        }
    }

    /// Appends a parameter when there is room for it and it is valid.
    pub fn add_param(&mut self, param: CallbackParam) -> (r: TimerResult<()>)
        ensures
            r is Ok <==> old(self).params@.len() < MAX_CALLBACK_PARAMS && param_valid(param),
            r is Ok ==> final(self).params@ == old(self).params@.push(param),
            r is Err ==> r->Err_0 is ParameterValidation && *final(self) == *old(self),
    {
        let len = self.params.len();
        if len >= MAX_CALLBACK_PARAMS {
            return Err(
                TimerError::ParameterValidation(
                    joined3("Too many parameters: ", count_text(len.saturating_add(1)).as_str(), " > 16"),
                ),
            );
        }
        match param.validate() {
            Err(e) => Err(e),
            Ok(()) => {
                self.params.push(param);
                Ok(())
            },
        }
    }

    /// Checks the count and each parameter; reports the first violation.
    pub fn validate(&self) -> (r: TimerResult<()>)
        ensures
            r is Ok <==> params_valid(self.params@),
            r is Err ==> r->Err_0 is ParameterValidation,
    {
        if self.params.len() > MAX_CALLBACK_PARAMS {
            return Err(validation_error("Too many parameters"));
        }
        let mut i: usize = 0;
        while i < self.params.len()
            invariant
                i <= self.params@.len(),
                forall|j: int| 0 <= j < i ==> #[trigger] param_valid(self.params@[j]),
            decreases self.params@.len() - i,
        {
            match self.params[i].validate() {
                Err(e) => {
                    return Err(e);
                },
                Ok(()) => {},
            }
            i = i + 1;
        }
        Ok(())
    }
}

/// Validates an optional parameter set.
pub fn validate_data(params: &Option<CallbackData>) -> (r: TimerResult<()>)
    ensures
        r is Ok <==> data_valid(*params),
        r is Err ==> r->Err_0 is ParameterValidation,
{
    match params {
        Some(d) => d.validate(),
        None => Ok(()),
    }
}

/// How a timer's call is carried out: without a registered host context it is
/// only logged, otherwise it goes through the bridge.
#[derive(Debug, Clone, Copy, PartialEq, Eq)]
pub enum DispatchRoute {
    Simulated,
    Bridge,
}

/// The dispatcher's decision for one call: the name must hold more than
/// whitespace and the parameters must still be valid, since one parameter set
/// is reused by every run of a repeating timer.
pub fn route_callback(
    bridge: &AmxManager,
    callback_name: &str,
    params: &Option<CallbackData>,
) -> (r: TimerResult<DispatchRoute>)
    ensures
        blank(callback_name@) ==> (r matches Err(TimerError::InvalidCallback(s)) && s@
            == callback_name@),
        !blank(callback_name@) && !data_valid(*params) ==> r matches Err(
            TimerError::ParameterValidation(_),
        ),
        !blank(callback_name@) && data_valid(*params) ==> r == Ok::<DispatchRoute, TimerError>(
            if bridge@.len() > 0 {
                DispatchRoute::Bridge
            } else {
                DispatchRoute::Simulated
            },
        ),
{
    if is_blank(callback_name) {
        return Err(TimerError::InvalidCallback(String::from_str(callback_name)));
    }
    match validate_data(params) {
        Err(e) => Err(e),
        Ok(()) => {
            if bridge.has_instances() {
                Ok(DispatchRoute::Bridge)
            } else {
                Ok(DispatchRoute::Simulated)
            }
        },
    }
}

/// Whether a run that took `elapsed_ms` milliseconds counts as slow.
pub fn is_slow_callback(elapsed_ms: u64) -> (r: bool)
    ensures
        r == (elapsed_ms > SLOW_CALLBACK_MS),
{
    elapsed_ms > SLOW_CALLBACK_MS
}

} // verus!
