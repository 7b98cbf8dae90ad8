//! The checks and conversions the host-facing natives make before a timer is
//! created: the delay and name pre-check, the parameter type code, and the
//! single typed parameter a native may carry.

use vstd::prelude::*;

use crate::callback::{param_valid, valid_callback_name, CallbackData, CallbackParam};
use crate::error::{TimerError, TimerResult};

verus! {

/// The type code a native passes for its one parameter.
#[derive(Debug, Clone, Copy, PartialEq, Eq)]
pub enum TimerParamType {
    Integer,
    Float,
    String,
}

impl TimerParamType {
    /// 0 is an integer, 1 a float, 2 a string; any other code is none of them.
    pub fn from_i32(val: i32) -> (r: Option<Self>)
        ensures
            val == 0 ==> r == Some(TimerParamType::Integer),
            val == 1 ==> r == Some(TimerParamType::Float),
            val == 2 ==> r == Some(TimerParamType::String),
            r is None <==> !(0 <= val <= 2),
    {
        match val {
            0 => Some(TimerParamType::Integer),
            1 => Some(TimerParamType::Float),
            2 => Some(TimerParamType::String),
            _ => None,
        }
    }
}

/// The pre-check of every native that creates a timer.
pub fn validate_timer_params(delay_ms: i32, callback: &str) -> (r: TimerResult<()>)
    ensures
        delay_ms <= 0 ==> (r matches Err(TimerError::InvalidDelay(d)) && d == delay_ms),
        delay_ms > 0 && !valid_callback_name(callback@) ==> (r matches Err(
            TimerError::InvalidCallback(s),
        ) && s@ == callback@),
        delay_ms > 0 && valid_callback_name(callback@) ==> r is Ok,
{
    if delay_ms <= 0 {
        return Err(TimerError::InvalidDelay(delay_ms));
    }
    if !crate::callback::is_valid_callback_name(callback) {
        return Err(TimerError::InvalidCallback(String::from_str(callback)));
    }
    Ok(())
}

/// The parameter set of a native that carries one typed value; the float is
/// given as its bit pattern. Only the slot the type code selects is read.
pub fn build_callback_data(
    param_type: TimerParamType,
    int_param: i32,
    float_bits: u32,
    string_param: &str,
) -> (r: TimerResult<CallbackData>)
    ensures
        r is Err ==> r->Err_0 is ParameterValidation,
        r matches Ok(d) ==> d.params@.len() == 1 && match param_type {
            TimerParamType::Integer => d.params@[0] == CallbackParam::Integer(int_param),
            TimerParamType::Float => d.params@[0] == CallbackParam::Float(float_bits),
            TimerParamType::String => (d.params@[0] matches CallbackParam::String(s) && s@
                == string_param@),
        },
        r is Ok <==> match param_type {
            TimerParamType::Integer => true,
            TimerParamType::Float => param_valid(CallbackParam::Float(float_bits)),
            TimerParamType::String => crate::callback::byte_len(string_param@)
                <= crate::callback::MAX_STRING_PARAM_LENGTH,
        },
{
    let mut data = CallbackData::with_capacity(1);
    let param = match param_type {
        TimerParamType::Integer => CallbackParam::Integer(int_param),
        TimerParamType::Float => CallbackParam::Float(float_bits),
        TimerParamType::String => CallbackParam::String(String::from_str(string_param)),
    };
    let ghost p = param;
    match data.add_param(param) {
        Err(e) => Err(e),
        Ok(()) => {
            assert(data.params@ =~= seq![p]);
            Ok(data)
        },
    }
}

} // verus!
