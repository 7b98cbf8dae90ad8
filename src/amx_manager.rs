//! The script-runtime bridge: the set of registered host contexts, the checks
//! made before a call crosses into the host, and the order in which a call's
//! arguments are pushed onto the host's stack.

use vstd::prelude::*;

use crate::callback::{
    byte_len, data_valid, float_bits_finite, param_valid, CallbackData, CallbackParam,
    MAX_CALLBACK_NAME_LENGTH, MAX_CALLBACK_PARAMS, MAX_STRING_PARAM_LENGTH,
};
use crate::error::{joined3, TimerError, TimerResult};

verus! {

/// The registered host execution contexts, each named by a nonzero identity,
/// in order of first registration and without repeats.
pub struct AmxManager {
    instances: Vec<usize>,
}

impl View for AmxManager {
    type V = Seq<usize>;

    closed spec fn view(&self) -> Seq<usize> {
        self.instances@
    }
}

/// What registering `ident` makes of the registered identities: a null
/// identity and one already present leave them as they are.
pub open spec fn registered(instances: Seq<usize>, ident: usize) -> Seq<usize> {
    if ident == 0 || instances.contains(ident) {
        instances
    } else {
        instances.push(ident)
    }
}

/// The arguments as the entry point reads them from the stack it is handed:
/// the value pushed last is its first argument.
pub open spec fn callee_arguments(pushed: Seq<CallbackParam>) -> Seq<CallbackParam> {
    pushed.reverse()
}

/// The values pushed for a call, in the order they are pushed.
pub open spec fn push_sequence(params: Option<CallbackData>) -> Seq<CallbackParam> {
    match params {
        Some(d) => d.params@.reverse(),
        None => Seq::empty(),
    }
}

/// The logical arguments of a call.
pub open spec fn logical_arguments(params: Option<CallbackData>) -> Seq<CallbackParam> {
    match params {
        Some(d) => d.params@,
        None => Seq::empty(),
    }
}

/// Pushing a call's parameters last-first hands the entry point its
/// arguments in their logical order.
pub proof fn lemma_marshalling_keeps_order(params: Option<CallbackData>)
    ensures
        callee_arguments(push_sequence(params)) == logical_arguments(params),
{
    let s = logical_arguments(params);
    assert(s.reverse().reverse() =~= s);
}

/// The error for an entry point that the host does not have.
pub fn entry_point_missing(name: &str) -> (r: TimerError)
    ensures
        r is CallbackExecutionError,
{
    TimerError::CallbackExecutionError(
        joined3("Callback function '", name, "' not found"),
    )
}

/// The error for a value the host refused to take, or a call that failed.
/// `what` says which step failed and `detail` what the host reported.
pub fn host_failure(what: &str, detail: &str) -> (r: TimerError)
    ensures
        r is CallbackExecutionError,
{
    TimerError::CallbackExecutionError(joined3(what, ": ", detail))
}

/// A copy of `p`.
fn copy_param(p: &CallbackParam) -> (r: CallbackParam)
    ensures
        r == *p,
{
    match p {
        CallbackParam::Integer(v) => CallbackParam::Integer(*v),
        CallbackParam::Float(bits) => CallbackParam::Float(*bits),
        CallbackParam::String(s) => CallbackParam::String(s.clone()),
    }
}

impl AmxManager {
    pub fn new() -> (r: Self)
        ensures
            r@ == Seq::<usize>::empty(),
    {
        AmxManager { instances: Vec::new() }
    }

    /// Registers a host context; the first registration of an identity is
    /// kept and later ones are ignored.
    pub fn register_amx(&mut self, ident: usize)
        ensures
            final(self)@ == registered(old(self)@, ident),
    {
        if ident == 0 {
            return;
        }
        let mut i: usize = 0;
        while i < self.instances.len()
            invariant
                i <= self.instances@.len(),
                forall|j: int| 0 <= j < i ==> self.instances@[j] != ident,
            decreases self.instances@.len() - i,
        {
            if self.instances[i] == ident {
                return;
            }
            i = i + 1;
        }
        assert(!self.instances@.contains(ident));
        self.instances.push(ident);
    }

    pub fn instance_count(&self) -> (r: usize)
        ensures
            r == self@.len(),
    {
        self.instances.len()
    }

    pub fn has_instances(&self) -> (r: bool)
        ensures
            r == (self@.len() > 0),
    {
        self.instances.len() > 0
    }

    pub fn clear_all_instances(&mut self)
        ensures
            final(self)@ == Seq::<usize>::empty(),
    {
        self.instances.clear();
    }

    /// Chooses the context a call goes to: the first one registered. Fails when
    /// the name is empty or longer than a callback name may be, or when no
    /// context is registered.
    pub fn select_instance(&self, name: &str) -> (r: TimerResult<usize>)
        ensures
            name@.len() == 0 ==> r matches Err(TimerError::InvalidCallback(_)),
            name@.len() != 0 && self@.len() == 0 ==> r matches Err(TimerError::Internal(_)),
            name@.len() != 0 && self@.len() != 0 && name@.len() > MAX_CALLBACK_NAME_LENGTH
                ==> r matches Err(TimerError::InvalidCallback(_)),
            0 < name@.len() <= MAX_CALLBACK_NAME_LENGTH && self@.len() != 0 ==> r == Ok::<
                usize,
                TimerError,
            >(self@[0]),
    {
        let n = name.unicode_len();
        if n == 0 {
            return Err(TimerError::InvalidCallback(String::from_str("Empty callback name")));
        }
        if self.instances.len() == 0 {
            return Err(TimerError::Internal(String::from_str("No AMX instances available")));
        }
        if n > MAX_CALLBACK_NAME_LENGTH {
            return Err(
                TimerError::InvalidCallback(joined3("Callback name '", name, "' is invalid")),
            );
        }
        Ok(self.instances[0])
    }
}

/// The values to push for a call, last parameter first. Every parameter is
/// checked before anything is pushed, from the last to the first, so an
/// invalid one abandons the call before any value reaches the host.
pub fn marshal_params(params: &Option<CallbackData>) -> (r: TimerResult<Vec<CallbackParam>>)
    ensures
        r is Ok <==> data_valid(*params),
        r is Ok ==> r->Ok_0@ == push_sequence(*params),
        r is Err ==> r->Err_0 is ParameterValidation,
{
    match params {
        None => Ok(Vec::new()),
        Some(data) => {
            let n = data.params.len();
            if n > MAX_CALLBACK_PARAMS {
                return Err(TimerError::ParameterValidation(String::from_str("Too many parameters")));
            }
            let mut pushed: Vec<CallbackParam> = Vec::with_capacity(n);
            let mut k: usize = 0;
            while k < n
                invariant
                    *params == Some(*data),
                    n == data.params@.len(),
                    n <= MAX_CALLBACK_PARAMS,
                    k <= n,
                    pushed@ == data.params@.reverse().take(k as int),
                    forall|j: int| n - k <= j < n ==> #[trigger] param_valid(data.params@[j]),
                decreases n - k,
            {
                let p = &data.params[n - 1 - k];
                match p {
                    CallbackParam::Float(bits) => {
                        if (*bits >> 23u32) & 0xffu32 == 0xffu32 {
                            assert(!param_valid(data.params@[n - 1 - k]));
                            return Err(
                                TimerError::ParameterValidation(String::from_str("Invalid float")),
                            );
                        }
                    },
                    CallbackParam::String(s) => {
                        let text = s.as_str();
                        proof {
                            crate::callback::lemma_byte_len_bounds(text@);
                        }
                        if text.unicode_len() > MAX_STRING_PARAM_LENGTH
                            || text.len() > MAX_STRING_PARAM_LENGTH {
                            assert(!param_valid(data.params@[n - 1 - k]));
                            return Err(
                                TimerError::ParameterValidation(String::from_str("String too long")),
                            );
                        }
                    },
                    CallbackParam::Integer(_) => {},
                }
                pushed.push(copy_param(p));
                proof {
                    assert(data.params@.reverse().take(k + 1) =~= data.params@.reverse().take(
                        k as int,
                    ).push(data.params@[n - 1 - k]));
                }
                k = k + 1;
            }
            assert(data.params@.reverse().take(n as int) =~= data.params@.reverse());
            Ok(pushed)
        },
    }
}

} // verus!
