//! Which metadata call to issue.
//!
//! The extended call is the richer one, but an old kernel lacks it. Whether
//! the running kernel has it is found out by trying, once: the answer is kept
//! in a small state that a caller stores wherever it likes, and that never
//! changes again once it is known.
use crate::errno::table::ENOSYS;
use crate::flags::StatXMask;
use crate::raw;
use crate::request::Request;
use crate::unified::Stat;
use crate::Errno;
use vstd::prelude::*;

verus! {

/// What is known of the extended metadata call on the running kernel.
#[derive(Copy, Clone, Debug, PartialEq, Eq, Structural)]
pub enum CapabilityState {
    /// Nothing yet: no call has settled it.
    Unknown,
    /// The kernel has the call.
    Supported,
    /// The kernel lacks the call.
    Unsupported,
}

/// One of the two metadata calls.
#[derive(Copy, Clone, Debug, PartialEq, Eq, Structural)]
pub enum Call {
    /// The legacy call, which every kernel has.
    Legacy,
    /// The extended call.
    Extended,
}

/// What an attempt of the extended call has shown.
#[derive(Copy, Clone, Debug, PartialEq, Eq, Structural)]
pub enum Probe {
    /// The call succeeded.
    Success,
    /// The kernel said that it does not implement the call.
    NotImplemented,
    /// The call failed for a reason that says nothing of the kernel.
    Failure,
}

/// What to do once the extended call has returned.
#[derive(Copy, Clone, Debug)]
pub enum Step {
    /// The request is answered.
    Done(Result<Stat, Errno>),
    /// The kernel lacks the extended call: issue the legacy call for the same
    /// request.
    Fallback,
}

/// The fields that the extended call is asked for: those that the legacy
/// call reports.
pub const EXTENDED_MASK: u32 = StatXMask::BASIC_STATS;

/// What the result of the extended call shows.
pub open spec fn probe_of(result: Result<raw::Statx, Errno>) -> Probe {
    match result {
        Ok(_) => Probe::Success,
        Err(e) => if e.code() == ENOSYS {
            Probe::NotImplemented
        } else {
            Probe::Failure
        },
    }
}

/// The state after an attempt of the extended call. Only the first attempt
/// that settles the question changes the state.
pub open spec fn next_state(state: CapabilityState, probe: Probe) -> CapabilityState {
    match state {
        CapabilityState::Unknown => match probe {
            Probe::Success => CapabilityState::Supported,
            Probe::NotImplemented => CapabilityState::Unsupported,
            Probe::Failure => CapabilityState::Unknown,
        },
        CapabilityState::Supported => CapabilityState::Supported,
        CapabilityState::Unsupported => CapabilityState::Unsupported,
    }
}

/// The call with which a request starts.
pub open spec fn first_call(state: CapabilityState) -> Call {
    match state {
        CapabilityState::Unsupported => Call::Legacy,
        _ => Call::Extended,
    }
}

/// The state after a series of attempts of the extended call.
pub open spec fn state_after(state: CapabilityState, probes: Seq<Probe>) -> CapabilityState
    decreases probes.len(),
{
    if probes.len() == 0 {
        state
    } else {
        next_state(state_after(state, probes.drop_last()), probes.last())
    }
}

impl CapabilityState {
    /// The state that a small integer stands for: 0 the unsupported, 1 the
    /// supported, anything else the unknown state.
    pub fn from_u8(value: u8) -> (r: Self)
        ensures
            r == match value {
                0u8 => CapabilityState::Unsupported,
                1u8 => CapabilityState::Supported,
                _ => CapabilityState::Unknown,
            },
    {
        match value {
            0 => CapabilityState::Unsupported,
            1 => CapabilityState::Supported,
            _ => CapabilityState::Unknown,
        }
    }

    /// The small integer that stands for the state.
    pub fn as_u8(self) -> (r: u8)
        ensures
            r == match self {
                CapabilityState::Unsupported => 0u8,
                CapabilityState::Supported => 1u8,
                CapabilityState::Unknown => 2u8,
            },
    {
        match self {
            CapabilityState::Unsupported => 0,
            CapabilityState::Supported => 1,
            CapabilityState::Unknown => 2,
        }
    }

    /// The state in which a process starts.
    pub fn initial() -> (r: Self)
        ensures
            r == CapabilityState::Unknown,
    {
        CapabilityState::Unknown
    }

    /// The call with which a request starts in this state.
    pub fn first_call(self) -> (r: Call)
        ensures
            r == first_call(self),
    {
        match self {
            CapabilityState::Unsupported => Call::Legacy,
            _ => Call::Extended,
        }
    }

    /// The fields to ask the extended call for.
    pub fn mask(self) -> (r: StatXMask)
        ensures
            r@ == EXTENDED_MASK,
    {
        StatXMask::from_bits(EXTENDED_MASK)
    }

    /// Takes the result of the extended call, and gives the state to store and
    /// what to do next.
    ///
    /// In the unknown state a success settles that the kernel has the call, and
    /// the answer that it does not implement it settles that it lacks the call:
    /// then the legacy call is to be issued for the same request. Any other
    /// failure is the answer to the request and leaves the state unknown. Once
    /// the state is known it stays: where the call is supported its result is
    /// the answer, whatever it is; where it is unsupported the legacy call is to
    /// be issued.
    pub fn after_extended(self, result: Result<raw::Statx, Errno>) -> (r: (CapabilityState, Step))
        ensures
            r.0 == next_state(self, probe_of(result)),
            r.1 is Fallback <==> r.0 == CapabilityState::Unsupported,
            r.1 matches Step::Done(answer) ==> answer == extended_answer_of(result),
    {
        match self {
            CapabilityState::Unsupported => (CapabilityState::Unsupported, Step::Fallback),
            CapabilityState::Supported => (CapabilityState::Supported, Step::Done(extended_answer(result))),
            CapabilityState::Unknown => match result {
                Ok(record) => (CapabilityState::Supported, Step::Done(Ok(Stat::Statx(record)))),
                Err(e) => if e.into_raw() == ENOSYS {
                    (CapabilityState::Unsupported, Step::Fallback)
                } else {
                    (CapabilityState::Unknown, Step::Done(Err(e)))
                },
            },
        }
    }
}

/// The answer that the result of the extended call is.
pub open spec fn extended_answer_of(result: Result<raw::Statx, Errno>) -> Result<Stat, Errno> {
    match result {
        Ok(record) => Ok(Stat::Statx(record)),
        Err(e) => Err(e),
    }
}

/// The answer that the result of the legacy call is.
pub open spec fn legacy_answer_of(result: Result<raw::stat, Errno>) -> Result<Stat, Errno> {
    match result {
        Ok(record) => Ok(Stat::Stat64(record)),
        Err(e) => Err(e),
    }
}

/// The answer to a request that the extended call has served.
pub fn extended_answer(result: Result<raw::Statx, Errno>) -> (r: Result<Stat, Errno>)
    ensures
        r == extended_answer_of(result),
{
    match result {
        Ok(record) => Ok(Stat::Statx(record)),
        Err(e) => Err(e),
    }
}

/// The answer to a request that the legacy call has served.
pub fn legacy_answer(result: Result<raw::stat, Errno>) -> (r: Result<Stat, Errno>)
    ensures
        r == legacy_answer_of(result),
{
    match result {
        Ok(record) => Ok(Stat::Stat64(record)),
        Err(e) => Err(e),
    }
}

/// Serves one request in the given state: `extended` issues the extended
/// call and `legacy` the legacy call. Returns the state to store and the
/// answer.
///
/// Both calls are handed the same request, and the extended call the mask of
/// the fields that the legacy call reports. Where the kernel is known to lack
/// the extended call, only the legacy call is issued. Otherwise the extended
/// call is issued, and the legacy call after it only where the kernel turns out
/// to lack the extended call; then the answer is that of the legacy call.
/// Neither call is issued twice.
pub fn fstatat_with<F, G>(state: CapabilityState, request: &Request, extended: F, legacy: G) -> (r:
    (CapabilityState, Result<Stat, Errno>)) where
    F: FnOnce(&Request, StatXMask) -> Result<raw::Statx, Errno>,
    G: FnOnce(&Request) -> Result<raw::stat, Errno>,

    requires
        forall|mask: StatXMask| mask@ == EXTENDED_MASK ==> call_requires(extended, (request, mask)),
        call_requires(legacy, (request,)),
    ensures
        state == CapabilityState::Unsupported ==> r.0 == state && exists|l: Result<raw::stat, Errno>|
            call_ensures(legacy, (request,), l) && r.1 == legacy_answer_of(l),
        state != CapabilityState::Unsupported ==> exists|
            x: Result<raw::Statx, Errno>,
            mask: StatXMask,
        |
            {
                &&& mask@ == EXTENDED_MASK
                &&& call_ensures(extended, (request, mask), x)
                &&& r.0 == next_state(state, probe_of(x))
                &&& r.0 != CapabilityState::Unsupported ==> r.1 == extended_answer_of(x)
                &&& r.0 == CapabilityState::Unsupported ==> exists|l: Result<raw::stat, Errno>|
                    call_ensures(legacy, (request,), l) && r.1 == legacy_answer_of(l)
            },
{
    match state.first_call() {
        Call::Legacy => (state, legacy_answer(legacy(request))),
        Call::Extended => {
            let result = extended(request, state.mask());
            let (next, step) = state.after_extended(result);
            match step {
                Step::Done(answer) => (next, answer),
                Step::Fallback => (next, legacy_answer(legacy(request))),
            }
        },
    }
}

/// A state that is known stays as it is, whatever the extended call does
/// afterwards.
pub proof fn lemma_known_state_stays(state: CapabilityState, probes: Seq<Probe>)
    requires
        state != CapabilityState::Unknown,
    ensures
        state_after(state, probes) == state,
    decreases probes.len(),
{
    if probes.len() > 0 {
        lemma_known_state_stays(state, probes.drop_last());
    }
}

/// From the unknown state, the answer that the kernel does not implement the
/// extended call pins the unsupported state: whatever happens afterwards, every
/// request starts with the legacy call. A success pins the supported state:
/// every request starts with the extended call.
pub proof fn lemma_first_answer_pins(probes: Seq<Probe>)
    ensures
        next_state(CapabilityState::Unknown, Probe::NotImplemented) == CapabilityState::Unsupported,
        state_after(CapabilityState::Unsupported, probes) == CapabilityState::Unsupported,
        first_call(state_after(CapabilityState::Unsupported, probes)) == Call::Legacy,
        next_state(CapabilityState::Unknown, Probe::Success) == CapabilityState::Supported,
        state_after(CapabilityState::Supported, probes) == CapabilityState::Supported,
        first_call(state_after(CapabilityState::Supported, probes)) == Call::Extended,
        next_state(CapabilityState::Unknown, Probe::Failure) == CapabilityState::Unknown,
{
    lemma_known_state_stays(CapabilityState::Unsupported, probes);
    lemma_known_state_stays(CapabilityState::Supported, probes);
}

} // verus!
