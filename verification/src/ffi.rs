//! Status codes and message handling of the C interface.

use vstd::prelude::*;
use crate::state::DEFAULT_MAX_QUEUE_SECONDS;

verus! {

/// The call succeeded.
pub const STATUS_OK: i32 = 0;
/// The engine reported an error; the message says which.
pub const STATUS_FAILED: i32 = -1;
/// A pointer argument was null, a string was not UTF-8, or a length was not positive.
pub const STATUS_INVALID_ARGUMENT: i32 = -2;
/// The source file could not be opened.
pub const STATUS_SOURCE_UNREADABLE: i32 = -3;
/// The engine lock is poisoned.
pub const STATUS_ENGINE_POISONED: i32 = -500;
/// The engine could not be created (no output device).
pub const STATUS_ENGINE_INIT_FAILED: i32 = -501;
/// The engine is missing after creation.
pub const STATUS_ENGINE_MISSING: i32 = -502;

/// How a call on the engine went, in the order the checks are made.
#[derive(Clone, Copy, Debug, PartialEq, Eq, Structural)]
pub enum EngineOutcome {
    /// The engine lock was poisoned.
    Poisoned,
    /// The engine did not exist and could not be created.
    InitFailed,
    /// The engine was still missing after creation.
    Missing,
    /// The operation ran and succeeded.
    Succeeded,
    /// The operation ran and reported an error.
    Failed,
}

pub open spec fn spec_outcome_status(o: EngineOutcome) -> i32 {
    match o {
        EngineOutcome::Poisoned => STATUS_ENGINE_POISONED,
        EngineOutcome::InitFailed => STATUS_ENGINE_INIT_FAILED,
        EngineOutcome::Missing => STATUS_ENGINE_MISSING,
        EngineOutcome::Succeeded => STATUS_OK,
        EngineOutcome::Failed => STATUS_FAILED,
    }
}

/// The status code returned to C for an engine call, and whether the last
/// error is cleared (only on success; every other outcome records one).
pub fn outcome_status(o: EngineOutcome) -> (r: (i32, bool))
    ensures
        r.0 == spec_outcome_status(o),
        r.1 == (o == EngineOutcome::Succeeded),
{
    match o {
        EngineOutcome::Poisoned => (STATUS_ENGINE_POISONED, false),
        EngineOutcome::InitFailed => (STATUS_ENGINE_INIT_FAILED, false),
        EngineOutcome::Missing => (STATUS_ENGINE_MISSING, false),
        EngineOutcome::Succeeded => (STATUS_OK, true),
        EngineOutcome::Failed => (STATUS_FAILED, false),
    }
}

/// Law: an engine call reports 0 exactly when it succeeded, a negative code
/// otherwise, and different outcomes give different codes.
pub proof fn lemma_outcome_status_distinct(a: EngineOutcome, b: EngineOutcome)
    ensures
        (spec_outcome_status(a) == STATUS_OK) == (a == EngineOutcome::Succeeded),
        spec_outcome_status(a) <= 0,
        spec_outcome_status(a) == spec_outcome_status(b) <==> a == b,
{
}

/// Remember `msg` as the last error.
pub fn set_last_error(last: &mut String, msg: String)
    ensures
        final(last)@ == msg@,
{
    *last = msg;
}

/// Forget the last error.
pub fn clear_last_error(last: &mut String)
    ensures
        final(last)@ == Seq::<char>::empty(),
{
    *last = String::new();
}

/// Whether a memory source given as a pointer and a length can be read.
pub fn memory_source_is_valid(is_null: bool, len: i32) -> (b: bool)
    ensures
        b == (!is_null && len > 0),
{
    !is_null && len > 0
}

/// The bytes to write into a caller's buffer of `buffer_len` bytes: as much
/// of `msg` as fits with room for the terminating NUL, then the NUL.
/// `None` when the buffer has no room at all.
pub fn c_message_bytes(msg: &[u8], buffer_len: i32) -> (r: Option<Vec<u8>>)
    ensures
        buffer_len <= 0 ==> r is None,
        buffer_len > 0 ==> (r matches Some(v) && {
            let n = if msg@.len() < buffer_len - 1 { msg@.len() as int } else { buffer_len - 1 };
            &&& v@ == msg@.take(n).push(0u8)
            &&& v@.len() <= buffer_len
        }),
{
    if buffer_len <= 0 {
        return None;
    }
    let room = (buffer_len - 1) as usize;
    let n = if msg.len() < room { msg.len() } else { room };
    let mut v: Vec<u8> = Vec::with_capacity(n + 1);
    let mut i: usize = 0;
    while i < n
        invariant
            i <= n,
            n <= msg@.len(),
            v@ == msg@.take(i as int),
        decreases n - i,
    {
        v.push(msg[i]);
        assert(msg@.take(i as int).push(msg@[i as int]) =~= msg@.take(i + 1));
        i = i + 1;
    }
    v.push(0u8);
    Some(v)
}

/// `a * b` in `u32`, or `u32::MAX` when the product does not fit.
pub open spec fn saturating_mul_u32(a: int, b: int) -> int {
    if a * b > u32::MAX {
        u32::MAX as int
    } else {
        a * b
    }
}

fn mul_saturating_u32(a: u32, b: u32) -> (r: u32)
    ensures
        r == saturating_mul_u32(a as int, b as int),
{
    match a.checked_mul(b) {
        Some(p) => p,
        None => u32::MAX,
    }
}

/// Capacity of the engine's playback queue: `DEFAULT_MAX_QUEUE_SECONDS` of
/// audio, counted in `u32` and saturating there.
pub fn engine_queue_capacity(sample_rate: u32, channels: usize) -> (n: usize)
    ensures
        n == saturating_mul_u32(
            saturating_mul_u32(sample_rate as int, (channels as u32) as int),
            DEFAULT_MAX_QUEUE_SECONDS as int,
        ),
{
    let per_second = mul_saturating_u32(sample_rate, channels as u32);
    mul_saturating_u32(per_second, DEFAULT_MAX_QUEUE_SECONDS as u32) as usize
}

} // verus!
