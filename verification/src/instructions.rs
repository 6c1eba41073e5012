//! The four instructions.
//!
//! Three of them stamp what they write with the cluster's clock. Each of those
//! comes in two forms: the instruction itself, which reads the clock, and a
//! form ending in `_with_clock`, which is handed what the clock gave and whose
//! result is therefore fixed by its arguments.

use crate::accounts::EndVoiceSession;
use crate::accounts::InitializeAgent;
use crate::accounts::StartVoiceSession;
use crate::accounts::StoreVoiceData;
use crate::chain::unix_timestamp;
use crate::error::Failure;
use crate::error::HarkoError;
use anchor_lang::prelude::ProgramError;
use vstd::prelude::*;

verus! {

/// Registers an agent: the signer becomes its owner, it is active and has no
/// sessions yet. This cannot fail.
///
/// The name is stored as given. That it fits the room set aside for it is for
/// the runtime to see to.
pub fn initialize_agent(ctx: &mut InitializeAgent, agent_name: String) -> (r: Result<(), Failure>)
    ensures
        r is Ok,
        final(ctx)@ == old(ctx)@.after(agent_name@),
{
    ctx.agent.data.owner = ctx.owner;
    ctx.agent.data.name = agent_name;
    ctx.agent.data.is_active = true;
    ctx.agent.data.voice_sessions = 0;
    Ok(())
}

/// Starts a voice session under an agent, given what the clock gave.
///
/// A clock that could not be read fails the instruction with the runtime's
/// error, and `ctx` is left as it was. Otherwise the new record holds a session
/// that starts at the clock's time, is active and has no chunks, and the agent
/// counts one session more. The record's end time is not written. No check is
/// made that the signer owns the agent.
///
/// The counter has 64 bits; an agent that has used them all is not served.
pub fn start_voice_session_with_clock(
    ctx: &mut StartVoiceSession,
    session_id: String,
    clock: Result<i64, ProgramError>,
) -> (r: Result<(), Failure>)
    requires
        clock is Ok ==> old(ctx).agent.data.voice_sessions < u64::MAX,
    ensures
        r == old(ctx)@.outcome(clock),
        final(ctx)@ == old(ctx)@.after(session_id@, clock),
        r is Err ==> *final(ctx) == *old(ctx),
{
    match clock {
        Err(e) => Err(Failure::Environment(e)),
        Ok(now) => {
            ctx.voice_session.data.agent = ctx.agent.key;
            ctx.voice_session.data.session_id = session_id;
            ctx.voice_session.data.start_time = now;
            ctx.voice_session.data.is_active = true;
            ctx.voice_session.data.data_chunks = 0;
            ctx.agent.data.voice_sessions = ctx.agent.data.voice_sessions + 1;
            Ok(())
        },
    }
}

/// Starts a voice session under an agent, stamped with the cluster's time.
///
/// Whatever the clock gives, the outcome is that of
/// `start_voice_session_with_clock` for it.
pub fn start_voice_session(
    ctx: &mut StartVoiceSession,
    session_id: String,
) -> (r: Result<(), Failure>)
    requires
        old(ctx).agent.data.voice_sessions < u64::MAX,
    ensures
        exists|clock: Result<i64, ProgramError>|
            r == #[trigger] old(ctx)@.outcome(clock)
                && final(ctx)@ == old(ctx)@.after(session_id@, clock),
        r is Err ==> *final(ctx) == *old(ctx),
{
    let clock = unix_timestamp();
    start_voice_session_with_clock(ctx, session_id, clock)
}

/// Stores one chunk of voice data against a session, given what the clock
/// gave.
///
/// An inactive session refuses the chunk with `SessionInactive`, whatever the
/// clock gave. Otherwise a clock that could not be read fails the instruction
/// with the runtime's error. In both cases `ctx` is left as it was. Otherwise
/// the new record is filled in and the session counts one chunk more. The chunk
/// number and the duration are taken as given.
///
/// The counter has 64 bits; a session that has used them all is not served.
pub fn store_voice_data_with_clock(
    ctx: &mut StoreVoiceData,
    data_hash: String,
    chunk_number: u64,
    duration: i64,
    clock: Result<i64, ProgramError>,
) -> (r: Result<(), Failure>)
    requires
        old(ctx).voice_session.data.is_active && clock is Ok
            ==> old(ctx).voice_session.data.data_chunks < u64::MAX,
    ensures
        r == old(ctx)@.outcome(clock),
        final(ctx)@ == old(ctx)@.after(data_hash@, chunk_number as nat, duration as int, clock),
        r is Err ==> *final(ctx) == *old(ctx),
{
    if !ctx.voice_session.data.is_active {
        return Err(Failure::Domain(HarkoError::SessionInactive));
    }
    match clock {
        Err(e) => Err(Failure::Environment(e)),
        Ok(now) => {
            ctx.voice_data.data.session = ctx.voice_session.key;
            ctx.voice_data.data.data_hash = data_hash;
            ctx.voice_data.data.chunk_number = chunk_number;
            ctx.voice_data.data.timestamp = now;
            ctx.voice_data.data.duration = duration;
            ctx.voice_session.data.data_chunks = ctx.voice_session.data.data_chunks + 1;
            Ok(())
        },
    }
}

/// Stores one chunk of voice data against a session, stamped with the
/// cluster's time.
///
/// An inactive session refuses the chunk with `SessionInactive`, and the clock
/// is not read. Whatever the clock gives, the outcome is that of
/// `store_voice_data_with_clock` for it.
pub fn store_voice_data(
    ctx: &mut StoreVoiceData,
    data_hash: String,
    chunk_number: u64,
    duration: i64,
) -> (r: Result<(), Failure>)
    requires
        old(ctx).voice_session.data.is_active
            ==> old(ctx).voice_session.data.data_chunks < u64::MAX,
    ensures
        exists|clock: Result<i64, ProgramError>|
            r == #[trigger] old(ctx)@.outcome(clock)
                && final(ctx)@ == old(ctx)@.after(
                    data_hash@,
                    chunk_number as nat,
                    duration as int,
                    clock,
                ),
        !old(ctx).voice_session.data.is_active
            ==> r == Err::<(), Failure>(Failure::Domain(HarkoError::SessionInactive)),
        r is Err ==> *final(ctx) == *old(ctx),
{
    if !ctx.voice_session.data.is_active {
        let r = Err(Failure::Domain(HarkoError::SessionInactive));
        assert(r == ctx@.outcome(Ok(0i64)));
        return r;
    }
    let clock = unix_timestamp();
    store_voice_data_with_clock(ctx, data_hash, chunk_number, duration, clock)
}

/// Ends a voice session, given what the clock gave.
///
/// A session that is no longer active refuses with `SessionInactive`, whatever
/// the clock gave: a session is ended once. Otherwise a clock that could not be
/// read fails the instruction with the runtime's error. In both cases `ctx` is
/// left as it was. Otherwise the session is inactive from now on and the
/// clock's time is its end time. No check is made that the signer owns the
/// agent.
pub fn end_voice_session_with_clock(
    ctx: &mut EndVoiceSession,
    clock: Result<i64, ProgramError>,
) -> (r: Result<(), Failure>)
    ensures
        r == old(ctx)@.outcome(clock),
        final(ctx)@ == old(ctx)@.after(clock),
        r is Err ==> *final(ctx) == *old(ctx),
{
    if !ctx.voice_session.data.is_active {
        return Err(Failure::Domain(HarkoError::SessionInactive));
    }
    match clock {
        Err(e) => Err(Failure::Environment(e)),
        Ok(now) => {
            ctx.voice_session.data.is_active = false;
            ctx.voice_session.data.end_time = now;
            Ok(())
        },
    }
}

/// Ends a voice session at the cluster's time.
///
/// A session that is no longer active refuses with `SessionInactive`, and the
/// clock is not read. Whatever the clock gives, the outcome is that of
/// `end_voice_session_with_clock` for it.
pub fn end_voice_session(ctx: &mut EndVoiceSession) -> (r: Result<(), Failure>)
    ensures
        exists|clock: Result<i64, ProgramError>|
            r == #[trigger] old(ctx)@.outcome(clock) && final(ctx)@ == old(ctx)@.after(clock),
        !old(ctx).voice_session.data.is_active
            ==> r == Err::<(), Failure>(Failure::Domain(HarkoError::SessionInactive)),
        r is Err ==> *final(ctx) == *old(ctx),
{
    if !ctx.voice_session.data.is_active {
        let r = Err(Failure::Domain(HarkoError::SessionInactive));
        assert(r == ctx@.outcome(Ok(0i64)));
        return r;
    }
    let clock = unix_timestamp();
    end_voice_session_with_clock(ctx, clock)
}

} // verus!
