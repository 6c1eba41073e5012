//! What holds of a record over a whole run of instructions against it.
//!
//! A run is a sequence of calls. Each call carries what it was handed besides
//! the record that the run is about: the other accounts, the caller's
//! arguments and what the clock gave. The record that a call works on is the
//! one that the calls before it have left.

use crate::accounts::EndVoiceSessionView;
use crate::accounts::InitializeAgentView;
use crate::accounts::RecordView;
use crate::accounts::StartVoiceSessionView;
use crate::accounts::StoreVoiceDataView;
use crate::error::Failure;
use crate::error::HarkoError;
use crate::state::AgentView;
use crate::state::VoiceDataView;
use crate::state::VoiceSessionView;
use anchor_lang::prelude::ProgramError;
use anchor_lang::prelude::Pubkey;
use vstd::prelude::*;

verus! {

/// One call of `start_voice_session` under some agent.
pub struct StartCall {
    /// The record set aside for the new session.
    pub voice_session: RecordView<VoiceSessionView>,
    /// The signer.
    pub owner: Pubkey,
    /// The caller's name for the session.
    pub session_id: Seq<char>,
    /// What the clock gave.
    pub clock: Result<i64, ProgramError>,
}

impl StartCall {
    /// The accounts of the call when the agent's record is `agent`.
    pub open spec fn accounts(self, agent: RecordView<AgentView>) -> StartVoiceSessionView {
        StartVoiceSessionView { voice_session: self.voice_session, agent, owner: self.owner }
    }

    /// What the call returns.
    pub open spec fn outcome(self, agent: RecordView<AgentView>) -> Result<(), Failure> {
        self.accounts(agent).outcome(self.clock)
    }

    /// The agent's record once the call has run.
    pub open spec fn agent_after(self, agent: RecordView<AgentView>) -> RecordView<AgentView> {
        self.accounts(agent).after(self.session_id, self.clock).agent
    }
}

/// The agent's record once `calls` have run against it, one after the other.
pub open spec fn agent_after(
    agent: RecordView<AgentView>,
    calls: Seq<StartCall>,
) -> RecordView<AgentView>
    decreases calls.len(),
{
    if calls.len() == 0 {
        agent
    } else {
        calls.last().agent_after(agent_after(agent, calls.drop_last()))
    }
}

/// How many of `calls` succeeded.
pub open spec fn sessions_started(agent: RecordView<AgentView>, calls: Seq<StartCall>) -> nat
    decreases calls.len(),
{
    if calls.len() == 0 {
        0
    } else {
        let earlier = sessions_started(agent, calls.drop_last());
        if calls.last().outcome(agent_after(agent, calls.drop_last())) is Ok {
            earlier + 1
        } else {
            earlier
        }
    }
}

/// Whether the clock could be read for every one of `calls`.
pub open spec fn every_clock_read(calls: Seq<StartCall>) -> bool {
    forall|i: int| 0 <= i < calls.len() ==> (#[trigger] calls[i]).clock is Ok
}

/// Over any run of calls, an agent's counter goes up by the number of calls
/// that succeeded, and nothing else of the agent changes. Where the clock
/// could be read for every call, all of them succeeded.
pub proof fn lemma_agent_counts_sessions(agent: RecordView<AgentView>, calls: Seq<StartCall>)
    ensures
        agent_after(agent, calls).data.voice_sessions == agent.data.voice_sessions
            + sessions_started(agent, calls),
        agent_after(agent, calls).key == agent.key,
        agent_after(agent, calls).data.owner == agent.data.owner,
        agent_after(agent, calls).data.name == agent.data.name,
        agent_after(agent, calls).data.is_active == agent.data.is_active,
        sessions_started(agent, calls) <= calls.len(),
        every_clock_read(calls) ==> sessions_started(agent, calls) == calls.len(),
    decreases calls.len(),
{
    if calls.len() > 0 {
        let earlier = calls.drop_last();
        lemma_agent_counts_sessions(agent, earlier);
        if every_clock_read(calls) {
            assert forall|i: int| 0 <= i < earlier.len() implies (#[trigger] earlier[i]).clock
                is Ok by {
                assert(earlier[i] == calls[i]);
            }
            assert(calls.last() == calls[calls.len() - 1]);
        }
    }
}

/// An agent that was just registered and then saw any run of calls counts as
/// many sessions as calls succeeded.
pub proof fn lemma_registered_agent_counts_sessions(
    accounts: InitializeAgentView,
    agent_name: Seq<char>,
    calls: Seq<StartCall>,
)
    ensures
        agent_after(accounts.after(agent_name).agent, calls).data.voice_sessions
            == sessions_started(accounts.after(agent_name).agent, calls),
{
    lemma_agent_counts_sessions(accounts.after(agent_name).agent, calls);
}

/// One call against some voice session: a chunk to store or the end of the
/// session.
pub enum SessionCall {
    /// A call of `store_voice_data`.
    Store {
        /// The record set aside for the new chunk.
        voice_data: RecordView<VoiceDataView>,
        /// The signer.
        owner: Pubkey,
        /// The caller's fingerprint of the chunk.
        data_hash: Seq<char>,
        /// The caller's number for the chunk.
        chunk_number: nat,
        /// The caller's figure for the chunk's length.
        duration: int,
        /// What the clock gave.
        clock: Result<i64, ProgramError>,
    },
    /// A call of `end_voice_session`.
    End {
        /// The signer.
        owner: Pubkey,
        /// What the clock gave.
        clock: Result<i64, ProgramError>,
    },
}

impl SessionCall {
    /// What the call returns when the session's record is `session`.
    pub open spec fn outcome(self, session: RecordView<VoiceSessionView>) -> Result<(), Failure> {
        match self {
            SessionCall::Store { voice_data, owner, clock, .. } => {
                let accounts = StoreVoiceDataView { voice_data, voice_session: session, owner };
                accounts.outcome(clock)
            },
            SessionCall::End { owner, clock } => {
                let accounts = EndVoiceSessionView { voice_session: session, owner };
                accounts.outcome(clock)
            },
        }
    }

    /// The session's record once the call has run.
    pub open spec fn session_after(
        self,
        session: RecordView<VoiceSessionView>,
    ) -> RecordView<VoiceSessionView> {
        match self {
            SessionCall::Store { voice_data, owner, data_hash, chunk_number, duration, clock } => {
                let accounts = StoreVoiceDataView { voice_data, voice_session: session, owner };
                accounts.after(data_hash, chunk_number, duration, clock).voice_session
            },
            SessionCall::End { owner, clock } => {
                let accounts = EndVoiceSessionView { voice_session: session, owner };
                accounts.after(clock).voice_session
            },
        }
    }
}

/// The session's record once `calls` have run against it, one after the
/// other.
pub open spec fn session_after(
    session: RecordView<VoiceSessionView>,
    calls: Seq<SessionCall>,
) -> RecordView<VoiceSessionView>
    decreases calls.len(),
{
    if calls.len() == 0 {
        session
    } else {
        calls.last().session_after(session_after(session, calls.drop_last()))
    }
}

/// What the call at place `i` of `calls` returns: its outcome on the record
/// that the calls before it have left.
pub open spec fn outcome_at(
    session: RecordView<VoiceSessionView>,
    calls: Seq<SessionCall>,
    i: int,
) -> Result<(), Failure>
    recommends
        0 <= i < calls.len(),
{
    calls[i].outcome(session_after(session, calls.take(i)))
}

/// How many of `calls` stored a chunk.
pub open spec fn chunks_stored(
    session: RecordView<VoiceSessionView>,
    calls: Seq<SessionCall>,
) -> nat
    decreases calls.len(),
{
    if calls.len() == 0 {
        0
    } else {
        let earlier = chunks_stored(session, calls.drop_last());
        if calls.last() is Store && calls.last().outcome(
            session_after(session, calls.drop_last()),
        ) is Ok {
            earlier + 1
        } else {
            earlier
        }
    }
}

/// Whether every one of `calls` is one to store a chunk for which the clock
/// could be read.
pub open spec fn every_call_stores(calls: Seq<SessionCall>) -> bool {
    forall|i: int|
        0 <= i < calls.len() ==> (#[trigger] calls[i]) is Store && calls[i]->Store_clock is Ok
}

/// Over any run of calls, a session's counter goes up by the number of chunks
/// that were stored, and the session keeps its address, its agent, its name
/// and its start time. Where the session is active and every call is one to
/// store a chunk for which the clock could be read, all of them stored one.
pub proof fn lemma_session_counts_chunks(
    session: RecordView<VoiceSessionView>,
    calls: Seq<SessionCall>,
)
    ensures
        session_after(session, calls).data.data_chunks == session.data.data_chunks
            + chunks_stored(session, calls),
        session_after(session, calls).key == session.key,
        session_after(session, calls).data.agent == session.data.agent,
        session_after(session, calls).data.session_id == session.data.session_id,
        session_after(session, calls).data.start_time == session.data.start_time,
        chunks_stored(session, calls) <= calls.len(),
        session.data.is_active && every_call_stores(calls) ==> {
            &&& chunks_stored(session, calls) == calls.len()
            &&& session_after(session, calls).data.is_active
        },
    decreases calls.len(),
{
    if calls.len() > 0 {
        let earlier = calls.drop_last();
        lemma_session_counts_chunks(session, earlier);
        if session.data.is_active && every_call_stores(calls) {
            assert forall|i: int| 0 <= i < earlier.len() implies (#[trigger] earlier[i]) is Store
                && earlier[i]->Store_clock is Ok by {
                assert(earlier[i] == calls[i]);
            }
            assert(calls.last() == calls[calls.len() - 1]);
        }
    }
}

/// A session that was just started and then saw any run of calls counts as
/// many chunks as were stored.
pub proof fn lemma_started_session_counts_chunks(
    accounts: StartVoiceSessionView,
    session_id: Seq<char>,
    now: i64,
    calls: Seq<SessionCall>,
)
    ensures
        session_after(accounts.after(session_id, Ok(now)).voice_session, calls).data.data_chunks
            == chunks_stored(accounts.after(session_id, Ok(now)).voice_session, calls),
{
    lemma_session_counts_chunks(accounts.after(session_id, Ok(now)).voice_session, calls);
}

/// What a session that is not active answers.
pub open spec fn refused() -> Result<(), Failure> {
    Err(Failure::Domain(HarkoError::SessionInactive))
}

/// A session that is not active stays as it is: every call against it is
/// refused with `SessionInactive`, whatever the clock gave, and leaves the
/// record untouched.
pub proof fn lemma_inactive_session_is_final(
    session: RecordView<VoiceSessionView>,
    calls: Seq<SessionCall>,
)
    requires
        !session.data.is_active,
    ensures
        session_after(session, calls) == session,
        chunks_stored(session, calls) == 0,
        forall|i: int|
            0 <= i < calls.len() ==> #[trigger] outcome_at(session, calls, i) == refused(),
    decreases calls.len(),
{
    if calls.len() > 0 {
        lemma_inactive_session_is_final(session, calls.drop_last());
        assert forall|i: int| 0 <= i < calls.len() implies #[trigger] outcome_at(
            session,
            calls,
            i,
        ) == refused() by {
            lemma_inactive_session_is_final(session, calls.take(i));
        }
    }
}

/// The record that a run leaves is the one that its later part leaves of what
/// its earlier part left.
pub proof fn lemma_session_after_split(
    session: RecordView<VoiceSessionView>,
    calls: Seq<SessionCall>,
    i: int,
)
    requires
        0 <= i <= calls.len(),
    ensures
        session_after(session, calls) == session_after(
            session_after(session, calls.take(i)),
            calls.skip(i),
        ),
    decreases calls.len() - i,
{
    if i == calls.len() {
        assert(calls.take(i) == calls);
    } else {
        lemma_session_after_split(session, calls.drop_last(), i);
        assert(calls.drop_last().take(i) == calls.take(i));
        assert(calls.drop_last().skip(i) == calls.skip(i).drop_last());
        assert(calls.skip(i).last() == calls.last());
    }
}

/// A session is ended once. After a call that ended it, every later call of the
/// run, to store a chunk or to end it again, is refused with
/// `SessionInactive`, and the record stays as the ending left it.
pub proof fn lemma_session_ends_once(
    session: RecordView<VoiceSessionView>,
    calls: Seq<SessionCall>,
    i: int,
    j: int,
)
    requires
        0 <= i < j < calls.len(),
        calls[i] is End,
        outcome_at(session, calls, i) is Ok,
    ensures
        outcome_at(session, calls, j) == refused(),
        session_after(session, calls) == session_after(session, calls.take(i + 1)),
        !session_after(session, calls).data.is_active,
{
    let ended = session_after(session, calls.take(i + 1));
    assert(calls.take(i + 1).drop_last() == calls.take(i));
    assert(calls.take(i + 1).last() == calls[i]);
    assert(!ended.data.is_active);
    lemma_session_after_split(session, calls, i + 1);
    lemma_inactive_session_is_final(ended, calls.skip(i + 1));
    lemma_session_after_split(session, calls.take(j), i + 1);
    assert(calls.take(j).take(i + 1) == calls.take(i + 1));
    lemma_inactive_session_is_final(ended, calls.take(j).skip(i + 1));
}

} // verus!
