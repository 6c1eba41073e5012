//! The three kinds of record that the ledger keeps, and what each instruction
//! writes into them.
//!
//! An agent owns its sessions and a session owns its chunks, each by the
//! child's reference to the parent's address. A parent keeps only a count of its
//! children.

use anchor_lang::prelude::Pubkey;
use vstd::prelude::*;

verus! {

/// Bytes set aside for an agent's record: an 8-byte header, the owner's
/// address, room for the name, the flag and the counter.
pub const AGENT_SPACE: usize = 8 + 32 + 200 + 1 + 8;

/// Bytes set aside for a voice session's record: an 8-byte header, the agent's
/// address, room for the session id, the start time, the flag, the counter and
/// the end time.
pub const VOICE_SESSION_SPACE: usize = 8 + 32 + 100 + 8 + 1 + 8 + 8;

/// Bytes set aside for a chunk's record: an 8-byte header, the session's
/// address, room for the hash, the chunk number, the timestamp and the
/// duration.
pub const VOICE_DATA_SPACE: usize = 8 + 32 + 100 + 8 + 8 + 8;

/// A registered identity under which voice sessions are started.
#[derive(Debug, PartialEq, Eq)]
pub struct Agent {
    /// The address that registered the agent.
    pub owner: Pubkey,
    /// A label for people to read.
    pub name: String,
    /// Set at registration; nothing in this library clears it.
    pub is_active: bool,
    /// How many sessions were ever started under this agent.
    pub voice_sessions: u64,
}

/// An agent's record as a mathematical value.
pub struct AgentView {
    pub owner: Pubkey,
    pub name: Seq<char>,
    pub is_active: bool,
    pub voice_sessions: nat,
}

impl View for Agent {
    type V = AgentView;

    open spec fn view(&self) -> AgentView {
        AgentView {
            owner: self.owner,
            name: self.name@,
            is_active: self.is_active,
            voice_sessions: self.voice_sessions as nat,
        }
    }
}

impl AgentView {
    /// The record of an agent that `owner` has just registered as `name`.
    pub open spec fn registered(owner: Pubkey, name: Seq<char>) -> AgentView {
        AgentView { owner, name, is_active: true, voice_sessions: 0 }
    }

    /// The record after one more session was started under the agent.
    pub open spec fn with_session(self) -> AgentView {
        AgentView { voice_sessions: self.voice_sessions + 1, ..self }
    }
}

/// A stretch of activity under an agent, open from its start until it is
/// ended.
#[derive(Debug, PartialEq, Eq)]
pub struct VoiceSession {
    /// The address of the agent's record.
    pub agent: Pubkey,
    /// The caller's name for the session; the ledger does not ask that it be
    /// unique.
    pub session_id: String,
    /// The clock's time when the session was started.
    pub start_time: i64,
    /// The clock's time when the session was ended; until then, whatever the
    /// record held when it was set aside.
    pub end_time: i64,
    /// True from the start until the session is ended, and never again.
    pub is_active: bool,
    /// How many chunks were ever stored against this session.
    pub data_chunks: u64,
}

/// A voice session's record as a mathematical value.
pub struct VoiceSessionView {
    pub agent: Pubkey,
    pub session_id: Seq<char>,
    pub start_time: int,
    pub end_time: int,
    pub is_active: bool,
    pub data_chunks: nat,
}

impl View for VoiceSession {
    type V = VoiceSessionView;

    open spec fn view(&self) -> VoiceSessionView {
        VoiceSessionView {
            agent: self.agent,
            session_id: self.session_id@,
            start_time: self.start_time as int,
            end_time: self.end_time as int,
            is_active: self.is_active,
            data_chunks: self.data_chunks as nat,
        }
    }
}

impl VoiceSessionView {
    /// The record once a session named `session_id` was started in it at time
    /// `now`, under the agent stored at `agent`. The end time is not written.
    pub open spec fn started(
        self,
        agent: Pubkey,
        session_id: Seq<char>,
        now: int,
    ) -> VoiceSessionView {
        VoiceSessionView {
            agent,
            session_id,
            start_time: now,
            end_time: self.end_time,
            is_active: true,
            data_chunks: 0,
        }
    }

    /// The record after one more chunk was stored against the session.
    pub open spec fn with_chunk(self) -> VoiceSessionView {
        VoiceSessionView { data_chunks: self.data_chunks + 1, ..self }
    }

    /// The record after the session was ended at time `now`.
    pub open spec fn ended(self, now: int) -> VoiceSessionView {
        VoiceSessionView { is_active: false, end_time: now, ..self }
    }
}

/// One chunk of voice data, stored against a session and never changed.
#[derive(Debug, PartialEq, Eq)]
pub struct VoiceData {
    /// The address of the session's record.
    pub session: Pubkey,
    /// The caller's fingerprint of the chunk's content; the ledger does not
    /// read it.
    pub data_hash: String,
    /// The caller's number for the chunk; the ledger does not ask that the
    /// numbers be in order, gapless or distinct.
    pub chunk_number: u64,
    /// The clock's time when the chunk was stored.
    pub timestamp: i64,
    /// The caller's figure for how long the chunk lasts.
    pub duration: i64,
}

/// A chunk's record as a mathematical value.
pub struct VoiceDataView {
    pub session: Pubkey,
    pub data_hash: Seq<char>,
    pub chunk_number: nat,
    pub timestamp: int,
    pub duration: int,
}

impl View for VoiceData {
    type V = VoiceDataView;

    open spec fn view(&self) -> VoiceDataView {
        VoiceDataView {
            session: self.session,
            data_hash: self.data_hash@,
            chunk_number: self.chunk_number as nat,
            timestamp: self.timestamp as int,
            duration: self.duration as int,
        }
    }
}

impl VoiceDataView {
    /// The record of a chunk stored at time `now` against the session stored at
    /// `session`.
    pub open spec fn stored(
        session: Pubkey,
        data_hash: Seq<char>,
        chunk_number: nat,
        now: int,
        duration: int,
    ) -> VoiceDataView {
        VoiceDataView { session, data_hash, chunk_number, timestamp: now, duration }
    }
}

} // verus!
