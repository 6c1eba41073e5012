//! The records that each instruction is handed, and what the instruction makes
//! of them.
//!
//! The runtime sets a new record aside before the instruction runs and keeps
//! what the instruction wrote only if it succeeds. Here each set of accounts is
//! a plain value, and the functions `after` say what it holds once the
//! instruction has run: the new contents on success, the old ones on failure.

use crate::error::clock_outcome;
use crate::error::session_outcome;
use crate::error::Failure;
use crate::state::Agent;
use crate::state::AgentView;
use crate::state::VoiceData;
use crate::state::VoiceDataView;
use crate::state::VoiceSession;
use crate::state::VoiceSessionView;
use anchor_lang::prelude::ProgramError;
use anchor_lang::prelude::Pubkey;
use vstd::prelude::*;

verus! {

/// A record together with the address under which the ledger keeps it.
#[derive(Debug, PartialEq, Eq)]
pub struct Record<T> {
    /// Where the record is kept. Children refer to their parent by it.
    pub key: Pubkey,
    /// What the record holds.
    pub data: T,
}

/// A stored record as a mathematical value.
pub struct RecordView<V> {
    pub key: Pubkey,
    pub data: V,
}

impl<T: View> View for Record<T> {
    type V = RecordView<T::V>;

    open spec fn view(&self) -> RecordView<T::V> {
        RecordView { key: self.key, data: self.data@ }
    }
}

/// The accounts of `initialize_agent`.
#[derive(Debug, PartialEq, Eq)]
pub struct InitializeAgent {
    /// The record set aside for the new agent.
    pub agent: Record<Agent>,
    /// The signer, who pays for the record and becomes the agent's owner.
    pub owner: Pubkey,
}

/// The accounts of `initialize_agent` as a mathematical value.
pub struct InitializeAgentView {
    pub agent: RecordView<AgentView>,
    pub owner: Pubkey,
}

impl View for InitializeAgent {
    type V = InitializeAgentView;

    open spec fn view(&self) -> InitializeAgentView {
        InitializeAgentView { agent: self.agent@, owner: self.owner }
    }
}

impl InitializeAgentView {
    /// The accounts once the agent was registered as `agent_name`: the signer
    /// owns it, it is active and has no sessions.
    pub open spec fn after(self, agent_name: Seq<char>) -> InitializeAgentView {
        InitializeAgentView {
            agent: RecordView {
                key: self.agent.key,
                data: AgentView::registered(self.owner, agent_name),
            },
            owner: self.owner,
        }
    }
}

/// The accounts of `start_voice_session`.
#[derive(Debug, PartialEq, Eq)]
pub struct StartVoiceSession {
    /// The record set aside for the new session.
    pub voice_session: Record<VoiceSession>,
    /// The agent under which the session is started.
    pub agent: Record<Agent>,
    /// The signer, who pays for the record.
    pub owner: Pubkey,
}

/// The accounts of `start_voice_session` as a mathematical value.
pub struct StartVoiceSessionView {
    pub voice_session: RecordView<VoiceSessionView>,
    pub agent: RecordView<AgentView>,
    pub owner: Pubkey,
}

impl View for StartVoiceSession {
    type V = StartVoiceSessionView;

    open spec fn view(&self) -> StartVoiceSessionView {
        StartVoiceSessionView {
            voice_session: self.voice_session@,
            agent: self.agent@,
            owner: self.owner,
        }
    }
}

impl StartVoiceSessionView {
    /// What the instruction returns when the clock gave `clock`: it fails only
    /// with the clock.
    pub open spec fn outcome(self, clock: Result<i64, ProgramError>) -> Result<(), Failure> {
        clock_outcome(clock)
    }

    /// The accounts once the instruction has run with `clock`. When the clock
    /// gave a time, the new record holds a session that started then, is
    /// active, has no chunks and refers to the agent, and the agent counts one
    /// session more.
    pub open spec fn after(
        self,
        session_id: Seq<char>,
        clock: Result<i64, ProgramError>,
    ) -> StartVoiceSessionView {
        match clock {
            Ok(now) => StartVoiceSessionView {
                voice_session: RecordView {
                    key: self.voice_session.key,
                    data: self.voice_session.data.started(self.agent.key, session_id, now as int),
                },
                agent: RecordView { key: self.agent.key, data: self.agent.data.with_session() },
                owner: self.owner,
            },
            Err(_) => self,
        }
    }
}

/// The accounts of `store_voice_data`.
#[derive(Debug, PartialEq, Eq)]
pub struct StoreVoiceData {
    /// The record set aside for the new chunk.
    pub voice_data: Record<VoiceData>,
    /// The session that the chunk is stored against.
    pub voice_session: Record<VoiceSession>,
    /// The signer, who pays for the record.
    pub owner: Pubkey,
}

/// The accounts of `store_voice_data` as a mathematical value.
pub struct StoreVoiceDataView {
    pub voice_data: RecordView<VoiceDataView>,
    pub voice_session: RecordView<VoiceSessionView>,
    pub owner: Pubkey,
}

impl View for StoreVoiceData {
    type V = StoreVoiceDataView;

    open spec fn view(&self) -> StoreVoiceDataView {
        StoreVoiceDataView {
            voice_data: self.voice_data@,
            voice_session: self.voice_session@,
            owner: self.owner,
        }
    }
}

impl StoreVoiceDataView {
    /// What the instruction returns when the clock gave `clock`: an inactive
    /// session refuses the chunk, an active one takes it if the clock could be
    /// read.
    pub open spec fn outcome(self, clock: Result<i64, ProgramError>) -> Result<(), Failure> {
        session_outcome(self.voice_session.data.is_active, clock)
    }

    /// The accounts once the instruction has run with `clock`. When the session
    /// is active and the clock gave a time, the new record holds the chunk as
    /// the caller described it, stamped with that time and referring to the
    /// session, and the session counts one chunk more.
    pub open spec fn after(
        self,
        data_hash: Seq<char>,
        chunk_number: nat,
        duration: int,
        clock: Result<i64, ProgramError>,
    ) -> StoreVoiceDataView {
        match clock {
            Ok(now) if self.voice_session.data.is_active => StoreVoiceDataView {
                voice_data: RecordView {
                    key: self.voice_data.key,
                    data: VoiceDataView::stored(
                        self.voice_session.key,
                        data_hash,
                        chunk_number,
                        now as int,
                        duration,
                    ),
                },
                voice_session: RecordView {
                    key: self.voice_session.key,
                    data: self.voice_session.data.with_chunk(),
                },
                owner: self.owner,
            },
            _ => self,
        }
    }
}

/// The accounts of `end_voice_session`.
#[derive(Debug, PartialEq, Eq)]
pub struct EndVoiceSession {
    /// The session to end.
    pub voice_session: Record<VoiceSession>,
    /// The signer.
    pub owner: Pubkey,
}

/// The accounts of `end_voice_session` as a mathematical value.
pub struct EndVoiceSessionView {
    pub voice_session: RecordView<VoiceSessionView>,
    pub owner: Pubkey,
}

impl View for EndVoiceSession {
    type V = EndVoiceSessionView;

    open spec fn view(&self) -> EndVoiceSessionView {
        EndVoiceSessionView { voice_session: self.voice_session@, owner: self.owner }
    }
}

impl EndVoiceSessionView {
    /// What the instruction returns when the clock gave `clock`: a session that
    /// is no longer active cannot be ended again, an active one is ended if the
    /// clock could be read.
    pub open spec fn outcome(self, clock: Result<i64, ProgramError>) -> Result<(), Failure> {
        session_outcome(self.voice_session.data.is_active, clock)
    }

    /// The accounts once the instruction has run with `clock`. When the session
    /// is active and the clock gave a time, the session is inactive from then
    /// on and that time is its end time.
    pub open spec fn after(self, clock: Result<i64, ProgramError>) -> EndVoiceSessionView {
        match clock {
            Ok(now) if self.voice_session.data.is_active => EndVoiceSessionView {
                voice_session: RecordView {
                    key: self.voice_session.key,
                    data: self.voice_session.data.ended(now as int),
                },
                owner: self.owner,
            },
            _ => self,
        }
    }
}

} // verus!
