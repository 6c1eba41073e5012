//! The ledger as a whole: which records it holds, and what the counters in
//! them count.
//!
//! The library never sees the ledger; the runtime keeps it. What is stated here
//! holds on what the runtime is relied on to do: it sets a new record aside at
//! an address that holds nothing yet, it hands an instruction the existing
//! records as the ledger holds them, and it keeps what the instruction wrote if
//! and only if the instruction succeeded.

use crate::accounts::EndVoiceSessionView;
use crate::accounts::InitializeAgentView;
use crate::accounts::RecordView;
use crate::accounts::StartVoiceSessionView;
use crate::accounts::StoreVoiceDataView;
use crate::state::AgentView;
use crate::state::VoiceDataView;
use crate::state::VoiceSessionView;
use anchor_lang::prelude::ProgramError;
use anchor_lang::prelude::Pubkey;
use vstd::prelude::*;

verus! {

/// The records that the ledger holds, each under its address.
pub struct Ledger {
    pub agents: Map<Pubkey, AgentView>,
    pub voice_sessions: Map<Pubkey, VoiceSessionView>,
    pub voice_data: Map<Pubkey, VoiceDataView>,
}

/// One instruction as the runtime runs it: its accounts, the caller's
/// arguments and what the clock gave.
#[allow(inconsistent_fields)]
pub enum Instruction {
    InitializeAgent { accounts: InitializeAgentView, agent_name: Seq<char> },
    StartVoiceSession {
        accounts: StartVoiceSessionView,
        session_id: Seq<char>,
        clock: Result<i64, ProgramError>,
    },
    StoreVoiceData {
        accounts: StoreVoiceDataView,
        data_hash: Seq<char>,
        chunk_number: nat,
        duration: int,
        clock: Result<i64, ProgramError>,
    },
    EndVoiceSession { accounts: EndVoiceSessionView, clock: Result<i64, ProgramError> },
}

impl Ledger {
    /// The ledger before anything was registered.
    pub open spec fn empty() -> Ledger {
        Ledger { agents: Map::empty(), voice_sessions: Map::empty(), voice_data: Map::empty() }
    }

    /// Whether some record is kept at `key`.
    pub open spec fn in_use(self, key: Pubkey) -> bool {
        self.agents.dom().contains(key) || self.voice_sessions.dom().contains(key)
            || self.voice_data.dom().contains(key)
    }

    /// Whether the ledger holds exactly this agent at this address.
    pub open spec fn holds_agent(self, agent: RecordView<AgentView>) -> bool {
        self.agents.dom().contains(agent.key) && self.agents[agent.key] == agent.data
    }

    /// Whether the ledger holds exactly this session at this address.
    pub open spec fn holds_session(self, session: RecordView<VoiceSessionView>) -> bool {
        self.voice_sessions.dom().contains(session.key) && self.voice_sessions[session.key]
            == session.data
    }

    /// The addresses of the sessions that refer to the agent at `agent`.
    pub open spec fn sessions_of(self, agent: Pubkey) -> Set<Pubkey> {
        self.voice_sessions.dom().filter(|s: Pubkey| self.voice_sessions[s].agent == agent)
    }

    /// The addresses of the chunks that refer to the session at `session`.
    pub open spec fn chunks_of(self, session: Pubkey) -> Set<Pubkey> {
        self.voice_data.dom().filter(|c: Pubkey| self.voice_data[c].session == session)
    }

    /// Whether the counter of the agent at `agent` is the number of sessions
    /// that refer to it.
    pub open spec fn counts_sessions(self, agent: Pubkey) -> bool {
        self.agents[agent].voice_sessions == self.sessions_of(agent).len()
    }

    /// Whether the counter of the session at `session` is the number of chunks
    /// that refer to it.
    pub open spec fn counts_chunks(self, session: Pubkey) -> bool {
        self.voice_sessions[session].data_chunks == self.chunks_of(session).len()
    }

    /// What holds of the ledger at all times: it holds finitely many records,
    /// one at an address; every session refers to an agent on the ledger and
    /// every chunk to a session on it; an agent's counter is the number of
    /// sessions that refer to it, and a session's counter the number of chunks
    /// that refer to it.
    pub open spec fn consistent(self) -> bool {
        &&& self.agents.dom().finite()
        &&& self.voice_sessions.dom().finite()
        &&& self.voice_data.dom().finite()
        &&& self.agents.dom().disjoint(self.voice_sessions.dom())
        &&& self.agents.dom().disjoint(self.voice_data.dom())
        &&& self.voice_sessions.dom().disjoint(self.voice_data.dom())
        &&& forall|s: Pubkey| #[trigger]
            self.voice_sessions.dom().contains(s) ==> self.agents.dom().contains(
                self.voice_sessions[s].agent,
            )
        &&& forall|c: Pubkey| #[trigger]
            self.voice_data.dom().contains(c) ==> self.voice_sessions.dom().contains(
                self.voice_data[c].session,
            )
        &&& forall|a: Pubkey| #[trigger] self.agents.dom().contains(a) ==> self.counts_sessions(a)
        &&& forall|s: Pubkey| #[trigger]
            self.voice_sessions.dom().contains(s) ==> self.counts_chunks(s)
    }

    /// Whether the runtime can hand `instruction` its accounts from this
    /// ledger: the record to be filled in lies at an address that holds nothing
    /// yet, and the records to work on are as the ledger holds them.
    pub open spec fn admits(self, instruction: Instruction) -> bool {
        match instruction {
            Instruction::InitializeAgent { accounts, .. } => !self.in_use(accounts.agent.key),
            Instruction::StartVoiceSession { accounts, .. } => {
                &&& !self.in_use(accounts.voice_session.key)
                &&& self.holds_agent(accounts.agent)
            },
            Instruction::StoreVoiceData { accounts, .. } => {
                &&& !self.in_use(accounts.voice_data.key)
                &&& self.holds_session(accounts.voice_session)
            },
            Instruction::EndVoiceSession { accounts, .. } => self.holds_session(
                accounts.voice_session,
            ),
        }
    }

    /// The ledger once `instruction` has run: with what the instruction wrote
    /// if it succeeded, and as it was if it failed.
    pub open spec fn after(self, instruction: Instruction) -> Ledger {
        match instruction {
            Instruction::InitializeAgent { accounts, agent_name } => {
                let written = accounts.after(agent_name);
                Ledger { agents: self.agents.insert(written.agent.key, written.agent.data), ..self }
            },
            Instruction::StartVoiceSession { accounts, session_id, clock } => {
                let written = accounts.after(session_id, clock);
                if accounts.outcome(clock) is Ok {
                    Ledger {
                        agents: self.agents.insert(written.agent.key, written.agent.data),
                        voice_sessions: self.voice_sessions.insert(
                            written.voice_session.key,
                            written.voice_session.data,
                        ),
                        ..self
                    }
                } else {
                    self
                }
            },
            Instruction::StoreVoiceData { accounts, data_hash, chunk_number, duration, clock } => {
                let written = accounts.after(data_hash, chunk_number, duration, clock);
                if accounts.outcome(clock) is Ok {
                    Ledger {
                        voice_sessions: self.voice_sessions.insert(
                            written.voice_session.key,
                            written.voice_session.data,
                        ),
                        voice_data: self.voice_data.insert(
                            written.voice_data.key,
                            written.voice_data.data,
                        ),
                        ..self
                    }
                } else {
                    self
                }
            },
            Instruction::EndVoiceSession { accounts, clock } => {
                let written = accounts.after(clock);
                if accounts.outcome(clock) is Ok {
                    Ledger {
                        voice_sessions: self.voice_sessions.insert(
                            written.voice_session.key,
                            written.voice_session.data,
                        ),
                        ..self
                    }
                } else {
                    self
                }
            },
        }
    }

    /// Whether the runtime can run `instructions` one after the other,
    /// starting from this ledger.
    pub open spec fn admits_all(self, instructions: Seq<Instruction>) -> bool
        decreases instructions.len(),
    {
        instructions.len() > 0 ==> {
            &&& self.admits_all(instructions.drop_last())
            &&& self.after_all(instructions.drop_last()).admits(instructions.last())
        }
    }

    /// The ledger once `instructions` have run, one after the other.
    pub open spec fn after_all(self, instructions: Seq<Instruction>) -> Ledger
        decreases instructions.len(),
    {
        if instructions.len() == 0 {
            self
        } else {
            self.after_all(instructions.drop_last()).after(instructions.last())
        }
    }
}

/// Registering an agent keeps the ledger consistent: no session can refer to
/// an address that held nothing.
proof fn lemma_initialize_agent_keeps_consistent(
    ledger: Ledger,
    accounts: InitializeAgentView,
    agent_name: Seq<char>,
)
    requires
        ledger.consistent(),
        !ledger.in_use(accounts.agent.key),
    ensures
        ledger.after(Instruction::InitializeAgent { accounts, agent_name }).consistent(),
{
    let next = ledger.after(Instruction::InitializeAgent { accounts, agent_name });
    let key = accounts.agent.key;
    assert forall|a: Pubkey| #[trigger]
        next.agents.dom().contains(a) implies next.counts_sessions(a) by {
        assert(next.sessions_of(a) == ledger.sessions_of(a));
        if a == key {
            assert(ledger.sessions_of(a) =~= Set::<Pubkey>::empty());
        }
    }
    assert forall|s: Pubkey| #[trigger]
        next.voice_sessions.dom().contains(s) implies next.counts_chunks(s) by {
        assert(next.chunks_of(s) == ledger.chunks_of(s));
    }
}

/// Starting a session keeps the ledger consistent: the new session refers to
/// the agent, whose counter goes up by one, and no chunk refers to the new
/// session yet.
proof fn lemma_start_voice_session_keeps_consistent(
    ledger: Ledger,
    accounts: StartVoiceSessionView,
    session_id: Seq<char>,
    clock: Result<i64, ProgramError>,
)
    requires
        ledger.consistent(),
        !ledger.in_use(accounts.voice_session.key),
        ledger.holds_agent(accounts.agent),
    ensures
        ledger.after(Instruction::StartVoiceSession { accounts, session_id, clock }).consistent(),
{
    let next = ledger.after(Instruction::StartVoiceSession { accounts, session_id, clock });
    if accounts.outcome(clock) is Ok {
        let new = accounts.voice_session.key;
        let agent = accounts.agent.key;
        assert(next.voice_sessions[new].agent == agent);
        assert forall|a: Pubkey| #[trigger]
            next.agents.dom().contains(a) implies next.counts_sessions(a) by {
            if a == agent {
                assert(next.sessions_of(a) =~= ledger.sessions_of(a).insert(new));
            } else {
                assert(next.sessions_of(a) =~= ledger.sessions_of(a));
            }
        }
        assert forall|s: Pubkey| #[trigger]
            next.voice_sessions.dom().contains(s) implies next.counts_chunks(s) by {
            assert(next.chunks_of(s) == ledger.chunks_of(s));
            if s == new {
                assert(ledger.chunks_of(s) =~= Set::<Pubkey>::empty());
            }
        }
    }
}

/// Storing a chunk keeps the ledger consistent: the new chunk refers to the
/// session, whose counter goes up by one.
proof fn lemma_store_voice_data_keeps_consistent(
    ledger: Ledger,
    accounts: StoreVoiceDataView,
    data_hash: Seq<char>,
    chunk_number: nat,
    duration: int,
    clock: Result<i64, ProgramError>,
)
    requires
        ledger.consistent(),
        !ledger.in_use(accounts.voice_data.key),
        ledger.holds_session(accounts.voice_session),
    ensures
        ledger.after(
            Instruction::StoreVoiceData { accounts, data_hash, chunk_number, duration, clock },
        ).consistent(),
{
    let next = ledger.after(
        Instruction::StoreVoiceData { accounts, data_hash, chunk_number, duration, clock },
    );
    if accounts.outcome(clock) is Ok {
        let new = accounts.voice_data.key;
        let session = accounts.voice_session.key;
        assert(next.voice_data[new].session == session);
        assert(next.voice_sessions.dom() =~= ledger.voice_sessions.dom());
        assert forall|a: Pubkey| #[trigger]
            next.agents.dom().contains(a) implies next.counts_sessions(a) by {
            assert(next.sessions_of(a) =~= ledger.sessions_of(a));
        }
        assert forall|s: Pubkey| #[trigger]
            next.voice_sessions.dom().contains(s) implies next.counts_chunks(s) by {
            if s == session {
                assert(next.chunks_of(s) =~= ledger.chunks_of(s).insert(new));
            } else {
                assert(next.chunks_of(s) =~= ledger.chunks_of(s));
            }
        }
    }
}

/// Ending a session keeps the ledger consistent: it changes neither what the
/// session refers to nor its counter.
proof fn lemma_end_voice_session_keeps_consistent(
    ledger: Ledger,
    accounts: EndVoiceSessionView,
    clock: Result<i64, ProgramError>,
)
    requires
        ledger.consistent(),
        ledger.holds_session(accounts.voice_session),
    ensures
        ledger.after(Instruction::EndVoiceSession { accounts, clock }).consistent(),
{
    let next = ledger.after(Instruction::EndVoiceSession { accounts, clock });
    if accounts.outcome(clock) is Ok {
        assert(next.voice_sessions.dom() =~= ledger.voice_sessions.dom());
        assert forall|a: Pubkey| #[trigger]
            next.agents.dom().contains(a) implies next.counts_sessions(a) by {
            assert(next.sessions_of(a) =~= ledger.sessions_of(a));
        }
        assert forall|s: Pubkey| #[trigger]
            next.voice_sessions.dom().contains(s) implies next.counts_chunks(s) by {
            assert(next.chunks_of(s) == ledger.chunks_of(s));
        }
    }
}

/// The empty ledger is consistent.
pub proof fn lemma_empty_ledger_is_consistent()
    ensures
        Ledger::empty().consistent(),
{
}

/// An instruction that the runtime can run on a consistent ledger leaves a
/// consistent ledger, whether it succeeds or fails.
pub proof fn lemma_instruction_keeps_consistent(ledger: Ledger, instruction: Instruction)
    requires
        ledger.consistent(),
        ledger.admits(instruction),
    ensures
        ledger.after(instruction).consistent(),
{
    match instruction {
        Instruction::InitializeAgent { accounts, agent_name } => {
            lemma_initialize_agent_keeps_consistent(ledger, accounts, agent_name);
        },
        Instruction::StartVoiceSession { accounts, session_id, clock } => {
            lemma_start_voice_session_keeps_consistent(ledger, accounts, session_id, clock);
        },
        Instruction::StoreVoiceData { accounts, data_hash, chunk_number, duration, clock } => {
            lemma_store_voice_data_keeps_consistent(
                ledger,
                accounts,
                data_hash,
                chunk_number,
                duration,
                clock,
            );
        },
        Instruction::EndVoiceSession { accounts, clock } => {
            lemma_end_voice_session_keeps_consistent(ledger, accounts, clock);
        },
    }
}

/// Whatever instructions the runtime runs, from the empty ledger on, every
/// agent's counter is the number of sessions that refer to it and every
/// session's counter the number of chunks that refer to it.
pub proof fn lemma_ledger_stays_consistent(instructions: Seq<Instruction>)
    requires
        Ledger::empty().admits_all(instructions),
    ensures
        Ledger::empty().after_all(instructions).consistent(),
    decreases instructions.len(),
{
    if instructions.len() > 0 {
        lemma_ledger_stays_consistent(instructions.drop_last());
        lemma_instruction_keeps_consistent(
            Ledger::empty().after_all(instructions.drop_last()),
            instructions.last(),
        );
    }
}

} // verus!
