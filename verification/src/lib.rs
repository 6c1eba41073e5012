//! Record keeping for voice-agent sessions on a ledger: an agent is
//! registered, voice sessions are started and ended under it, and chunks of
//! voice data are stored against a session while it is active.

pub mod accounts;
pub mod chain;
pub mod error;
pub mod history;
pub mod instructions;
pub mod ledger;
pub mod state;

pub use accounts::EndVoiceSession;
pub use accounts::InitializeAgent;
pub use accounts::Record;
pub use accounts::StartVoiceSession;
pub use accounts::StoreVoiceData;
pub use error::Failure;
pub use error::HarkoError;
pub use instructions::end_voice_session;
pub use instructions::end_voice_session_with_clock;
pub use instructions::initialize_agent;
pub use instructions::start_voice_session;
pub use instructions::start_voice_session_with_clock;
pub use instructions::store_voice_data;
pub use instructions::store_voice_data_with_clock;
pub use state::Agent;
pub use state::VoiceData;
pub use state::VoiceSession;
