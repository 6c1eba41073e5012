use anchor_lang::prelude::ProgramError;
use anchor_lang::prelude::Pubkey;
use harko::initialize_agent;
use harko::start_voice_session_with_clock;
use harko::state::AGENT_SPACE;
use harko::state::VOICE_DATA_SPACE;
use harko::state::VOICE_SESSION_SPACE;
use harko::Agent;
use harko::Failure;
use harko::HarkoError;
use harko::InitializeAgent;
use harko::Record;
use harko::StartVoiceSession;
use harko::VoiceSession;

fn address(byte: u8) -> Pubkey {
    Pubkey::new_from_array([byte; 32])
}

fn agent_with(voice_sessions: u64) -> Record<Agent> {
    Record {
        key: address(20),
        data: Agent {
            owner: address(10),
            name: "VoiceBot".to_string(),
            is_active: true,
            voice_sessions,
        },
    }
}

fn blank_session(key: Pubkey) -> Record<VoiceSession> {
    Record {
        key,
        data: VoiceSession {
            agent: Pubkey::default(),
            session_id: String::new(),
            start_time: 0,
            end_time: 0,
            is_active: false,
            data_chunks: 0,
        },
    }
}

#[test]
fn registration_makes_the_signer_owner_of_an_active_agent_without_sessions() {
    let mut ctx = InitializeAgent {
        agent: Record {
            key: address(2),
            data: Agent {
                owner: Pubkey::default(),
                name: String::new(),
                is_active: false,
                voice_sessions: 0,
            },
        },
        owner: address(1),
    };
    assert_eq!(initialize_agent(&mut ctx, "VoiceBot".to_string()), Ok(()));
    assert_eq!(ctx.agent.key, address(2));
    assert_eq!(ctx.owner, address(1));
    assert_eq!(ctx.agent.data.owner, address(1));
    assert_eq!(ctx.agent.data.name, "VoiceBot");
    assert!(ctx.agent.data.is_active);
    assert_eq!(ctx.agent.data.voice_sessions, 0);
}

#[test]
fn registration_writes_every_field_whatever_the_record_held() {
    let mut ctx = InitializeAgent {
        agent: Record {
            key: address(2),
            data: Agent {
                owner: address(9),
                name: "someone else".to_string(),
                is_active: false,
                voice_sessions: 7,
            },
        },
        owner: address(1),
    };
    assert_eq!(initialize_agent(&mut ctx, String::new()), Ok(()));
    assert_eq!(
        ctx.agent.data,
        Agent { owner: address(1), name: String::new(), is_active: true, voice_sessions: 0 }
    );
}

#[test]
fn registration_takes_a_name_of_any_length() {
    let long = "n".repeat(1000);
    let mut ctx = InitializeAgent {
        agent: Record {
            key: address(2),
            data: Agent {
                owner: Pubkey::default(),
                name: String::new(),
                is_active: false,
                voice_sessions: 0,
            },
        },
        owner: address(1),
    };
    assert_eq!(initialize_agent(&mut ctx, long.clone()), Ok(()));
    assert_eq!(ctx.agent.data.name, long);
}

#[test]
fn an_agent_counts_the_sessions_started_under_it() {
    let mut agent = agent_with(0);
    for n in 0..5u8 {
        let mut ctx = StartVoiceSession {
            voice_session: blank_session(address(100 + n)),
            agent,
            owner: address(10),
        };
        let id = format!("s{}", n);
        assert_eq!(
            start_voice_session_with_clock(&mut ctx, id.clone(), Ok(1_000 + i64::from(n))),
            Ok(())
        );
        assert_eq!(ctx.agent.data.voice_sessions, u64::from(n) + 1);
        assert_eq!(ctx.voice_session.data.agent, address(20));
        assert_eq!(ctx.voice_session.data.session_id, id);
        assert_eq!(ctx.voice_session.data.start_time, 1_000 + i64::from(n));
        assert!(ctx.voice_session.data.is_active);
        assert_eq!(ctx.voice_session.data.data_chunks, 0);
        agent = ctx.agent;
    }
    assert_eq!(
        agent.data,
        Agent { owner: address(10), name: "VoiceBot".to_string(), is_active: true, voice_sessions: 5 }
    );
    assert_eq!(agent.key, address(20));
}

#[test]
fn a_start_that_fails_is_not_counted() {
    let mut ctx = StartVoiceSession {
        voice_session: blank_session(address(3)),
        agent: agent_with(4),
        owner: address(10),
    };
    assert_eq!(
        start_voice_session_with_clock(
            &mut ctx,
            "s1".to_string(),
            Err(ProgramError::UnsupportedSysvar)
        ),
        Err(Failure::Environment(ProgramError::UnsupportedSysvar))
    );
    assert_eq!(ctx.agent, agent_with(4));
    assert_eq!(ctx.voice_session, blank_session(address(3)));
    assert_eq!(ctx.owner, address(10));

    assert_eq!(start_voice_session_with_clock(&mut ctx, "s1".to_string(), Ok(77)), Ok(()));
    assert_eq!(ctx.agent.data.voice_sessions, 5);
}

#[test]
fn the_runtime_error_is_handed_on_as_it_came() {
    let mut ctx = StartVoiceSession {
        voice_session: blank_session(address(3)),
        agent: agent_with(0),
        owner: address(10),
    };
    assert_eq!(
        start_voice_session_with_clock(&mut ctx, "s1".to_string(), Err(ProgramError::Custom(42))),
        Err(Failure::Environment(ProgramError::Custom(42)))
    );
    let outcome = start_voice_session_with_clock(
        &mut ctx,
        "s1".to_string(),
        Err(ProgramError::InvalidArgument),
    );
    assert_ne!(outcome, Err(Failure::Environment(ProgramError::Custom(42))));
    assert_ne!(outcome, Err(Failure::Domain(HarkoError::SessionInactive)));
    assert_eq!(outcome, Err(Failure::Environment(ProgramError::InvalidArgument)));
}

#[test]
fn a_start_does_not_write_the_end_time() {
    let mut record = blank_session(address(3));
    record.data.end_time = 99;
    let mut ctx = StartVoiceSession { voice_session: record, agent: agent_with(0), owner: address(10) };
    assert_eq!(start_voice_session_with_clock(&mut ctx, "s1".to_string(), Ok(5)), Ok(()));
    assert_eq!(ctx.voice_session.data.end_time, 99);
    assert_eq!(ctx.voice_session.data.start_time, 5);
    assert_eq!(ctx.voice_session.key, address(3));
}

#[test]
fn a_start_writes_over_what_the_record_held() {
    let mut ctx = StartVoiceSession {
        voice_session: Record {
            key: address(3),
            data: VoiceSession {
                agent: address(77),
                session_id: "stale".to_string(),
                start_time: -4,
                end_time: 12,
                is_active: false,
                data_chunks: 31,
            },
        },
        agent: agent_with(0),
        owner: address(10),
    };
    assert_eq!(start_voice_session_with_clock(&mut ctx, "fresh".to_string(), Ok(-1)), Ok(()));
    assert_eq!(
        ctx.voice_session.data,
        VoiceSession {
            agent: address(20),
            session_id: "fresh".to_string(),
            start_time: -1,
            end_time: 12,
            is_active: true,
            data_chunks: 0,
        }
    );
}

#[test]
fn anyone_may_start_a_session_under_an_agent() {
    let stranger = address(55);
    let mut ctx = StartVoiceSession {
        voice_session: blank_session(address(3)),
        agent: agent_with(0),
        owner: stranger,
    };
    assert_ne!(ctx.agent.data.owner, stranger);
    assert_eq!(start_voice_session_with_clock(&mut ctx, "s1".to_string(), Ok(5)), Ok(()));
    assert_eq!(ctx.agent.data.voice_sessions, 1);
    assert_eq!(ctx.agent.data.owner, address(10));
    assert_eq!(ctx.owner, stranger);
}

#[test]
fn session_ids_need_not_differ() {
    let mut first = StartVoiceSession {
        voice_session: blank_session(address(3)),
        agent: agent_with(0),
        owner: address(10),
    };
    assert_eq!(start_voice_session_with_clock(&mut first, "same".to_string(), Ok(5)), Ok(()));
    let mut second = StartVoiceSession {
        voice_session: blank_session(address(4)),
        agent: first.agent,
        owner: address(10),
    };
    assert_eq!(start_voice_session_with_clock(&mut second, "same".to_string(), Ok(6)), Ok(()));
    assert_eq!(second.agent.data.voice_sessions, 2);
    assert_eq!(first.voice_session.data.session_id, second.voice_session.data.session_id);
}

#[test]
fn the_session_counter_can_reach_its_last_value() {
    let mut ctx = StartVoiceSession {
        voice_session: blank_session(address(3)),
        agent: agent_with(u64::MAX - 1),
        owner: address(10),
    };
    assert_eq!(start_voice_session_with_clock(&mut ctx, "s1".to_string(), Ok(5)), Ok(()));
    assert_eq!(ctx.agent.data.voice_sessions, u64::MAX);
}

#[test]
fn a_full_session_counter_is_no_obstacle_to_a_start_that_fails() {
    let mut ctx = StartVoiceSession {
        voice_session: blank_session(address(3)),
        agent: agent_with(u64::MAX),
        owner: address(10),
    };
    assert_eq!(
        start_voice_session_with_clock(&mut ctx, "s1".to_string(), Err(ProgramError::Custom(1))),
        Err(Failure::Environment(ProgramError::Custom(1)))
    );
    assert_eq!(ctx.agent.data.voice_sessions, u64::MAX);
}

#[test]
fn the_room_set_aside_for_each_record() {
    assert_eq!(AGENT_SPACE, 249);
    assert_eq!(VOICE_SESSION_SPACE, 165);
    assert_eq!(VOICE_DATA_SPACE, 164);
}

#[test]
fn the_error_has_its_text() {
    assert_eq!(HarkoError::SessionInactive.message(), "Voice session is not active");
}
