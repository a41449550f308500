use agent_room::bot_agent::BotAgent;
use agent_room::conversation_runner::build_prompt;
use agent_room::conversation_runner::fallback_text;
use agent_room::conversation_runner::minutes_to_ms;
use agent_room::conversation_runner::pace;
use agent_room::conversation_runner::record_closing_turn;
use agent_room::conversation_runner::record_turn;
use agent_room::conversation_runner::seed_prompt;
use agent_room::conversation_runner::ConfigError;
use agent_room::conversation_runner::ConversationLoop;
use agent_room::jungian_modelling::Attitude;
use agent_room::jungian_modelling::FunctionType;
use agent_room::jungian_modelling::Personality;
use agent_room::jungian_modelling::PsychologicalFunction;
use agent_room::room_setup::RoomContext;
use agent_room::room_setup::TeamAgent;

fn persona(name: &str) -> TeamAgent {
    TeamAgent {
        name: name.to_string(),
        system_prompt: format!("You are {}.", name),
        personality_ratio: Personality {
            dominant: PsychologicalFunction {
                function: FunctionType::Thinking,
                attitude: Attitude::Introverted,
                weight: 70,
            },
            auxiliary: PsychologicalFunction {
                function: FunctionType::Intuition,
                attitude: Attitude::Extraverted,
                weight: 50,
            },
            inferior: PsychologicalFunction {
                function: FunctionType::Feeling,
                attitude: Attitude::Extraverted,
                weight: 20,
            },
        },
    }
}

#[test]
fn empty_roster_is_rejected_before_any_timer() {
    let result = ConversationLoop::new(Vec::new(), 7000, 3000, 0);
    assert!(matches!(result, Err(ConfigError::EmptyRoster)));
    let random = ConversationLoop::new_random_start(Vec::new(), 7000, 3000);
    assert!(matches!(random, Err(ConfigError::EmptyRoster)));
}

#[test]
fn zero_duration_is_rejected() {
    let roster = vec![persona("A")];
    let result = ConversationLoop::new(roster, 0, 3000, 0);
    assert!(matches!(result, Err(ConfigError::ZeroDuration)));
}

#[test]
fn start_offset_outside_roster_is_rejected() {
    let roster = vec![persona("A"), persona("B")];
    let result = ConversationLoop::new(roster, 7000, 3000, 2);
    assert!(matches!(result, Err(ConfigError::StartOutOfRange)));
}

#[test]
fn random_start_lies_inside_the_roster() {
    for _ in 0..50 {
        let roster = vec![persona("A"), persona("B"), persona("C")];
        let convo = ConversationLoop::new_random_start(roster, 7000, 3000).unwrap();
        assert!(convo.speaker_index < 3);
        assert!(!convo.done);
    }
}

#[test]
fn rotation_is_strict_round_robin() {
    let roster = vec![persona("A"), persona("B"), persona("C")];
    let mut convo = ConversationLoop::new(roster, 600000, 3000, 0).unwrap();
    let mut order = Vec::new();
    for _ in 0..7 {
        order.push(convo.next_speaker());
    }
    assert_eq!(order, vec![1, 2, 0, 1, 2, 0, 1]);
}

#[test]
fn rotation_wraps_from_the_last_entry() {
    let roster = vec![persona("A"), persona("B"), persona("C")];
    let mut convo = ConversationLoop::new(roster, 600000, 3000, 2).unwrap();
    assert_eq!(convo.next_speaker(), 0);
}

#[test]
fn seven_second_run_at_three_second_cadence_speaks_b_c_a() {
    // Three turns fit within 7s at a 3s cadence: the turns run at 0s, 3s and
    // 6s, then the loop sleeps the 1s remainder and stops before a fourth.
    let roster = vec![persona("A"), persona("B"), persona("C")];
    let mut convo = ConversationLoop::new(roster, 7000, 3000, 0).unwrap();
    let mut room = RoomContext::new();
    let mut elapsed_ms: u64 = 0;
    let mut spoken = Vec::new();
    let mut slept_total: u64 = 0;
    while !convo.is_done() {
        let speaker = convo.next_speaker();
        spoken.push(convo.roster[speaker].name.clone());
        let name = convo.roster[speaker].name.clone();
        record_turn(&mut room, &name, Some(format!("turn of {}", name)));
        let decision = pace(elapsed_ms, convo.duration_ms, convo.delay_ms);
        elapsed_ms += decision.sleep_ms;
        slept_total += decision.sleep_ms;
        if decision.stop {
            convo.finish();
        }
    }
    assert_eq!(spoken, vec!["B".to_string(), "C".to_string(), "A".to_string()]);
    assert_eq!(slept_total, 7000);
    assert!(slept_total <= 7000 + 3000);
    assert_eq!(room.read().len(), 3);
}

#[test]
fn pace_keeps_the_standard_delay_while_budget_remains() {
    let decision = pace(0, 7000, 3000);
    assert_eq!(decision.sleep_ms, 3000);
    assert!(!decision.stop);
}

#[test]
fn pace_sleeps_only_the_remainder_at_the_end() {
    let decision = pace(6000, 7000, 3000);
    assert_eq!(decision.sleep_ms, 1000);
    assert!(decision.stop);
}

#[test]
fn pace_stops_at_once_when_the_budget_is_spent() {
    let exactly = pace(7000, 7000, 3000);
    assert_eq!(exactly.sleep_ms, 0);
    assert!(exactly.stop);
    let past = pace(9000, 7000, 3000);
    assert_eq!(past.sleep_ms, 0);
    assert!(past.stop);
}

#[test]
fn successful_turn_appends_the_generated_text() {
    let mut room = RoomContext::new();
    record_turn(&mut room, "Ada", Some("a fine idea".to_string()));
    assert_eq!(room.get_conversation_summary(), "Ada: a fine idea");
}

#[test]
fn failed_turn_appends_exactly_one_fallback_message() {
    let mut room = RoomContext::new();
    record_turn(&mut room, "Ada", Some("before".to_string()));
    record_turn(&mut room, "Blaise", None);
    record_turn(&mut room, "Carl", Some("after".to_string()));
    let messages = room.read();
    assert_eq!(messages.len(), 3);
    assert_eq!(messages[1].author, "Blaise");
    assert_eq!(messages[1].content, "I'm having trouble responding right now.");
    assert_eq!(messages[2].content, "after");
}

#[test]
fn closing_turn_is_tagged_system() {
    let mut room = RoomContext::new();
    record_closing_turn(&mut room, Some("final thoughts".to_string()));
    assert_eq!(room.get_conversation_summary(), "System: final thoughts");
    let mut failed = RoomContext::new();
    record_closing_turn(&mut failed, None);
    assert_eq!(
        failed.get_conversation_summary(),
        "System: I'm having trouble responding right now."
    );
}

#[test]
fn fallback_text_is_fixed() {
    assert_eq!(fallback_text(), "I'm having trouble responding right now.");
}

#[test]
fn prompt_is_built_from_persona_and_summary() {
    let agent = persona("Ada");
    let prompt = build_prompt(&agent, "System: hello");
    assert_eq!(
        prompt,
        "System Prompt: You are Ada.\n\n Name: Ada.\n\n Personality type: \
         Introverted Thinking (70%), Extraverted Intuition (50%), with inferior \
         Extraverted Feeling (20%).\n\nConversation so far:\nSystem: hello:"
    );
}

#[test]
fn seed_prompt_frames_the_room_prompt() {
    let seeded = seed_prompt("base framing", "talk about gardens");
    assert_eq!(
        seeded,
        "base framing \n\n Your overall goal is to represent a mind consisting of \
         multiple archetypes and voices, you are a mind based system built on the \
         Jungian model of the psyche. room prompt: talk about gardens"
    );
}

struct ScriptedAgent;

impl BotAgent for ScriptedAgent {
    fn generate_response(&self, room_context: &RoomContext, agent: &TeamAgent) -> String {
        format!("{} saw {} earlier messages", agent.name, room_context.read().len())
    }

    fn invalidate_messages(&self, room_context: &mut RoomContext, agent: &TeamAgent) {
        room_context.delete_by_keyword(&agent.name);
    }
}

#[test]
fn a_scripted_responder_drives_turns_through_the_log() {
    let responder = ScriptedAgent;
    let speaker = persona("Ada");
    let mut room = RoomContext::new();
    record_turn(&mut room, "System", Some("welcome".to_string()));
    let text = responder.generate_response(&room, &speaker);
    record_turn(&mut room, &speaker.name, Some(text));
    assert_eq!(
        room.get_conversation_summary(),
        "System: welcome\nAda: Ada saw 1 earlier messages"
    );
    responder.invalidate_messages(&mut room, &speaker);
    assert_eq!(room.get_conversation_summary(), "System: welcome");
}

#[test]
fn minutes_convert_to_milliseconds() {
    assert_eq!(minutes_to_ms(5), Some(300000));
    assert_eq!(minutes_to_ms(0), Some(0));
    assert_eq!(minutes_to_ms(u64::MAX), None);
}
