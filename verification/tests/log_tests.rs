use agent_room::room_setup::RoomContext;

#[test]
fn summary_of_empty_log_is_empty() {
    let room = RoomContext::new();
    assert_eq!(room.get_conversation_summary(), "");
    assert_eq!(room.read().len(), 0);
}

#[test]
fn summary_lists_messages_in_insertion_order() {
    let mut room = RoomContext::new();
    room.create("first thought".to_string(), "Ada".to_string());
    room.create("second thought".to_string(), "Blaise".to_string());
    room.create("third thought".to_string(), "Ada".to_string());
    assert_eq!(
        room.get_conversation_summary(),
        "Ada: first thought\nBlaise: second thought\nAda: third thought"
    );
}

#[test]
fn summary_is_idempotent() {
    let mut room = RoomContext::new();
    for i in 0..5 {
        room.create(format!("message {}", i), "Ada".to_string());
    }
    let once = room.get_conversation_summary();
    let twice = room.get_conversation_summary();
    assert_eq!(once, twice);
}

#[test]
fn read_returns_valid_messages_in_order() {
    let mut room = RoomContext::new();
    room.create("alpha".to_string(), "Ada".to_string());
    room.create("beta".to_string(), "Blaise".to_string());
    let messages = room.read();
    assert_eq!(messages.len(), 2);
    assert_eq!(messages[0].content, "alpha");
    assert_eq!(messages[0].author, "Ada");
    assert!(messages[0].is_valid);
    assert_eq!(messages[1].content, "beta");
    assert_eq!(messages[1].author, "Blaise");
}

#[test]
fn delete_by_keyword_excludes_matching_messages() {
    let mut room = RoomContext::new();
    room.create("keep me".to_string(), "Ada".to_string());
    room.create("drop this secret now".to_string(), "Blaise".to_string());
    room.create("keep me too".to_string(), "Carl".to_string());
    room.delete_by_keyword("secret");
    let messages = room.read();
    assert_eq!(messages.len(), 2);
    assert_eq!(messages[0].content, "keep me");
    assert_eq!(messages[1].content, "keep me too");
    assert_eq!(room.get_conversation_summary(), "Ada: keep me\nCarl: keep me too");
}

#[test]
fn delete_by_keyword_without_match_changes_nothing() {
    let mut room = RoomContext::new();
    room.create("alpha".to_string(), "Ada".to_string());
    room.create("beta".to_string(), "Blaise".to_string());
    room.delete_by_keyword("gamma");
    assert_eq!(room.get_conversation_summary(), "Ada: alpha\nBlaise: beta");
}

#[test]
fn delete_by_keyword_matches_substrings_anywhere() {
    let mut room = RoomContext::new();
    room.create("prefix match".to_string(), "Ada".to_string());
    room.create("a match inside".to_string(), "Blaise".to_string());
    room.create("nothing here".to_string(), "Carl".to_string());
    room.delete_by_keyword("match");
    let messages = room.read();
    assert_eq!(messages.len(), 1);
    assert_eq!(messages[0].content, "nothing here");
}

#[test]
fn invalidated_messages_stay_out_after_later_appends() {
    let mut room = RoomContext::new();
    room.create("old secret".to_string(), "Ada".to_string());
    room.delete_by_keyword("secret");
    room.create("fresh words".to_string(), "Blaise".to_string());
    assert_eq!(room.get_conversation_summary(), "Blaise: fresh words");
}
