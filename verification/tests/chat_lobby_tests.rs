use backend_lab::chat_lobby::{AppState, ChatAction, Session};

fn s(t: &str) -> String {
    t.to_string()
}

#[test]
fn join_creates_the_room_and_registers_the_user() {
    let mut state = AppState::new();
    let mut session = Session::new();
    let reply = state.handle_action(
        &mut session,
        ChatAction::Join { room: s("general"), username: s("ann") },
        s("user-1"),
    );
    assert_eq!(reply, Some(s("You have joined the chat with user id  user-1")));
    assert_eq!(session.current_chatroom, Some(s("general")));
    assert_eq!(session.username, Some(s("ann")));
    assert_eq!(session.current_user_id, Some(s("user-1")));
    assert_eq!(state.rooms.len(), 1);
    assert_eq!(state.rooms[0].name, "general");
    assert_eq!(state.rooms[0].participants.len(), 1);
    assert_eq!(state.rooms[0].participants[0].user_id, "user-1");
    assert_eq!(state.rooms[0].participants[0].username, "ann");
}

#[test]
fn second_join_reuses_the_room() {
    let mut state = AppState::new();
    let mut a = Session::new();
    let mut b = Session::new();
    state.handle_action(&mut a, ChatAction::Join { room: s("general"), username: s("ann") }, s("u1"));
    state.handle_action(&mut b, ChatAction::Join { room: s("general"), username: s("bob") }, s("u2"));
    assert_eq!(state.rooms.len(), 1);
    assert_eq!(state.rooms[0].participants.len(), 2);
}

#[test]
fn chat_message_is_appended_to_the_named_room() {
    let mut state = AppState::new();
    let mut a = Session::new();
    state.handle_action(&mut a, ChatAction::Join { room: s("general"), username: s("ann") }, s("u1"));
    let reply = state.handle_action(
        &mut a,
        ChatAction::ChatMessage { room: s("general"), content: s("hello") },
        s("m1"),
    );
    assert_eq!(reply, None);
    let history = &state.rooms[0].history;
    assert_eq!(history.len(), 1);
    assert_eq!(history[0].id, "m1");
    assert_eq!(history[0].user_id, "u1");
    assert_eq!(history[0].username, "ann");
    assert_eq!(history[0].content, "hello");
}

#[test]
fn chat_message_needs_a_join_and_a_room() {
    let mut state = AppState::new();
    let fresh = Session::new();
    let msg = ChatAction::ChatMessage { room: s("general"), content: s("hi") };
    assert!(!state.can_handle(&fresh, &msg));
    let mut a = Session::new();
    state.handle_action(&mut a, ChatAction::Join { room: s("general"), username: s("ann") }, s("u1"));
    assert!(state.can_handle(&a, &msg));
    let elsewhere = ChatAction::ChatMessage { room: s("other"), content: s("hi") };
    assert!(!state.can_handle(&a, &elsewhere));
}

#[test]
fn a_joined_connection_may_chat_in_every_room_there_is() {
    let mut state = AppState::new();
    let mut ann = Session::new();
    let message = |room: &str| ChatAction::ChatMessage { room: s(room), content: s("hi") };
    assert!(!state.can_handle(&ann, &message("general")));
    assert!(state.can_handle(&ann, &ChatAction::Join { room: s("general"), username: s("ann") }));
    state.handle_action(&mut ann, ChatAction::Join { room: s("general"), username: s("ann") }, s("u1"));
    let mut bob = Session::new();
    state.handle_action(&mut bob, ChatAction::Join { room: s("random"), username: s("bob") }, s("u2"));
    for step in 0..3 {
        assert!(state.can_handle(&ann, &message("general")));
        assert!(state.can_handle(&ann, &message("random")));
        assert!(!state.can_handle(&ann, &message("nowhere")));
        state.handle_action(&mut ann, message(if step % 2 == 0 { "general" } else { "random" }), s("m"));
    }
    assert_eq!(state.rooms.len(), 2);
}
