use backend_lab::chat_rooms::{ActionOutcome, AppState, ChatAction, ChatMessage, Session, User};

fn s(t: &str) -> String {
    t.to_string()
}

fn act(state: &mut AppState, session: &mut Session, action: ChatAction, fresh: &str) -> ActionOutcome {
    state.handle_action(session, action, s(fresh))
}

#[test]
fn create_join_send_delete_leave() {
    let mut state = AppState::new();
    let mut owner = Session::new();
    let out = act(
        &mut state,
        &mut owner,
        ChatAction::CreateRoom { ownerId: s("1"), username: s("manmohan"), name: s("testing 1") },
        "room-1",
    );
    assert_eq!(out.reply, "successfully created room wiuth this id room-1");
    assert!(out.subscribe_to.is_none());
    assert_eq!(state.rooms.len(), 1);
    assert_eq!(state.rooms[0].id, "room-1");
    assert_eq!(state.rooms[0].ownerId, "1");
    assert_eq!(state.rooms[0].name, "testing 1");

    let mut sameer = Session::new();
    let out = act(
        &mut state,
        &mut sameer,
        ChatAction::Join { name: s("sameer"), userId: s("3"), roomId: s("room-1") },
        "unused",
    );
    assert_eq!(out.reply, "Joined the room ,room-1");
    assert_eq!(out.subscribe_to, Some(s("room-1")));
    assert_eq!(sameer.current_username, Some(s("sameer")));
    assert_eq!(sameer.current_userId, Some(s("3")));
    assert_eq!(state.rooms[0].participants.len(), 1);
    assert_eq!(state.rooms[0].participants[0].id, "3");

    let out = act(
        &mut state,
        &mut sameer,
        ChatAction::SendMessage { roomId: s("room-1"), content: s("hey bro") },
        "msg-1",
    );
    assert_eq!(out.reply, "msg send successfully in this room id ,room-1");
    let (room, msg) = out.broadcast.expect("broadcast to the room");
    assert_eq!(room, "room-1");
    assert_eq!(msg.id, "msg-1");
    assert_eq!(msg.name, "sameer");
    assert_eq!(msg.userId, "3");
    assert_eq!(msg.content, "hey bro");
    assert_eq!(state.rooms[0].history.len(), 1);
    assert_eq!(state.rooms[0].history[0].content, "hey bro");

    let out = act(
        &mut state,
        &mut sameer,
        ChatAction::DeleteMessage { contentId: s("msg-1"), roomId: s("room-1") },
        "unused",
    );
    assert_eq!(out.reply, "msg deleted with id ,msg-1");
    assert!(state.rooms[0].history.is_empty());

    let out = act(
        &mut state,
        &mut sameer,
        ChatAction::DeleteMessage { contentId: s("msg-1"), roomId: s("room-1") },
        "unused",
    );
    assert_eq!(out.reply, "msg not found with id ,msg-1");

    let out = act(&mut state, &mut sameer, ChatAction::LeaveRoom { roomId: s("room-1") }, "unused");
    assert_eq!(out.reply, "exited room with id ,room-1");
    assert!(state.rooms[0].participants.is_empty());
}

#[test]
fn joining_a_missing_room_still_sets_the_session() {
    let mut state = AppState::new();
    let mut session = Session::new();
    let out = act(
        &mut state,
        &mut session,
        ChatAction::Join { name: s("ann"), userId: s("7"), roomId: s("nowhere") },
        "x",
    );
    assert_eq!(out.reply, "room with id nowhere not found");
    assert!(out.subscribe_to.is_none());
    assert_eq!(session.current_userId, Some(s("7")));
    assert!(state.rooms.is_empty());
}

#[test]
fn sending_to_a_missing_room_is_acknowledged_but_not_broadcast() {
    let mut state = AppState::new();
    let mut session = Session { current_username: Some(s("ann")), current_userId: Some(s("7")) };
    let out = act(
        &mut state,
        &mut session,
        ChatAction::SendMessage { roomId: s("nowhere"), content: s("hi") },
        "m",
    );
    assert_eq!(out.reply, "msg send successfully in this room id ,nowhere");
    assert!(out.broadcast.is_none());
    assert!(state.rooms.is_empty());
}

#[test]
fn delete_removes_every_message_with_the_id_and_keeps_order() {
    let mut state = AppState::new();
    state.create_room(s("r"), s("o"), s("room"));
    for (id, content) in [("a", "1"), ("b", "2"), ("a", "3"), ("c", "4")] {
        let msg = ChatMessage { id: s(id), name: s("n"), userId: s("u"), content: s(content) };
        assert!(state.post_message(&s("r"), msg));
    }
    assert!(state.delete_message(&s("r"), &s("a")));
    let contents: Vec<&str> = state.rooms[0].history.iter().map(|m| m.content.as_str()).collect();
    assert_eq!(contents, vec!["2", "4"]);
    assert!(!state.delete_message(&s("r"), &s("a")));
    assert!(!state.delete_message(&s("missing"), &s("b")));
}

#[test]
fn leave_removes_only_that_user() {
    let mut state = AppState::new();
    state.create_room(s("r"), s("o"), s("room"));
    assert!(state.join_room(&s("r"), User { id: s("1"), name: s("a") }));
    assert!(state.join_room(&s("r"), User { id: s("2"), name: s("b") }));
    assert!(state.join_room(&s("r"), User { id: s("1"), name: s("a") }));
    assert!(state.leave_room(&s("r"), &s("1")));
    assert_eq!(state.rooms[0].participants.len(), 1);
    assert_eq!(state.rooms[0].participants[0].id, "2");
    assert!(!state.leave_room(&s("zzz"), &s("2")));
}

#[test]
fn creating_a_room_under_an_existing_id_replaces_it() {
    let mut state = AppState::new();
    state.create_room(s("r"), s("o"), s("first"));
    assert!(state.join_room(&s("r"), User { id: s("1"), name: s("a") }));
    state.create_room(s("r"), s("p"), s("second"));
    assert_eq!(state.rooms.len(), 1);
    assert_eq!(state.rooms[0].name, "second");
    assert!(state.rooms[0].participants.is_empty());
    state.create_room(s("q"), s("p"), s("third"));
    assert_eq!(state.rooms.len(), 2);
}

#[test]
fn leaving_an_empty_room_without_having_joined_is_fine() {
    let mut state = AppState::new();
    state.create_room(s("r"), s("o"), s("room"));
    let mut session = Session::new();
    let out = act(&mut state, &mut session, ChatAction::LeaveRoom { roomId: s("r") }, "x");
    assert_eq!(out.reply, "exited room with id ,r");
}

#[test]
fn actions_that_would_fail_are_recognized() {
    let mut state = AppState::new();
    state.create_room(s("r"), s("o"), s("room"));
    let fresh = Session::new();
    let send = ChatAction::SendMessage { roomId: s("r"), content: s("hi") };
    assert!(!state.can_handle(&fresh, &send));
    let leave = ChatAction::LeaveRoom { roomId: s("r") };
    assert!(state.can_handle(&fresh, &leave));
    assert!(state.join_room(&s("r"), User { id: s("1"), name: s("a") }));
    assert!(!state.can_handle(&fresh, &leave));
    let joined = Session { current_username: Some(s("a")), current_userId: Some(s("1")) };
    assert!(state.can_handle(&joined, &send));
    assert!(state.can_handle(&joined, &leave));
    let create = ChatAction::CreateRoom { ownerId: s("o"), username: s("u"), name: s("n") };
    assert!(state.can_handle(&fresh, &create));
}

fn room_ids(state: &AppState) -> Vec<String> {
    state.rooms.iter().map(|r| r.id.clone()).collect()
}

#[test]
fn no_action_removes_a_room() {
    let mut state = AppState::new();
    let mut owner = Session::new();
    act(&mut state, &mut owner, ChatAction::CreateRoom { ownerId: s("1"), username: s("o"), name: s("a") }, "a");
    act(&mut state, &mut owner, ChatAction::CreateRoom { ownerId: s("1"), username: s("o"), name: s("b") }, "b");
    assert_eq!(room_ids(&state), vec![s("a"), s("b")]);
    let mut ann = Session::new();
    let actions = vec![
        ChatAction::Join { name: s("ann"), userId: s("7"), roomId: s("a") },
        ChatAction::SendMessage { roomId: s("a"), content: s("hi") },
        ChatAction::DeleteMessage { contentId: s("m"), roomId: s("a") },
        ChatAction::LeaveRoom { roomId: s("a") },
        ChatAction::LeaveRoom { roomId: s("nowhere") },
    ];
    for action in actions {
        assert!(state.can_handle(&ann, &action));
        act(&mut state, &mut ann, action, "m");
        let mut ids = room_ids(&state);
        ids.sort();
        assert_eq!(ids, vec![s("a"), s("b")]);
    }
}
