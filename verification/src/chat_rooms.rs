//! Chat rooms shared by websocket connections: rooms are created, joined
//! and left; messages are posted to a room's history, broadcast to its
//! subscribers, and deleted again by id.
//!
//! Each connection keeps a [`Session`]; every incoming [`ChatAction`] is
//! decided by [`AppState::handle_action`], which changes the shared rooms
//! and tells the connection what to reply, whether to subscribe to a room's
//! broadcasts, and what to broadcast.
#![allow(non_snake_case)]

use vstd::prelude::*;
use crate::keyed::{
    find_key, insert_keyed, keyed_map, lemma_keyed_at, lemma_keyed_update,
    lemma_other_keys_absent, lemma_other_keys_len, lemma_other_keys_push, lemma_other_keys_removes,
    other_keys, retain_other_keys, unique_keys, Keyed,
};

verus! {

/// What a client can ask for over its websocket.
pub enum ChatAction {
    CreateRoom { ownerId: String, username: String, name: String },
    Join { name: String, userId: String, roomId: String },
    SendMessage { roomId: String, content: String },
    DeleteMessage { contentId: String, roomId: String },
    LeaveRoom { roomId: String },
}

/// A message in a room's history.
pub struct ChatMessage {
    pub id: String,
    pub name: String,
    pub userId: String,
    pub content: String,
}

/// A participant of a room.
pub struct User {
    pub id: String,
    pub name: String,
}

/// A room: who owns it, its history and its participants.
pub struct ChatRoom {
    pub id: String,
    pub ownerId: String,
    pub name: String,
    pub history: Vec<ChatMessage>,
    pub participants: Vec<User>,
}

/// The contents of a room.
pub struct RoomView {
    pub id: Seq<char>,
    pub owner_id: Seq<char>,
    pub name: Seq<char>,
    pub history: Seq<ChatMessage>,
    pub participants: Seq<User>,
}

impl View for ChatRoom {
    type V = RoomView;

    open spec fn view(&self) -> RoomView {
        RoomView {
            id: self.id@,
            owner_id: self.ownerId@,
            name: self.name@,
            history: self.history@,
            participants: self.participants@,
        }
    }
}

impl Keyed for ChatRoom {
    open spec fn spec_key(&self) -> Seq<char> {
        self.id@
    }

    fn key(&self) -> (k: &String) {
        &self.id
    }
}

impl Keyed for ChatMessage {
    open spec fn spec_key(&self) -> Seq<char> {
        self.id@
    }

    fn key(&self) -> (k: &String) {
        &self.id
    }
}

impl Keyed for User {
    open spec fn spec_key(&self) -> Seq<char> {
        self.id@
    }

    fn key(&self) -> (k: &String) {
        &self.id
    }
}

/// A copy of a message.
pub fn copy_message(m: &ChatMessage) -> (r: ChatMessage)
    ensures
        r == *m,
{
    ChatMessage {
        id: m.id.clone(),
        name: m.name.clone(),
        userId: m.userId.clone(),
        content: m.content.clone(),
    }
}

/// A room that was just created: no history, no participants.
pub open spec fn fresh_room(id: Seq<char>, owner_id: Seq<char>, name: Seq<char>) -> RoomView {
    RoomView { id, owner_id, name, history: Seq::empty(), participants: Seq::empty() }
}

/// `room` after `user` joined it.
pub open spec fn room_joined(room: RoomView, user: User) -> RoomView {
    RoomView { participants: room.participants.push(user), ..room }
}

/// `room` after `msg` was posted to it.
pub open spec fn room_posted(room: RoomView, msg: ChatMessage) -> RoomView {
    RoomView { history: room.history.push(msg), ..room }
}

/// `room` without the messages whose id is `content_id`.
pub open spec fn room_message_deleted(room: RoomView, content_id: Seq<char>) -> RoomView {
    RoomView { history: other_keys(room.history, content_id), ..room }
}

/// `room` without the participants whose id is `user_id`.
pub open spec fn room_left(room: RoomView, user_id: Seq<char>) -> RoomView {
    RoomView { participants: other_keys(room.participants, user_id), ..room }
}

/// Some message in `history` has id `content_id`.
pub open spec fn has_message(history: Seq<ChatMessage>, content_id: Seq<char>) -> bool {
    exists|i: int| 0 <= i < history.len() && #[trigger] history[i].spec_key() == content_id
}

/// All rooms, each under its own id.
pub struct AppState {
    pub rooms: Vec<ChatRoom>,
}

impl View for AppState {
    type V = Map<Seq<char>, RoomView>;

    open spec fn view(&self) -> Map<Seq<char>, RoomView> {
        keyed_map(self.rooms@)
    }
}

impl AppState {
    /// No two rooms share an id.
    pub open spec fn wf(&self) -> bool {
        unique_keys(self.rooms@)
    }

    /// No rooms yet.
    pub fn new() -> (s: Self)
        ensures
            s.wf(),
            s@ == Map::<Seq<char>, RoomView>::empty(),
    {
        let s = AppState { rooms: Vec::new() };
        assert(s@ =~= Map::<Seq<char>, RoomView>::empty());
        s
    }

    /// Puts a new empty room under `id`, replacing any room that had that id.
    pub fn create_room(&mut self, id: String, owner_id: String, name: String)
        requires
            old(self).wf(),
        ensures
            final(self).wf(),
            final(self)@ == old(self)@.insert(id@, fresh_room(id@, owner_id@, name@)),
    {
        let room = ChatRoom {
            id,
            ownerId: owner_id,
            name,
            history: Vec::new(),
            participants: Vec::new(),
        };
        assert(room@ == fresh_room(room.id@, room.ownerId@, room.name@));
        insert_keyed(&mut self.rooms, room);
    }

    /// Adds `user` to the participants of room `room_id`, if there is such a room.
    pub fn join_room(&mut self, room_id: &String, user: User) -> (joined: bool)
        requires
            old(self).wf(),
        ensures
            final(self).wf(),
            joined == old(self)@.contains_key(room_id@),
            joined ==> final(self)@ == old(self)@.insert(
                room_id@,
                room_joined(old(self)@[room_id@], user),
            ),
            !joined ==> final(self)@ == old(self)@,
    {
        match find_key(&self.rooms, room_id) {
            Some(i) => {
                proof {
                    lemma_keyed_at(self.rooms@, i as int);
                }
                let ghost before = self.rooms@[i as int];
                self.rooms[i].participants.push(user);
                proof {
                    assert(self.rooms@ == old(self).rooms@.update(i as int, self.rooms@[i as int]));
                    lemma_keyed_update(old(self).rooms@, i as int, self.rooms@[i as int]);
                    assert(self.rooms@[i as int]@ == room_joined(before@, user));
                }
                true
            },
            None => false,
        }
    }

    /// Appends `msg` to the history of room `room_id`, if there is such a room.
    pub fn post_message(&mut self, room_id: &String, msg: ChatMessage) -> (posted: bool)
        requires
            old(self).wf(),
        ensures
            final(self).wf(),
            posted == old(self)@.contains_key(room_id@),
            posted ==> final(self)@ == old(self)@.insert(
                room_id@,
                room_posted(old(self)@[room_id@], msg),
            ),
            !posted ==> final(self)@ == old(self)@,
    {
        match find_key(&self.rooms, room_id) {
            Some(i) => {
                proof {
                    lemma_keyed_at(self.rooms@, i as int);
                }
                let ghost before = self.rooms@[i as int];
                self.rooms[i].history.push(msg);
                proof {
                    lemma_keyed_update(old(self).rooms@, i as int, self.rooms@[i as int]);
                    assert(self.rooms@[i as int]@ == room_posted(before@, msg));
                }
                true
            },
            None => false,
        }
    }

    /// Removes from room `room_id` every message whose id is `content_id`;
    /// tells whether anything was removed.
    pub fn delete_message(&mut self, room_id: &String, content_id: &String) -> (deleted: bool)
        requires
            old(self).wf(),
        ensures
            final(self).wf(),
            deleted == (old(self)@.contains_key(room_id@) && has_message(
                old(self)@[room_id@].history,
                content_id@,
            )),
            old(self)@.contains_key(room_id@) ==> final(self)@ == old(self)@.insert(
                room_id@,
                room_message_deleted(old(self)@[room_id@], content_id@),
            ),
            !old(self)@.contains_key(room_id@) ==> final(self)@ == old(self)@,
    {
        match find_key(&self.rooms, room_id) {
            Some(i) => {
                proof {
                    lemma_keyed_at(self.rooms@, i as int);
                }
                let ghost before = self.rooms@[i as int];
                let initial_len = self.rooms[i].history.len();
                retain_other_keys(&mut self.rooms[i].history, content_id);
                let deleted = self.rooms[i].history.len() < initial_len;
                proof {
                    lemma_keyed_update(old(self).rooms@, i as int, self.rooms@[i as int]);
                    assert(self.rooms@[i as int]@ == room_message_deleted(before@, content_id@));
                    lemma_other_keys_len(before.history@, content_id@);
                }
                deleted
            },
            None => false,
        }
    }

    /// Removes from room `room_id` every participant whose id is `user_id`.
    pub fn leave_room(&mut self, room_id: &String, user_id: &String) -> (found: bool)
        requires
            old(self).wf(),
        ensures
            final(self).wf(),
            found == old(self)@.contains_key(room_id@),
            found ==> final(self)@ == old(self)@.insert(
                room_id@,
                room_left(old(self)@[room_id@], user_id@),
            ),
            !found ==> final(self)@ == old(self)@,
    {
        match find_key(&self.rooms, room_id) {
            Some(i) => {
                proof {
                    lemma_keyed_at(self.rooms@, i as int);
                }
                let ghost before = self.rooms@[i as int];
                retain_other_keys(&mut self.rooms[i].participants, user_id);
                proof {
                    lemma_keyed_update(old(self).rooms@, i as int, self.rooms@[i as int]);
                    assert(self.rooms@[i as int]@ == room_left(before@, user_id@));
                }
                true
            },
            None => false,
        }
    }
}

/// What a connection remembers about its user: set by the last `Join`.
pub struct Session {
    pub current_username: Option<String>,
    pub current_userId: Option<String>,
}

impl Session {
    /// A connection that has not joined any room.
    pub fn new() -> (s: Self)
        ensures
            s.current_username is None,
            s.current_userId is None,
    {
        Session { current_username: None, current_userId: None }
    }
}

/// What the connection does after an action: the text it sends back, the
/// room whose broadcasts it subscribes to from now on, and the message it
/// broadcasts to a room's subscribers.
pub struct ActionOutcome {
    pub reply: String,
    pub subscribe_to: Option<String>,
    pub broadcast: Option<(String, ChatMessage)>,
}

/// The text of an optional string.
pub open spec fn opt_text(s: Option<String>) -> Option<Seq<char>> {
    match s {
        Some(t) => Some(t@),
        None => None,
    }
}

/// The room and message of an optional broadcast, the room by its text.
pub open spec fn broadcast_view(b: Option<(String, ChatMessage)>) -> Option<(Seq<char>, ChatMessage)> {
    match b {
        Some((r, m)) => Some((r@, m)),
        None => None,
    }
}

/// The actions a connection can take without failing: posting needs a
/// joined user, and leaving a room that has participants needs a user id.
pub open spec fn action_allowed(
    rooms: Map<Seq<char>, RoomView>,
    session: Session,
    action: ChatAction,
) -> bool {
    match action {
        ChatAction::SendMessage { .. } => session.current_userId is Some
            && session.current_username is Some,
        ChatAction::LeaveRoom { roomId } => (rooms.contains_key(roomId@)
            && rooms[roomId@].participants.len() > 0) ==> session.current_userId is Some,
        _ => true,
    }
}

/// The message a `SendMessage` posts: the connection's user, the given
/// content, and `fresh_id` as its id.
pub open spec fn posted_message(session: Session, content: String, fresh_id: String) -> ChatMessage {
    ChatMessage {
        id: fresh_id,
        name: session.current_username.unwrap(),
        userId: session.current_userId.unwrap(),
        content,
    }
}

/// What an action does to the rooms, the session and the connection.
/// `fresh_id` names the room a `CreateRoom` makes and the message a
/// `SendMessage` posts.
pub open spec fn action_effect(
    rooms: Map<Seq<char>, RoomView>,
    session: Session,
    action: ChatAction,
    fresh_id: String,
    rooms2: Map<Seq<char>, RoomView>,
    session2: Session,
    out: ActionOutcome,
) -> bool {
    match action {
        ChatAction::CreateRoom { ownerId, name, .. } => {
            &&& rooms2 == rooms.insert(fresh_id@, fresh_room(fresh_id@, ownerId@, name@))
            &&& session2 == session
            &&& out.reply@ == "successfully created room wiuth this id "@ + fresh_id@
            &&& out.subscribe_to is None
            &&& out.broadcast is None
        },
        ChatAction::Join { name, userId, roomId } => {
            let found = rooms.contains_key(roomId@);
            &&& session2 == Session { current_username: Some(name), current_userId: Some(userId) }
            &&& rooms2 == if found {
                rooms.insert(roomId@, room_joined(rooms[roomId@], User { id: userId, name }))
            } else {
                rooms
            }
            &&& out.reply@ == if found {
                "Joined the room ,"@ + roomId@
            } else {
                "room with id "@ + roomId@ + " not found"@
            }
            &&& opt_text(out.subscribe_to) == if found {
                Some(roomId@)
            } else {
                None
            }
            &&& out.broadcast is None
        },
        ChatAction::SendMessage { roomId, content } => {
            let found = rooms.contains_key(roomId@);
            let msg = posted_message(session, content, fresh_id);
            &&& session2 == session
            &&& rooms2 == if found {
                rooms.insert(roomId@, room_posted(rooms[roomId@], msg))
            } else {
                rooms
            }
            &&& out.reply@ == "msg send successfully in this room id ,"@ + roomId@
            &&& out.subscribe_to is None
            &&& broadcast_view(out.broadcast) == if found {
                Some((roomId@, msg))
            } else {
                None
            }
        },
        ChatAction::DeleteMessage { contentId, roomId } => {
            let found = rooms.contains_key(roomId@);
            let deleted = found && has_message(rooms[roomId@].history, contentId@);
            &&& session2 == session
            &&& rooms2 == if found {
                rooms.insert(roomId@, room_message_deleted(rooms[roomId@], contentId@))
            } else {
                rooms
            }
            &&& out.reply@ == if deleted {
                "msg deleted with id ,"@ + contentId@
            } else {
                "msg not found with id ,"@ + contentId@
            }
            &&& out.subscribe_to is None
            &&& out.broadcast is None
        },
        ChatAction::LeaveRoom { roomId } => {
            let found = rooms.contains_key(roomId@);
            &&& session2 == session
            &&& rooms2 == if found {
                match session.current_userId {
                    Some(u) => rooms.insert(roomId@, room_left(rooms[roomId@], u@)),
                    None => rooms,
                }
            } else {
                rooms
            }
            &&& out.reply@ == "exited room with id ,"@ + roomId@
            &&& out.subscribe_to is None
            &&& out.broadcast is None
        },
    }
}

/// `prefix` followed by `tail`.
fn text_then(prefix: &str, tail: &str) -> (s: String)
    ensures
        s@ == prefix@ + tail@,
{
    let mut s = String::from_str(prefix);
    s.append(tail);
    s
}

impl AppState {
    /// Whether `action` can be carried out for a connection whose session
    /// is `session` (see [`action_allowed`]).
    pub fn can_handle(&self, session: &Session, action: &ChatAction) -> (ok: bool)
        requires
            self.wf(),
        ensures
            ok == action_allowed(self@, *session, *action),
    {
        match action {
            ChatAction::SendMessage { .. } => session.current_userId.is_some()
                && session.current_username.is_some(),
            ChatAction::LeaveRoom { roomId } => match find_key(&self.rooms, roomId) {
                Some(i) => {
                    proof {
                        lemma_keyed_at(self.rooms@, i as int);
                    }
                    self.rooms[i].participants.len() == 0 || session.current_userId.is_some()
                },
                None => true,
            },
            _ => true,
        }
    }

    /// Carries out one action of a connection whose session is `session`.
    pub fn handle_action(
        &mut self,
        session: &mut Session,
        action: ChatAction,
        fresh_id: String,
    ) -> (out: ActionOutcome)
        requires
            old(self).wf(),
            action_allowed(old(self)@, *old(session), action),
        ensures
            final(self).wf(),
            action_effect(
                old(self)@,
                *old(session),
                action,
                fresh_id,
                final(self)@,
                *final(session),
                out,
            ),
    {
        match action {
            ChatAction::CreateRoom { ownerId, username, name } => {
                let reply = text_then("successfully created room wiuth this id ", fresh_id.as_str());
                self.create_room(fresh_id, ownerId, name);
                ActionOutcome { reply, subscribe_to: None, broadcast: None }
            },
            ChatAction::Join { name, userId, roomId } => {
                session.current_username = Some(name.clone());
                session.current_userId = Some(userId.clone());
                let user = User { id: userId, name };
                let joined = self.join_room(&roomId, user);
                if joined {
                    let reply = text_then("Joined the room ,", roomId.as_str());
                    ActionOutcome { reply, subscribe_to: Some(roomId), broadcast: None }
                } else {
                    let mut reply = text_then("room with id ", roomId.as_str());
                    reply.append(" not found");
                    ActionOutcome { reply, subscribe_to: None, broadcast: None }
                }
            },
            ChatAction::SendMessage { roomId, content } => {
                let message = ChatMessage {
                    id: fresh_id,
                    userId: session.current_userId.as_ref().unwrap().clone(),
                    name: session.current_username.as_ref().unwrap().clone(),
                    content,
                };
                let kept = copy_message(&message);
                let posted = self.post_message(&roomId, kept);
                let reply = text_then("msg send successfully in this room id ,", roomId.as_str());
                if posted {
                    ActionOutcome { reply, subscribe_to: None, broadcast: Some((roomId, message)) }
                } else {
                    ActionOutcome { reply, subscribe_to: None, broadcast: None }
                }
            },
            ChatAction::DeleteMessage { contentId, roomId } => {
                let deleted = self.delete_message(&roomId, &contentId);
                if deleted {
                    let reply = text_then("msg deleted with id ,", contentId.as_str());
                    ActionOutcome { reply, subscribe_to: None, broadcast: None }
                } else {
                    let reply = text_then("msg not found with id ,", contentId.as_str());
                    ActionOutcome { reply, subscribe_to: None, broadcast: None }
                }
            },
            ChatAction::LeaveRoom { roomId } => {
                match &session.current_userId {
                    Some(user_id) => {
                        let _ = self.leave_room(&roomId, user_id);
                    },
                    None => {},
                }
                let reply = text_then("exited room with id ,", roomId.as_str());
                ActionOutcome { reply, subscribe_to: None, broadcast: None }
            },
        }
    }
}

/// Deleting a message right after posting it, by its fresh id, gives the
/// room back its earlier history.
pub proof fn law_delete_undoes_post(room: RoomView, msg: ChatMessage)
    requires
        !has_message(room.history, msg.id@),
    ensures
        room_message_deleted(room_posted(room, msg), msg.id@) == room,
{
    lemma_other_keys_push(room.history, msg);
    assert forall|i: int| 0 <= i < room.history.len() implies #[trigger] room.history[i].spec_key()
        != msg.id@ by {
        if room.history[i].spec_key() == msg.id@ {
            assert(has_message(room.history, msg.id@));
        }
    }
    lemma_other_keys_absent(room.history, msg.id@);
}

/// After a deletion no message with that id is left, so deleting again
/// finds nothing and changes nothing.
pub proof fn law_delete_is_idempotent(room: RoomView, content_id: Seq<char>)
    ensures
        !has_message(room_message_deleted(room, content_id).history, content_id),
        room_message_deleted(room_message_deleted(room, content_id), content_id)
            == room_message_deleted(room, content_id),
{
    let h = other_keys(room.history, content_id);
    lemma_other_keys_removes(room.history, content_id);
    lemma_other_keys_absent(h, content_id);
}

/// A user who joins and then leaves a room is no longer among its
/// participants, and the others are as if the user had never joined.
pub proof fn law_leave_undoes_join(room: RoomView, user: User)
    ensures
        room_left(room_joined(room, user), user.id@) == room_left(room, user.id@),
        forall|i: int|
            0 <= i < room_left(room_joined(room, user), user.id@).participants.len()
                ==> #[trigger] room_left(room_joined(room, user), user.id@).participants[i].id@
                != user.id@,
{
    lemma_other_keys_push(room.participants, user);
    lemma_other_keys_removes(room.participants.push(user), user.id@);
}

/// An action naming a room that does not exist changes no room, except
/// `CreateRoom`, which makes one under the fresh id.
pub proof fn law_missing_room_unchanged(
    rooms: Map<Seq<char>, RoomView>,
    session: Session,
    action: ChatAction,
    fresh_id: String,
    rooms2: Map<Seq<char>, RoomView>,
    session2: Session,
    out: ActionOutcome,
)
    requires
        action_effect(rooms, session, action, fresh_id, rooms2, session2, out),
        match action {
            ChatAction::CreateRoom { .. } => false,
            ChatAction::Join { roomId, .. } => !rooms.contains_key(roomId@),
            ChatAction::SendMessage { roomId, .. } => !rooms.contains_key(roomId@),
            ChatAction::DeleteMessage { roomId, .. } => !rooms.contains_key(roomId@),
            ChatAction::LeaveRoom { roomId } => !rooms.contains_key(roomId@),
        },
    ensures
        rooms2 == rooms,
        out.broadcast is None,
        out.subscribe_to is None,
{
}

/// The room an action is about: the new room for `CreateRoom`, the named
/// room otherwise.
pub open spec fn action_room(action: ChatAction, fresh_id: String) -> Seq<char> {
    match action {
        ChatAction::CreateRoom { .. } => fresh_id@,
        ChatAction::Join { roomId, .. } => roomId@,
        ChatAction::SendMessage { roomId, .. } => roomId@,
        ChatAction::DeleteMessage { roomId, .. } => roomId@,
        ChatAction::LeaveRoom { roomId } => roomId@,
    }
}

/// An action touches no room but the one it is about: every other room
/// keeps its existence and its contents.
pub proof fn law_other_rooms_unchanged(
    rooms: Map<Seq<char>, RoomView>,
    session: Session,
    action: ChatAction,
    fresh_id: String,
    rooms2: Map<Seq<char>, RoomView>,
    session2: Session,
    out: ActionOutcome,
    other: Seq<char>,
)
    requires
        action_effect(rooms, session, action, fresh_id, rooms2, session2, out),
        other != action_room(action, fresh_id),
    ensures
        rooms2.contains_key(other) == rooms.contains_key(other),
        rooms.contains_key(other) ==> rooms2[other] == rooms[other],
{
}

/// No action removes a room: every room there was is still there after it,
/// and the only room that comes to be is the one `CreateRoom` makes under
/// the fresh id.
pub proof fn law_no_room_removed(
    rooms: Map<Seq<char>, RoomView>,
    session: Session,
    action: ChatAction,
    fresh_id: String,
    rooms2: Map<Seq<char>, RoomView>,
    session2: Session,
    out: ActionOutcome,
)
    requires
        action_effect(rooms, session, action, fresh_id, rooms2, session2, out),
    ensures
        rooms.dom().subset_of(rooms2.dom()),
        rooms2.dom() == if action is CreateRoom {
            rooms.dom().insert(fresh_id@)
        } else {
            rooms.dom()
        },
{
    if action is CreateRoom {
        assert(rooms2.dom() =~= rooms.dom().insert(fresh_id@));
    } else {
        assert(rooms2.dom() =~= rooms.dom());
    }
}

/// Deleting a message from an existing room removes from its history
/// exactly the messages with that id and keeps every other message, in
/// order; the room's id, owner, name and participants stay, and the reply
/// says whether any message went.
pub proof fn law_delete_removes_only_that_id(
    rooms: Map<Seq<char>, RoomView>,
    session: Session,
    content_id: String,
    room_id: String,
    fresh_id: String,
    rooms2: Map<Seq<char>, RoomView>,
    session2: Session,
    out: ActionOutcome,
)
    requires
        rooms.contains_key(room_id@),
        action_effect(
            rooms,
            session,
            ChatAction::DeleteMessage { contentId: content_id, roomId: room_id },
            fresh_id,
            rooms2,
            session2,
            out,
        ),
    ensures
        rooms2.contains_key(room_id@),
        rooms2[room_id@].history == rooms[room_id@].history.filter(
            |m: ChatMessage| m.id@ != content_id@,
        ),
        forall|i: int|
            0 <= i < rooms[room_id@].history.len() && #[trigger] rooms[room_id@].history[i].id@
                != content_id@ ==> rooms2[room_id@].history.contains(rooms[room_id@].history[i]),
        forall|i: int|
            0 <= i < rooms2[room_id@].history.len() ==> #[trigger] rooms2[room_id@].history[i].id@
                != content_id@,
        rooms2[room_id@].id == rooms[room_id@].id,
        rooms2[room_id@].owner_id == rooms[room_id@].owner_id,
        rooms2[room_id@].name == rooms[room_id@].name,
        rooms2[room_id@].participants == rooms[room_id@].participants,
        out.reply@ == if exists|i: int|
            0 <= i < rooms[room_id@].history.len() && #[trigger] rooms[room_id@].history[i].id@
                == content_id@ {
            "msg deleted with id ,"@ + content_id@
        } else {
            "msg not found with id ,"@ + content_id@
        },
        session2 == session,
{
    let old_h = rooms[room_id@].history;
    let pred = |m: ChatMessage| m.id@ != content_id@;
    assert((|x: ChatMessage| x.spec_key() != content_id@) =~= pred);
    let new_h = old_h.filter(pred);
    assert(rooms2[room_id@].history == new_h);
    broadcast use vstd::seq_lib::group_filter_ensures;
    assert forall|i: int|
        0 <= i < old_h.len() && #[trigger] old_h[i].id@ != content_id@ implies new_h.contains(old_h[i]) by {
        assert(old_h.contains(old_h[i]));
    }
    assert forall|i: int| 0 <= i < new_h.len() implies #[trigger] new_h[i].id@ != content_id@ by {
        assert(new_h.contains(new_h[i]));
    }
    if has_message(old_h, content_id@) {
        let i = choose|i: int| 0 <= i < old_h.len() && #[trigger] old_h[i].spec_key() == content_id@;
        assert(old_h[i].id@ == content_id@);
    } else {
        assert forall|i: int| 0 <= i < old_h.len() implies #[trigger] old_h[i].id@ != content_id@ by {
            assert(old_h[i].spec_key() == old_h[i].id@);
        }
    }
}

/// Creating a room puts a room under the fresh id with the given owner and
/// name and with no history and no participants; the session is kept and
/// nothing is subscribed or broadcast.
pub proof fn law_create_makes_an_empty_room(
    rooms: Map<Seq<char>, RoomView>,
    session: Session,
    owner_id: String,
    username: String,
    name: String,
    fresh_id: String,
    rooms2: Map<Seq<char>, RoomView>,
    session2: Session,
    out: ActionOutcome,
)
    requires
        action_effect(
            rooms,
            session,
            ChatAction::CreateRoom { ownerId: owner_id, username, name },
            fresh_id,
            rooms2,
            session2,
            out,
        ),
    ensures
        rooms2.contains_key(fresh_id@),
        rooms2[fresh_id@].id == fresh_id@,
        rooms2[fresh_id@].owner_id == owner_id@,
        rooms2[fresh_id@].name == name@,
        rooms2[fresh_id@].history.len() == 0,
        rooms2[fresh_id@].participants.len() == 0,
        session2 == session,
        out.subscribe_to is None,
        out.broadcast is None,
{
}

/// Joining an existing room adds the user, with the given id and name, as
/// its last participant and keeps the others in order; its history is
/// kept; the session takes on the user, and the connection subscribes to
/// the room.
pub proof fn law_join_adds_the_user(
    rooms: Map<Seq<char>, RoomView>,
    session: Session,
    name: String,
    user_id: String,
    room_id: String,
    fresh_id: String,
    rooms2: Map<Seq<char>, RoomView>,
    session2: Session,
    out: ActionOutcome,
)
    requires
        rooms.contains_key(room_id@),
        action_effect(
            rooms,
            session,
            ChatAction::Join { name, userId: user_id, roomId: room_id },
            fresh_id,
            rooms2,
            session2,
            out,
        ),
    ensures
        rooms2.contains_key(room_id@),
        rooms2[room_id@].participants.len() == rooms[room_id@].participants.len() + 1,
        rooms2[room_id@].participants.last().id == user_id,
        rooms2[room_id@].participants.last().name == name,
        rooms2[room_id@].participants.drop_last() == rooms[room_id@].participants,
        rooms2[room_id@].history == rooms[room_id@].history,
        rooms2[room_id@].id == rooms[room_id@].id,
        rooms2[room_id@].owner_id == rooms[room_id@].owner_id,
        rooms2[room_id@].name == rooms[room_id@].name,
        session2.current_userId == Some(user_id),
        session2.current_username == Some(name),
        out.subscribe_to matches Some(r) && r@ == room_id@,
        out.broadcast is None,
{
    assert(rooms2[room_id@].participants.drop_last() =~= rooms[room_id@].participants);
}

/// Leaving an existing room removes from its participants exactly those
/// with the session's user id and keeps the others in order; its history
/// is kept, and so is the session.
pub proof fn law_leave_removes_only_that_user(
    rooms: Map<Seq<char>, RoomView>,
    session: Session,
    room_id: String,
    user_id: String,
    fresh_id: String,
    rooms2: Map<Seq<char>, RoomView>,
    session2: Session,
    out: ActionOutcome,
)
    requires
        rooms.contains_key(room_id@),
        session.current_userId == Some(user_id),
        action_effect(rooms, session, ChatAction::LeaveRoom { roomId: room_id }, fresh_id, rooms2, session2, out),
    ensures
        rooms2.contains_key(room_id@),
        rooms2[room_id@].participants == rooms[room_id@].participants.filter(
            |u: User| u.id@ != user_id@,
        ),
        rooms2[room_id@].history == rooms[room_id@].history,
        rooms2[room_id@].id == rooms[room_id@].id,
        rooms2[room_id@].owner_id == rooms[room_id@].owner_id,
        rooms2[room_id@].name == rooms[room_id@].name,
        session2 == session,
        out.subscribe_to is None,
        out.broadcast is None,
{
    assert((|x: User| x.spec_key() != user_id@) =~= (|u: User| u.id@ != user_id@));
}

/// Creating a room, joining one and deleting a message are always
/// allowed; sending a message needs a session that has joined (with a user
/// id and a name); leaving needs a user id only when the room exists and
/// has participants.
pub proof fn law_allowed_actions(
    rooms: Map<Seq<char>, RoomView>,
    session: Session,
    action: ChatAction,
)
    ensures
        action is CreateRoom || action is Join || action is DeleteMessage ==> action_allowed(
            rooms,
            session,
            action,
        ),
        action is SendMessage ==> (action_allowed(rooms, session, action) <==> (
        session.current_userId is Some && session.current_username is Some)),
        session.current_userId is Some ==> (action is LeaveRoom ==> action_allowed(
            rooms,
            session,
            action,
        )),
        (action matches ChatAction::LeaveRoom { roomId } && !(rooms.contains_key(roomId@)
            && rooms[roomId@].participants.len() > 0)) ==> action_allowed(rooms, session, action),
{
}

/// A message sent to an existing room ends its history and is broadcast
/// to that room's subscribers; rooms keep their ids.
pub proof fn law_sent_message_is_kept_and_broadcast(
    rooms: Map<Seq<char>, RoomView>,
    session: Session,
    room_id: String,
    content: String,
    fresh_id: String,
    rooms2: Map<Seq<char>, RoomView>,
    session2: Session,
    out: ActionOutcome,
)
    requires
        rooms.contains_key(room_id@),
        action_effect(
            rooms,
            session,
            ChatAction::SendMessage { roomId: room_id, content },
            fresh_id,
            rooms2,
            session2,
            out,
        ),
    ensures
        rooms2[room_id@].history.last() == posted_message(session, content, fresh_id),
        rooms2[room_id@].history.last().id == fresh_id,
        rooms2[room_id@].history.last().content == content,
        rooms2[room_id@].history.last().userId == session.current_userId.unwrap(),
        rooms2[room_id@].history.last().name == session.current_username.unwrap(),
        rooms2[room_id@].participants == rooms[room_id@].participants,
        rooms2[room_id@].history.drop_last() == rooms[room_id@].history,
        broadcast_view(out.broadcast) == Some((room_id@, posted_message(session, content, fresh_id))),
        rooms2.dom() == rooms.dom(),
{
    assert(rooms2[room_id@].history.drop_last() =~= rooms[room_id@].history);
    assert(rooms2.dom() =~= rooms.dom());
}

} // verus!
