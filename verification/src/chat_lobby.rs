//! A simpler chat: joining a room by name creates it on first use and
//! registers the connection under a fresh user id; chat messages are
//! appended to the named room's history.

use vstd::prelude::*;
use crate::keyed::{
    find_key, insert_keyed, keyed_map, lemma_keyed_at, lemma_keyed_push, lemma_keyed_update,
    unique_keys, Keyed,
};

verus! {

/// What a client can ask for over its websocket.
pub enum ChatAction {
    Join { room: String, username: String },
    ChatMessage { room: String, content: String },
}

/// A message in a room's history.
pub struct ChatMessage {
    pub id: String,
    pub user_id: String,
    pub username: String,
    pub content: String,
}

/// A participant: a user id and the name the user joined with.
pub struct Participant {
    pub user_id: String,
    pub username: String,
}

impl View for Participant {
    type V = Seq<char>;

    open spec fn view(&self) -> Seq<char> {
        self.username@
    }
}

impl Keyed for Participant {
    open spec fn spec_key(&self) -> Seq<char> {
        self.user_id@
    }

    fn key(&self) -> (k: &String) {
        &self.user_id
    }
}

/// A room, named by its name: its history and its participants, each user
/// id at most once.
pub struct ChatRoom {
    pub name: String,
    pub history: Vec<ChatMessage>,
    pub participants: Vec<Participant>,
}

/// The contents of a room: participants map user ids to names.
pub struct RoomView {
    pub name: Seq<char>,
    pub history: Seq<ChatMessage>,
    pub participants: Map<Seq<char>, Seq<char>>,
}

impl View for ChatRoom {
    type V = RoomView;

    open spec fn view(&self) -> RoomView {
        RoomView {
            name: self.name@,
            history: self.history@,
            participants: keyed_map(self.participants@),
        }
    }
}

impl Keyed for ChatRoom {
    open spec fn spec_key(&self) -> Seq<char> {
        self.name@
    }

    fn key(&self) -> (k: &String) {
        &self.name
    }
}

/// All rooms, each under its name.
pub struct AppState {
    pub rooms: Vec<ChatRoom>,
}

impl View for AppState {
    type V = Map<Seq<char>, RoomView>;

    open spec fn view(&self) -> Map<Seq<char>, RoomView> {
        keyed_map(self.rooms@)
    }
}

/// What a connection remembers: set by its last `Join`.
pub struct Session {
    pub current_chatroom: Option<String>,
    pub username: Option<String>,
    pub current_user_id: Option<String>,
}

impl Session {
    /// A connection that has not joined yet.
    pub fn new() -> (s: Self)
        ensures
            s.current_chatroom is None,
            s.username is None,
            s.current_user_id is None,
    {
        Session { current_chatroom: None, username: None, current_user_id: None }
    }
}

/// A room that nobody has joined yet.
pub open spec fn empty_room(name: Seq<char>) -> RoomView {
    RoomView { name, history: Seq::empty(), participants: Map::empty() }
}

/// The room named `name`, or an empty one if there is none.
pub open spec fn room_or_empty(rooms: Map<Seq<char>, RoomView>, name: Seq<char>) -> RoomView {
    if rooms.contains_key(name) {
        rooms[name]
    } else {
        empty_room(name)
    }
}

/// The actions a connection can take without failing: a chat message needs
/// a joined connection and a room of that name.
pub open spec fn action_allowed(
    rooms: Map<Seq<char>, RoomView>,
    session: Session,
    action: ChatAction,
) -> bool {
    match action {
        ChatAction::Join { .. } => true,
        ChatAction::ChatMessage { room, .. } => {
            &&& session.current_user_id is Some
            &&& session.username is Some
            &&& rooms.contains_key(room@)
        },
    }
}

/// What an action does to the rooms and the session, and the reply it
/// sends; `fresh_id` is the new user's id for a `Join` and the message id
/// for a chat message.
pub open spec fn action_effect(
    rooms: Map<Seq<char>, RoomView>,
    session: Session,
    action: ChatAction,
    fresh_id: String,
    rooms2: Map<Seq<char>, RoomView>,
    session2: Session,
    reply: Option<String>,
) -> bool {
    match action {
        ChatAction::Join { room, username } => {
            let before = room_or_empty(rooms, room@);
            &&& session2 == Session {
                current_chatroom: Some(room),
                username: Some(username),
                current_user_id: Some(fresh_id),
            }
            &&& rooms2 == rooms.insert(
                room@,
                RoomView {
                    participants: before.participants.insert(fresh_id@, username@),
                    ..before
                },
            )
            &&& reply matches Some(r) && r@ == "You have joined the chat with user id  "@
                + fresh_id@
        },
        ChatAction::ChatMessage { room, content } => {
            let msg = ChatMessage {
                id: fresh_id,
                user_id: session.current_user_id.unwrap(),
                username: session.username.unwrap(),
                content,
            };
            &&& session2 == session
            &&& rooms2 == rooms.insert(
                room@,
                RoomView { history: rooms[room@].history.push(msg), ..rooms[room@] },
            )
            &&& reply is None
        },
    }
}

impl AppState {
    /// No two rooms share a name, and within each room no two participants
    /// share a user id.
    pub open spec fn wf(&self) -> bool {
        &&& unique_keys(self.rooms@)
        &&& forall|i: int|
            0 <= i < self.rooms@.len() ==> unique_keys(#[trigger] self.rooms@[i].participants@)
    }

    /// No rooms yet.
    pub fn new() -> (s: Self)
        ensures
            s.wf(),
            s@ == Map::<Seq<char>, RoomView>::empty(),
    {
        let s = AppState { rooms: Vec::new() };
        assert(s@ =~= Map::<Seq<char>, RoomView>::empty());
        s
    }

    /// The position of room `name`, creating the room if it is missing.
    fn room_entry(&mut self, name: &String) -> (i: usize)
        requires
            old(self).wf(),
        ensures
            final(self).wf(),
            i < final(self).rooms@.len(),
            final(self).rooms@[i as int].name@ == name@,
            final(self)@ == old(self)@.insert(name@, room_or_empty(old(self)@, name@)),
    {
        match find_key(&self.rooms, name) {
            Some(i) => {
                proof {
                    lemma_keyed_at(self.rooms@, i as int);
                    assert(self@.insert(name@, self@[name@]) =~= self@);
                }
                i
            },
            None => {
                let room = ChatRoom { name: name.clone(), history: Vec::new(), participants: Vec::new() };
                proof {
                    assert(room@.participants =~= Map::<Seq<char>, Seq<char>>::empty());
                    assert(room@ == empty_room(name@));
                    lemma_keyed_push(self.rooms@, room);
                }
                self.rooms.push(room);
                self.rooms.len() - 1
            },
        }
    }

    /// Whether `action` can be carried out for a connection whose session
    /// is `session` (see [`action_allowed`]).
    pub fn can_handle(&self, session: &Session, action: &ChatAction) -> (ok: bool)
        requires
            self.wf(),
        ensures
            ok == action_allowed(self@, *session, *action),
    {
        match action {
            ChatAction::Join { .. } => true,
            ChatAction::ChatMessage { room, .. } => {
                let found = match find_key(&self.rooms, room) {
                    Some(i) => {
                        proof {
                            lemma_keyed_at(self.rooms@, i as int);
                        }
                        true
                    },
                    None => false,
                };
                session.current_user_id.is_some() && session.username.is_some() && found
            },
        }
    }

    /// Carries out one action of a connection whose session is `session`.
    pub fn handle_action(
        &mut self,
        session: &mut Session,
        action: ChatAction,
        fresh_id: String,
    ) -> (reply: Option<String>)
        requires
            old(self).wf(),
            action_allowed(old(self)@, *old(session), action),
        ensures
            final(self).wf(),
            action_effect(
                old(self)@,
                *old(session),
                action,
                fresh_id,
                final(self)@,
                *final(session),
                reply,
            ),
    {
        match action {
            ChatAction::Join { room, username } => {
                session.current_chatroom = Some(room.clone());
                session.username = Some(username.clone());
                session.current_user_id = Some(fresh_id.clone());
                let i = self.room_entry(&room);
                let ghost mid = self.rooms@;
                proof {
                    lemma_keyed_at(mid, i as int);
                }
                let participant = Participant { user_id: fresh_id.clone(), username };
                insert_keyed(&mut self.rooms[i].participants, participant);
                proof {
                    let r = self.rooms@[i as int];
                    lemma_keyed_update(mid, i as int, r);
                    let before = room_or_empty(old(self)@, room@);
                    assert(keyed_map(mid)[room@] == before);
                    assert(r@ == RoomView {
                        participants: before.participants.insert(fresh_id@, username@),
                        ..before
                    });
                    assert forall|j: int| 0 <= j < self.rooms@.len() implies unique_keys(
                        #[trigger] self.rooms@[j].participants@,
                    ) by {
                        if j != i {
                            assert(self.rooms@[j] == mid[j]);
                        }
                    }
                    assert(self@ =~= old(self)@.insert(room@, r@));
                }
                let mut reply = String::from_str("You have joined the chat with user id  ");
                reply.append(fresh_id.as_str());
                Some(reply)
            },
            ChatAction::ChatMessage { room, content } => {
                let chat_message = ChatMessage {
                    id: fresh_id,
                    user_id: session.current_user_id.as_ref().unwrap().clone(),
                    username: session.username.as_ref().unwrap().clone(),
                    content,
                };
                let i = match find_key(&self.rooms, &room) {
                    Some(i) => i,
                    None => {
                        proof {
                            assert(false);
                        }
                        0
                    },
                };
                let ghost mid = self.rooms@;
                proof {
                    lemma_keyed_at(mid, i as int);
                }
                self.rooms[i].history.push(chat_message);
                proof {
                    let r = self.rooms@[i as int];
                    lemma_keyed_update(mid, i as int, r);
                    assert forall|j: int| 0 <= j < self.rooms@.len() implies unique_keys(
                        #[trigger] self.rooms@[j].participants@,
                    ) by {
                        if j != i {
                            assert(self.rooms@[j] == mid[j]);
                        }
                    }
                }
                None
            },
        }
    }
}

/// Joining registers the connection's fresh user id under the given name
/// in the named room (created if missing); other participants and other
/// rooms are left as they were.
pub proof fn law_join_registers_user(
    rooms: Map<Seq<char>, RoomView>,
    session: Session,
    room: String,
    username: String,
    fresh_id: String,
    rooms2: Map<Seq<char>, RoomView>,
    session2: Session,
    reply: Option<String>,
)
    requires
        action_effect(
            rooms,
            session,
            ChatAction::Join { room, username },
            fresh_id,
            rooms2,
            session2,
            reply,
        ),
    ensures
        rooms2.contains_key(room@),
        rooms2[room@].participants.contains_key(fresh_id@),
        rooms2[room@].participants[fresh_id@] == username@,
        forall|id: Seq<char>|
            id != fresh_id@ && room_or_empty(rooms, room@).participants.contains_key(id)
                ==> #[trigger] rooms2[room@].participants.contains_key(id)
                && rooms2[room@].participants[id] == room_or_empty(rooms, room@).participants[id],
        forall|other: Seq<char>|
            other != room@ && rooms.contains_key(other) ==> #[trigger] rooms2.contains_key(other)
                && rooms2[other] == rooms[other],
        rooms2[room@].history == room_or_empty(rooms, room@).history,
        rooms.contains_key(room@) ==> rooms2[room@].history == rooms[room@].history,
        !rooms.contains_key(room@) ==> rooms2[room@].history.len() == 0,
        session2.current_user_id == Some(fresh_id),
        session2.username == Some(username),
        session2.current_chatroom == Some(room),
{
}

/// A chat message ends the history of its room and leaves every other
/// room as it was.
pub proof fn law_message_appends_to_its_room(
    rooms: Map<Seq<char>, RoomView>,
    session: Session,
    room: String,
    content: String,
    fresh_id: String,
    rooms2: Map<Seq<char>, RoomView>,
    session2: Session,
    reply: Option<String>,
)
    requires
        action_allowed(rooms, session, ChatAction::ChatMessage { room, content }),
        action_effect(
            rooms,
            session,
            ChatAction::ChatMessage { room, content },
            fresh_id,
            rooms2,
            session2,
            reply,
        ),
    ensures
        rooms2.contains_key(room@),
        rooms2[room@].history.len() == rooms[room@].history.len() + 1,
        rooms2[room@].history.last().content == content,
        rooms2[room@].history.last().id == fresh_id,
        rooms2[room@].history.last().user_id == session.current_user_id.unwrap(),
        rooms2[room@].history.last().username == session.username.unwrap(),
        rooms2[room@].history.drop_last() == rooms[room@].history,
        session2 == session,
        reply is None,
        rooms2[room@].participants == rooms[room@].participants,
        forall|other: Seq<char>|
            other != room@ && rooms.contains_key(other) ==> #[trigger] rooms2.contains_key(other)
                && rooms2[other] == rooms[other],
{
    assert(rooms2[room@].history.drop_last() =~= rooms[room@].history);
}

/// The session has joined: it carries a user id and a name.
pub open spec fn session_joined(session: Session) -> bool {
    &&& session.current_user_id is Some
    &&& session.username is Some
}

/// A connection can go on without fault as long as each chat message it
/// sends comes after a join and names a room there is. A join is always
/// allowed and leaves the session joined; a joined session stays joined
/// through every later action; no action removes a room; so a joined
/// session may send a message to every room there is after each step.
pub proof fn law_joined_connection_may_chat(
    rooms: Map<Seq<char>, RoomView>,
    session: Session,
    action: ChatAction,
    fresh_id: String,
    rooms2: Map<Seq<char>, RoomView>,
    session2: Session,
    reply: Option<String>,
)
    requires
        action_allowed(rooms, session, action),
        action_effect(rooms, session, action, fresh_id, rooms2, session2, reply),
    ensures
        action is Join ==> session_joined(session2),
        session_joined(session) ==> session_joined(session2),
        rooms.dom().subset_of(rooms2.dom()),
        forall|room: String, content: String|
            session_joined(session2) && rooms2.contains_key(room@) ==> #[trigger] action_allowed(
                rooms2,
                session2,
                ChatAction::ChatMessage { room, content },
            ),
        forall|room: String, username: String|
            #[trigger] action_allowed(rooms2, session2, ChatAction::Join { room, username }),
{
}

/// A chat message is allowed exactly when the session has joined and its
/// room exists.
pub proof fn law_message_allowed_iff_joined_and_room_exists(
    rooms: Map<Seq<char>, RoomView>,
    session: Session,
    room: String,
    content: String,
)
    ensures
        action_allowed(rooms, session, ChatAction::ChatMessage { room, content }) <==> (
        session_joined(session) && rooms.contains_key(room@)),
{
}

} // verus!
