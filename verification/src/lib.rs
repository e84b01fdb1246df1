//! Verified core of a set of small web back-ends: chat rooms over
//! websockets, a todo service with token authentication, an uptime
//! monitor, and a few command-line utilities.

pub mod chat_lobby;
pub mod chat_rooms;
pub mod counter;
pub mod course;
pub mod http_status;
pub mod keyed;
pub mod markdown;
pub mod numfmt;
pub mod password_hash;
pub mod ping;
pub mod stream_jobs;
pub mod todo_backend;
pub mod todo_starter;
pub mod todo_simple;
pub mod token;
pub mod uptime;
pub mod uuid_text;
