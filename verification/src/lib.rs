//! The account, site and federation rules of a link aggregator server.
//!
//! Every flow of the server that talks to a database, a queue or another server
//! is a state machine here: the library says what to do next (an action), the
//! program around it does that and hands back what came of it (an event).

pub mod apub_person;
pub mod apub_person_intake;
pub mod apub_person_laws;
pub mod edit_site;
pub mod edit_site_laws;
pub mod error;
pub mod init_tracing;
pub mod init_tracing_laws;
pub mod outside;
pub mod protocol;
pub mod register;
pub mod register_history_laws;
pub mod register_laws;
pub mod schema;
pub mod time;
pub mod undo_follow;
pub mod undo_follow_laws;
pub mod view_laws;
