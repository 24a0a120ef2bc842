//! A single-player typing race: the session engine behind a full-screen
//! terminal game. The crate holds the state machine that drives the three
//! screens, the word queue and its scoring rule, the tick timing of the event
//! source, and the projection of a session onto a passive frame description.

pub mod event;
pub mod laws;
pub mod screen;
pub mod session;
pub mod text;
pub mod ticker;
pub mod view;
pub mod words;
