//! Core of a minimal desktop text editor: the editor state machine, its
//! error taxonomy, and the decision logic of the asynchronous file-access
//! service. A thin presentation layer drives this core: it feeds intents in,
//! performs the effects the core asks for, and renders the state back out.

pub mod error;
pub mod file_access;
pub mod state;
