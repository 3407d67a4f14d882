//! A terminal flashcard quiz: question records, a store of them, a cursor
//! over the choices of the bound question, and the session state machine
//! that the event loop drives.
pub mod element;
pub mod screen;
pub mod store;

pub use element::{Element, Record};
pub use screen::{Feedback, Input, Screen, States};
pub use store::{Elements, StoreError};
