//! The session and event core of a terminal client that shows several live
//! sessions as tabs.
//!
//! Every session runs as a background task that publishes its latest state
//! through a single-slot cell. The main loop owns a [`page::GlobalState`]: the
//! ordered tabs with the current selection, the lines told to the user and the
//! modal input state. It feeds every event of the bus to
//! [`page::GlobalState::on_event`], which changes the state and answers with
//! the [`dispatch::Effect`] that remains to be carried out.
//!
//! - [`event`]: what the bus delivers, and the command bound to each event.
//! - [`dispatch`]: what each command does to the state.
//! - [`page`]: tabs, session handles, the input state, and the pages of the
//!   two kinds of session with the steps of their tasks.
//! - [`screen`]: what is drawn of the state.
//! - [`decimal`], [`text`]: numbers as text.
pub mod decimal;
pub mod dispatch;
pub mod event;
pub mod page;
pub mod screen;
pub mod text;
