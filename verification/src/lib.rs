//! A reactive, immediate-mode user interface library.
//!
//! Views form a tree that is walked for every event; each view is identified by
//! the path of child indices leading to it. This crate holds the logic of that
//! tree: event routing, gesture and focus state machines, command collection,
//! per-view state, and the text editing model. Geometry and rendering, which
//! are done with floating point, live outside it.

pub mod event;
pub mod utf8_pos;
pub mod text_editor;
pub mod url_query;
pub mod state_store;
pub mod id;
pub mod context;
pub mod view;
pub mod views;
pub mod viewtuple;
pub mod event_loop;
pub mod access;
pub mod tuple_laws;
pub mod view_laws;
