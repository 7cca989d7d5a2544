//! A desktop assistant's core: bounded conversation history, an ordered
//! chain of reply backends with a deterministic local fallback, placement of
//! a speech panel beside a draggable anchor, and the interaction state machine
//! that ties them together. Around that core: the remote clients' exchange
//! rules, the texts of the weather and currency widgets, speech helpers and
//! the anchor image's background removal.
//!
//! Everything here is plain computation; network, storage, audio and drawing
//! are left to the caller, which hands results back as plain values.

pub mod text;
pub mod fmt;

pub mod history;
pub mod local;
pub mod responder;
pub mod remote;

pub mod layout;
pub mod interaction;

pub mod services;
pub mod rates;
pub mod widgets;
pub mod speech;
pub mod background;
