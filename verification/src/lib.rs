//! Core of a terminal file browser: the directory listing model, the
//! selection and navigation rules, the screen state machine and the
//! bookkeeping of the background copy. The host program performs the
//! file-system work and the drawing; every decision is taken here.

pub mod app;
pub mod channel;
pub mod copy;
pub mod files;
pub mod keys;
pub mod laws;
pub mod model;
pub mod path;
pub mod text;
pub mod widgets;
