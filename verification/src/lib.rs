//! Core library of a terminal internet-radio player.
//!
//! The playback engine is organised around a few cooperating pieces: a
//! playback controller that manages decoder handles and timed crossfade
//! transitions, a line-oriented metadata parser for the decoder's status
//! output, a shared visualization state stepped once per frame, and a
//! manager that selects one of a fixed set of visualization variants.
//! Process management, terminal rendering, audio output and persistence
//! are left to the surrounding application; this crate holds the logic
//! and its proofs.

pub mod app_state;
pub mod audio;
pub mod db;
pub mod metadata;
pub mod player;
pub mod rcast;
pub mod rng;
pub mod sound_effects;
pub mod strutil;
pub mod visualizations;
