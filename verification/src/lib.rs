//! Window lifecycle management for a desktop music player: a preset catalog,
//! a label-addressed window registry with soft-close semantics, a one-shot
//! payload cache for inter-window handoff, a tray-popup positioner with
//! multi-monitor clamping, and a router that turns host window events into
//! manager actions.

pub mod actions;
pub mod commands;
pub mod config;
pub mod events;
pub mod geometry;
pub mod label;
pub mod laws;
pub mod manager;
pub mod payload;
pub mod strmap;
pub mod tray;
