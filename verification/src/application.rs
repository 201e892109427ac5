//! The orchestration of one clipboard poll and its change detection.

pub mod board;
pub mod clipboard_service;
pub mod poll;
