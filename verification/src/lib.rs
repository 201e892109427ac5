//! Clipboard background clipper: makes one color of a clipboard image transparent.

pub mod application;
pub mod domain;
pub mod presentation;
