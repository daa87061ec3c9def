//! A viewport engine for an interactive screenshot viewer: pan, zoom and
//! easing of a still frame, in exact fixed-point arithmetic.
//!
//! `viewport` holds the state machine and `dispatch` maps input events to
//! its operations; `laws` states what holds over runs of operations.
//! `capture` says what makes a raw frame an image, `save` where a saved
//! image goes, and `config` what a valid configuration is. All numbers are
//! integers: positions in millionths of a pixel, scales in millionths (see
//! `fixed`).

pub mod capture;
pub mod config;
pub mod dispatch;
pub mod fixed;
pub mod laws;
pub mod save;
pub mod viewport;
