//! Coordination core of a screen-region capture tool.
//!
//! A trigger asks for a capture session; the lock admits one at a time. The
//! captured frame waits in a single-slot handoff until the user has selected
//! a region, which is cut out, written to disk, recorded in a bounded history
//! and handed to the configured action: text extraction, extraction with
//! translation, copying, saving or previewing. Every way a session can end
//! frees the lock.
//!
//! The core decides and never waits. Whatever takes time or touches the
//! system (grabbing the display, running an engine, writing a file) is asked
//! of the code around it as a [`directive::Request`], and its outcome is
//! reported back to the [`state::AppState`], which answers with the next
//! [`directive::Directive`].

pub mod cache;
pub mod capture;
pub mod directive;
pub mod encode;
pub mod engine;
pub mod frame;
pub mod history;
pub mod job;
pub mod json;
pub mod lock;
pub mod notice;
pub mod session;
pub mod settings;
pub mod state;
pub mod text;
pub mod translator;
