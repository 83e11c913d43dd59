//! Core of a small relay and coordination service: one-time-password
//! sessions, pair rooms, RTC session rooms, a voice-session buffer and a
//! session-validation cache, each with its state machine and its expiry rule.

pub mod auth;
pub mod clock;
pub mod error;
pub mod ident;
pub mod llm_proxy;
pub mod relay;
pub mod routes;
pub mod rtc_session;
pub mod session_store;
pub mod session_verify;
pub mod str_map;
pub mod text;
pub mod validate;
pub mod voice_routes;
pub mod voice_session;
pub mod web;
