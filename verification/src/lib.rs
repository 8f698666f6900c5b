//! A small library behind a desktop utility that publishes phone-call
//! reminders: it decides whether clipboard text looks like a phone number,
//! normalizes raw input to E.164 form, loads a simple INI configuration,
//! builds the push-notification request, and drives the one-shot
//! submit/close window state machine.

pub mod config;
pub mod controller;
pub mod phone;
pub mod publish;
pub mod strutil;
