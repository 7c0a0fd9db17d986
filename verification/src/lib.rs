//! Alert notifications, from webhook to chat message.
//!
//! Alerts arrive in batches from a monitoring webhook. The intake
//! ([`service::alertmanager`]) keeps one row per fingerprint in the alert
//! store ([`db`]) and puts follow-up work on the event bus ([`events`]). The
//! orchestrator ([`service::event_loop`]) is the bus's single consumer: it
//! charts a new alert, posts it to the chat and keeps the chat message in
//! step with the alert's state, one event at a time.
//!
//! The library decides and never waits: it holds the store and the bus as
//! plain values, and what the metrics, chart and chat services answered is
//! handed to it. The requests to those services are written here
//! ([`service::prometheus`], [`service::charts`], [`service::slack`]); sending
//! them is left to the program around the library. What the intake and the
//! orchestrator guarantee over every store, bus and answer is stated and
//! proved in the two `guarantees` modules.
pub mod calendar;
pub mod db;
pub mod events;
pub mod service;
pub mod text;
pub mod urls;
