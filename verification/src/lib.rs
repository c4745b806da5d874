//! Passwordless sign-in and per-user display settings for a weather-station dashboard.
//!
//! A user signs in by following a link that was mailed to them; an administrator
//! registers new users the same way. Each user has four display settings, which the
//! dashboard and the settings page show.
//!
//! The handlers in this crate decide; they do not talk to the outside world. A handler
//! that needs the key-value store or the mailer says so in the [`flow::Action`] it
//! returns, and its host calls it again with the [`flow::Event`] that came back.
//!
//! - [`auth`]: login, logout, registration and their links.
//! - [`settings`] and [`graph`]: the settings page, saving settings, and the dashboard.
//! - [`database`]: the keys and commands of the store, and the reading of its replies.
//! - [`email`]: the two mails.
//! - [`session`], [`response`], [`flow`]: what handlers work on, answer with, and ask for.
//! - [`records`]: the store as a plain map, for the proofs in [`auth_laws`] and
//!   [`settings_laws`] of what whole requests guarantee.

mod text;
pub mod response;
pub mod session;
pub mod flow;
pub mod database;
pub mod records;
pub mod email;
pub mod auth;
pub mod auth_laws;
pub mod settings;
pub mod graph;
pub mod settings_laws;
