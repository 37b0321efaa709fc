//! A controller for an application's system-tray icon.
//!
//! The controller keeps the recording flag and the tray settings
//! ([`manager`]), maps the display state to an icon and a tooltip
//! ([`display`]), and decides what happens on tray and menu events, on the
//! user interface's commands and at startup ([`events`], [`commands`],
//! [`window`], [`icon`], [`setup`]).
//!
//! It makes no call on the GUI framework itself. Every operation is a
//! [`step::Step`]: it names the one call that the host is to make next
//! ([`host::HostCall`]), and goes on from the host's reply
//! ([`step::Pending::on_reply`]) until it finishes with its result. What the
//! operations achieve is stated and proved on a model of the desktop
//! ([`desktop`], [`laws`]).

pub mod commands;
pub mod desktop;
pub mod display;
pub mod error;
pub mod events;
pub mod host;
pub mod icon;
pub mod laws;
pub mod manager;
pub mod setup;
pub mod step;
mod text;
pub mod window;
