//! Event-notification log of a network-traffic monitor.
//!
//! The detection engine appends alert events to a [`log::NotificationLog`],
//! which keeps the most recent [`log::CAP`] of them in arrival order. On every
//! render pass the page is classified from the configuration and the log
//! ([`page_state`]), and each retained event is mapped to a presentation record
//! ([`presenter`]) that the rendering layer paints.
//!
//! Localisation and unit scaling are collaborators: the library calls them
//! through the two functions it is handed, and every contract holds for whatever
//! those functions return.

pub mod event;
pub mod laws;
pub mod log;
pub mod page_state;
pub mod presenter;
pub mod text;
