//! Automation of a game client's pre-match negotiation: reading the polled
//! session, resolving ban and pick targets, scheduling previews and commits,
//! and claiming characters from the shared bench.
//!
//! The library performs no request and reads no clock. A driver polls the
//! game client, hands each session document and the time to
//! [`champ_select::handle_champ_select`], and carries out the
//! [`effects::Effect`]s that come back.
//!
//! - [`reader`] turns a session document into a [`session::SessionSnapshot`];
//! - [`resolver`] picks the character that an action should take;
//! - [`scheduler`] decides, action by action, what to preview and when to
//!   commit;
//! - [`bench`] watches the shared bench and claims from it;
//! - [`champ_select`] is one whole poll, and states what holds of every poll;
//! - [`flow`] holds the decisions of the loop around the negotiation;
//! - [`heroes`], [`data`] and [`panel`] serve the presentation: the
//!   character registry, its loading, and the rules of the window;
//! - [`lcu`] finds the game client and builds the connection to it;
//! - [`json`] and [`text`] say what is assumed of `serde_json` and of the
//!   standard library's text functions.

pub mod bench;
pub mod champ_select;
pub mod data;
pub mod effects;
pub mod flow;
pub mod heroes;
pub mod json;
pub mod lcu;
pub mod models;
pub mod panel;
pub mod reader;
pub mod resolver;
pub mod scheduler;
pub mod session;
pub mod text;
