//! The browser components: each one's state, and how it answers its messages.
//! Rendering and the browser services stay with the front end's glue.

pub mod app;
pub mod header;
pub mod graph;
pub mod event_source_service;
pub mod fetch_service;
pub mod api_request;
pub mod ws_service;
