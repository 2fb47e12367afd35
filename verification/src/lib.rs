pub mod input;
pub mod laws;
pub mod ui_laws;
pub mod sse;
pub mod view;
pub mod message_view;
pub mod api;
pub mod flows;
pub mod screen;
pub mod dialog_view;
pub mod panel_view;
pub mod themes;
pub mod filters;
pub mod editor;
pub mod state_events;
pub mod seq_util;
pub mod state;
pub mod status_map;
pub mod events;
pub mod types;
pub mod text;
