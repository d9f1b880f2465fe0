pub mod app;
pub mod keys;
pub mod list_state;
pub mod view_mode;
pub mod widgets;
pub mod events;
pub mod tracing_layer;
