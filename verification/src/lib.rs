//! Host-side state of list-backed controls and the typed payloads of
//! control notifications.

pub mod drop_files;
pub mod events;
pub mod handle;
pub mod in_step;
pub mod list_box;
pub mod messages;
pub mod rendered;
pub mod styles;
pub mod text;
pub mod tooltip;
