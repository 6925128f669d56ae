//! Foreground providers and the `auto` selection logic.
//!
//! Every provider tracks a snapshot; what feeds it (sockets, helper processes,
//! threads) belongs to the host, which hands in what it read.

pub mod command;
pub mod gnome;
pub mod hyprland;
pub mod kde;
pub mod newest;
pub mod none;
pub mod selection;
pub mod shared;
pub mod sway;
pub mod sway_ipc;

pub use command::CommandProvider;
pub use gnome::GnomeProvider;
pub use hyprland::HyprlandProvider;
pub use kde::KdeProvider;
pub use none::NoneProvider;
pub use selection::{select_provider, ProviderChoice};
pub use sway::SwayProvider;
