//! Progressive middle-button autoscroll: the scroll engine and the rules
//! around it.

pub mod binary64;
pub mod cli;
pub mod config;
pub mod config_loader;
pub mod daemon;
pub mod detect;
pub mod device_discovery;
pub mod digits;
pub mod engine;
pub mod errors;
pub mod event_router;
pub mod foreground;
pub mod gestures;
pub mod indicator;
pub mod json;
pub mod laws;
pub mod model;
pub mod paths;
pub mod record;
pub mod service;
pub mod startup;
pub mod text;
pub mod udev_rule;
pub mod virtual_mouse;
pub mod wheel;

pub use binary64::Binary64;
pub use config::{ConfigError, CoreConfig, Mode, SpeedStep};
pub use engine::{Axis, Engine, WheelTask};
pub use model::{CoreAction, CoreInputEvent, EngineState, MouseButton};
