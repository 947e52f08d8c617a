//! Control library for Wi-Fi ring lights that speak the `/elgato` HTTP
//! protocol: data model, colour-temperature conversion, request planning,
//! light-cache state machine and the Wi-Fi provisioning logic.
pub mod api;
pub mod cli;
pub mod config;
pub mod discovery;
pub mod error;
pub mod light_service;
pub mod models;
pub mod provisioning;
pub mod sort;
pub mod text;
pub mod wizard;

pub use api::RingLightClient;
pub use config::{active_config_path, resolve_active, ActiveLight, DEFAULT_PORT};
pub use error::HolikeyzError;
pub use models::{AccessoryInfo, LightInfo, LightState, Settings};
