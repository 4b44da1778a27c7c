//! Verified core of the zcode GLM setup: configuration-home resolution,
//! the stored GLM API key, the first-run API-key onboarding step, the static
//! GLM model catalog and the analytics client settings.

pub mod text;
pub mod auth;
pub mod onboarding;
pub mod home_dir;
pub mod catalog;
pub mod analytics;

pub use home_dir::default_config_home_dir;
pub use onboarding::glm_api_key_setup_needed;
