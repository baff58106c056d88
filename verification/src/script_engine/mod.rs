pub mod aimbot;
pub mod bhop;
pub mod scripts;

pub use aimbot::{AimTrack, AimbotConfig, Readiness, ReadinessCheck, SmoothFn, WeaponState};
pub use bhop::BHop;
pub use scripts::is_script_extension;
