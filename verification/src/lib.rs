//! An adaptive sprite-animation engine for a small visual indicator.
//!
//! A sampled metric (memory utilization as a percentage) is classified into
//! a discrete visual tier; each tier has a sprite-sheet asset and a playback
//! interval.  The engine resolves and validates the tier's sprite sheet with
//! a fallback policy, advances a frame index on a tier-dependent clock, and
//! composites the selected frame onto a destination buffer by alpha blending.

pub mod blend;
pub mod compositor;
pub mod diag;
pub mod engine;
pub mod resolver;
pub mod sheet;
pub mod tier;
pub mod window_mode;

pub use blend::Pixel;
pub use diag::DiagKey;
pub use diag::DiagnosticCache;
pub use engine::AnimationState;
pub use resolver::AssetDir;
pub use sheet::LoadError;
pub use sheet::SpriteSheet;
pub use tier::Tier;
pub use window_mode::WindowSizeMode;
