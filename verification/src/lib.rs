pub mod buffer;
pub mod engine;
pub mod ffi;
pub mod methods;
pub mod text;
pub mod tone_placement;
pub mod types;
pub mod validator;

pub use engine::Engine;
pub use types::{Config, EditAction, InputMethod, Keystroke, Tone, TonePlacementMode};
