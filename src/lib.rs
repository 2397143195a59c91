//! The animation policy of a progress bar and the rule that resizes a bar's
//! node whenever its progress changes.

pub mod animation;
pub mod system;

pub use animation::ProgressBarAnimation;
pub use system::{progress_bar_animation_system, ProgressBarNode, Size};
