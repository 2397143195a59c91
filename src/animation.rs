use vstd::prelude::*;

verus! {

/// Specifies how a progress bar's node follows its progress.
#[derive(Debug, Clone, Copy, PartialEq, Eq, Structural)]
pub enum ProgressBarAnimation {
    /// The width of the node is set to the progress, as a percentage,
    /// whenever the progress changes.
    ResizeWidth,
    /// The height of the node is set to the progress, as a percentage,
    /// whenever the progress changes.
    ResizeHeight,
    /// Both the width and the height of the node are set to the progress,
    /// as a percentage, whenever the progress changes.
    ResizeBothDimensions,
    /// The node's size is left alone when the progress changes; its owner
    /// animates the bar by a rule of its own.
    Custom,
}

impl ProgressBarAnimation {
    /// Whether this policy writes the node's width.
    pub open spec fn resizes_width(self) -> bool {
        match self {
            ProgressBarAnimation::ResizeWidth => true,
            ProgressBarAnimation::ResizeHeight => false,
            ProgressBarAnimation::ResizeBothDimensions => true,
            ProgressBarAnimation::Custom => false,
        }
    }

    /// Whether this policy writes the node's height.
    pub open spec fn resizes_height(self) -> bool {
        match self {
            ProgressBarAnimation::ResizeWidth => false,
            ProgressBarAnimation::ResizeHeight => true,
            ProgressBarAnimation::ResizeBothDimensions => true,
            ProgressBarAnimation::Custom => false,
        }
    }

    /// The dimensions that this policy writes, as `(width, height)`.
    pub fn resized_dimensions(&self) -> (r: (bool, bool))
        ensures
            r == (self.resizes_width(), self.resizes_height()),
    {
        match self {
            ProgressBarAnimation::ResizeWidth => (true, false),
            ProgressBarAnimation::ResizeHeight => (false, true),
            ProgressBarAnimation::ResizeBothDimensions => (true, true),
            ProgressBarAnimation::Custom => (false, false),
        }
    }
}

impl Default for ProgressBarAnimation {
    /// A bar grows in width by default.
    fn default() -> (r: Self)
        ensures
            r == ProgressBarAnimation::ResizeWidth,
    {
        ProgressBarAnimation::ResizeWidth
    }
}

} // verus!
