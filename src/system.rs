use vstd::prelude::*;

use crate::animation::ProgressBarAnimation;

verus! {

/// The width and height of a node, in whatever length type the layout uses.
#[derive(Debug, Clone, Copy, PartialEq, Eq)]
pub struct Size<L> {
    pub width: L,
    pub height: L,
}

impl<L: Copy> Size<L> {
    /// The size after `animation` has applied the length `percent`: each
    /// dimension that the policy selects becomes `percent`, the others stay.
    pub open spec fn resized(self, animation: ProgressBarAnimation, percent: L) -> Size<L> {
        Size {
            width: if animation.resizes_width() { percent } else { self.width },
            height: if animation.resizes_height() { percent } else { self.height },
        }
    }

    /// Writes `percent` into each dimension that `animation` selects.
    pub fn apply_progress(&mut self, animation: ProgressBarAnimation, percent: L)
        ensures
            *final(self) == old(self).resized(animation, percent),
    {
        let (resize_width, resize_height) = animation.resized_dimensions();
        if resize_width {
            self.width = percent;
        }
        if resize_height {
            self.height = percent;
        }
    }
}

/// What the updater sees of one progress bar in one pass: the length that its
/// progress stands for (a percentage of the parent), its animation policy, its
/// current size, and whether its progress changed since the previous pass.
#[derive(Debug, Clone, Copy, PartialEq, Eq)]
pub struct ProgressBarNode<L> {
    pub percent: L,
    pub animation: ProgressBarAnimation,
    pub size: Size<L>,
    pub progress_changed: bool,
}

impl<L: Copy> ProgressBarNode<L> {
    /// The node after one pass of the updater: resized if its progress
    /// changed, untouched otherwise.
    pub open spec fn updated(self) -> ProgressBarNode<L> {
        if self.progress_changed {
            ProgressBarNode { size: self.size.resized(self.animation, self.percent), ..self }
        } else {
            self
        }
    }
}

/// The update is idempotent: a second pass over a bar with the same
/// progress leaves it as the first pass did.
pub proof fn lemma_update_idempotent<L: Copy>(node: ProgressBarNode<L>)
    ensures
        node.updated().updated() == node.updated(),
{
}

/// Resizes every bar whose progress changed since the previous pass, as its
/// animation policy says; bars whose progress did not change are left alone.
pub fn progress_bar_animation_system<L: Copy>(bars: &mut Vec<ProgressBarNode<L>>)
    ensures
        final(bars)@.len() == old(bars)@.len(),
        forall|i: int|
            0 <= i < old(bars)@.len() ==> #[trigger] final(bars)@[i] == old(bars)@[i].updated(),
        forall|i: int|
            0 <= i < old(bars)@.len() && !old(bars)@[i].progress_changed
                ==> #[trigger] final(bars)@[i].size == old(bars)@[i].size,
{
    let n = bars.len();
    let mut i: usize = 0;
    while i < n
        invariant
            n == old(bars)@.len(),
            bars@.len() == n,
            i <= n,
            forall|j: int| 0 <= j < i ==> #[trigger] bars@[j] == old(bars)@[j].updated(),
            forall|j: int| i <= j < n ==> #[trigger] bars@[j] == old(bars)@[j],
        decreases n - i,
    {
        let mut node = bars[i];
        if node.progress_changed {
            node.size.apply_progress(node.animation, node.percent);
            bars.set(i, node);
        }
        i = i + 1;
    }
}

} // verus!
