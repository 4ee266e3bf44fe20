use vstd::prelude::*;

verus! {

/// A width and a height, in pixels.
#[derive(Clone, Copy, Debug, PartialEq, Eq, Structural)]
pub struct CanvasSize {
    pub width: u32,
    pub height: u32,
}

/// A drawing surface: the size at which the host displays it, and the size
/// of the backing store into which pixels are drawn.
#[derive(Clone, Copy, Debug, PartialEq, Eq, Structural)]
pub struct Canvas {
    pub display: CanvasSize,
    pub backing: CanvasSize,
}

/// The backing store no longer matches what is displayed.
pub open spec fn needs_resize(c: Canvas) -> bool {
    c.backing != c.display
}

/// The canvas once its backing store has been made to match the displayed
/// size; the content is not scaled.
pub open spec fn corrected(c: Canvas) -> Canvas {
    Canvas { display: c.display, backing: c.display }
}

/// The size that a backing store of size `backing` must take to match the
/// displayed size `display`, or `None` when it already matches.
pub open spec fn backing_target(display: CanvasSize, backing: CanvasSize) -> Option<CanvasSize> {
    if backing == display {
        None
    } else {
        Some(display)
    }
}

/// Decides whether the backing store must be resized, and to what size.
pub fn resize_target(display: CanvasSize, backing: CanvasSize) -> (r: Option<CanvasSize>)
    ensures
        r == backing_target(display, backing),
{
    if backing.width != display.width || backing.height != display.height {
        Some(display)
    } else {
        None
    }
}

impl Canvas {
    pub fn new(display: CanvasSize, backing: CanvasSize) -> (r: Canvas)
        ensures
            r.display == display,
            r.backing == backing,
    {
        Canvas { display, backing }
    }

    /// Makes the backing store match the displayed size. Returns whether the
    /// backing store had to change.
    pub fn correct_backing_size(&mut self) -> (changed: bool)
        ensures
            changed == needs_resize(*old(self)),
            *final(self) == corrected(*old(self)),
    {
        match resize_target(self.display, self.backing) {
            Some(size) => {
                self.backing = size;
                true
            },
            None => false,
        }
    }
}

/// Correcting the backing store twice with no change of the displayed size
/// in between: the second correction finds nothing to change and leaves the
/// canvas as it is.
pub proof fn lemma_resize_idempotent(c: Canvas)
    ensures
        !needs_resize(corrected(c)),
        corrected(corrected(c)) == corrected(c),
        backing_target(corrected(c).display, corrected(c).backing) is None,
{
}

} // verus!
