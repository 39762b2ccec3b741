//! Targets: the images that scenes are rendered into.
use vstd::prelude::*;

verus! {

/// Identity of an image asset: a slot in the asset storage with its
/// generation, or a fixed UUID.
#[derive(Clone, Copy, Debug, PartialEq, Eq, Structural)]
pub enum ImageHandle {
    Index { generation: u32, index: u32 },
    Uuid(u128),
}

/// A logical size in pixels.
#[derive(Clone, Copy, Debug, PartialEq, Eq, Structural)]
pub struct TargetSize {
    pub width: u32,
    pub height: u32,
}

/// A non-owning reference to the image that a scene is drawn into, with the
/// logical size it was set up with, if any.
///
/// The image itself belongs to the asset system and may be reallocated at any
/// time; the stored size is informational and never used to render.
#[derive(Clone, Copy, Debug, PartialEq, Eq, Structural)]
pub struct VelloTarget {
    pub handle: ImageHandle,
    pub size: Option<TargetSize>,
}

impl VelloTarget {
    pub fn new(image: ImageHandle, size: Option<TargetSize>) -> (r: VelloTarget)
        ensures
            r.handle == image,
            r.size == size,
    {
        VelloTarget { handle: image, size }
    }

    pub fn clone_handle(&self) -> (r: ImageHandle)
        ensures
            r == self.handle,
    {
        self.handle
    }

    /// The same target with `size` as its stored logical size.
    pub fn with_size(self, size: TargetSize) -> (r: VelloTarget)
        ensures
            r.handle == self.handle,
            r.size == Some(size),
    {
        VelloTarget { handle: self.handle, size: Some(size) }
    }
}

/// The size that a frame's resize events leave: the last one's, if any.
pub fn latest_resize(events: &Vec<TargetSize>) -> (r: Option<TargetSize>)
    ensures
        events.len() == 0 ==> r is None,
        events.len() > 0 ==> r == Some(events@.last()),
{
    let mut latest: Option<TargetSize> = None;
    let mut i: usize = 0;
    while i < events.len()
        invariant
            0 <= i <= events.len(),
            i == 0 ==> latest is None,
            i > 0 ==> latest == Some(events@[i - 1]),
        decreases events.len() - i,
    {
        latest = Some(events[i]);
        i = i + 1;
    }
    latest
}

} // verus!
