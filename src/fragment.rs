//! Fragments: the drawing commands that simulation code writes each tick.
use vstd::prelude::*;
use crate::encoding::{is_empty_scene, new_scene, reset_scene};

verus! {

/// An appendable buffer of drawing commands, with the affine placement under
/// which it is stitched into a scene (the identity when there is none).
pub struct VelloFragment {
    pub scene_fragment: vello::Scene,
    pub transform: Option<vello::kurbo::Affine>,
}

impl VelloFragment {
    /// An empty fragment without placement.
    pub fn new() -> (r: VelloFragment)
        ensures
            is_empty_scene(r.scene_fragment),
            r.transform.is_none(),
    {
        VelloFragment { scene_fragment: new_scene(), transform: None }
    }

    /// Clears the fragment's commands and hands out its buffer for drawing.
    /// The placement is kept.
    pub fn scene_builder(&mut self) -> (r: &mut vello::Scene)
        ensures
            is_empty_scene(*r),
            final(self).scene_fragment == *final(r),
            final(self).transform == old(self).transform,
    {
        reset_scene(&mut self.scene_fragment);
        &mut self.scene_fragment
    }
}

impl Default for VelloFragment {
    fn default() -> (r: VelloFragment)
        ensures
            is_empty_scene(r.scene_fragment),
            r.transform.is_none(),
    {
        VelloFragment::new()
    }
}

} // verus!
