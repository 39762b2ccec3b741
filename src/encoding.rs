//! The vector encoding of a `vello::Scene`, as far as this library reads it.
//!
//! A scene is an ordered stream of draw objects: later objects are painted over
//! earlier ones. Besides that stream the encoding keeps four `u32` counters
//! (paths, path segments, clips, open clips) which appending adds up.
use vstd::prelude::*;

verus! {

/// `vello::Scene`, held opaquely; what is read of it goes through the names below.
#[verifier::external_type_specification]
#[verifier::external_body]
pub struct ExScene(vello::Scene);

/// `kurbo::Affine`, a fragment's placement, only handed on to `Scene::append`.
#[verifier::external_type_specification]
#[verifier::external_body]
pub struct ExAffine(vello::kurbo::Affine);

/// The draw tags of a scene's encoding, in the order in which they are painted.
pub uninterp spec fn scene_draws(s: vello::Scene) -> Seq<u32>;

/// The counters of a scene's encoding: paths, path segments, clips, open clips.
pub uninterp spec fn scene_counts(s: vello::Scene) -> (u32, u32, u32, u32);

/// Counters of an empty encoding.
pub open spec fn zero_counts() -> (u32, u32, u32, u32) {
    (0u32, 0u32, 0u32, 0u32)
}

/// Whether two sets of counters can be added without leaving `u32`.
pub open spec fn counts_fit(a: (u32, u32, u32, u32), b: (u32, u32, u32, u32)) -> bool {
    &&& a.0 + b.0 <= u32::MAX
    &&& a.1 + b.1 <= u32::MAX
    &&& a.2 + b.2 <= u32::MAX
    &&& a.3 + b.3 <= u32::MAX
}

/// The counters `a` and `b` added field by field.
pub open spec fn add_counts(a: (u32, u32, u32, u32), b: (u32, u32, u32, u32)) -> (
    u32,
    u32,
    u32,
    u32,
)
    recommends
        counts_fit(a, b),
{
    ((a.0 + b.0) as u32, (a.1 + b.1) as u32, (a.2 + b.2) as u32, (a.3 + b.3) as u32)
}

/// An empty scene has no draw objects and zero counters.
pub open spec fn is_empty_scene(s: vello::Scene) -> bool {
    scene_draws(s) == Seq::<u32>::empty() && scene_counts(s) == zero_counts()
}

/// Relies on `vello::Scene::new`, which is `Scene::default()`: an encoding whose
/// streams are empty and whose counters are zero.
#[verifier::external_body]
pub(crate) fn new_scene() -> (r: vello::Scene)
    ensures
        is_empty_scene(r),
{
    vello::Scene::new()
}

/// Relies on `vello::Scene::reset`, which clears every stream of the encoding
/// and sets its counters to zero.
#[verifier::external_body]
pub(crate) fn reset_scene(s: &mut vello::Scene)
    ensures
        is_empty_scene(*final(s)),
{
    s.reset()
}

/// Relies on `vello::Scene::append`, which extends each stream of `s` with the
/// one of `other` (transformed by `transform` where one is given) and adds the
/// counters with `+=`; the `requires` keeps that addition from overflowing.
#[verifier::external_body]
pub(crate) fn append_scene(
    s: &mut vello::Scene,
    other: &vello::Scene,
    transform: Option<vello::kurbo::Affine>,
)
    requires
        counts_fit(scene_counts(*old(s)), scene_counts(*other)),
    ensures
        scene_draws(*final(s)) == scene_draws(*old(s)) + scene_draws(*other),
        scene_counts(*final(s)) == add_counts(scene_counts(*old(s)), scene_counts(*other)),
{
    s.append(other, transform)
}

/// Relies on `vello::Scene::encoding` and the public counter fields of
/// `vello_encoding::Encoding`: `n_paths`, `n_path_segments`, `n_clips`,
/// `n_open_clips`.
#[verifier::external_body]
pub(crate) fn counts_of(s: &vello::Scene) -> (r: (u32, u32, u32, u32))
    ensures
        r == scene_counts(*s),
{
    let e = s.encoding();
    (e.n_paths, e.n_path_segments, e.n_clips, e.n_open_clips)
}

} // verus!
