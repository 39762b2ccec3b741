//! Scenes: the render-world composition of fragments, paired with a target.
use vstd::prelude::*;
use crate::encoding::{
    add_counts, append_scene, counts_fit, counts_of, is_empty_scene, new_scene, scene_counts,
    scene_draws, zero_counts,
};
use crate::fragment::VelloFragment;
use crate::target::VelloTarget;

verus! {

/// A scene extracted for one frame: the encoding of its fragments and the
/// target it is rendered into.
pub struct VelloScene {
    pub scene: vello::Scene,
    pub target: VelloTarget,
}

/// The components of one entity that extraction reads.
pub struct VelloSceneCreationQuery<'a> {
    pub fragment: &'a VelloFragment,
    pub target: &'a VelloTarget,
}

/// One entity as the extraction step sees it: either component may be missing.
pub struct EntityComponents<'a> {
    pub fragment: Option<&'a VelloFragment>,
    pub target: Option<&'a VelloTarget>,
}

/// Counters of an encoding as mathematical integers.
pub open spec fn counts_int(c: (u32, u32, u32, u32)) -> (int, int, int, int) {
    (c.0 as int, c.1 as int, c.2 as int, c.3 as int)
}

/// The draw objects of `fs`, one fragment after the other.
pub open spec fn fragments_draws(fs: Seq<&VelloFragment>) -> Seq<u32>
    decreases fs.len(),
{
    if fs.len() == 0 {
        Seq::empty()
    } else {
        fragments_draws(fs.drop_last()) + scene_draws(fs.last().scene_fragment)
    }
}

/// The counters of `fs`, summed.
pub open spec fn fragments_counts(fs: Seq<&VelloFragment>) -> (int, int, int, int)
    decreases fs.len(),
{
    if fs.len() == 0 {
        (0, 0, 0, 0)
    } else {
        let a = fragments_counts(fs.drop_last());
        let b = counts_int(scene_counts(fs.last().scene_fragment));
        (a.0 + b.0, a.1 + b.1, a.2 + b.2, a.3 + b.3)
    }
}

/// Whether every summed counter of `fs` fits in a `u32`.
pub open spec fn fragments_fit(fs: Seq<&VelloFragment>) -> bool {
    let t = fragments_counts(fs);
    t.0 <= u32::MAX && t.1 <= u32::MAX && t.2 <= u32::MAX && t.3 <= u32::MAX
}

/// `s` is what extracting fragment `f` with target `t` gives: the fragment's
/// draw objects in their order, its counters, and the target.
pub open spec fn is_extraction_of(s: VelloScene, f: VelloFragment, t: VelloTarget) -> bool {
    &&& scene_draws(s.scene) == scene_draws(f.scene_fragment)
    &&& scene_counts(s.scene) == scene_counts(f.scene_fragment)
    &&& s.target == t
}

/// `s` is the composition of `fs`, in that order, for target `t`.
pub open spec fn is_composition_of(s: VelloScene, fs: Seq<&VelloFragment>, t: VelloTarget) -> bool {
    &&& scene_draws(s.scene) == fragments_draws(fs)
    &&& counts_int(scene_counts(s.scene)) == fragments_counts(fs)
    &&& s.target == t
}

proof fn lemma_counts_grow(fs: Seq<&VelloFragment>, i: int)
    requires
        0 <= i <= fs.len(),
    ensures
        ({
            let a = fragments_counts(fs.take(i));
            let b = fragments_counts(fs);
            a.0 <= b.0 && a.1 <= b.1 && a.2 <= b.2 && a.3 <= b.3
        }),
    decreases fs.len(),
{
    if i < fs.len() {
        assert(fs.drop_last().take(i) =~= fs.take(i));
        lemma_counts_grow(fs.drop_last(), i);
    } else {
        assert(fs.take(i) =~= fs);
    }
}

impl VelloScene {
    /// A scene holding exactly `fragment`, stitched under its placement into an
    /// empty encoding, for `target`.
    pub fn from_fragment(fragment: &VelloFragment, target: VelloTarget) -> (r: VelloScene)
        ensures
            is_extraction_of(r, *fragment, target),
    {
        let mut scene = new_scene();
        append_scene(&mut scene, &fragment.scene_fragment, fragment.transform);
        assert(Seq::<u32>::empty() + scene_draws(fragment.scene_fragment) =~= scene_draws(
            fragment.scene_fragment,
        ));
        VelloScene { scene, target }
    }

    /// The scene of one entity that carries both a fragment and a target.
    pub fn extract_component(query: VelloSceneCreationQuery) -> (r: Option<VelloScene>)
        ensures
            r is Some,
            is_extraction_of(r->Some_0, *query.fragment, *query.target),
    {
        Some(VelloScene::from_fragment(query.fragment, *query.target))
    }

    /// The `fragments`, appended in order into one empty encoding under their
    /// placements, for `target`. `None` where their counters together would not
    /// fit the encoding's `u32` counters.
    pub fn compose(fragments: &Vec<&VelloFragment>, target: VelloTarget) -> (r: Option<VelloScene>)
        ensures
            r is Some <==> fragments_fit(fragments@),
            r is Some ==> is_composition_of(r->Some_0, fragments@, target),
    {
        let mut scene = new_scene();
        let mut i: usize = 0;
        assert(fragments@.take(0) =~= Seq::<&VelloFragment>::empty());
        while i < fragments.len()
            invariant
                0 <= i <= fragments.len(),
                scene_draws(scene) == fragments_draws(fragments@.take(i as int)),
                counts_int(scene_counts(scene)) == fragments_counts(fragments@.take(i as int)),
            decreases fragments.len() - i,
        {
            let f = fragments[i];
            let have = counts_of(&scene);
            let add = counts_of(&f.scene_fragment);
            let ghost next = fragments@.take(i as int + 1);
            assert(next.drop_last() =~= fragments@.take(i as int));
            assert(next.last() == f);
            if have.0 as u64 + add.0 as u64 > u32::MAX as u64 || have.1 as u64 + add.1 as u64
                > u32::MAX as u64 || have.2 as u64 + add.2 as u64 > u32::MAX as u64 || have.3 as u64
                + add.3 as u64 > u32::MAX as u64 {
                proof {
                    lemma_counts_grow(fragments@, i as int + 1);
                }
                return None;
            }
            append_scene(&mut scene, &f.scene_fragment, f.transform);
            i = i + 1;
        }
        assert(fragments@.take(i as int) =~= fragments@);
        Some(VelloScene { scene, target })
    }
}

/// The extraction step: for each entity, in order, its scene where it carries
/// both a fragment and a target, and `None` where it lacks either.
pub fn extract_scenes(entities: &Vec<EntityComponents>) -> (r: Vec<Option<VelloScene>>)
    ensures
        r.len() == entities.len(),
        forall|i: int|
            0 <= i < r.len() ==> (r[i] is Some <==> (entities[i].fragment is Some
                && entities[i].target is Some)),
        forall|i: int|
            0 <= i < r.len() && r[i] is Some ==> is_extraction_of(
                r[i]->Some_0,
                *entities[i].fragment->Some_0,
                *entities[i].target->Some_0,
            ),
{
    let mut out: Vec<Option<VelloScene>> = Vec::new();
    let mut i: usize = 0;
    while i < entities.len()
        invariant
            0 <= i <= entities.len(),
            out.len() == i,
            forall|k: int|
                0 <= k < i ==> (out[k] is Some <==> (entities[k].fragment is Some
                    && entities[k].target is Some)),
            forall|k: int|
                0 <= k < i && out[k] is Some ==> is_extraction_of(
                    out[k]->Some_0,
                    *entities[k].fragment->Some_0,
                    *entities[k].target->Some_0,
                ),
        decreases entities.len() - i,
    {
        let e = &entities[i];
        let item = match (e.fragment, e.target) {
            (Some(f), Some(t)) => Some(VelloScene::from_fragment(f, *t)),
            _ => None,
        };
        out.push(item);
        i = i + 1;
    }
    out
}

/// A fragment without drawing commands extracts to a scene without draw objects
/// and with zero counters: rendering it leaves only the base color.
pub proof fn empty_fragment_gives_empty_scene(s: VelloScene, f: VelloFragment, t: VelloTarget)
    requires
        is_empty_scene(f.scene_fragment),
        is_extraction_of(s, f, t),
    ensures
        is_empty_scene(s.scene),
        s.target == t,
{
}

/// Fragments `a` then `b` composed into one scene: every draw object of `b`
/// comes after every draw object of `a`, so `b` is painted over `a`.
pub proof fn later_fragment_paints_over(
    s: VelloScene,
    a: &VelloFragment,
    b: &VelloFragment,
    t: VelloTarget,
)
    requires
        is_composition_of(s, seq![a, b], t),
    ensures
        scene_draws(s.scene) == scene_draws(a.scene_fragment) + scene_draws(b.scene_fragment),
{
    let fs = seq![a, b];
    assert(fs.drop_last() =~= seq![a]);
    assert(fs.drop_last().drop_last() =~= Seq::<&VelloFragment>::empty());
    assert(fs.last() == b && fs.drop_last().last() == a);
    reveal_with_fuel(fragments_draws, 3);
    assert(Seq::<u32>::empty() + scene_draws(a.scene_fragment) =~= scene_draws(a.scene_fragment));
}

/// Extracting an unchanged fragment and target twice gives scenes with the same
/// draw objects, the same counters and the same target.
pub proof fn extraction_is_repeatable(
    f: VelloFragment,
    t: VelloTarget,
    s1: VelloScene,
    s2: VelloScene,
)
    requires
        is_extraction_of(s1, f, t),
        is_extraction_of(s2, f, t),
    ensures
        scene_draws(s1.scene) == scene_draws(s2.scene),
        scene_counts(s1.scene) == scene_counts(s2.scene),
        s1.target == s2.target,
{
}

/// Composing the same fragments for the same target twice gives scenes with the
/// same draw objects, the same counters and the same target.
pub proof fn composition_is_repeatable(
    fs: Seq<&VelloFragment>,
    t: VelloTarget,
    s1: VelloScene,
    s2: VelloScene,
)
    requires
        is_composition_of(s1, fs, t),
        is_composition_of(s2, fs, t),
    ensures
        scene_draws(s1.scene) == scene_draws(s2.scene),
        scene_counts(s1.scene) == scene_counts(s2.scene),
        s1.target == s2.target,
{
}

} // verus!
