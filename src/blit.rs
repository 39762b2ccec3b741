//! The blit node: compositing rendered targets onto a view's output texture.
//!
//! Each view blits through a pipeline specialised by its output format, its
//! camera's blend state and a sample count of one. Each target is read through a
//! bind group built for the identity of its texture view; a bind group is reused
//! only for that same identity, so a reallocated target gets a new one.
use vstd::prelude::*;
use std::collections::HashMap;

verus! {

broadcast use vstd::std_specs::hash::group_hash_axioms;

/// `wgpu::TextureFormat`, a view's output format, carried into pipeline keys.
#[verifier::external_type_specification]
#[verifier::external_body]
pub struct ExTextureFormat(wgpu::TextureFormat);

/// `wgpu::BlendState`, a camera's blending, carried into pipeline keys.
#[verifier::external_type_specification]
#[verifier::external_body]
pub struct ExBlendState(wgpu::BlendState);

/// How a camera writes to its output.
#[derive(Clone, Copy)]
pub enum CameraOutputMode {
    /// Write, blending with `blend_state` where there is one.
    Write { blend_state: Option<wgpu::BlendState> },
    /// Leave the output untouched.
    Skip,
}

/// What the blit node needs to know of a view: the format of its output
/// texture, and its camera's output mode where the view has a camera.
#[derive(Clone, Copy)]
pub struct ViewOutput {
    pub out_texture_format: wgpu::TextureFormat,
    pub camera: Option<CameraOutputMode>,
}

/// The key under which a blit pipeline is specialised.
#[derive(Clone, Copy)]
pub struct BlitPipelineKey {
    pub texture_format: wgpu::TextureFormat,
    pub blend_state: Option<wgpu::BlendState>,
    pub samples: u32,
}

/// The pipeline that a view blits with, as the pipeline cache identifies it.
#[derive(Clone, Copy, Debug, PartialEq, Eq, Structural)]
pub struct BlitOutPipeline {
    pub cached_id: usize,
}

/// The blend state of a view: its camera's, where the camera writes with one.
pub open spec fn blend_of(camera: Option<CameraOutputMode>) -> Option<wgpu::BlendState> {
    match camera {
        Some(CameraOutputMode::Write { blend_state }) => blend_state,
        _ => None,
    }
}

/// The key of the pipeline that `view` blits with.
pub open spec fn key_for(view: ViewOutput) -> BlitPipelineKey {
    BlitPipelineKey {
        texture_format: view.out_texture_format,
        blend_state: blend_of(view.camera),
        samples: 1,
    }
}

/// The key of the pipeline that `view` blits with.
pub fn blit_pipeline_key(view: &ViewOutput) -> (r: BlitPipelineKey)
    ensures
        r == key_for(*view),
{
    let blend_state = match view.camera {
        Some(CameraOutputMode::Write { blend_state }) => blend_state,
        _ => None,
    };
    BlitPipelineKey { texture_format: view.out_texture_format, blend_state, samples: 1 }
}

/// The pipeline keys of `views`, one for each, in order.
pub fn queue_blit_out_pipelines(views: &Vec<ViewOutput>) -> (r: Vec<BlitPipelineKey>)
    ensures
        r.len() == views.len(),
        forall|i: int| 0 <= i < r.len() ==> r[i] == key_for(views[i]),
{
    let mut keys: Vec<BlitPipelineKey> = Vec::new();
    let mut i: usize = 0;
    while i < views.len()
        invariant
            0 <= i <= views.len(),
            keys.len() == i,
            forall|k: int| 0 <= k < i ==> keys[k] == key_for(views[k]),
        decreases views.len() - i,
    {
        keys.push(blit_pipeline_key(&views[i]));
        i = i + 1;
    }
    keys
}

/// Bind groups, each under the identity of the texture view it was built for.
pub struct BindGroupCache<G> {
    groups: HashMap<u64, G>,
}

impl<G> View for BindGroupCache<G> {
    type V = Map<u64, G>;

    closed spec fn view(&self) -> Map<u64, G> {
        self.groups@
    }
}

impl<G> BindGroupCache<G> {
    pub fn new() -> (r: BindGroupCache<G>)
        ensures
            r@ == Map::<u64, G>::empty(),
    {
        BindGroupCache { groups: HashMap::new() }
    }

    /// The bind group built for texture view `view`, if there is one.
    pub fn get(&self, view: u64) -> (r: Option<&G>)
        ensures
            match r {
                Some(g) => self@.contains_key(view) && *g == self@[view],
                None => !self@.contains_key(view),
            },
    {
        self.groups.get(&view)
    }

    /// Whether a bind group was built for texture view `view`.
    pub fn contains(&self, view: u64) -> (r: bool)
        ensures
            r == self@.contains_key(view),
    {
        self.groups.contains_key(&view)
    }

    /// Records `group` as built for texture view `view`.
    pub fn insert(&mut self, view: u64, group: G)
        ensures
            final(self)@ == old(self)@.insert(view, group),
    {
        self.groups.insert(view, group);
    }
}

/// One step of a view's blit plan, for the scene at index `scene`.
#[derive(Clone, Copy, Debug, PartialEq, Eq, Structural)]
pub enum BlitStep {
    /// The scene's target has no live texture view: skip it.
    SkipMissing { scene: usize },
    /// Build a bind group for texture view `view`, record it, and blit.
    Build { scene: usize, view: u64 },
    /// Blit with the bind group already built for texture view `view`.
    Reuse { scene: usize, view: u64 },
}

/// Whether one of the first `i` scenes resolved to texture view `v`.
pub open spec fn seen_before(views: Seq<Option<u64>>, i: int, v: u64) -> bool {
    exists|j: int| 0 <= j < i && views[j] == Some(v)
}

/// The blit step for scene `i`, given the texture views that the scenes
/// resolved to and the bind groups built before this view's pass.
pub open spec fn blit_step_for<G>(views: Seq<Option<u64>>, i: int, cache: Map<u64, G>) -> BlitStep {
    match views[i] {
        None => BlitStep::SkipMissing { scene: i as usize },
        Some(v) => if cache.contains_key(v) || seen_before(views, i, v) {
            BlitStep::Reuse { scene: i as usize, view: v }
        } else {
            BlitStep::Build { scene: i as usize, view: v }
        },
    }
}

/// `plan` is the blit plan of a view: empty while its pipeline is not ready,
/// else one step for each scene, in order.
pub open spec fn is_blit_plan_of<G>(
    plan: Seq<BlitStep>,
    pipeline_ready: bool,
    views: Seq<Option<u64>>,
    cache: Map<u64, G>,
) -> bool {
    if pipeline_ready {
        &&& plan.len() == views.len()
        &&& forall|i: int| 0 <= i < plan.len() ==> plan[i] == blit_step_for(views, i, cache)
    } else {
        plan.len() == 0
    }
}

/// The blit plan of one view. `views` holds, for each scene, the texture view
/// its target resolved to, if any; `cache` the bind groups built so far.
pub fn plan_blits<G>(pipeline_ready: bool, views: &Vec<Option<u64>>, cache: &BindGroupCache<G>) -> (r: Vec<BlitStep>)
    ensures
        is_blit_plan_of(r@, pipeline_ready, views@, cache@),
{
    let mut plan: Vec<BlitStep> = Vec::new();
    if !pipeline_ready {
        return plan;
    }
    let mut i: usize = 0;
    while i < views.len()
        invariant
            0 <= i <= views.len(),
            plan.len() == i,
            forall|k: int| 0 <= k < i ==> plan[k] == blit_step_for(views@, k, cache@),
        decreases views.len() - i,
    {
        let step = match views[i] {
            None => BlitStep::SkipMissing { scene: i },
            Some(v) => {
                let mut seen = false;
                let mut j: usize = 0;
                while j < i
                    invariant
                        0 <= j <= i < views.len(),
                        seen <==> exists|m: int| 0 <= m < j && views@[m] == Some(v),
                    decreases i - j,
                {
                    if let Some(w) = views[j] {
                        if w == v {
                            seen = true;
                        }
                    }
                    j = j + 1;
                }
                if cache.contains(v) || seen {
                    BlitStep::Reuse { scene: i, view: v }
                } else {
                    BlitStep::Build { scene: i, view: v }
                }
            },
        };
        plan.push(step);
        i = i + 1;
    }
    plan
}

/// A bind group built for texture view `x` is not reused once the target has
/// been reallocated to view `y`: the plan builds a new one, whatever the size.
pub proof fn reallocated_target_gets_new_bind_group<G>(x: u64, y: u64, group: G, plan: Seq<BlitStep>)
    requires
        x != y,
        is_blit_plan_of(plan, true, seq![Some(y)], Map::<u64, G>::empty().insert(x, group)),
    ensures
        plan == seq![BlitStep::Build { scene: 0, view: y }],
{
    let views = seq![Some(y)];
    assert(!seen_before(views, 0, y));
    assert(plan =~= seq![BlitStep::Build { scene: 0, view: y }]);
}

} // verus!
