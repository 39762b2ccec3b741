//! The draw node: which extracted scenes a frame renders, and with what
//! parameters.
//!
//! Each frame the caller resolves every scene's target to the GPU image that
//! backs it now, or to nothing. The plan renders each resolved scene at the
//! size of that live image, skips each unresolved one, and keeps the scenes'
//! order: the renderer runs the steps one at a time, in that order.
use vstd::prelude::*;

verus! {

/// A color with 8-bit channels.
#[derive(Clone, Copy, Debug, PartialEq, Eq, Structural)]
pub struct Rgba {
    pub r: u8,
    pub g: u8,
    pub b: u8,
    pub a: u8,
}

impl Rgba {
    /// The opaque aquamarine that scenes are rendered over.
    pub fn aquamarine() -> (r: Rgba)
        ensures
            r == (Rgba { r: 127, g: 255, b: 212, a: 255 }),
    {
        Rgba { r: 127, g: 255, b: 212, a: 255 }
    }
}

/// A target's image as the GPU holds it this frame: the identity of its
/// texture view and the texture's size.
#[derive(Clone, Copy, Debug, PartialEq, Eq, Structural)]
pub struct GpuImageInfo {
    pub view: u64,
    pub width: u32,
    pub height: u32,
}

/// What the renderer is asked to do for one scene: paint `base_color`, then the
/// scene, over a `width` by `height` texture.
#[derive(Clone, Copy, Debug, PartialEq, Eq, Structural)]
pub struct RenderParams {
    pub base_color: Rgba,
    pub width: u32,
    pub height: u32,
}

/// One step of a frame's draw plan, for the scene at index `scene`.
#[derive(Clone, Copy, Debug, PartialEq, Eq, Structural)]
pub enum DrawStep {
    /// Render the scene into texture view `view` with `params`.
    Render { scene: usize, view: u64, params: RenderParams },
    /// The scene's target has no live image: skip it this frame.
    SkipMissing { scene: usize },
}

/// Parameters read off a live image; the size is the texture's own.
pub open spec fn params_for(image: GpuImageInfo, base_color: Rgba) -> RenderParams {
    RenderParams { base_color, width: image.width, height: image.height }
}

/// The step for scene `i`, whose target resolved to `image`.
pub open spec fn step_for(i: int, image: Option<GpuImageInfo>, base_color: Rgba) -> DrawStep {
    match image {
        Some(img) => DrawStep::Render {
            scene: i as usize,
            view: img.view,
            params: params_for(img, base_color),
        },
        None => DrawStep::SkipMissing { scene: i as usize },
    }
}

/// `plan` is the draw plan of a frame whose scenes resolved to `images`.
pub open spec fn is_plan_of(plan: Seq<DrawStep>, images: Seq<Option<GpuImageInfo>>, base_color: Rgba) -> bool {
    &&& plan.len() == images.len()
    &&& forall|i: int| 0 <= i < plan.len() ==> plan[i] == step_for(i, images[i], base_color)
}

/// Why parameters were refused before a render call.
#[derive(Clone, Copy, Debug, PartialEq, Eq, Structural)]
pub enum RenderParamError {
    /// The parameters' size is not the live texture's.
    DimensionMismatch { width: u32, height: u32, texture_width: u32, texture_height: u32 },
}

/// The render parameters for a live image.
pub fn render_params(image: &GpuImageInfo, base_color: Rgba) -> (r: RenderParams)
    ensures
        r == params_for(*image, base_color),
{
    RenderParams { base_color, width: image.width, height: image.height }
}

/// Accepts `params` for a render into `image` only where their size is the
/// live texture's size.
pub fn check_render_params(params: &RenderParams, image: &GpuImageInfo) -> (r: Result<
    (),
    RenderParamError,
>)
    ensures
        r is Ok <==> (params.width == image.width && params.height == image.height),
        r is Err ==> r == Err::<(), RenderParamError>(
            RenderParamError::DimensionMismatch {
                width: params.width,
                height: params.height,
                texture_width: image.width,
                texture_height: image.height,
            },
        ),
{
    if params.width == image.width && params.height == image.height {
        Ok(())
    } else {
        Err(
            RenderParamError::DimensionMismatch {
                width: params.width,
                height: params.height,
                texture_width: image.width,
                texture_height: image.height,
            },
        )
    }
}

/// The draw plan of one frame: for each scene, in order, a render at the size
/// of the image its target resolved to, or a skip where it resolved to none.
pub fn plan_draws(images: &Vec<Option<GpuImageInfo>>, base_color: Rgba) -> (r: Vec<DrawStep>)
    ensures
        is_plan_of(r@, images@, base_color),
{
    let mut plan: Vec<DrawStep> = Vec::new();
    let mut i: usize = 0;
    while i < images.len()
        invariant
            0 <= i <= images.len(),
            plan.len() == i,
            forall|k: int| 0 <= k < i ==> plan[k] == step_for(k, images[k], base_color),
        decreases images.len() - i,
    {
        let step = match images[i] {
            Some(img) => DrawStep::Render {
                scene: i,
                view: img.view,
                params: render_params(&img, base_color),
            },
            None => DrawStep::SkipMissing { scene: i },
        };
        plan.push(step);
        i = i + 1;
    }
    plan
}

/// After a target is resized or reallocated, the next frame renders it at the
/// size of its live image, whatever size earlier frames used.
pub proof fn render_size_is_live_size(
    images: Seq<Option<GpuImageInfo>>,
    base_color: Rgba,
    plan: Seq<DrawStep>,
    i: int,
)
    requires
        is_plan_of(plan, images, base_color),
        0 <= i < images.len(),
        images[i] is Some,
    ensures
        plan[i] matches DrawStep::Render { params, view, .. } && params.width
            == images[i]->Some_0.width && params.height == images[i]->Some_0.height && view
            == images[i]->Some_0.view,
{
}

/// A scene whose target does not resolve is skipped, and every other scene is
/// planned as if it were not there: rendered where its target resolves.
pub proof fn missing_target_skips_only_its_scene(
    images: Seq<Option<GpuImageInfo>>,
    base_color: Rgba,
    plan: Seq<DrawStep>,
    k: int,
)
    requires
        is_plan_of(plan, images, base_color),
        0 <= k < images.len(),
        images[k] is None,
    ensures
        plan[k] == (DrawStep::SkipMissing { scene: k as usize }),
        forall|j: int|
            0 <= j < images.len() && j != k && images[j] is Some ==> plan[j] is Render,
{
}

/// The scene that a step is for.
pub open spec fn step_scene(step: DrawStep) -> usize {
    match step {
        DrawStep::Render { scene, .. } => scene,
        DrawStep::SkipMissing { scene } => scene,
    }
}

/// A frame's draw plan is one total order of the scenes: step `i` is for scene
/// `i`, so each scene is drawn at most once and scenes that share a target are
/// drawn one after the other, in extraction order.
pub proof fn plan_is_one_total_order(
    images: Seq<Option<GpuImageInfo>>,
    base_color: Rgba,
    plan: Seq<DrawStep>,
)
    requires
        is_plan_of(plan, images, base_color),
        images.len() <= usize::MAX,
    ensures
        forall|i: int| 0 <= i < plan.len() ==> step_scene(plan[i]) == i,
{
}

} // verus!
