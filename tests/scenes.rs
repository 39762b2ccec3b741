use vello::kurbo::{Affine, Point, Rect};
use vello::peniko::{Color, Fill, Gradient};
use vevy_bello::fragment::VelloFragment;
use vevy_bello::scene::{extract_scenes, EntityComponents, VelloScene, VelloSceneCreationQuery};
use vevy_bello::target::{latest_resize, ImageHandle, TargetSize, VelloTarget};

const COLOR_TAG: u32 = 0x44;
const LINEAR_GRADIENT_TAG: u32 = 0x114;

fn tags(scene: &vello::Scene) -> Vec<u32> {
    scene.encoding().draw_tags.iter().map(|t| t.0).collect()
}

fn counts(scene: &vello::Scene) -> (u32, u32, u32, u32) {
    let e = scene.encoding();
    (e.n_paths, e.n_path_segments, e.n_clips, e.n_open_clips)
}

fn target(index: u32) -> VelloTarget {
    VelloTarget::new(
        ImageHandle::Index { generation: 0, index },
        Some(TargetSize { width: 512, height: 512 }),
    )
}

fn solid_square(fragment: &mut VelloFragment) {
    let builder = fragment.scene_builder();
    builder.fill(
        Fill::NonZero,
        Affine::IDENTITY,
        Color::RED,
        None,
        &Rect::from_origin_size(Point::new(0.0, 0.0), (100.0, 100.0)),
    );
}

fn gradient() -> Gradient {
    Gradient::new_linear((0.0, 0.0), (0.0, 200.0)).with_stops([Color::RED, Color::GREEN, Color::BLUE])
}

fn gradient_square(fragment: &mut VelloFragment) {
    let builder = fragment.scene_builder();
    builder.fill(
        Fill::NonZero,
        Affine::IDENTITY,
        &gradient(),
        None,
        &Rect::from_origin_size(Point::new(0.0, 0.0), (300.0, 300.0)),
    );
}

#[test]
fn empty_fragment_extracts_to_empty_scene() {
    let fragment = VelloFragment::default();
    let scene = VelloScene::from_fragment(&fragment, target(1));
    assert!(tags(&scene.scene).is_empty());
    assert_eq!(counts(&scene.scene), (0, 0, 0, 0));
    assert!(scene.scene.encoding().is_empty());
    assert_eq!(scene.target, target(1));
}

#[test]
fn extraction_keeps_the_fragments_draws() {
    let mut fragment = VelloFragment::new();
    solid_square(&mut fragment);
    let scene = VelloScene::from_fragment(&fragment, target(2));
    assert_eq!(tags(&scene.scene), vec![COLOR_TAG]);
    assert_eq!(counts(&scene.scene), counts(&fragment.scene_fragment));
    assert_eq!(counts(&scene.scene).0, 1);
    assert_eq!(scene.target, target(2));
}

#[test]
fn scene_builder_clears_previous_commands() {
    let mut fragment = VelloFragment::new();
    solid_square(&mut fragment);
    assert_eq!(tags(&fragment.scene_fragment).len(), 1);
    fragment.transform = Some(Affine::translate((5.0, 5.0)));
    let builder = fragment.scene_builder();
    assert!(tags(builder).is_empty());
    assert!(tags(&fragment.scene_fragment).is_empty());
    assert_eq!(counts(&fragment.scene_fragment), (0, 0, 0, 0));
    assert_eq!(fragment.transform, Some(Affine::translate((5.0, 5.0))));
}

#[test]
fn composition_paints_later_fragments_on_top() {
    let mut a = VelloFragment::new();
    solid_square(&mut a);
    let mut b = VelloFragment::new();
    gradient_square(&mut b);
    let ab = VelloScene::compose(&vec![&a, &b], target(3)).unwrap();
    assert_eq!(tags(&ab.scene), vec![COLOR_TAG, LINEAR_GRADIENT_TAG]);
    let ba = VelloScene::compose(&vec![&b, &a], target(3)).unwrap();
    assert_eq!(tags(&ba.scene), vec![LINEAR_GRADIENT_TAG, COLOR_TAG]);
    let (pa, sa, _, _) = counts(&a.scene_fragment);
    let (pb, sb, _, _) = counts(&b.scene_fragment);
    assert_eq!(counts(&ab.scene), (pa + pb, sa + sb, 0, 0));
    assert_eq!(ab.target, target(3));
}

#[test]
fn composition_of_nothing_is_empty() {
    let ab = VelloScene::compose(&vec![], target(4)).unwrap();
    assert!(tags(&ab.scene).is_empty());
    assert_eq!(counts(&ab.scene), (0, 0, 0, 0));
}

#[test]
fn repeated_extraction_gives_the_same_encoding() {
    let mut fragment = VelloFragment::new();
    gradient_square(&mut fragment);
    fragment.transform = Some(Affine::rotate_about(0.5, (150.0, 150.0)));
    let first = VelloScene::from_fragment(&fragment, target(5));
    let second = VelloScene::from_fragment(&fragment, target(5));
    let (e1, e2) = (first.scene.encoding(), second.scene.encoding());
    assert_eq!(tags(&first.scene), tags(&second.scene));
    assert_eq!(e1.path_data, e2.path_data);
    assert_eq!(e1.draw_data, e2.draw_data);
    assert_eq!(e1.transforms, e2.transforms);
    assert_eq!(counts(&first.scene), counts(&second.scene));
    assert_eq!(first.target, second.target);
}

#[test]
fn rotated_gradient_square_scenario() {
    let theta = 30.0_f64.to_radians();
    let mut fragment = VelloFragment::new();
    gradient_square(&mut fragment);
    let placement = Affine::rotate_about(theta, (150.0, 150.0));
    fragment.transform = Some(placement);
    let scene = VelloScene::from_fragment(&fragment, target(6));
    assert_eq!(tags(&scene.scene), vec![LINEAR_GRADIENT_TAG]);
    assert_eq!(counts(&scene.scene).0, 1);
    let placed = scene.scene.encoding().transforms[0];
    let own = fragment.scene_fragment.encoding().transforms[0];
    let expected = placement * Affine::new([
        own.matrix[0] as f64,
        own.matrix[1] as f64,
        own.matrix[2] as f64,
        own.matrix[3] as f64,
        own.translation[0] as f64,
        own.translation[1] as f64,
    ]);
    let c = expected.as_coeffs();
    for k in 0..4 {
        assert!((placed.matrix[k] as f64 - c[k]).abs() < 1e-4);
    }
    assert!((placed.translation[0] as f64 - c[4]).abs() < 1e-3);
    assert!((placed.translation[1] as f64 - c[5]).abs() < 1e-3);
    assert_eq!(scene.target.size, Some(TargetSize { width: 512, height: 512 }));
}

#[test]
fn extract_component_pairs_fragment_and_target() {
    let mut fragment = VelloFragment::new();
    solid_square(&mut fragment);
    let t = target(7);
    let scene = VelloScene::extract_component(VelloSceneCreationQuery { fragment: &fragment, target: &t })
        .unwrap();
    assert_eq!(tags(&scene.scene), vec![COLOR_TAG]);
    assert_eq!(scene.target, t);
}

#[test]
fn extraction_skips_entities_missing_a_component() {
    let mut fragment = VelloFragment::new();
    solid_square(&mut fragment);
    let other = VelloFragment::new();
    let t1 = target(8);
    let t2 = target(9);
    let entities = vec![
        EntityComponents { fragment: Some(&fragment), target: Some(&t1) },
        EntityComponents { fragment: Some(&other), target: None },
        EntityComponents { fragment: None, target: Some(&t2) },
        EntityComponents { fragment: Some(&other), target: Some(&t2) },
    ];
    let scenes = extract_scenes(&entities);
    assert_eq!(scenes.len(), 4);
    let first = scenes[0].as_ref().unwrap();
    assert_eq!(tags(&first.scene), vec![COLOR_TAG]);
    assert_eq!(first.target, t1);
    assert!(scenes[1].is_none());
    assert!(scenes[2].is_none());
    let last = scenes[3].as_ref().unwrap();
    assert!(tags(&last.scene).is_empty());
    assert_eq!(last.target, t2);
}

#[test]
fn target_keeps_handle_and_size() {
    let handle = ImageHandle::Uuid(0x1234_5678_9abc_def0);
    let t = VelloTarget::new(handle, None);
    assert_eq!(t.clone_handle(), handle);
    assert_eq!(t.size, None);
    let resized = t.with_size(TargetSize { width: 800, height: 600 });
    assert_eq!(resized.handle, handle);
    assert_eq!(resized.size, Some(TargetSize { width: 800, height: 600 }));
}

#[test]
fn only_the_last_resize_applies() {
    assert_eq!(latest_resize(&vec![]), None);
    let events = vec![
        TargetSize { width: 640, height: 480 },
        TargetSize { width: 1024, height: 768 },
        TargetSize { width: 1280, height: 720 },
    ];
    assert_eq!(latest_resize(&events), Some(TargetSize { width: 1280, height: 720 }));
}
