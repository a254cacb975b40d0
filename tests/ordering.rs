use camera_targets::entity::Entity;
use camera_targets::prepass::{
    get_bind_group_layout_entries, get_bindings, late_prepass_runs, prepass_color_attachments,
    prepass_runs, prepass_store_op, BindGroupLayoutEntryBuilder, MeshPipelineViewLayoutKey,
    MotionBlurPipelineKey, PrepassAttachment, StoreOp, TextureSampleType, ViewPrepassTextures,
    DEFERRED_PREPASS, DEPTH_PREPASS, MOTION_VECTOR_PREPASS, NORMAL_PREPASS,
};
use camera_targets::render_target::{TextureFormat, TextureView};
use camera_targets::sort::{sort_cameras, SortedCamera, SortedCameras};

fn cam(id: u64, order: isize) -> SortedCamera {
    SortedCamera { entity: Entity(id), order }
}

#[test]
fn tie_keeps_relative_order_and_is_ambiguous() {
    let mut sorted = SortedCameras(vec![]);
    let amb = sort_cameras(&mut sorted, &vec![cam(1, 0), cam(2, 0), cam(3, 1)]);
    assert_eq!(sorted.0, vec![cam(1, 0), cam(2, 0), cam(3, 1)]);
    assert_eq!(amb, vec![0]);
}

#[test]
fn sort_is_stable_and_lists_each_ambiguous_order_once() {
    let mut sorted = SortedCameras(vec![cam(99, 99)]);
    let input = vec![cam(1, 5), cam(2, -1), cam(3, 5), cam(4, 0), cam(5, 5), cam(6, -1)];
    let amb = sort_cameras(&mut sorted, &input);
    assert_eq!(sorted.0, vec![cam(2, -1), cam(6, -1), cam(4, 0), cam(1, 5), cam(3, 5), cam(5, 5)]);
    assert_eq!(amb, vec![-1, 5]);
}

#[test]
fn sort_of_nothing_is_empty() {
    let mut sorted = SortedCameras(vec![cam(1, 1)]);
    let amb = sort_cameras(&mut sorted, &vec![]);
    assert!(sorted.0.is_empty());
    assert!(amb.is_empty());
}

#[test]
fn layout_entries_follow_flags() {
    let float = Some(BindGroupLayoutEntryBuilder { sample_type: TextureSampleType::Float { filterable: false } });
    let uint = Some(BindGroupLayoutEntryBuilder { sample_type: TextureSampleType::Uint });
    let all = MeshPipelineViewLayoutKey(DEPTH_PREPASS | NORMAL_PREPASS | MOTION_VECTOR_PREPASS | DEFERRED_PREPASS);
    assert_eq!(get_bind_group_layout_entries(all), [float, float, float, uint]);
    assert_eq!(get_bind_group_layout_entries(MeshPipelineViewLayoutKey(NORMAL_PREPASS)), [None, float, None, None]);
    assert_eq!(get_bind_group_layout_entries(MeshPipelineViewLayoutKey(1)), [None, None, None, None]);
}

#[test]
fn bindings_from_prepass_textures() {
    let t = ViewPrepassTextures {
        depth: Some(TextureView(1)),
        normal: None,
        motion_vectors: Some(TextureView(3)),
        deferred: Some(TextureView(4)),
    };
    assert_eq!(get_bindings(Some(&t)), [Some(TextureView(1)), None, Some(TextureView(3)), Some(TextureView(4))]);
    assert_eq!(get_bindings(None), [None, None, None, None]);
}

#[test]
fn prepass_decisions() {
    assert_eq!(prepass_store_op(4), StoreOp::Discard);
    assert_eq!(prepass_store_op(1), StoreOp::Store);
    assert!(late_prepass_runs(true, false));
    assert!(!late_prepass_runs(true, true));
    assert!(!late_prepass_runs(false, false));
    assert!(prepass_runs(false, true, true, true, true));
    assert!(!prepass_runs(true, true, true, false, false));
    assert!(!prepass_runs(false, true, true, true, false));
    assert!(!prepass_runs(false, false, true, false, false));
    let none = ViewPrepassTextures { depth: Some(TextureView(1)), normal: None, motion_vectors: None, deferred: None };
    assert!(prepass_color_attachments(&none, StoreOp::Store).is_empty());
    let some = ViewPrepassTextures { depth: None, normal: Some(TextureView(2)), motion_vectors: None, deferred: None };
    assert_eq!(
        prepass_color_attachments(&some, StoreOp::Discard),
        vec![Some(PrepassAttachment { view: TextureView(2), store: StoreOp::Discard }), None, None, None]
    );
}

#[test]
fn motion_blur_format_follows_hdr() {
    assert_eq!(MotionBlurPipelineKey { hdr: true }.target_format(), TextureFormat::Rgba16Float);
    assert_eq!(MotionBlurPipelineKey { hdr: false }.target_format(), TextureFormat::Rgba8UnormSrgb);
}
