use camera_targets::entity::Entity;
use camera_targets::geometry::{ScaleFactor, UVec2};
use camera_targets::render_target::{
    ExtractedWindow, GpuImage, Image, ImageId, ImageRenderTarget, ManualTextureView,
    ManualTextureViewHandle, MissingRenderTargetInfoError, NormalizedRenderTarget, RenderTarget,
    TextureFormat, TextureView, WindowInfo, WindowRef,
};
use camera_targets::viewport::{rescale, Viewport};

fn sf(n: u32, d: u32) -> ScaleFactor {
    ScaleFactor::new(n, d).unwrap()
}

#[test]
fn scale_factor_rejects_zero() {
    assert!(ScaleFactor::new(0, 1).is_none());
    assert!(ScaleFactor::new(1, 0).is_none());
    let s = sf(3, 2);
    assert_eq!((s.num(), s.den()), (3, 2));
}

#[test]
fn normalize_resolves_primary_window() {
    let t = RenderTarget::Window(WindowRef::Primary);
    assert_eq!(t.normalize(None), None);
    assert_eq!(t.normalize(Some(Entity(5))), Some(NormalizedRenderTarget::Window(Entity(5))));
    let e = RenderTarget::Window(WindowRef::Entity(Entity(9)));
    assert_eq!(e.normalize(None), Some(NormalizedRenderTarget::Window(Entity(9))));
    let n = RenderTarget::Empty { size: UVec2 { x: 4, y: 5 } };
    assert_eq!(n.normalize(None), Some(NormalizedRenderTarget::Empty { width: 4, height: 5 }));
    let v = RenderTarget::TextureView(ManualTextureViewHandle(2));
    assert_eq!(v.normalize(None), Some(NormalizedRenderTarget::TextureView(ManualTextureViewHandle(2))));
}

fn registries() -> (Vec<WindowInfo>, Vec<Image>, Vec<ManualTextureView>) {
    let windows = vec![WindowInfo {
        entity: Entity(1),
        physical_size: UVec2 { x: 1920, y: 1080 },
        scale_factor: sf(2, 1),
    }];
    let images = vec![Image {
        id: ImageId(10),
        size: UVec2 { x: 256, y: 128 },
        format: TextureFormat::Rgba8UnormSrgb,
        usage: 0,
        sample_count: 1,
    }];
    let views = vec![ManualTextureView {
        handle: ManualTextureViewHandle(3),
        size: UVec2 { x: 64, y: 32 },
        texture_view: TextureView(30),
        view_format: TextureFormat::Rgba16Float,
    }];
    (windows, images, views)
}

#[test]
fn render_target_info_from_each_registry() {
    let (w, i, v) = registries();
    let info = NormalizedRenderTarget::Window(Entity(1)).get_render_target_info(&w, &i, &v).unwrap();
    assert_eq!(info.physical_size, UVec2 { x: 1920, y: 1080 });
    assert_eq!(info.scale_factor, sf(2, 1));
    let img = NormalizedRenderTarget::Image(ImageRenderTarget { handle: ImageId(10), scale_factor: sf(1, 2) });
    let info = img.get_render_target_info(&w, &i, &v).unwrap();
    assert_eq!(info.physical_size, UVec2 { x: 256, y: 128 });
    assert_eq!(info.scale_factor, sf(1, 2));
    let info = NormalizedRenderTarget::TextureView(ManualTextureViewHandle(3))
        .get_render_target_info(&w, &i, &v)
        .unwrap();
    assert_eq!(info.physical_size, UVec2 { x: 64, y: 32 });
    assert_eq!(info.scale_factor, ScaleFactor::one());
    let info = NormalizedRenderTarget::Empty { width: 7, height: 8 }
        .get_render_target_info(&w, &i, &v)
        .unwrap();
    assert_eq!(info.physical_size, UVec2 { x: 7, y: 8 });
}

#[test]
fn missing_render_target_info_names_the_registry() {
    let (w, i, v) = registries();
    assert_eq!(
        NormalizedRenderTarget::Window(Entity(2)).get_render_target_info(&w, &i, &v),
        Err(MissingRenderTargetInfoError::Window { window: Entity(2) })
    );
    let img = NormalizedRenderTarget::Image(ImageRenderTarget { handle: ImageId(11), scale_factor: ScaleFactor::one() });
    assert_eq!(
        img.get_render_target_info(&w, &i, &v),
        Err(MissingRenderTargetInfoError::Image { image: ImageId(11) })
    );
    assert_eq!(
        NormalizedRenderTarget::TextureView(ManualTextureViewHandle(4)).get_render_target_info(&w, &i, &v),
        Err(MissingRenderTargetInfoError::TextureView { texture_view: ManualTextureViewHandle(4) })
    );
}

#[test]
fn is_changed_by_kind() {
    let windows = vec![Entity(1)];
    let images = vec![ImageId(10)];
    assert!(NormalizedRenderTarget::Window(Entity(1)).is_changed(&windows, &images));
    assert!(!NormalizedRenderTarget::Window(Entity(2)).is_changed(&windows, &images));
    let img = |id| NormalizedRenderTarget::Image(ImageRenderTarget { handle: ImageId(id), scale_factor: ScaleFactor::one() });
    assert!(img(10).is_changed(&windows, &images));
    assert!(!img(11).is_changed(&windows, &images));
    assert!(NormalizedRenderTarget::TextureView(ManualTextureViewHandle(0)).is_changed(&vec![], &vec![]));
    assert!(!NormalizedRenderTarget::Empty { width: 1, height: 1 }.is_changed(&windows, &images));
}

#[test]
fn texture_views_and_formats() {
    let windows = vec![ExtractedWindow {
        entity: Entity(1),
        swap_chain_texture_view: Some(TextureView(100)),
        swap_chain_texture_view_format: Some(TextureFormat::Rgba8UnormSrgb),
    }];
    let images = vec![GpuImage { id: ImageId(10), texture_view: TextureView(110), view_format: TextureFormat::Rgba16Float }];
    let (_, _, views) = registries();
    let w = NormalizedRenderTarget::Window(Entity(1));
    assert_eq!(w.get_texture_view(&windows, &images, &views), Some(TextureView(100)));
    assert_eq!(w.get_texture_view_format(&windows, &images, &views), Some(TextureFormat::Rgba8UnormSrgb));
    let i = NormalizedRenderTarget::Image(ImageRenderTarget { handle: ImageId(10), scale_factor: ScaleFactor::one() });
    assert_eq!(i.get_texture_view(&windows, &images, &views), Some(TextureView(110)));
    assert_eq!(i.get_texture_view_format(&windows, &images, &views), Some(TextureFormat::Rgba16Float));
    let v = NormalizedRenderTarget::TextureView(ManualTextureViewHandle(3));
    assert_eq!(v.get_texture_view(&windows, &images, &views), Some(TextureView(30)));
    let e = NormalizedRenderTarget::Empty { width: 1, height: 1 };
    assert_eq!(e.get_texture_view(&windows, &images, &views), None);
    assert_eq!(NormalizedRenderTarget::Window(Entity(2)).get_texture_view_format(&windows, &images, &views), None);
}

#[test]
fn rescale_rounds_to_nearest() {
    assert_eq!(rescale(10, sf(1, 1), sf(2, 1)), 20);
    assert_eq!(rescale(3, sf(2, 1), sf(3, 1)), 5);
    assert_eq!(rescale(5, sf(2, 1), sf(1, 1)), 3);
    assert_eq!(rescale(4, sf(3, 1), sf(1, 1)), 1);
    assert_eq!(rescale(u32::MAX, sf(1, 1), sf(2, 1)), u32::MAX);
    assert_eq!(rescale(7, sf(5, 4), sf(5, 4)), 7);
}

#[test]
fn clamp_to_size_cuts_and_moves() {
    let mut v = Viewport { physical_position: UVec2 { x: 50, y: 10 }, physical_size: UVec2 { x: 100, y: 20 } };
    v.clamp_to_size(UVec2 { x: 120, y: 100 });
    assert_eq!(v, Viewport { physical_position: UVec2 { x: 50, y: 10 }, physical_size: UVec2 { x: 70, y: 20 } });
    let mut v = Viewport { physical_position: UVec2 { x: 200, y: 10 }, physical_size: UVec2 { x: 5, y: 5 } };
    v.clamp_to_size(UVec2 { x: 120, y: 100 });
    assert_eq!(v, Viewport { physical_position: UVec2 { x: 119, y: 10 }, physical_size: UVec2 { x: 1, y: 5 } });
    let mut v = Viewport { physical_position: UVec2 { x: 3, y: 3 }, physical_size: UVec2 { x: 5, y: 5 } };
    v.clamp_to_size(UVec2 { x: 0, y: 0 });
    assert_eq!(v, Viewport { physical_position: UVec2 { x: 0, y: 0 }, physical_size: UVec2 { x: 0, y: 0 } });
    // An empty viewport on the edge moves inside too.
    let mut v = Viewport { physical_position: UVec2 { x: 10, y: 0 }, physical_size: UVec2 { x: 0, y: 5 } };
    v.clamp_to_size(UVec2 { x: 10, y: 10 });
    assert_eq!(v, Viewport { physical_position: UVec2 { x: 9, y: 0 }, physical_size: UVec2 { x: 1, y: 5 } });
}

#[test]
fn viewport_rescale_moves_position_and_size() {
    let mut v = Viewport { physical_position: UVec2 { x: 3, y: 10 }, physical_size: UVec2 { x: 101, y: 50 } };
    v.rescale(sf(2, 1), sf(3, 1));
    assert_eq!(v, Viewport { physical_position: UVec2 { x: 5, y: 15 }, physical_size: UVec2 { x: 152, y: 75 } });
}
