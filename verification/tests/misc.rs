use yanyaengine::assets::{
    DefaultModel, DefaultTexture, IdsStorage, ModelId, NamedValue, TextureId,
};
use yanyaengine::model::Uvs;
use yanyaengine::surface::{
    choose_composite_alpha, choose_format, device_rank, select_device, swapchain_image_count,
    CompositeAlphaKind, DeviceKind, SurfaceFormatInfo,
};
use yanyaengine::text_factory::{TextBlocks, TextInfo};
use yanyaengine::{ShaderId, ShadersGroup, UniformLocation};

#[test]
fn ids_storage_insert_and_lookup() {
    let mut storage: IdsStorage<TextureId, u32> = IdsStorage::new();
    let a = storage.insert(("wall".to_string(), 11));
    let b = storage.insert(("floor".to_string(), 22));
    assert_eq!(a, TextureId(0));
    assert_eq!(b, TextureId(1));
    assert_eq!(storage.get_id(&"wall".to_string()), Some(&TextureId(0)));
    assert_eq!(storage.get_id(&"floor".to_string()), Some(&TextureId(1)));
    assert_eq!(storage.get_id(&"roof".to_string()), None);
    assert_eq!(storage.values().as_slice(), &[11u32, 22]);
}

#[test]
fn ids_storage_later_insert_shadows() {
    let mut storage: IdsStorage<ModelId, &str> = IdsStorage::new();
    storage.insert(("quad".to_string(), "old"));
    let newer = storage.insert(("quad".to_string(), "new"));
    assert_eq!(storage.get_id(&"quad".to_string()), Some(&newer));
}

#[test]
fn ids_storage_push_and_keys() {
    let mut storage: IdsStorage<ModelId, u8> = IdsStorage::new();
    storage.insert(("named".to_string(), 1));
    let anon = storage.push(2);
    assert_eq!(anon, ModelId(1));
    assert_eq!(storage.keys(), vec!["named".to_string()]);
    assert_eq!(storage.get_id(&"named".to_string()), Some(&ModelId(0)));
}

#[test]
fn ids_storage_keys_yield_each_name_once() {
    let mut storage: IdsStorage<ModelId, u8> = IdsStorage::new();
    storage.insert(("quad".to_string(), 1));
    storage.insert(("wall".to_string(), 2));
    storage.insert(("quad".to_string(), 3));
    assert_eq!(storage.keys(), vec!["quad".to_string(), "wall".to_string()]);
}

#[test]
fn ids_storage_normalizes_backslashes() {
    let mut storage: IdsStorage<ModelId, u8> = IdsStorage::new();
    let id = storage.insert(("tiles\\floor.png".to_string(), 7));
    assert_eq!(storage.get_id(&"tiles/floor.png".to_string()), Some(&id));
    assert_eq!(storage.get_id(&"tiles\\floor.png".to_string()), None);
    assert_eq!(storage.keys(), vec!["tiles/floor.png".to_string()]);
}

#[test]
fn ids_storage_iter_mut() {
    let mut storage: IdsStorage<TextureId, u32> = IdsStorage::new();
    storage.insert(("a".to_string(), 1));
    storage.insert(("b".to_string(), 2));
    for v in storage.iter_mut().iter_mut() {
        *v += 10;
    }
    assert_eq!(storage.values().as_slice(), &[11u32, 12]);
    assert_eq!(storage.get_id(&"b".to_string()), Some(&TextureId(1)));
}

#[test]
fn id_conversions() {
    assert_eq!(TextureId::from(7usize), TextureId(7));
    assert_eq!(usize::from(TextureId(7)), 7);
    assert_eq!(ModelId::from(9usize), ModelId(9));
    assert_eq!(usize::from(ModelId(9)), 9);
}

#[test]
fn default_asset_names() {
    assert_eq!(DefaultModel::Square.name(), "Square");
    assert_eq!(DefaultTexture::Solid.name(), "Solid");
}

#[test]
fn named_value_map_keeps_name() {
    let named = NamedValue { name: "brick".to_string(), value: 3u32 };
    let mapped = named.map(|v| v * 2);
    assert_eq!(mapped.name, "brick");
    assert_eq!(mapped.value, 6);
}

#[test]
fn shader_ids_and_groups() {
    assert_eq!(ShaderId::default(), ShaderId(0));
    assert_eq!(ShaderId(5).get_raw(), 5);
    let group = ShadersGroup::new_raw("vert", "frag");
    assert_eq!(group.vertex, "vert");
    assert_eq!(group.fragment, "frag");
    let loc = UniformLocation { set: 0, binding: 1 };
    assert_eq!(loc, UniformLocation { set: 0, binding: 1 });
}

#[test]
fn text_info_builders() {
    let info = TextInfo::default();
    assert_eq!(info.font_size, 16);
    assert!(info.text.0.is_empty());
    assert!(info.outline.is_none());

    let info = TextInfo::new_simple(24, "hello".to_string());
    assert_eq!(info.font_size, 24);
    assert_eq!(info.text.0.len(), 1);
    assert_eq!(info.text.0[0].color, [255, 255, 255]);
    assert_eq!(info.text.0[0].text, "hello");

    let blocks = TextBlocks::single([1, 2, 3], "hi".to_string());
    assert_eq!(blocks.0.len(), 1);
    assert_eq!(blocks.0[0].color, [1, 2, 3]);
}

#[test]
fn uvs_flips() {
    assert_eq!(Uvs::default(), Uvs::Normal);
    assert!(!Uvs::Normal.flips_horizontal());
    assert!(!Uvs::Normal.flips_vertical());
    assert!(Uvs::FlipHorizontal.flips_horizontal());
    assert!(!Uvs::FlipHorizontal.flips_vertical());
    assert!(Uvs::FlipVertical.flips_vertical());
    assert!(Uvs::FlipBoth.flips_horizontal() && Uvs::FlipBoth.flips_vertical());
}

#[test]
fn surface_choices() {
    assert_eq!(swapchain_image_count(1), 2, "double buffering is the floor");
    assert_eq!(swapchain_image_count(3), 3);

    let formats = vec![
        SurfaceFormatInfo { srgb_color: true, srgb_nonlinear: false },
        SurfaceFormatInfo { srgb_color: true, srgb_nonlinear: true },
        SurfaceFormatInfo { srgb_color: true, srgb_nonlinear: true },
    ];
    assert_eq!(choose_format(&formats), 1, "first fully-sRGB format wins");
    let formats = vec![SurfaceFormatInfo { srgb_color: false, srgb_nonlinear: false }];
    assert_eq!(choose_format(&formats), 0, "fallback is the first format");

    let supported = vec![CompositeAlphaKind::Inherit, CompositeAlphaKind::Opaque];
    assert_eq!(choose_composite_alpha(&supported), 1, "opaque is preferred");
    let supported = vec![CompositeAlphaKind::PreMultiplied, CompositeAlphaKind::Inherit];
    assert_eq!(choose_composite_alpha(&supported), 0);

    assert_eq!(device_rank(&DeviceKind::DiscreteGpu), 0);
    assert_eq!(device_rank(&DeviceKind::Cpu), 3);
    let ranks = vec![2, 0, 1, 0];
    assert_eq!(select_device(&ranks), Some(1), "first best-ranked device wins");
    assert_eq!(select_device(&Vec::new()), None);
}
