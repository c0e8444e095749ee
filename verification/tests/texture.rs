use drawy::render::texture::{DataLayout, Extent3, TextureDesc, TextureSize, TextureUsage};

#[test]
fn usage_flags_have_one_bit_each() {
    assert_eq!(TextureUsage::empty().bits(), 0);
    assert_eq!(TextureUsage::destination().bits(), 1);
    assert_eq!(TextureUsage::source().bits(), 2);
    assert_eq!(TextureUsage::texture_bind().bits(), 4);
    assert_eq!(TextureUsage::storage_bind().bits(), 8);
    assert_eq!(TextureUsage::render().bits(), 16);
}

#[test]
fn usage_union_and_contains() {
    let u = TextureUsage::texture_bind().union(TextureUsage::destination());
    assert_eq!(u.bits(), 5);
    assert!(u.contains(TextureUsage::texture_bind()));
    assert!(u.contains(TextureUsage::destination()));
    assert!(!u.contains(TextureUsage::render()));
    assert!(u.contains(TextureUsage::empty()));
}

#[test]
fn wgpu_usages_translate_flag_by_flag() {
    assert_eq!(
        TextureUsage::destination().get_wgpu_usages(),
        wgpu::TextureUsages::COPY_DST
    );
    assert_eq!(
        TextureUsage::source().get_wgpu_usages(),
        wgpu::TextureUsages::COPY_SRC
    );
    assert_eq!(
        TextureUsage::texture_bind().get_wgpu_usages(),
        wgpu::TextureUsages::TEXTURE_BINDING
    );
    assert_eq!(
        TextureUsage::storage_bind().get_wgpu_usages(),
        wgpu::TextureUsages::STORAGE_BINDING
    );
    assert_eq!(
        TextureUsage::render().get_wgpu_usages(),
        wgpu::TextureUsages::RENDER_ATTACHMENT
    );
    assert_eq!(TextureUsage::empty().get_wgpu_usages(), wgpu::TextureUsages::empty());
}

#[test]
fn wgpu_usages_translate_a_combination() {
    let u = TextureUsage::texture_bind().union(TextureUsage::destination());
    assert_eq!(
        u.get_wgpu_usages(),
        wgpu::TextureUsages::TEXTURE_BINDING | wgpu::TextureUsages::COPY_DST
    );
}

#[test]
fn sizes_fill_missing_axes_with_one_texel() {
    assert_eq!(TextureSize::D1(9).get_size(), Extent3 { width: 9, height: 1, depth: 1 });
    assert_eq!(TextureSize::D2(9, 7).get_size(), Extent3 { width: 9, height: 7, depth: 1 });
    assert_eq!(
        TextureSize::D3(9, 7, 3).get_size(),
        Extent3 { width: 9, height: 7, depth: 3 }
    );
}

#[test]
fn sizes_pick_the_matching_wgpu_dimension() {
    assert_eq!(TextureSize::D1(1).get_wgpu_dimension(), wgpu::TextureDimension::D1);
    assert_eq!(TextureSize::D2(1, 1).get_wgpu_dimension(), wgpu::TextureDimension::D2);
    assert_eq!(TextureSize::D3(1, 1, 1).get_wgpu_dimension(), wgpu::TextureDimension::D3);
    assert_eq!(TextureSize::D1(1).get_wgpu_view_dimension(), wgpu::TextureViewDimension::D1);
    assert_eq!(TextureSize::D2(1, 1).get_wgpu_view_dimension(), wgpu::TextureViewDimension::D2);
    assert_eq!(
        TextureSize::D3(1, 1, 1).get_wgpu_view_dimension(),
        wgpu::TextureViewDimension::D3
    );
}

#[test]
fn image_description_is_a_sampled_rgba_destination() {
    let d = TextureDesc::for_rgba_image(640, 480);
    assert_eq!(d.size, TextureSize::D2(640, 480));
    assert_eq!(d.usage.bits(), 5);
    assert_eq!(d.format, wgpu::TextureFormat::Rgba8UnormSrgb);
    assert_eq!(
        d.get_wgpu_usage(),
        wgpu::TextureUsages::TEXTURE_BINDING | wgpu::TextureUsages::COPY_DST
    );
}

#[test]
fn placeholder_description_is_one_texel() {
    let d = TextureDesc::placeholder();
    assert_eq!(d.size, TextureSize::D2(1, 1));
    assert_eq!(d.format, wgpu::TextureFormat::Rgba8UnormSrgb);
}

#[test]
fn pixel_writes_use_tight_rgba_rows() {
    let d = TextureDesc::for_rgba_image(640, 480);
    let layout = d.pixel_data_layout();
    assert_eq!(layout, DataLayout { offset: 0, bytes_per_row: 2560, rows_per_image: 480 });
}

#[test]
fn one_dimensional_write_layout() {
    let d = TextureDesc {
        size: TextureSize::D1(16),
        usage: TextureUsage::destination(),
        format: wgpu::TextureFormat::Rgba8UnormSrgb,
    };
    let layout = d.pixel_data_layout();
    assert_eq!(layout, DataLayout { offset: 0, bytes_per_row: 64, rows_per_image: 1 });
}
