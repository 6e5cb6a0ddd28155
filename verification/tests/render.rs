use niri_color::color::TransferFunction;
use niri_color::render::{
    hdr_output_damage_since, source_tf_code, wants_color_transform, ColorSurfaceRenderElement,
    SurfaceRenderElement,
};

#[test]
fn surface_element_variants() {
    let plain: SurfaceRenderElement<&str, [f32; 2]> = SurfaceRenderElement::Wayland("plain");
    assert!(!plain.is_color_managed());
    assert_eq!(*plain.wayland(), "plain");
    assert_eq!(plain.into_wayland_and_color_uniforms(), ("plain", None));

    let color: SurfaceRenderElement<&str, [f32; 2]> = SurfaceRenderElement::Color(
        ColorSurfaceRenderElement::from_parts("tagged", [1.0, 2.0]),
    );
    assert!(color.is_color_managed());
    assert_eq!(*color.wayland(), "tagged");
    assert_eq!(
        color.into_wayland_and_color_uniforms(),
        ("tagged", Some([1.0, 2.0]))
    );

    let elem = ColorSurfaceRenderElement::from_parts(7u8, "u");
    assert_eq!(*elem.inner(), 7);
    assert_eq!(elem.into_parts(), (7, "u"));
}

#[test]
fn shader_transfer_selector() {
    assert_eq!(source_tf_code(TransferFunction::Linear), 0);
    assert_eq!(source_tf_code(TransferFunction::Srgb), 1);
    assert_eq!(source_tf_code(TransferFunction::St2084Pq), 2);
}

#[test]
fn color_transform_choice() {
    // HDR output: every surface is transformed.
    assert!(wants_color_transform(true, false, false));
    assert!(wants_color_transform(true, false, true));
    // SDR output with tone mapping: only tagged surfaces.
    assert!(!wants_color_transform(true, true, false));
    assert!(wants_color_transform(true, true, true));
    // Not color managed: never.
    assert!(!wants_color_transform(false, false, true));
}

#[test]
fn hdr_output_damage_follows_the_seen_commit() {
    let damage = vec![(0, 0, 10, 10), (5, 5, 2, 2)];
    assert!(hdr_output_damage_since(&damage, 5, Some(5)).is_empty());
    assert_eq!(hdr_output_damage_since(&damage, 5, Some(4)), damage);
    assert_eq!(hdr_output_damage_since(&damage, 5, None), damage);
    let none: Vec<(i32, i32)> = Vec::new();
    assert!(hdr_output_damage_since(&none, 5, None).is_empty());
}
