use shadercam::frame::CapturedFrame;
use shadercam::gfx::fragment_shader_source;
use shadercam::gfx::quad_indices;
use shadercam::gfx::quad_positions;
use shadercam::gfx::vertex_shader_source;
use shadercam::text::u64_decimal;

#[test]
fn frame_length_must_match_dimensions() {
    assert!(CapturedFrame::new(2, 2, vec![0u8; 12]).is_some());
    assert!(CapturedFrame::new(2, 2, vec![0u8; 11]).is_none());
    assert!(CapturedFrame::new(2, 2, vec![0u8; 13]).is_none());
    assert!(CapturedFrame::new(0, 5, Vec::new()).is_some());
    assert!(CapturedFrame::new(0, 5, vec![0u8; 1]).is_none());
}

#[test]
fn flip_reverses_rows_and_keeps_pixels() {
    let data: Vec<u8> = (0u8..12).collect();
    let f = CapturedFrame::new(2, 2, data).unwrap();
    let flipped = f.flipped_rows();
    // bottom row (bytes 6..12) first, then the top row (bytes 0..6)
    assert_eq!(flipped, vec![6, 7, 8, 9, 10, 11, 0, 1, 2, 3, 4, 5]);
}

#[test]
fn flip_of_one_row_is_identity() {
    let data: Vec<u8> = (0u8..9).collect();
    let f = CapturedFrame::new(3, 1, data.clone()).unwrap();
    assert_eq!(f.flipped_rows(), data);
}

#[test]
fn flip_of_empty_frame_is_empty() {
    let f = CapturedFrame::new(4, 0, Vec::new()).unwrap();
    assert_eq!(f.flipped_rows().len(), 0);
}

#[test]
fn quad_geometry_is_fixed() {
    assert_eq!(quad_positions(), vec![(-1, -1), (-1, 1), (1, 1), (1, -1)]);
    assert_eq!(quad_indices(), vec![1, 2, 0, 3]);
}

#[test]
fn shader_sources_are_assembled() {
    assert!(vertex_shader_source().starts_with("#version 300 es\n"));
    let effect = "void mainImage(out vec4 c, in vec2 p) { c = vec4(0); }";
    let full = fragment_shader_source(effect);
    assert!(full.starts_with("#version 300 es\n"));
    assert!(full.ends_with(effect));
    assert!(full.contains("uniform sampler2D iChannel0"));
    assert!(full.contains("uniform float iTime"));
    assert!(full.contains("uniform vec3 iResolution"));
}

#[test]
fn decimal_rendering_is_exact() {
    assert_eq!(u64_decimal(0), "0");
    assert_eq!(u64_decimal(9), "9");
    assert_eq!(u64_decimal(10), "10");
    assert_eq!(u64_decimal(30), "30");
    assert_eq!(u64_decimal(1280), "1280");
    assert_eq!(u64_decimal(4294967295), "4294967295");
    assert_eq!(u64_decimal(18446744073709551615), "18446744073709551615");
}
